//! The file cache: URL parts, cache-key derivation and freshness.
use crate::util::string_views;
use vstd::prelude::*;

verus! {

/// The parts of a parsed URL that requests and the cache read.
#[derive(Debug)]
pub struct UrlParts {
    /// The serialized URL.
    pub href: String,
    /// Whether the URL names a host.
    pub has_host: bool,
    /// The path split on `/`, without the leading empty segment; `None` for
    /// a URL that cannot be a base.
    pub path_segments: Option<Vec<String>>,
    /// The query, without its `?`, when the URL has one.
    pub query: Option<String>,
}

/// The model of a parsed URL: its text, whether it has a host, its path
/// segments and its query.
pub type UrlView = (Seq<char>, bool, Option<Seq<Seq<char>>>, Option<Seq<char>>);

impl View for UrlParts {
    type V = UrlView;

    open spec fn view(&self) -> UrlView {
        (
            self.href@,
            self.has_host,
            match self.path_segments {
                Some(v) => Some(string_views(v@)),
                None => None,
            },
            match self.query {
                Some(q) => Some(q@),
                None => None,
            },
        )
    }
}

/// The URL that a text parses to (`url::Url::parse`), if it parses.
pub uninterp spec fn parsed_url(s: Seq<char>) -> Option<UrlView>;

/// Whether a text is a URL that a request can be sent to: it parses and
/// names a host.
pub open spec fn requestable(s: Seq<char>) -> bool {
    parsed_url(s) matches Some(u) && u.1
}

/// Relies on `reqwest::IntoUrl::into_url` for text (`&str`, `String`,
/// `&String`): the text is parsed by `url::Url::parse` (re-exported as
/// `reqwest::Url`), and the URL is accepted only when it has a host;
/// otherwise reqwest's builder error comes back. The parts are read off the
/// accepted URL.
#[verifier::external_body]
fn into_url<U: reqwest::IntoUrl + View<V = Seq<char>>>(u: U) -> (r: Result<UrlParts, reqwest::Error>)
    ensures
        match r {
            Ok(p) => requestable(u@) && parsed_url(u@) == Some(p@),
            Err(_) => !requestable(u@),
        },
{
    match u.into_url() {
        Ok(url) => Ok(UrlParts {
            href: url.as_str().to_string(),
            has_host: url.has_host(),
            path_segments: url.path_segments().map(|p| p.map(String::from).collect()),
            query: url.query().map(String::from),
        }),
        Err(e) => Err(e),
    }
}

/// Parses a URL that a request is to be sent to. A text that does not
/// parse, or names no host, is refused with reqwest's error.
pub fn parse_request_url(s: &str) -> (r: Result<UrlParts, reqwest::Error>)
    ensures
        r is Ok <==> requestable(s@),
        r matches Ok(u) ==> parsed_url(s@) == Some(u@),
{
    into_url(s)
}

/// Segments joined by `_`.
pub open spec fn joined_segments(segs: Seq<Seq<char>>) -> Seq<char>
    decreases segs.len(),
{
    if segs.len() == 0 {
        Seq::empty()
    } else if segs.len() == 1 {
        segs[0]
    } else {
        joined_segments(segs.drop_last()) + seq!['_'] + segs.last()
    }
}

/// A query made safe for a file name: `?` dropped, `&` as `_`, `=` as `-`.
pub open spec fn query_key(q: Seq<char>) -> Seq<char>
    decreases q.len(),
{
    if q.len() == 0 {
        Seq::empty()
    } else {
        let rest = query_key(q.drop_last());
        let c = q.last();
        if c == '?' {
            rest
        } else if c == '&' {
            rest.push('_')
        } else if c == '=' {
            rest.push('-')
        } else {
            rest.push(c)
        }
    }
}

/// The cache key of a URL: its path segments joined by `_`, then, when it
/// has a query, `_` and the query made safe for a file name.
pub open spec fn url_key(u: UrlView) -> Seq<char> {
    (match u.2 {
        Some(segs) => joined_segments(segs),
        None => Seq::empty(),
    }) + (match u.3 {
        Some(q) => seq!['_'] + query_key(q),
        None => Seq::empty(),
    })
}

/// The name of the cache file of a URL: its key and the extension `.json`.
pub open spec fn cache_file_text(u: UrlView) -> Seq<char> {
    url_key(u) + ".json"@
}

fn push_query_key(s: &mut String, q: &String)
    ensures
        final(s)@ == old(s)@ + query_key(q@),
{
    let n = q.as_str().unicode_len();
    let mut i: usize = 0;
    while i < n
        invariant
            n == q@.len(),
            i <= n,
            s@ == old(s)@ + query_key(q@.subrange(0, i as int)),
        decreases n - i,
    {
        let c = q.as_str().get_char(i);
        assert(q@.subrange(0, i + 1).drop_last() =~= q@.subrange(0, i as int));
        if c == '?' {
        } else if c == '&' {
            s.push('_');
        } else if c == '=' {
            s.push('-');
        } else {
            s.push(c);
        }
        i = i + 1;
    }
    assert(q@.subrange(0, n as int) =~= q@);
}

/// Derives the cache key of a URL.
pub fn url_to_filename(url: &UrlParts) -> (r: String)
    ensures
        r@ == url_key(url@),
{
    let mut filename = String::new();
    match &url.path_segments {
        Some(segments) => {
            let ghost v = string_views(segments@);
            let mut i: usize = 0;
            while i < segments.len()
                invariant
                    i <= segments.len(),
                    v == string_views(segments@),
                    filename@ == joined_segments(v.subrange(0, i as int)),
                decreases segments.len() - i,
            {
                assert(v.subrange(0, i + 1).drop_last() =~= v.subrange(0, i as int));
                if i > 0 {
                    filename.push('_');
                }
                filename.append(segments[i].as_str());
                i = i + 1;
            }
            assert(v.subrange(0, segments.len() as int) =~= v);
        },
        None => {},
    }
    let ghost path_part = filename@;
    match &url.query {
        Some(q) => {
            filename.push('_');
            push_query_key(&mut filename, q);
            assert(filename@ =~= path_part + (seq!['_'] + query_key(q@)));
        },
        None => {
            assert(filename@ =~= path_part + Seq::<char>::empty());
        },
    }
    filename
}

/// The name of the cache file that holds the response for a URL.
pub fn cache_file_name(url: &UrlParts) -> (r: String)
    ensures
        r@ == cache_file_text(url@),
{
    let mut name = url_to_filename(url);
    name.append(".json");
    name
}

/// A cached entry of the given age is fresh under a time to live: its age
/// is strictly below it.
pub open spec fn is_fresh(age: u128, ttl: u128) -> bool {
    age < ttl
}

/// The time elapsed from a file's modification to now, both given since a
/// common epoch; `None` when the modification lies in the future.
pub fn elapsed_since(modified: u128, now: u128) -> (r: Option<u128>)
    ensures
        match r {
            Some(age) => modified <= now && age == now - modified,
            None => modified > now,
        },
{
    if modified <= now {
        Some(now - modified)
    } else {
        None
    }
}

} // verus!
