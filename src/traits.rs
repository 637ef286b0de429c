//! The request descriptor abstraction and URL resolution.
use crate::query::{field_views, query_string, query_text};
use vstd::prelude::*;

verus! {

/// The origin that every request path is resolved against.
pub open spec fn api_origin() -> Seq<char> {
    "https://api.pinnacle.com"@
}

/// Describes a Pinnacle API request: a fixed endpoint path and the query
/// fields of a request value.
pub trait PinnacleApiRequest {
    /// The endpoint path of this kind of request.
    spec fn spec_path() -> Seq<char>;

    /// The query fields of this request, in declaration order; `None` marks
    /// an absent optional field.
    spec fn spec_query(&self) -> Seq<(Seq<char>, Option<Seq<char>>)>;

    /// The API endpoint path.
    fn path() -> (r: &'static str)
        ensures
            r@ == Self::spec_path(),
    ;

    /// The query fields of this request.
    fn query_fields(&self) -> (r: Vec<(String, Option<String>)>)
        ensures
            field_views(r@) == self.spec_query(),
    ;
}

/// The full URL of a request: origin, path, `?` and the query string.
pub open spec fn request_url_text<Q: PinnacleApiRequest>(q: Q) -> Seq<char> {
    api_origin() + Q::spec_path() + seq!['?'] + query_text(q.spec_query())
}

/// Resolves a request to its full URL.
pub fn request_url<Q: PinnacleApiRequest>(q: &Q) -> (r: String)
    ensures
        r@ == request_url_text(*q),
{
    let mut url = String::from_str("https://api.pinnacle.com");
    url.append(Q::path());
    url.push('?');
    let qs = query_string(&q.query_fields());
    url.append(qs.as_str());
    url
}

} // verus!
