//! The life of one request, shared by the live and the caching client.
//!
//! A request is a state machine. The runner that owns the transport and the
//! file system starts it with [`Event::Start`], performs each [`Action`] it
//! returns and feeds back the outcome as the next [`Event`], until an action
//! ends the request: [`Action::ReturnCached`], [`Action::ReturnFetched`] or
//! [`Action::Fail`].
use crate::cache::{cache_file_name, cache_file_text, is_fresh, parsed_url, UrlParts};
use crate::client::{DecodeJsonError, PinnacleClientError};
use vstd::prelude::*;

verus! {

/// Where a request stands.
#[derive(Debug, Clone, Copy, PartialEq, Eq, Structural)]
pub enum Phase {
    /// Nothing has been done yet.
    Unchecked,
    /// Waiting for the age of the cache file.
    CheckingCache,
    /// Waiting for the cache file to be read and decoded.
    ReadingCache,
    /// Waiting for the HTTP response body.
    Fetching,
    /// Waiting for the body to be decoded.
    Decoding,
    /// Waiting for the decoded value to be written to the cache.
    Storing,
    /// The request has ended.
    Finished,
}

/// The cache entry that a request of the caching client uses.
#[derive(Debug)]
pub struct CacheSlot {
    /// The name of the cache file, inside the cache directory.
    pub file: String,
    /// The time to live of a cached entry, in nanoseconds.
    pub ttl: u128,
}

/// One request in progress.
#[derive(Debug)]
pub struct RequestFlow {
    /// The URL requested, as serialized after parsing.
    pub url: String,
    /// The cache entry consulted first; `None` for the live client.
    pub cache: Option<CacheSlot>,
    /// Where the request stands.
    pub phase: Phase,
}

/// What the runner reports back.
#[derive(Debug)]
pub enum Event {
    /// The runner starts the request.
    Start,
    /// The age of the cache file in nanoseconds; `None` when there is no
    /// such file or its age could not be found.
    CacheAge(Option<u128>),
    /// Whether the cache file was read and decoded.
    CacheRead(bool),
    /// The HTTP response body, or the transport error (an error status
    /// included).
    Fetched(Result<String, reqwest::Error>),
    /// Whether the body decoded into the expected shape.
    Decoded(Result<(), DecodeJsonError>),
    /// Whether the decoded value was written to the cache file.
    Stored(bool),
}

/// What the runner is asked to do.
#[derive(Debug)]
pub enum Action {
    /// Find the age of the named cache file.
    CheckCache(String),
    /// Read the named cache file and decode it.
    ReadCache(String),
    /// Send an authenticated GET to the URL.
    Fetch(String),
    /// Decode this body into the expected shape.
    Decode(String),
    /// Serialize the decoded value into the named cache file.
    Store(String),
    /// End the request with the value read from the cache.
    ReturnCached,
    /// End the request with the value decoded from the response.
    ReturnFetched,
    /// End the request with this error.
    Fail(PinnacleClientError),
    /// The event does not fit where the request stands; nothing changes.
    Ignore,
}

impl Action {
    /// Whether the action ends the request.
    pub open spec fn is_terminal(&self) -> bool {
        self is ReturnCached || self is ReturnFetched || self is Fail
    }
}

impl RequestFlow {
    /// The same request in another phase.
    pub open spec fn in_phase(self, p: Phase) -> RequestFlow {
        RequestFlow { url: self.url, cache: self.cache, phase: p }
    }

    /// A fresh request of the live client for the URL that `s` parses to.
    pub open spec fn is_live_start_for(&self, s: Seq<char>) -> bool {
        &&& parsed_url(s) matches Some(u)
        &&& self.url@ == u.0
        &&& self.cache is None
        &&& self.phase == Phase::Unchecked
    }

    /// A fresh request of the caching client for the URL that `s` parses
    /// to, with the cache file of that URL.
    pub open spec fn is_cached_start_for(&self, s: Seq<char>, ttl: u128) -> bool {
        &&& parsed_url(s) matches Some(u)
        &&& self.url@ == u.0
        &&& self.cache matches Some(c)
        &&& c.file@ == cache_file_text(u)
        &&& c.ttl == ttl
        &&& self.phase == Phase::Unchecked
    }

    /// A request of the live client for a parsed URL.
    pub fn live(url: &UrlParts) -> (r: RequestFlow)
        ensures
            r.url@ == url@.0,
            r.cache is None,
            r.phase == Phase::Unchecked,
    {
        RequestFlow { url: url.href.clone(), cache: None, phase: Phase::Unchecked }
    }

    /// A request of the caching client for a parsed URL.
    pub fn cached(url: &UrlParts, ttl: u128) -> (r: RequestFlow)
        ensures
            r.url@ == url@.0,
            r.cache matches Some(c) && c.file@ == cache_file_text(url@) && c.ttl == ttl,
            r.phase == Phase::Unchecked,
    {
        let slot = CacheSlot { file: cache_file_name(url), ttl };
        RequestFlow { url: url.href.clone(), cache: Some(slot), phase: Phase::Unchecked }
    }
}

/// One step of a request: the next state and the action for the runner.
pub open spec fn next(f: RequestFlow, e: Event) -> (RequestFlow, Action) {
    match f.phase {
        Phase::Unchecked => match e {
            Event::Start => match f.cache {
                Some(c) => (f.in_phase(Phase::CheckingCache), Action::CheckCache(c.file)),
                None => (f.in_phase(Phase::Fetching), Action::Fetch(f.url)),
            },
            _ => (f, Action::Ignore),
        },
        Phase::CheckingCache => match e {
            Event::CacheAge(age) => match f.cache {
                Some(c) => if age matches Some(a) && is_fresh(a, c.ttl) {
                    (f.in_phase(Phase::ReadingCache), Action::ReadCache(c.file))
                } else {
                    (f.in_phase(Phase::Fetching), Action::Fetch(f.url))
                },
                None => (f.in_phase(Phase::Fetching), Action::Fetch(f.url)),
            },
            _ => (f, Action::Ignore),
        },
        Phase::ReadingCache => match e {
            Event::CacheRead(ok) => if ok {
                (f.in_phase(Phase::Finished), Action::ReturnCached)
            } else {
                (f.in_phase(Phase::Fetching), Action::Fetch(f.url))
            },
            _ => (f, Action::Ignore),
        },
        Phase::Fetching => match e {
            Event::Fetched(Err(err)) => (
                f.in_phase(Phase::Finished),
                Action::Fail(PinnacleClientError::Reqwest(err)),
            ),
            Event::Fetched(Ok(body)) => if body@.len() == 0 {
                (f.in_phase(Phase::Finished), Action::Fail(PinnacleClientError::EmptyJson(f.url)))
            } else {
                (f.in_phase(Phase::Decoding), Action::Decode(body))
            },
            _ => (f, Action::Ignore),
        },
        Phase::Decoding => match e {
            Event::Decoded(Err(err)) => (
                f.in_phase(Phase::Finished),
                Action::Fail(PinnacleClientError::DecodeJson(err, f.url)),
            ),
            Event::Decoded(Ok(())) => match f.cache {
                Some(c) => (f.in_phase(Phase::Storing), Action::Store(c.file)),
                None => (f.in_phase(Phase::Finished), Action::ReturnFetched),
            },
            _ => (f, Action::Ignore),
        },
        Phase::Storing => match e {
            Event::Stored(_) => (f.in_phase(Phase::Finished), Action::ReturnFetched),
            _ => (f, Action::Ignore),
        },
        Phase::Finished => (f, Action::Ignore),
    }
}

impl RequestFlow {
    /// Takes one event and returns the action that follows it.
    pub fn step(&mut self, event: Event) -> (r: Action)
        ensures
            (*final(self), r) == next(*old(self), event),
    {
        match self.phase {
            Phase::Unchecked => match event {
                Event::Start => match &self.cache {
                    Some(c) => {
                        let file = c.file.clone();
                        self.phase = Phase::CheckingCache;
                        Action::CheckCache(file)
                    },
                    None => {
                        self.phase = Phase::Fetching;
                        Action::Fetch(self.url.clone())
                    },
                },
                _ => Action::Ignore,
            },
            Phase::CheckingCache => match event {
                Event::CacheAge(age) => {
                    let mut read: Option<String> = None;
                    match &self.cache {
                        Some(c) => match age {
                            Some(a) => if a < c.ttl {
                                read = Some(c.file.clone());
                            },
                            None => {},
                        },
                        None => {},
                    }
                    match read {
                        Some(file) => {
                            self.phase = Phase::ReadingCache;
                            Action::ReadCache(file)
                        },
                        None => {
                            self.phase = Phase::Fetching;
                            Action::Fetch(self.url.clone())
                        },
                    }
                },
                _ => Action::Ignore,
            },
            Phase::ReadingCache => match event {
                Event::CacheRead(ok) => if ok {
                    self.phase = Phase::Finished;
                    Action::ReturnCached
                } else {
                    self.phase = Phase::Fetching;
                    Action::Fetch(self.url.clone())
                },
                _ => Action::Ignore,
            },
            Phase::Fetching => match event {
                Event::Fetched(Err(err)) => {
                    self.phase = Phase::Finished;
                    Action::Fail(PinnacleClientError::Reqwest(err))
                },
                Event::Fetched(Ok(body)) => if body.as_str().is_empty() {
                    self.phase = Phase::Finished;
                    Action::Fail(PinnacleClientError::EmptyJson(self.url.clone()))
                } else {
                    self.phase = Phase::Decoding;
                    Action::Decode(body)
                },
                _ => Action::Ignore,
            },
            Phase::Decoding => match event {
                Event::Decoded(Err(err)) => {
                    self.phase = Phase::Finished;
                    Action::Fail(PinnacleClientError::DecodeJson(err, self.url.clone()))
                },
                Event::Decoded(Ok(())) => match &self.cache {
                    Some(c) => {
                        let file = c.file.clone();
                        self.phase = Phase::Storing;
                        Action::Store(file)
                    },
                    None => {
                        self.phase = Phase::Finished;
                        Action::ReturnFetched
                    },
                },
                _ => Action::Ignore,
            },
            Phase::Storing => match event {
                Event::Stored(_) => {
                    self.phase = Phase::Finished;
                    Action::ReturnFetched
                },
                _ => Action::Ignore,
            },
            Phase::Finished => Action::Ignore,
        }
    }
}

/// The final state and the actions of a request that takes the events in
/// order.
pub open spec fn run(f: RequestFlow, events: Seq<Event>) -> (RequestFlow, Seq<Action>)
    decreases events.len(),
{
    if events.len() == 0 {
        (f, Seq::empty())
    } else {
        let (g, a) = next(f, events[0]);
        let (h, rest) = run(g, events.drop_first());
        (h, seq![a] + rest)
    }
}

/// How many of the actions are HTTP fetches.
pub open spec fn fetch_count(actions: Seq<Action>) -> nat
    decreases actions.len(),
{
    if actions.len() == 0 {
        0
    } else {
        (if actions[0] is Fetch {
            1nat
        } else {
            0nat
        }) + fetch_count(actions.drop_first())
    }
}

/// The first action that ends the request, if any does.
pub open spec fn outcome(actions: Seq<Action>) -> Option<Action>
    decreases actions.len(),
{
    if actions.len() == 0 {
        None
    } else if actions[0].is_terminal() {
        Some(actions[0])
    } else {
        outcome(actions.drop_first())
    }
}

/// No action answers from the cache.
pub open spec fn no_cached_answer(actions: Seq<Action>) -> bool {
    forall|i: int| 0 <= i < actions.len() ==> !(#[trigger] actions[i] is ReturnCached)
}

/// The phases from which no fetch and no cached answer can follow.
pub open spec fn past_cache(p: Phase) -> bool {
    p == Phase::Fetching || p == Phase::Decoding || p == Phase::Storing || p == Phase::Finished
}

/// Once a request is past its cache check, it fetches no more and never
/// answers from the cache, whatever events follow.
pub proof fn lemma_no_fetch_past_cache(f: RequestFlow, events: Seq<Event>)
    requires
        past_cache(f.phase),
    ensures
        fetch_count(run(f, events).1) == 0,
        no_cached_answer(run(f, events).1),
    decreases events.len(),
{
    if events.len() > 0 {
        let (g, a) = next(f, events[0]);
        lemma_no_fetch_past_cache(g, events.drop_first());
        let rest = run(g, events.drop_first()).1;
        assert(run(f, events).1 == seq![a] + rest);
        assert((seq![a] + rest).drop_first() =~= rest);
        assert forall|i: int| 0 <= i < run(f, events).1.len() implies !(#[trigger] run(
            f,
            events,
        ).1[i] is ReturnCached) by {
            if i > 0 {
                assert(run(f, events).1[i] == rest[i - 1]);
            }
        }
    }
}

/// An empty body never reaches the decoder: a `Decode` action always
/// carries a non-empty body, and an empty body ends the request with
/// `EmptyJson` for its URL.
pub proof fn lemma_empty_body_not_decoded(f: RequestFlow, e: Event)
    ensures
        next(f, e).1 matches Action::Decode(body) ==> body@.len() > 0,
        (f.phase == Phase::Fetching && (e matches Event::Fetched(Ok(body)) && body@.len() == 0))
            ==> next(f, e).1 == Action::Fail(PinnacleClientError::EmptyJson(f.url)),
{
}

/// Whether the cache write succeeded changes neither the state nor the
/// answer: the fetched value is returned either way.
pub proof fn lemma_store_outcome_ignored(f: RequestFlow)
    requires
        f.phase == Phase::Storing,
    ensures
        next(f, Event::Stored(true)) == next(f, Event::Stored(false)),
        next(f, Event::Stored(false)).1 is ReturnFetched,
{
}

/// A request of the caching client whose cache entry is fresh and readable
/// answers from the cache without any fetch. Such an entry is the one that
/// an earlier request for the same URL stored: both name the same file.
pub proof fn lemma_fresh_entry_served(
    stored: RequestFlow,
    f: RequestFlow,
    s: Seq<char>,
    ttl: u128,
    age: u128,
)
    requires
        stored.is_cached_start_for(s, ttl),
        f.is_cached_start_for(s, ttl),
        age < ttl,
    ensures
        stored.cache->0.file@ == f.cache->0.file@,
        run(f, seq![Event::Start, Event::CacheAge(Some(age)), Event::CacheRead(true)]).1 == seq![
            Action::CheckCache(f.cache->0.file),
            Action::ReadCache(f.cache->0.file),
            Action::ReturnCached,
        ],
        fetch_count(
            run(f, seq![Event::Start, Event::CacheAge(Some(age)), Event::CacheRead(true)]).1,
        ) == 0,
{
    let evs = seq![Event::Start, Event::CacheAge(Some(age)), Event::CacheRead(true)];
    reveal_with_fuel(run, 4);
    reveal_with_fuel(fetch_count, 4);
    assert(evs.drop_first() =~= seq![Event::CacheAge(Some(age)), Event::CacheRead(true)]);
    assert(evs.drop_first().drop_first() =~= seq![Event::CacheRead(true)]);
    assert(evs.drop_first().drop_first().drop_first() =~= Seq::<Event>::empty());
    let acts = run(f, evs).1;
    assert(acts =~= seq![
        Action::CheckCache(f.cache->0.file),
        Action::ReadCache(f.cache->0.file),
        Action::ReturnCached,
    ]);
    assert(acts.drop_first() =~= seq![Action::ReadCache(f.cache->0.file), Action::ReturnCached]);
    assert(acts.drop_first().drop_first() =~= seq![Action::ReturnCached]);
    assert(acts.drop_first().drop_first().drop_first() =~= Seq::<Action>::empty());
}

/// A request of the caching client whose cache entry is stale fetches
/// exactly once and never answers from the cache, whatever events follow.
pub proof fn lemma_stale_entry_fetched_once(f: RequestFlow, age: u128, rest: Seq<Event>)
    requires
        f.phase == Phase::Unchecked,
        f.cache matches Some(c) && age >= c.ttl,
    ensures
        fetch_count(run(f, seq![Event::Start, Event::CacheAge(Some(age))] + rest).1) == 1,
        run(f, seq![Event::Start, Event::CacheAge(Some(age))] + rest).1[1] == Action::Fetch(f.url),
        no_cached_answer(run(f, seq![Event::Start, Event::CacheAge(Some(age))] + rest).1),
{
    let evs = seq![Event::Start, Event::CacheAge(Some(age))] + rest;
    let c = f.cache->0;
    let g1 = f.in_phase(Phase::CheckingCache);
    let g2 = f.in_phase(Phase::Fetching);
    assert(evs[0] == Event::Start);
    assert(evs[1] == Event::CacheAge(Some(age)));
    assert(evs.drop_first().drop_first() =~= rest);
    assert(next(f, evs[0]) == (g1, Action::CheckCache(c.file)));
    assert(next(g1, evs.drop_first()[0]) == (g2, Action::Fetch(f.url)));
    lemma_no_fetch_past_cache(g2, rest);
    let tail = run(g2, rest).1;
    let acts = run(f, evs).1;
    assert(run(g1, evs.drop_first()).1 == seq![Action::Fetch(f.url)] + tail);
    assert(acts == seq![Action::CheckCache(c.file)] + (seq![Action::Fetch(f.url)] + tail));
    assert(acts.drop_first() =~= seq![Action::Fetch(f.url)] + tail);
    assert(acts.drop_first().drop_first() =~= tail);
    assert(fetch_count(acts.drop_first()) == 1 + fetch_count(tail));
    assert(fetch_count(acts) == fetch_count(acts.drop_first()));
    assert forall|i: int| 0 <= i < acts.len() implies !(#[trigger] acts[i] is ReturnCached) by {
        if i >= 2 {
            assert(acts[i] == tail[i - 2]);
        }
    }
}

/// Two errors that a caller cannot tell apart: the same transport or
/// decoder error, and URLs of the same text.
pub open spec fn same_error(a: PinnacleClientError, b: PinnacleClientError) -> bool {
    match (a, b) {
        (PinnacleClientError::Reqwest(x), PinnacleClientError::Reqwest(y)) => x == y,
        (PinnacleClientError::EmptyJson(x), PinnacleClientError::EmptyJson(y)) => x@ == y@,
        (PinnacleClientError::DecodeJson(x, u), PinnacleClientError::DecodeJson(y, v)) => x == y
            && u@ == v@,
        _ => false,
    }
}

/// Two ends of a request that a caller cannot tell apart: both return the
/// fetched value, or both fail with the same error.
pub open spec fn same_end(a: Option<Action>, b: Option<Action>) -> bool {
    match (a, b) {
        (Some(Action::ReturnFetched), Some(Action::ReturnFetched)) => true,
        (Some(Action::ReturnCached), Some(Action::ReturnCached)) => true,
        (Some(Action::Fail(x)), Some(Action::Fail(y))) => same_error(x, y),
        _ => false,
    }
}

/// On a cache miss the caching client ends a request for a URL exactly as
/// the live client does for the same URL, given the same transport and
/// decoder outcomes, whether or not the cache write succeeds.
pub proof fn lemma_cache_miss_transparent(
    live: RequestFlow,
    cached: RequestFlow,
    url: Seq<char>,
    ttl: u128,
    age: Option<u128>,
    fetched: Result<String, reqwest::Error>,
    decoded: Result<(), DecodeJsonError>,
    stored: bool,
)
    requires
        live.is_live_start_for(url),
        cached.is_cached_start_for(url, ttl),
        !(age matches Some(a) && is_fresh(a, ttl)),
    ensures
        same_end(
            outcome(
                run(
                    live,
                    seq![Event::Start, Event::Fetched(fetched), Event::Decoded(decoded)],
                ).1,
            ),
            outcome(
                run(
                    cached,
                    seq![
                        Event::Start,
                        Event::CacheAge(age),
                        Event::Fetched(fetched),
                        Event::Decoded(decoded),
                        Event::Stored(stored),
                    ],
                ).1,
            ),
        ),
{
    let le = seq![Event::Start, Event::Fetched(fetched), Event::Decoded(decoded)];
    let ce = seq![
        Event::Start,
        Event::CacheAge(age),
        Event::Fetched(fetched),
        Event::Decoded(decoded),
        Event::Stored(stored),
    ];
    reveal_with_fuel(run, 6);
    reveal_with_fuel(outcome, 6);
    assert(le.drop_first() =~= seq![Event::Fetched(fetched), Event::Decoded(decoded)]);
    assert(le.drop_first().drop_first() =~= seq![Event::Decoded(decoded)]);
    assert(le.drop_first().drop_first().drop_first() =~= Seq::<Event>::empty());
    assert(ce.drop_first() =~= seq![
        Event::CacheAge(age),
        Event::Fetched(fetched),
        Event::Decoded(decoded),
        Event::Stored(stored),
    ]);
    assert(ce.drop_first().drop_first() =~= seq![
        Event::Fetched(fetched),
        Event::Decoded(decoded),
        Event::Stored(stored),
    ]);
    assert(ce.drop_first().drop_first().drop_first() =~= seq![
        Event::Decoded(decoded),
        Event::Stored(stored),
    ]);
    assert(ce.drop_first().drop_first().drop_first().drop_first() =~= seq![Event::Stored(stored)]);
    assert(ce.drop_first().drop_first().drop_first().drop_first().drop_first() =~= Seq::<
        Event,
    >::empty());
    let la = run(live, le).1;
    let ca = run(cached, ce).1;
    assert(la.len() == 3);
    assert(ca.len() == 5);
    assert(la.drop_first().drop_first().drop_first() =~= Seq::<Action>::empty());
    assert(ca.drop_first().drop_first().drop_first().drop_first().drop_first() =~= Seq::<
        Action,
    >::empty());
}

} // verus!
