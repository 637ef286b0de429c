//! The caching client: the live client's contract, with responses kept in
//! files of a cache directory for a time to live.
use crate::cache::{parse_request_url, requestable};
use crate::client::{PinnacleClient, PinnacleClientError};
use crate::flow::RequestFlow;
use vstd::prelude::*;

verus! {

/// Pinnacle API client that answers repeated requests from a file cache.
#[derive(Debug)]
pub struct PinnacleCachingClient {
    client: PinnacleClient,
    cache_dir: String,
    cache_ttl: u128,
}

impl PinnacleCachingClient {
    /// The live client that misses are sent through.
    pub closed spec fn spec_client(&self) -> PinnacleClient {
        self.client
    }

    /// The directory that holds the cache files.
    pub closed spec fn spec_cache_dir(&self) -> Seq<char> {
        self.cache_dir@
    }

    /// The time to live of a cache entry, in nanoseconds.
    pub closed spec fn spec_cache_ttl(&self) -> u128 {
        self.cache_ttl
    }

    /// Creates a new client. Creating the cache directory is left to the
    /// runner that owns the file system.
    pub fn new(username: String, password: String, cache_dir: String, cache_ttl: u128) -> (r:
        Self)
        ensures
            r.spec_client().spec_username() == username@,
            r.spec_client().spec_password() == password@,
            r.spec_cache_dir() == cache_dir@,
            r.spec_cache_ttl() == cache_ttl,
    {
        let client = PinnacleClient::new(username, password);
        PinnacleCachingClient { client, cache_dir, cache_ttl }
    }

    /// The live client that misses are sent through.
    pub fn client(&self) -> (r: &PinnacleClient)
        ensures
            *r == self.spec_client(),
    {
        &self.client
    }

    /// The directory that holds the cache files.
    pub fn cache_dir(&self) -> (r: &String)
        ensures
            r@ == self.spec_cache_dir(),
    {
        &self.cache_dir
    }

    /// The time to live of a cache entry, in nanoseconds.
    pub fn cache_ttl(&self) -> (r: u128)
        ensures
            r == self.spec_cache_ttl(),
    {
        self.cache_ttl
    }

    /// Begins a request to a full URL, consulting the cache first. A URL
    /// that cannot be requested is refused with reqwest's error, as by the
    /// live client.
    pub fn begin(&self, url: &str) -> (r: Result<RequestFlow, PinnacleClientError>)
        ensures
            requestable(url@) ==> (r matches Ok(f) && f.is_cached_start_for(
                url@,
                self.spec_cache_ttl(),
            )),
            !requestable(url@) ==> (r matches Err(PinnacleClientError::Reqwest(_))),
    {
        match parse_request_url(url) {
            Ok(parts) => Ok(RequestFlow::cached(&parts, self.cache_ttl)),
            Err(e) => Err(PinnacleClientError::Reqwest(e)),
        }
    }
}

} // verus!
