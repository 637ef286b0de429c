//! Typed client core for the Pinnacle sports-betting REST API.
//!
//! The library holds the verified parts of the client: the request
//! descriptors and their query strings, the cache-key derivation, the
//! freshness policy of the file cache, and the per-request state machine
//! that both the live client and the caching client follow.

pub mod cache;
pub mod caching_client;
pub mod client;
pub mod flow;
pub mod query;
pub mod requests;
pub mod responses;
pub mod traits;
pub mod types;
pub mod util;
