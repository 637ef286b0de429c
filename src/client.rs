//! The live client: credentials and the errors of a request.
use crate::cache::{parse_request_url, requestable};
use crate::flow::RequestFlow;
use vstd::prelude::*;

verus! {

/// `reqwest::Error`, the transport error, carried to the caller unchanged.
#[verifier::external_type_specification]
#[verifier::external_body]
pub struct ExReqwestError(reqwest::Error);

/// `serde_json::Error`, the JSON error inside a decode error.
#[verifier::external_type_specification]
#[verifier::external_body]
pub struct ExJsonError(serde_json::Error);

/// `serde_path_to_error::Error`, a decoder error with the path of the
/// field at which decoding failed.
#[verifier::external_type_specification]
#[verifier::external_body]
#[verifier::reject_recursive_types(E)]
pub struct ExPathError<E>(serde_path_to_error::Error<E>);

/// The error of decoding a response body: the JSON error together with
/// the path of the field at which decoding failed.
pub type DecodeJsonError = serde_path_to_error::Error<serde_json::Error>;

/// Errors of a request.
#[derive(Debug)]
pub enum PinnacleClientError {
    /// The URL cannot be requested, the transport failed, or the server
    /// answered with an error status.
    Reqwest(reqwest::Error),
    /// The server answered with an empty body; holds the URL.
    EmptyJson(String),
    /// The body did not decode into the expected shape; holds the decoder's
    /// error, with the field path, and the URL.
    DecodeJson(DecodeJsonError, String),
}

/// Pinnacle API client: the credentials sent with every request by HTTP
/// basic authentication.
#[derive(Debug)]
pub struct PinnacleClient {
    username: String,
    password: String,
}

impl PinnacleClient {
    /// The user name of the client.
    pub closed spec fn spec_username(&self) -> Seq<char> {
        self.username@
    }

    /// The password of the client.
    pub closed spec fn spec_password(&self) -> Seq<char> {
        self.password@
    }

    /// Creates a new client.
    pub fn new(username: String, password: String) -> (r: Self)
        ensures
            r.spec_username() == username@,
            r.spec_password() == password@,
    {
        PinnacleClient { username, password }
    }

    /// The user name sent with every request.
    pub fn username(&self) -> (r: &String)
        ensures
            r@ == self.spec_username(),
    {
        &self.username
    }

    /// The password sent with every request.
    pub fn password(&self) -> (r: &String)
        ensures
            r@ == self.spec_password(),
    {
        &self.password
    }

    /// Begins a request to a full URL. A URL that cannot be requested is
    /// refused with reqwest's error, as `Reqwest`.
    pub fn begin(&self, url: &str) -> (r: Result<RequestFlow, PinnacleClientError>)
        ensures
            requestable(url@) ==> (r matches Ok(f) && f.is_live_start_for(url@)),
            !requestable(url@) ==> (r matches Err(PinnacleClientError::Reqwest(_))),
    {
        match parse_request_url(url) {
            Ok(parts) => Ok(RequestFlow::live(&parts)),
            Err(e) => Err(PinnacleClientError::Reqwest(e)),
        }
    }
}

} // verus!
