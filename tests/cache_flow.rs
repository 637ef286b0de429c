use pinnacle::cache::{cache_file_name, elapsed_since, parse_request_url, url_to_filename};
use pinnacle::caching_client::PinnacleCachingClient;
use pinnacle::client::{PinnacleClient, PinnacleClientError};
use pinnacle::flow::{Action, Event, Phase, RequestFlow};
use std::collections::BTreeMap;

const URL: &str = "https://example.com/path/to/file?param1=value1&param2=value2";
const MINUTE: u128 = 60_000_000_000;

fn caching() -> PinnacleCachingClient {
    PinnacleCachingClient::new(
        "user".to_string(),
        "secret".to_string(),
        "cache-folder".to_string(),
        5 * MINUTE,
    )
}

fn started(client: &PinnacleCachingClient) -> (RequestFlow, Action) {
    let mut flow = client.begin(URL).unwrap();
    let action = flow.step(Event::Start);
    (flow, action)
}

fn transport_error() -> reqwest::Error {
    reqwest::Client::new().get("no url at all").build().unwrap_err()
}

fn decode_error(body: &str) -> serde_path_to_error::Error<serde_json::Error> {
    let de = &mut serde_json::Deserializer::from_str(body);
    serde_path_to_error::deserialize::<_, BTreeMap<String, Vec<i32>>>(de).unwrap_err()
}

#[test]
fn test_url_to_filename() {
    let url = parse_request_url(URL).unwrap();
    let filename = url_to_filename(&url);
    assert_eq!(filename, "path_to_file_param1-value1_param2-value2");
}

#[test]
fn cache_file_names_end_in_json() {
    let url = parse_request_url(URL).unwrap();
    assert_eq!(
        cache_file_name(&url),
        "path_to_file_param1-value1_param2-value2.json"
    );
    let url = parse_request_url("https://api.pinnacle.com/v1/odds?sportId=0&isLive=1").unwrap();
    assert_eq!(cache_file_name(&url), "v1_odds_sportId-0_isLive-1.json");
    let url = parse_request_url("https://api.pinnacle.com/v2/sports?").unwrap();
    assert_eq!(cache_file_name(&url), "v2_sports_.json");
    let url = parse_request_url("https://api.pinnacle.com/v2/sports").unwrap();
    assert_eq!(cache_file_name(&url), "v2_sports.json");
}

#[test]
fn cache_key_is_the_same_for_the_same_url() {
    let a = parse_request_url(URL).unwrap();
    let b = parse_request_url(URL).unwrap();
    assert_eq!(url_to_filename(&a), url_to_filename(&b));
    assert_eq!(a.href, URL);
}

#[test]
fn urls_that_cannot_be_requested_are_refused() {
    assert!(parse_request_url("not a url").is_err());
    let no_host = parse_request_url("mailto:someone@example.com").unwrap_err();
    assert!(no_host.is_builder());
    let client = PinnacleClient::new("u".to_string(), "p".to_string());
    match client.begin("not a url") {
        Err(PinnacleClientError::Reqwest(e)) => assert!(e.is_builder()),
        other => panic!("unexpected {:?}", other),
    }
    match caching().begin("mailto:someone@example.com") {
        Err(PinnacleClientError::Reqwest(e)) => assert!(e.is_builder()),
        other => panic!("unexpected {:?}", other),
    }
}

#[test]
fn elapsed_time_of_a_file() {
    assert_eq!(elapsed_since(10, 25), Some(15));
    assert_eq!(elapsed_since(25, 25), Some(0));
    assert_eq!(elapsed_since(26, 25), None);
}

#[test]
fn live_request_fetches_then_decodes() {
    let client = PinnacleClient::new("user".to_string(), "secret".to_string());
    assert_eq!(client.username(), "user");
    assert_eq!(client.password(), "secret");
    let mut flow = client.begin(URL).unwrap();
    assert!(flow.cache.is_none());
    match flow.step(Event::Start) {
        Action::Fetch(u) => assert_eq!(u, URL),
        other => panic!("unexpected {:?}", other),
    }
    match flow.step(Event::Fetched(Ok("{\"a\":[1]}".to_string()))) {
        Action::Decode(body) => assert_eq!(body, "{\"a\":[1]}"),
        other => panic!("unexpected {:?}", other),
    }
    assert!(matches!(flow.step(Event::Decoded(Ok(()))), Action::ReturnFetched));
    assert_eq!(flow.phase, Phase::Finished);
    assert!(matches!(flow.step(Event::Start), Action::Ignore));
}

#[test]
fn empty_body_is_reported_not_decoded() {
    let client = PinnacleClient::new("user".to_string(), "secret".to_string());
    let mut flow = client.begin(URL).unwrap();
    flow.step(Event::Start);
    match flow.step(Event::Fetched(Ok(String::new()))) {
        Action::Fail(PinnacleClientError::EmptyJson(u)) => assert_eq!(u, URL),
        other => panic!("unexpected {:?}", other),
    }
    assert_eq!(flow.phase, Phase::Finished);
}

#[test]
fn decode_error_names_the_field_and_the_url() {
    let client = PinnacleClient::new("user".to_string(), "secret".to_string());
    let mut flow = client.begin(URL).unwrap();
    flow.step(Event::Start);
    flow.step(Event::Fetched(Ok("{\"ids\":[1,\"x\"]}".to_string())));
    match flow.step(Event::Decoded(Err(decode_error("{\"ids\":[1,\"x\"]}")))) {
        Action::Fail(PinnacleClientError::DecodeJson(e, u)) => {
            assert_eq!(e.path().to_string(), "ids[1]");
            assert_eq!(u, URL);
        }
        other => panic!("unexpected {:?}", other),
    }
}

#[test]
fn transport_error_is_passed_on() {
    let client = PinnacleClient::new("user".to_string(), "secret".to_string());
    let mut flow = client.begin(URL).unwrap();
    flow.step(Event::Start);
    let e = transport_error();
    let text = e.to_string();
    match flow.step(Event::Fetched(Err(e))) {
        Action::Fail(PinnacleClientError::Reqwest(got)) => assert_eq!(got.to_string(), text),
        other => panic!("unexpected {:?}", other),
    }
}

#[test]
fn fresh_entry_is_served_from_the_cache() {
    let client = caching();
    assert_eq!(client.cache_dir(), "cache-folder");
    assert_eq!(client.cache_ttl(), 5 * MINUTE);
    let (mut flow, action) = started(&client);
    match action {
        Action::CheckCache(f) => assert_eq!(f, "path_to_file_param1-value1_param2-value2.json"),
        other => panic!("unexpected {:?}", other),
    }
    match flow.step(Event::CacheAge(Some(MINUTE))) {
        Action::ReadCache(f) => assert_eq!(f, "path_to_file_param1-value1_param2-value2.json"),
        other => panic!("unexpected {:?}", other),
    }
    assert!(matches!(flow.step(Event::CacheRead(true)), Action::ReturnCached));
}

#[test]
fn stale_or_missing_entry_is_fetched_once_and_stored() {
    for age in [Some(5 * MINUTE), Some(6 * MINUTE), None] {
        let client = caching();
        let (mut flow, _) = started(&client);
        match flow.step(Event::CacheAge(age)) {
            Action::Fetch(u) => assert_eq!(u, URL),
            other => panic!("unexpected {:?}", other),
        }
        assert!(matches!(flow.step(Event::Fetched(Ok("{}".to_string()))), Action::Decode(_)));
        match flow.step(Event::Decoded(Ok(()))) {
            Action::Store(f) => assert_eq!(f, "path_to_file_param1-value1_param2-value2.json"),
            other => panic!("unexpected {:?}", other),
        }
        assert!(matches!(flow.step(Event::Stored(true)), Action::ReturnFetched));
        assert!(matches!(flow.step(Event::CacheAge(age)), Action::Ignore));
    }
}

#[test]
fn unreadable_entry_falls_back_to_a_fetch() {
    let client = caching();
    let (mut flow, _) = started(&client);
    flow.step(Event::CacheAge(Some(0)));
    assert!(matches!(flow.step(Event::CacheRead(false)), Action::Fetch(_)));
}

#[test]
fn failed_cache_write_still_returns_the_value() {
    let client = caching();
    let (mut flow, _) = started(&client);
    flow.step(Event::CacheAge(None));
    flow.step(Event::Fetched(Ok("[]".to_string())));
    flow.step(Event::Decoded(Ok(())));
    assert!(matches!(flow.step(Event::Stored(false)), Action::ReturnFetched));
    assert_eq!(flow.phase, Phase::Finished);
}

#[test]
fn caching_client_passes_upstream_errors_unchanged() {
    let client = caching();
    let (mut flow, _) = started(&client);
    flow.step(Event::CacheAge(None));
    match flow.step(Event::Fetched(Ok(String::new()))) {
        Action::Fail(PinnacleClientError::EmptyJson(u)) => assert_eq!(u, URL),
        other => panic!("unexpected {:?}", other),
    }
}

#[test]
fn stored_entry_is_found_by_the_next_request() {
    let client = caching();
    let (mut first, _) = started(&client);
    first.step(Event::CacheAge(None));
    first.step(Event::Fetched(Ok("{\"sports\":[]}".to_string())));
    let stored = match first.step(Event::Decoded(Ok(()))) {
        Action::Store(f) => f,
        other => panic!("unexpected {:?}", other),
    };
    assert!(matches!(first.step(Event::Stored(true)), Action::ReturnFetched));
    let (mut second, action) = started(&client);
    match action {
        Action::CheckCache(f) => assert_eq!(f, stored),
        other => panic!("unexpected {:?}", other),
    }
    assert!(matches!(second.step(Event::CacheAge(Some(0))), Action::ReadCache(_)));
    assert!(matches!(second.step(Event::CacheRead(true)), Action::ReturnCached));
}
