use pinnacle::query::query_string;
use pinnacle::requests::{
    GetClientBalance, GetFixtures, GetLeagues, GetPeriods, GetSports, GetStraightOdds, OddsFormat,
};
use pinnacle::traits::{request_url, PinnacleApiRequest};
use pinnacle::types::StraightOddsRequest;
use pinnacle::util::{
    decimal_text, error_chain, serialize_bool_1_or_skip, serialize_comma_separated_option,
};

fn qs<Q: PinnacleApiRequest>(q: &Q) -> String {
    query_string(&q.query_fields())
}

#[test]
fn test_straight_odds_request() {
    assert_eq!(qs(&GetStraightOdds::default()), "sportId=0");
    assert_eq!(
        qs(&GetStraightOdds {
            is_live: true,
            ..Default::default()
        }),
        "sportId=0&isLive=1"
    );
    assert_eq!(
        qs(&GetStraightOdds {
            league_ids: Some(vec![1, 2]),
            odds_format: Some(OddsFormat::Decimal),
            ..Default::default()
        }),
        "sportId=0&leagueIds=1%2C2&oddsFormat=Decimal"
    );
}

#[test]
fn test_straight_odds_query() {
    assert_eq!(qs(&StraightOddsRequest::default()), "sportId=0");
    assert_eq!(
        qs(&StraightOddsRequest {
            is_live: true,
            ..Default::default()
        }),
        "sportId=0&isLive=1"
    );
    assert_eq!(
        qs(&StraightOddsRequest {
            league_ids: Some(vec![1, 2]),
            odds_format: Some(OddsFormat::Decimal),
            ..Default::default()
        }),
        "sportId=0&leagueIds=1%2C2&oddsFormat=Decimal"
    );
}

#[test]
fn test_serialize_comma_separated_option() {
    let none: Option<Vec<i32>> = None;
    let fields = vec![("ids".to_string(), serialize_comma_separated_option(&none))];
    assert_eq!(query_string(&fields), "");
    let fields = vec![(
        "ids".to_string(),
        serialize_comma_separated_option(&Some(vec![1i32, 2])),
    )];
    assert_eq!(query_string(&fields), "ids=1%2C2");
}

#[test]
fn test_serialize_bool_1_or_skip() {
    let fields = vec![("is".to_string(), serialize_bool_1_or_skip(false))];
    assert_eq!(query_string(&fields), "");
    let fields = vec![("is".to_string(), serialize_bool_1_or_skip(true))];
    assert_eq!(query_string(&fields), "is=1");
}

#[test]
fn absent_optional_fields_leave_only_sport_id() {
    assert_eq!(qs(&GetFixtures::default()), "sportId=0");
    assert_eq!(
        qs(&GetStraightOdds {
            sport_id: 29,
            ..Default::default()
        }),
        "sportId=29"
    );
}

#[test]
fn list_fields_are_one_comma_joined_parameter() {
    let q = GetStraightOdds {
        event_ids: Some(vec![1, 2]),
        ..Default::default()
    };
    assert_eq!(qs(&q), "sportId=0&eventIds=1%2C2");
    let q = GetFixtures {
        league_ids: Some(vec![-3, 40, 500]),
        ..Default::default()
    };
    assert_eq!(qs(&q), "sportId=0&leagueIds=-3%2C40%2C500");
    let empty: Option<Vec<i64>> = Some(vec![]);
    assert_eq!(serialize_comma_separated_option(&empty), Some(String::new()));
}

#[test]
fn live_flag_false_is_omitted_true_is_one() {
    let off = GetStraightOdds {
        is_live: false,
        sport_id: 4,
        ..Default::default()
    };
    assert_eq!(qs(&off), "sportId=4");
    let on = GetStraightOdds {
        is_live: true,
        sport_id: 4,
        ..Default::default()
    };
    assert_eq!(qs(&on), "sportId=4&isLive=1");
    assert_eq!(serialize_bool_1_or_skip(true), Some("1".to_string()));
    assert_eq!(serialize_bool_1_or_skip(false), None);
}

#[test]
fn fixtures_live_flag_is_one_or_omitted() {
    let q = GetFixtures {
        sport_id: 1,
        is_live: Some(true),
        since: Some(-5),
        ..Default::default()
    };
    assert_eq!(qs(&q), "sportId=1&isLive=1&since=-5");
    let q = GetFixtures {
        is_live: Some(false),
        ..Default::default()
    };
    assert_eq!(qs(&q), "sportId=0");
    assert_eq!(
        request_url(&GetFixtures {
            is_live: Some(true),
            ..Default::default()
        }),
        "https://api.pinnacle.com/v1/fixtures?sportId=0&isLive=1"
    );
}

#[test]
fn every_odds_field_in_declaration_order() {
    let q = GetStraightOdds {
        sport_id: 29,
        league_ids: Some(vec![7]),
        odds_format: Some(OddsFormat::HongKong),
        since: Some(123456789012),
        is_live: true,
        event_ids: Some(vec![9, 10]),
        to_currency_code: Some("EUR".to_string()),
    };
    assert_eq!(
        qs(&q),
        "sportId=29&leagueIds=7&oddsFormat=HongKong&since=123456789012&isLive=1&eventIds=9%2C10&toCurrencyCode=EUR"
    );
}

#[test]
fn text_values_are_form_encoded() {
    let q = GetStraightOdds {
        to_currency_code: Some("a b/é*~".to_string()),
        ..Default::default()
    };
    assert_eq!(qs(&q), "sportId=0&toCurrencyCode=a+b%2F%C3%A9*%7E");
}

#[test]
fn odds_format_names() {
    assert_eq!(OddsFormat::American.name(), "American");
    assert_eq!(OddsFormat::Decimal.name(), "Decimal");
    assert_eq!(OddsFormat::HongKong.name(), "HongKong");
    assert_eq!(OddsFormat::Indonesian.name(), "Indonesian");
    assert_eq!(OddsFormat::Malay.name(), "Malay");
}

#[test]
fn request_urls_join_origin_path_and_query() {
    assert_eq!(
        request_url(&GetLeagues { sport_id: 7 }),
        "https://api.pinnacle.com/v2/leagues?sportId=7"
    );
    assert_eq!(
        request_url(&GetPeriods { sport_id: 29 }),
        "https://api.pinnacle.com/v1/periods?sportId=29"
    );
    assert_eq!(
        request_url(&GetClientBalance),
        "https://api.pinnacle.com/v1/client/balance?"
    );
    assert_eq!(request_url(&GetSports), "https://api.pinnacle.com/v2/sports?");
    assert_eq!(
        request_url(&GetStraightOdds::default()),
        "https://api.pinnacle.com/v1/odds?sportId=0"
    );
    assert_eq!(
        request_url(&GetFixtures::default()),
        "https://api.pinnacle.com/v1/fixtures?sportId=0"
    );
}

#[test]
fn decimal_text_covers_the_range() {
    assert_eq!(decimal_text(0), "0");
    assert_eq!(decimal_text(-7), "-7");
    assert_eq!(decimal_text(1234567890), "1234567890");
    assert_eq!(decimal_text(i64::MAX), "9223372036854775807");
    assert_eq!(decimal_text(i64::MIN), "-9223372036854775808");
}

#[test]
fn error_chain_lists_causes() {
    assert_eq!(error_chain(&vec![]), "");
    assert_eq!(error_chain(&vec!["top".to_string()]), "top");
    assert_eq!(
        error_chain(&vec![
            "top".to_string(),
            "middle".to_string(),
            "root".to_string()
        ]),
        "top\nCaused by:\n\tmiddle\n\troot"
    );
}
