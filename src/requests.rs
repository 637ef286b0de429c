//! Typed Pinnacle API requests.
use crate::query::{
    encode_bytes, encode_component, field_views, form_encoded, lemma_decimal_plain, lemma_plain_component,
    plain_text, present_pairs, query_text,
};
use crate::traits::PinnacleApiRequest;
use crate::util::{
    comma_joined, decimal_text, int_decimal, int_values, serialize_bool_1_or_skip,
    serialize_comma_separated_option, QueryInteger,
};
use vstd::prelude::*;
use vstd::utf8::encode_utf8;

verus! {

/// The query value of a list-valued optional field.
pub open spec fn list_value<T: QueryInteger>(o: Option<Vec<T>>) -> Option<Seq<char>> {
    match o {
        Some(v) => Some(comma_joined(int_values(v@))),
        None => None,
    }
}

/// The query value of an optional integer field.
pub open spec fn int_value(o: Option<i64>) -> Option<Seq<char>> {
    match o {
        Some(n) => Some(int_decimal(n as int)),
        None => None,
    }
}

/// The query value of an optional text field.
pub open spec fn text_value(o: Option<String>) -> Option<Seq<char>> {
    match o {
        Some(s) => Some(s@),
        None => None,
    }
}

/// The query value of a flag sent only when set, as `1`.
pub open spec fn flag_value(b: bool) -> Option<Seq<char>> {
    if b {
        Some("1"@)
    } else {
        None
    }
}

/// The query value of an optional "live only" flag: `1` when set to true,
/// absent when false or unset.
pub open spec fn optional_flag_value(o: Option<bool>) -> Option<Seq<char>> {
    match o {
        Some(b) => flag_value(b),
        None => None,
    }
}

fn optional_int(o: Option<i64>) -> (r: Option<String>)
    ensures
        match r {
            Some(s) => int_value(o) == Some(s@),
            None => int_value(o) is None,
        },
{
    match o {
        Some(n) => Some(decimal_text(n)),
        None => None,
    }
}

fn optional_text(o: &Option<String>) -> (r: Option<String>)
    ensures
        match r {
            Some(s) => text_value(*o) == Some(s@),
            None => text_value(*o) is None,
        },
{
    match o {
        Some(s) => Some(s.clone()),
        None => None,
    }
}

/// Returns current client balance.
#[derive(Debug)]
pub struct GetClientBalance;

impl PinnacleApiRequest for GetClientBalance {
    open spec fn spec_path() -> Seq<char> {
        "/v1/client/balance"@
    }

    open spec fn spec_query(&self) -> Seq<(Seq<char>, Option<Seq<char>>)> {
        Seq::empty()
    }

    fn path() -> (r: &'static str) {
        "/v1/client/balance"
    }

    fn query_fields(&self) -> (r: Vec<(String, Option<String>)>) {
        let v: Vec<(String, Option<String>)> = Vec::new();
        assert(field_views(v@) =~= self.spec_query());
        v
    }
}

/// Returns all sports with the status whether they currently have lines or not.
#[derive(Debug)]
pub struct GetSports;

impl PinnacleApiRequest for GetSports {
    open spec fn spec_path() -> Seq<char> {
        "/v2/sports"@
    }

    open spec fn spec_query(&self) -> Seq<(Seq<char>, Option<Seq<char>>)> {
        Seq::empty()
    }

    fn path() -> (r: &'static str) {
        "/v2/sports"
    }

    fn query_fields(&self) -> (r: Vec<(String, Option<String>)>) {
        let v: Vec<(String, Option<String>)> = Vec::new();
        assert(field_views(v@) =~= self.spec_query());
        v
    }
}

/// Returns all sports leagues with the status whether they currently have lines or not.
#[derive(Debug)]
pub struct GetLeagues {
    /// Sport id for which the leagues are requested.
    pub sport_id: i32,
}

impl PinnacleApiRequest for GetLeagues {
    open spec fn spec_path() -> Seq<char> {
        "/v2/leagues"@
    }

    open spec fn spec_query(&self) -> Seq<(Seq<char>, Option<Seq<char>>)> {
        seq![("sportId"@, Some(int_decimal(self.sport_id as int)))]
    }

    fn path() -> (r: &'static str) {
        "/v2/leagues"
    }

    fn query_fields(&self) -> (r: Vec<(String, Option<String>)>) {
        let mut v: Vec<(String, Option<String>)> = Vec::new();
        v.push((String::from_str("sportId"), Some(decimal_text(self.sport_id as i64))));
        assert(field_views(v@) =~= self.spec_query());
        v
    }
}

/// Returns all periods for a given sport.
#[derive(Debug)]
pub struct GetPeriods {
    /// Sport id for which the periods are requested.
    pub sport_id: i32,
}

impl PinnacleApiRequest for GetPeriods {
    open spec fn spec_path() -> Seq<char> {
        "/v1/periods"@
    }

    open spec fn spec_query(&self) -> Seq<(Seq<char>, Option<Seq<char>>)> {
        seq![("sportId"@, Some(int_decimal(self.sport_id as int)))]
    }

    fn path() -> (r: &'static str) {
        "/v1/periods"
    }

    fn query_fields(&self) -> (r: Vec<(String, Option<String>)>) {
        let mut v: Vec<(String, Option<String>)> = Vec::new();
        v.push((String::from_str("sportId"), Some(decimal_text(self.sport_id as i64))));
        assert(field_views(v@) =~= self.spec_query());
        v
    }
}

/// Format to request the odds.
#[derive(Debug, Clone, Copy, PartialEq, Eq, Structural)]
pub enum OddsFormat {
    /// American
    American,
    /// Decimal
    Decimal,
    /// HongKong
    HongKong,
    /// Indonesian
    Indonesian,
    /// Malay
    Malay,
}

impl OddsFormat {
    /// The name under which the format goes into a query.
    pub open spec fn spec_name(&self) -> Seq<char> {
        match self {
            OddsFormat::American => "American"@,
            OddsFormat::Decimal => "Decimal"@,
            OddsFormat::HongKong => "HongKong"@,
            OddsFormat::Indonesian => "Indonesian"@,
            OddsFormat::Malay => "Malay"@,
        }
    }

    /// The name under which the format goes into a query.
    pub fn name(&self) -> (r: &'static str)
        ensures
            r@ == self.spec_name(),
    {
        match self {
            OddsFormat::American => "American",
            OddsFormat::Decimal => "Decimal",
            OddsFormat::HongKong => "HongKong",
            OddsFormat::Indonesian => "Indonesian",
            OddsFormat::Malay => "Malay",
        }
    }
}

/// The query value of an optional odds format.
pub open spec fn format_value(o: Option<OddsFormat>) -> Option<Seq<char>> {
    match o {
        Some(f) => Some(f.spec_name()),
        None => None,
    }
}

/// Returns straight odds for all non-settled events. Please note that it is possible that the
/// event is in Get Fixtures response but not in Get Odds. This happens when the odds are not
/// currently available for wagering.
#[derive(Debug)]
pub struct GetStraightOdds {
    /// The sport id for which to retrieve the odds.
    pub sport_id: i32,
    /// The leagueIds array may contain a list of comma separated league ids.
    pub league_ids: Option<Vec<i32>>,
    /// Format in which we return the odds. Default is American.
    pub odds_format: Option<OddsFormat>,
    /// This is used to receive incremental updates. Use the value of last from previous odds
    /// response. When since parameter is not provided, the odds are delayed up to 1 min to
    /// encourage the use of the parameter. Please note that when using since parameter you will
    /// get in the response ONLY changed periods. If a period did not have any changes it will
    /// not be in the response.
    pub since: Option<i64>,
    /// To retrieve ONLY live odds set the value to 1 (isLive=1).
    /// Otherwise response will have all odds.
    pub is_live: bool,
    /// Filter by EventIds.
    pub event_ids: Option<Vec<i64>>,
    /// 3 letter currency code as in the /currency response.
    /// Limits will be returned in the requested currency. Default is USD.
    pub to_currency_code: Option<String>,
}

impl Default for GetStraightOdds {
    fn default() -> (r: Self)
        ensures
            r.sport_id == 0,
            r.league_ids is None,
            r.odds_format is None,
            r.since is None,
            !r.is_live,
            r.event_ids is None,
            r.to_currency_code is None,
    {
        GetStraightOdds {
            sport_id: 0,
            league_ids: None,
            odds_format: None,
            since: None,
            is_live: false,
            event_ids: None,
            to_currency_code: None,
        }
    }
}

impl PinnacleApiRequest for GetStraightOdds {
    open spec fn spec_path() -> Seq<char> {
        "/v1/odds"@
    }

    open spec fn spec_query(&self) -> Seq<(Seq<char>, Option<Seq<char>>)> {
        seq![
            ("sportId"@, Some(int_decimal(self.sport_id as int))),
            ("leagueIds"@, list_value(self.league_ids)),
            ("oddsFormat"@, format_value(self.odds_format)),
            ("since"@, int_value(self.since)),
            ("isLive"@, flag_value(self.is_live)),
            ("eventIds"@, list_value(self.event_ids)),
            ("toCurrencyCode"@, text_value(self.to_currency_code)),
        ]
    }

    fn path() -> (r: &'static str) {
        "/v1/odds"
    }

    fn query_fields(&self) -> (r: Vec<(String, Option<String>)>) {
        let format = match self.odds_format {
            Some(f) => Some(String::from_str(f.name())),
            None => None,
        };
        let mut v: Vec<(String, Option<String>)> = Vec::new();
        v.push((String::from_str("sportId"), Some(decimal_text(self.sport_id as i64))));
        v.push((String::from_str("leagueIds"), serialize_comma_separated_option(&self.league_ids)));
        v.push((String::from_str("oddsFormat"), format));
        v.push((String::from_str("since"), optional_int(self.since)));
        v.push((String::from_str("isLive"), serialize_bool_1_or_skip(self.is_live)));
        v.push((String::from_str("eventIds"), serialize_comma_separated_option(&self.event_ids)));
        v.push((String::from_str("toCurrencyCode"), optional_text(&self.to_currency_code)));
        assert(field_views(v@) =~= self.spec_query());
        v
    }
}

/// Returns all **non-settled** events for the given sport. Please note that it is possible that
/// the event is in Get Fixtures response but not in Get Odds. This happens when the odds are not
/// currently available for wagering. Please note that it is possible to receive the same exact
/// response when using **since** parameter. This is rare and can be caused by internal updates of
/// event properties.
#[derive(Debug)]
pub struct GetFixtures {
    /// The ID of the sport to retrieve the fixtures for.
    pub sport_id: i32,
    /// An optional list of league IDs to filter the fixtures by.
    pub league_ids: Option<Vec<i32>>,
    /// An optional flag indicating whether to retrieve only live events;
    /// sent as `isLive=1` when true and left out otherwise.
    pub is_live: Option<bool>,
    /// An optional timestamp to receive incremental updates.
    ///
    /// Use the value of last from previous fixtures response. When since parameter is not
    /// provided, the fixtures are delayed up to 1 minute to encourage the use of the parameter.
    pub since: Option<i64>,
    /// An optional list of event IDs to filter the fixtures by.
    pub event_ids: Option<Vec<i32>>,
}

impl Default for GetFixtures {
    fn default() -> (r: Self)
        ensures
            r.sport_id == 0,
            r.league_ids is None,
            r.is_live is None,
            r.since is None,
            r.event_ids is None,
    {
        GetFixtures { sport_id: 0, league_ids: None, is_live: None, since: None, event_ids: None }
    }
}

impl PinnacleApiRequest for GetFixtures {
    open spec fn spec_path() -> Seq<char> {
        "/v1/fixtures"@
    }

    open spec fn spec_query(&self) -> Seq<(Seq<char>, Option<Seq<char>>)> {
        seq![
            ("sportId"@, Some(int_decimal(self.sport_id as int))),
            ("leagueIds"@, list_value(self.league_ids)),
            ("isLive"@, optional_flag_value(self.is_live)),
            ("since"@, int_value(self.since)),
            ("eventIds"@, list_value(self.event_ids)),
        ]
    }

    fn path() -> (r: &'static str) {
        "/v1/fixtures"
    }

    fn query_fields(&self) -> (r: Vec<(String, Option<String>)>) {
        let live = match self.is_live {
            Some(b) => serialize_bool_1_or_skip(b),
            None => None,
        };
        let mut v: Vec<(String, Option<String>)> = Vec::new();
        v.push((String::from_str("sportId"), Some(decimal_text(self.sport_id as i64))));
        v.push((String::from_str("leagueIds"), serialize_comma_separated_option(&self.league_ids)));
        v.push((String::from_str("isLive"), live));
        v.push((String::from_str("since"), optional_int(self.since)));
        v.push((String::from_str("eventIds"), serialize_comma_separated_option(&self.event_ids)));
        assert(field_views(v@) =~= self.spec_query());
        v
    }
}

proof fn lemma_sport_id_pair(n: int)
    ensures
        form_encoded(seq![("sportId"@, int_decimal(n))]) == "sportId"@ + seq!['='] + int_decimal(n),
{
    reveal_strlit("sportId");
    assert(plain_text("sportId"@));
    lemma_plain_component("sportId"@);
    lemma_decimal_plain(n);
    lemma_plain_component(int_decimal(n));
}

/// With every optional field absent, the odds query holds the sport id alone.
pub proof fn lemma_odds_query_without_options(q: GetStraightOdds)
    requires
        q.league_ids is None,
        q.odds_format is None,
        q.since is None,
        !q.is_live,
        q.event_ids is None,
        q.to_currency_code is None,
    ensures
        query_text(q.spec_query()) == "sportId"@ + seq!['='] + int_decimal(q.sport_id as int),
{
    reveal_with_fuel(present_pairs, 8);
    assert(present_pairs(q.spec_query()) =~= seq![("sportId"@, int_decimal(q.sport_id as int))]);
    lemma_sport_id_pair(q.sport_id as int);
}

/// With every optional field absent, the fixtures query holds the sport id alone.
pub proof fn lemma_fixtures_query_without_options(q: GetFixtures)
    requires
        q.league_ids is None,
        q.is_live is None,
        q.since is None,
        q.event_ids is None,
    ensures
        query_text(q.spec_query()) == "sportId"@ + seq!['='] + int_decimal(q.sport_id as int),
{
    reveal_with_fuel(present_pairs, 6);
    assert(present_pairs(q.spec_query()) =~= seq![("sportId"@, int_decimal(q.sport_id as int))]);
    lemma_sport_id_pair(q.sport_id as int);
}

/// The "live only" flag adds nothing when unset and exactly `isLive=1` when set.
pub proof fn lemma_live_flag_query(q: GetStraightOdds)
    requires
        q.league_ids is None,
        q.odds_format is None,
        q.since is None,
        q.event_ids is None,
        q.to_currency_code is None,
    ensures
        query_text(q.spec_query()) == "sportId"@ + seq!['='] + int_decimal(q.sport_id as int) + (
        if q.is_live {
            seq!['&'] + "isLive"@ + seq!['='] + "1"@
        } else {
            Seq::empty()
        }),
{
    reveal_with_fuel(present_pairs, 8);
    let sport = ("sportId"@, int_decimal(q.sport_id as int));
    lemma_sport_id_pair(q.sport_id as int);
    if q.is_live {
        assert(present_pairs(q.spec_query()) =~= seq![sport, ("isLive"@, "1"@)]);
        reveal_strlit("isLive");
        reveal_strlit("1");
        assert(plain_text("isLive"@));
        assert(plain_text("1"@));
        lemma_plain_component("isLive"@);
        lemma_plain_component("1"@);
        assert(seq![sport, ("isLive"@, "1"@)].drop_last() =~= seq![sport]);
    } else {
        assert(present_pairs(q.spec_query()) =~= seq![sport]);
    }
}

/// The fixtures "live only" flag adds exactly `isLive=1` when true and
/// nothing when false or unset.
pub proof fn lemma_fixtures_live_flag_query(q: GetFixtures)
    requires
        q.league_ids is None,
        q.since is None,
        q.event_ids is None,
    ensures
        query_text(q.spec_query()) == "sportId"@ + seq!['='] + int_decimal(q.sport_id as int) + (
        if q.is_live == Some(true) {
            seq!['&'] + "isLive"@ + seq!['='] + "1"@
        } else {
            Seq::empty()
        }),
{
    reveal_with_fuel(present_pairs, 6);
    let sport = ("sportId"@, int_decimal(q.sport_id as int));
    lemma_sport_id_pair(q.sport_id as int);
    if q.is_live == Some(true) {
        assert(present_pairs(q.spec_query()) =~= seq![sport, ("isLive"@, "1"@)]);
        reveal_strlit("isLive");
        reveal_strlit("1");
        assert(plain_text("isLive"@));
        assert(plain_text("1"@));
        lemma_plain_component("isLive"@);
        lemma_plain_component("1"@);
        assert(seq![sport, ("isLive"@, "1"@)].drop_last() =~= seq![sport]);
    } else {
        assert(present_pairs(q.spec_query()) =~= seq![sport]);
    }
}

/// A list-valued field holding `[1, 2]` becomes the single pair `name=1%2C2`.
pub proof fn lemma_list_field_query<T: QueryInteger>(name: Seq<char>, ids: Vec<T>)
    requires
        plain_text(name),
        int_values(ids@) == seq![1int, 2int],
    ensures
        query_text(seq![(name, list_value(Some(ids)))]) == name + "=1%2C2"@,
{
    reveal_with_fuel(present_pairs, 2);
    reveal_with_fuel(comma_joined, 3);
    reveal_strlit("=1%2C2");
    let xs = int_values(ids@);
    assert(xs.drop_last() =~= seq![1int]);
    let v = seq!['1', ',', '2'];
    assert(comma_joined(xs) =~= v);
    assert(present_pairs(seq![(name, list_value(Some(ids)))]) =~= seq![(name, v)]);
    lemma_plain_component(name);
    assert(vstd::utf8::is_ascii_chars(v));
    vstd::utf8::is_ascii_chars_encode_utf8(v);
    let bs = encode_utf8(v);
    assert(bs =~= seq![49u8, 44u8, 50u8]);
    reveal_with_fuel(encode_bytes, 4);
    assert(bs.drop_last() =~= seq![49u8, 44u8]);
    assert(bs.drop_last().drop_last() =~= seq![49u8]);
    assert(bs.drop_last().drop_last().drop_last() =~= Seq::<u8>::empty());
    assert(encode_component(v) =~= seq!['1', '%', '2', 'C', '2']);
    assert(query_text(seq![(name, list_value(Some(ids)))]) =~= name + "=1%2C2"@);
}

} // verus!
