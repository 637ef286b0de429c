//! Utilities shared by the clients.
use vstd::prelude::*;

verus! {

/// The views of a sequence of strings.
pub open spec fn string_views(v: Seq<String>) -> Seq<Seq<char>> {
    v.map_values(|s: String| s@)
}

/// The causes of an error, each on a line of its own after a tab.
pub open spec fn causes_text(causes: Seq<Seq<char>>) -> Seq<char>
    decreases causes.len(),
{
    if causes.len() == 0 {
        Seq::empty()
    } else {
        causes_text(causes.drop_last()) + "\n\t"@ + causes.last()
    }
}

/// An error's message followed by its chain of causes.
///
/// `chain[0]` is the message of the error itself and `chain[1..]` are the
/// messages of its successive sources.
pub open spec fn error_chain_text(chain: Seq<Seq<char>>) -> Seq<char> {
    if chain.len() == 0 {
        Seq::empty()
    } else if chain.len() == 1 {
        chain[0]
    } else {
        chain[0] + "\nCaused by:"@ + causes_text(chain.subrange(1, chain.len() as int))
    }
}

/// Formats an error together with its source chain.
///
/// `chain` holds the error's own message first, then the message of each
/// source in turn.
pub fn error_chain(chain: &Vec<String>) -> (r: String)
    ensures
        r@ == error_chain_text(string_views(chain@)),
{
    let ghost v = string_views(chain@);
    if chain.len() == 0 {
        return String::new();
    }
    let mut s = chain[0].clone();
    if chain.len() == 1 {
        return s;
    }
    s.append("\nCaused by:");
    let mut i: usize = 1;
    while i < chain.len()
        invariant
            1 <= i <= chain.len(),
            v == string_views(chain@),
            s@ == v[0] + "\nCaused by:"@ + causes_text(v.subrange(1, i as int)),
        decreases chain.len() - i,
    {
        s.append("\n\t");
        s.append(chain[i].as_str());
        assert(v.subrange(1, i + 1).drop_last() =~= v.subrange(1, i as int));
        i = i + 1;
    }
    assert(v.subrange(1, chain.len() as int) =~= v.subrange(1, i as int));
    s
}

} // verus!

verus! {

/// Relies on `String::push`: the character is appended at the end.
pub assume_specification[ String::push ](s: &mut String, ch: char)
    ensures
        final(s)@ == old(s)@.push(ch),
;

/// The character of a decimal digit.
pub open spec fn digit_char(d: nat) -> char {
    ((48 + d) as u8) as char
}

/// The decimal digits of a natural number, most significant first.
pub open spec fn nat_decimal(n: nat) -> Seq<char>
    decreases n,
{
    if n < 10 {
        seq![digit_char(n)]
    } else {
        nat_decimal(n / 10).push(digit_char(n % 10))
    }
}

/// The decimal text of an integer, with a leading `-` when it is negative.
pub open spec fn int_decimal(n: int) -> Seq<char> {
    if n < 0 {
        seq!['-'] + nat_decimal((-n) as nat)
    } else {
        nat_decimal(n as nat)
    }
}

fn push_decimal(s: &mut String, n: u64)
    ensures
        final(s)@ == old(s)@ + nat_decimal(n as nat),
    decreases n,
{
    if n >= 10 {
        push_decimal(s, n / 10);
    }
    let d: u8 = (n % 10) as u8;
    s.push((48u8 + d) as char);
    assert(s@ =~= old(s)@ + nat_decimal(n as nat));
}

/// The decimal text of `n`, as integers print.
pub fn decimal_text(n: i64) -> (r: String)
    ensures
        r@ == int_decimal(n as int),
{
    let mut s = String::new();
    if n < 0 {
        s.push('-');
        let m: u64 = (-(n as i128)) as u64;
        push_decimal(&mut s, m);
    } else {
        push_decimal(&mut s, n as u64);
    }
    assert(s@ =~= int_decimal(n as int));
    s
}

} // verus!

verus! {

/// An integer type whose values go into query strings as decimal text.
pub trait QueryInteger {
    /// The value as a mathematical integer.
    spec fn spec_int(&self) -> int;

    /// The value widened to `i64`.
    fn to_i64(&self) -> (r: i64)
        ensures
            r as int == self.spec_int(),
    ;
}

impl QueryInteger for i32 {
    open spec fn spec_int(&self) -> int {
        *self as int
    }

    fn to_i64(&self) -> (r: i64) {
        *self as i64
    }
}

impl QueryInteger for i64 {
    open spec fn spec_int(&self) -> int {
        *self as int
    }

    fn to_i64(&self) -> (r: i64) {
        *self
    }
}

/// The integers of a sequence as mathematical integers.
pub open spec fn int_values<T: QueryInteger>(v: Seq<T>) -> Seq<int> {
    v.map_values(|x: T| x.spec_int())
}

/// Decimal texts of integers joined by `,`.
pub open spec fn comma_joined(xs: Seq<int>) -> Seq<char>
    decreases xs.len(),
{
    if xs.len() == 0 {
        Seq::empty()
    } else if xs.len() == 1 {
        int_decimal(xs[0])
    } else {
        comma_joined(xs.drop_last()) + seq![','] + int_decimal(xs.last())
    }
}

/// The value of a list-valued optional query field: absent stays absent,
/// a list becomes one comma-separated value.
pub fn serialize_comma_separated_option<T: QueryInteger>(data: &Option<Vec<T>>) -> (r: Option<
    String,
>)
    ensures
        match data {
            None => r is None,
            Some(items) => r matches Some(s) && s@ == comma_joined(int_values(items@)),
        },
{
    match data {
        None => None,
        Some(items) => {
            let ghost xs = int_values(items@);
            let mut s = String::new();
            let mut i: usize = 0;
            while i < items.len()
                invariant
                    i <= items.len(),
                    xs == int_values(items@),
                    s@ == comma_joined(xs.subrange(0, i as int)),
                decreases items.len() - i,
            {
                assert(xs.subrange(0, i + 1).drop_last() =~= xs.subrange(0, i as int));
                if i > 0 {
                    s.push(',');
                }
                let t = decimal_text(items[i].to_i64());
                s.append(t.as_str());
                i = i + 1;
            }
            assert(xs.subrange(0, items.len() as int) =~= xs);
            Some(s)
        },
    }
}

/// The value of a "live only" flag: `1` when set, absent otherwise.
pub fn serialize_bool_1_or_skip(value: bool) -> (r: Option<String>)
    ensures
        r is Some <==> value,
        r matches Some(s) ==> s@ == "1"@,
{
    if value {
        Some(String::from_str("1"))
    } else {
        None
    }
}

} // verus!
