//! Query strings in the `application/x-www-form-urlencoded` format.
use crate::util::{digit_char, int_decimal, nat_decimal};
use vstd::prelude::*;
use vstd::utf8::encode_utf8;

verus! {

/// Bytes that the form encoding writes as they are.
pub open spec fn byte_unreserved(b: u8) -> bool {
    b == 42 || b == 45 || b == 46 || (48 <= b && b <= 57) || (65 <= b && b <= 90) || b == 95 || (
    97 <= b && b <= 122)
}

/// An upper-case hexadecimal digit.
pub open spec fn hex_upper(n: u8) -> char {
    if n < 10 {
        ((48 + n) as u8) as char
    } else {
        ((55 + n) as u8) as char
    }
}

/// The form encoding of one byte: unreserved bytes stay, a space becomes
/// `+`, any other byte becomes `%` and two upper-case hex digits.
pub open spec fn encode_byte(b: u8) -> Seq<char> {
    if byte_unreserved(b) {
        seq![b as char]
    } else if b == 32 {
        seq!['+']
    } else {
        seq!['%', hex_upper(b / 16), hex_upper(b % 16)]
    }
}

/// The form encoding of a byte sequence.
pub open spec fn encode_bytes(bs: Seq<u8>) -> Seq<char>
    decreases bs.len(),
{
    if bs.len() == 0 {
        Seq::empty()
    } else {
        encode_bytes(bs.drop_last()) + encode_byte(bs.last())
    }
}

/// The form encoding of a text: each byte of its UTF-8 form, encoded.
pub open spec fn encode_component(s: Seq<char>) -> Seq<char> {
    encode_bytes(encode_utf8(s))
}

/// One `name=value` pair, both parts encoded.
pub open spec fn encode_pair(p: (Seq<char>, Seq<char>)) -> Seq<char> {
    encode_component(p.0) + seq!['='] + encode_component(p.1)
}

/// Pairs written in order and joined by `&`.
pub open spec fn form_encoded(pairs: Seq<(Seq<char>, Seq<char>)>) -> Seq<char>
    decreases pairs.len(),
{
    if pairs.len() == 0 {
        Seq::empty()
    } else if pairs.len() == 1 {
        encode_pair(pairs[0])
    } else {
        form_encoded(pairs.drop_last()) + seq!['&'] + encode_pair(pairs.last())
    }
}

/// The views of name/value pairs.
pub open spec fn pair_views(v: Seq<(String, String)>) -> Seq<(Seq<char>, Seq<char>)> {
    v.map_values(|p: (String, String)| (p.0@, p.1@))
}

/// The view of a query field: its name, and its value when present.
pub open spec fn field_view(f: (String, Option<String>)) -> (Seq<char>, Option<Seq<char>>) {
    (
        f.0@,
        match f.1 {
            Some(v) => Some(v@),
            None => None,
        },
    )
}

/// The views of query fields.
pub open spec fn field_views(v: Seq<(String, Option<String>)>) -> Seq<(Seq<char>, Option<Seq<char>>)> {
    v.map_values(|f: (String, Option<String>)| field_view(f))
}

/// The fields that have a value, in order, as name/value pairs.
pub open spec fn present_pairs(fields: Seq<(Seq<char>, Option<Seq<char>>)>) -> Seq<
    (Seq<char>, Seq<char>),
>
    decreases fields.len(),
{
    if fields.len() == 0 {
        Seq::empty()
    } else {
        let rest = present_pairs(fields.drop_last());
        match fields.last().1 {
            Some(v) => rest.push((fields.last().0, v)),
            None => rest,
        }
    }
}

/// The query string of a sequence of fields: absent fields are left out.
pub open spec fn query_text(fields: Seq<(Seq<char>, Option<Seq<char>>)>) -> Seq<char> {
    form_encoded(present_pairs(fields))
}

/// Relies on `serde_urlencoded::to_string`: a sequence of string pairs is
/// written in order as `name=value` joined by `&`, each part encoded by
/// `form_urlencoded::byte_serialize` over its UTF-8 bytes. A sequence of
/// string pairs never makes it fail.
#[verifier::external_body]
fn urlencode_pairs(pairs: &Vec<(String, String)>) -> (r: String)
    ensures
        r@ == form_encoded(pair_views(pairs@)),
{
    serde_urlencoded::to_string(pairs).unwrap_or_default()
}

/// Serializes query fields: a field without a value is omitted entirely,
/// the others are form-encoded in their order.
pub fn query_string(fields: &Vec<(String, Option<String>)>) -> (r: String)
    ensures
        r@ == query_text(field_views(fields@)),
{
    let ghost fv = field_views(fields@);
    let mut pairs: Vec<(String, String)> = Vec::new();
    let mut i: usize = 0;
    while i < fields.len()
        invariant
            i <= fields.len(),
            fv == field_views(fields@),
            pair_views(pairs@) =~= present_pairs(fv.subrange(0, i as int)),
        decreases fields.len() - i,
    {
        assert(fv.subrange(0, i + 1).drop_last() =~= fv.subrange(0, i as int));
        match &fields[i].1 {
            Some(v) => {
                pairs.push((fields[i].0.clone(), v.clone()));
            },
            None => {},
        }
        i = i + 1;
    }
    assert(fv.subrange(0, fields.len() as int) =~= fv);
    urlencode_pairs(&pairs)
}

/// A character that the form encoding writes as it is.
pub open spec fn plain_char(c: char) -> bool {
    '\0' <= c <= '\u{7f}' && byte_unreserved(c as u8)
}

/// A text made only of characters that the form encoding keeps.
pub open spec fn plain_text(s: Seq<char>) -> bool {
    forall|i: int| 0 <= i < s.len() ==> plain_char(#[trigger] s[i])
}

proof fn lemma_encode_unreserved_bytes(bs: Seq<u8>)
    requires
        forall|i: int| 0 <= i < bs.len() ==> byte_unreserved(#[trigger] bs[i]),
    ensures
        encode_bytes(bs) == bs.map_values(|b: u8| b as char),
    decreases bs.len(),
{
    if bs.len() > 0 {
        let init = bs.drop_last();
        assert forall|i: int| 0 <= i < init.len() implies byte_unreserved(#[trigger] init[i]) by {
            assert(init[i] == bs[i]);
        }
        lemma_encode_unreserved_bytes(init);
        assert(encode_bytes(bs) =~= bs.map_values(|b: u8| b as char));
    }
}

/// A text made only of unreserved ASCII characters is its own form encoding.
pub proof fn lemma_plain_component(s: Seq<char>)
    requires
        plain_text(s),
    ensures
        encode_component(s) == s,
{
    assert(vstd::utf8::is_ascii_chars(s));
    vstd::utf8::is_ascii_chars_encode_utf8(s);
    let bs = encode_utf8(s);
    assert forall|i: int| 0 <= i < bs.len() implies byte_unreserved(#[trigger] bs[i]) by {
        assert(plain_char(s[i]));
    }
    lemma_encode_unreserved_bytes(bs);
    assert forall|i: int| 0 <= i < s.len() implies #[trigger] s[i] == (bs[i] as char) by {
        assert(plain_char(s[i]));
        let c = s[i];
        assert(bs[i] == c as u8);
        vstd::utf8::char_u32_cast(c, c as u32);
    }
    assert(encode_component(s) =~= s);
}

/// Decimal text holds only characters that the form encoding keeps.
pub proof fn lemma_decimal_plain(n: int)
    ensures
        plain_text(int_decimal(n)),
{
    if n < 0 {
        lemma_nat_decimal_plain((-n) as nat);
        let d = nat_decimal((-n) as nat);
        assert forall|i: int| 0 <= i < int_decimal(n).len() implies plain_char(
            #[trigger] int_decimal(n)[i],
        ) by {
            if i > 0 {
                assert(int_decimal(n)[i] == d[i - 1]);
            }
        }
    } else {
        lemma_nat_decimal_plain(n as nat);
    }
}

proof fn lemma_nat_decimal_plain(n: nat)
    ensures
        plain_text(nat_decimal(n)),
    decreases n,
{
    let d = digit_char(n % 10);
    assert(plain_char(d));
    if n >= 10 {
        lemma_nat_decimal_plain(n / 10);
        let init = nat_decimal(n / 10);
        assert forall|i: int| 0 <= i < nat_decimal(n).len() implies plain_char(
            #[trigger] nat_decimal(n)[i],
        ) by {
            if i < init.len() {
                assert(nat_decimal(n)[i] == init[i]);
            }
        }
    } else {
        assert(plain_char(digit_char(n)));
    }
}

} // verus!
