//! Identifiers: 128-bit values, drawn at random and written as 32
//! hexadecimal digits.

use vstd::prelude::*;

verus! {

/// The lower-case hexadecimal digit that stands for `d`, for `d < 16`.
pub open spec fn hex_digit(d: nat) -> char {
    if d < 10 {
        (48 + d) as u8 as char
    } else {
        (87 + d) as u8 as char
    }
}

/// The value of a hexadecimal digit, of either case; `None` for any other
/// character.
pub open spec fn digit_value(c: char) -> Option<nat> {
    let n = c as u32 as nat;
    if 48 <= n <= 57 {
        Some((n - 48) as nat)
    } else if 97 <= n <= 102 {
        Some((n - 87) as nat)
    } else if 65 <= n <= 70 {
        Some((n - 55) as nat)
    } else {
        None
    }
}

/// The last `len` hexadecimal digits of `v`, most significant first.
pub open spec fn hex_of(v: nat, len: nat) -> Seq<char>
    decreases len,
{
    if len == 0 {
        Seq::empty()
    } else {
        hex_of(v / 16, (len - 1) as nat).push(hex_digit(v % 16))
    }
}

/// The number that a string of hexadecimal digits denotes; `None` where a
/// character is no such digit.
pub open spec fn hex_value(s: Seq<char>) -> Option<nat>
    decreases s.len(),
{
    if s.len() == 0 {
        Some(0)
    } else {
        match (hex_value(s.drop_last()), digit_value(s.last())) {
            (Some(h), Some(d)) => Some(16 * h + d),
            _ => None,
        }
    }
}

/// The text of an identifier: 32 lower-case hexadecimal digits, no separators.
pub open spec fn id_text(id: u128) -> Seq<char> {
    hex_of(id as nat, 32)
}

/// The identifier that a text denotes: exactly 32 hexadecimal digits, of
/// either case, and nothing else.
pub open spec fn parse_id(s: Seq<char>) -> Option<u128> {
    if s.len() == 32 {
        match hex_value(s) {
            Some(v) => Some(v as u128),
            None => None,
        }
    } else {
        None
    }
}

/// What holds of every identifier drawn at random: the version field says
/// "random" (4) and the variant field says RFC 4122 (binary 10).
pub open spec fn is_random_id(id: u128) -> bool {
    id & 0x0000_0000_0000_f000_c000_0000_0000_0000u128
        == 0x0000_0000_0000_4000_8000_0000_0000_0000u128
}

/// Draws a fresh identifier with `uuid::Uuid::new_v4`, which fills a 128-bit
/// value from the operating system's random source and then sets the version
/// and variant fields. Only those two fields are claimed of the outcome.
#[verifier::external_body]
pub(crate) fn fresh_id() -> (id: u128)
    ensures
        is_random_id(id),
{
    uuid::Uuid::new_v4().as_u128()
}

/// Writes an identifier with `uuid::fmt::Simple`'s `Display`: the sixteen
/// bytes of the value, most significant first, two lower-case hexadecimal
/// digits each.
#[verifier::external_body]
pub(crate) fn format_id(id: u128) -> (s: String)
    ensures
        s@ == id_text(id),
{
    uuid::Uuid::from_u128(id).simple().to_string()
}

/// Reads an identifier with `uuid::fmt::Simple`'s `FromStr`, which accepts
/// exactly 32 hexadecimal digits of either case and rejects everything else.
#[verifier::external_body]
pub(crate) fn scan_id(s: &str) -> (r: Option<u128>)
    ensures
        r == parse_id(s@),
{
    match s.parse::<uuid::fmt::Simple>() {
        Ok(simple) => Some(simple.into_uuid().as_u128()),
        Err(_) => None,
    }
}

/// Sixteen to the power `n`.
pub open spec fn pow16(n: nat) -> nat
    decreases n,
{
    if n == 0 {
        1
    } else {
        16 * pow16((n - 1) as nat)
    }
}

/// The digits of `hex_of` are as many as were asked for.
pub proof fn lemma_hex_of_len(v: nat, len: nat)
    ensures
        hex_of(v, len).len() == len,
    decreases len,
{
    if len > 0 {
        lemma_hex_of_len(v / 16, (len - 1) as nat);
    }
}

/// Every digit that `hex_digit` writes reads back as its value.
pub proof fn lemma_digit_round_trip(d: nat)
    requires
        d < 16,
    ensures
        digit_value(hex_digit(d)) == Some(d),
{
}

/// A number below `16^len` is read back from its `len` digits.
pub proof fn lemma_hex_round_trip(v: nat, len: nat)
    requires
        v < pow16(len),
    ensures
        hex_value(hex_of(v, len)) == Some(v),
    decreases len,
{
    if len > 0 {
        let rest = hex_of(v / 16, (len - 1) as nat);
        let s = hex_of(v, len);
        lemma_hex_round_trip(v / 16, (len - 1) as nat);
        lemma_digit_round_trip(v % 16);
        assert(s.drop_last() =~= rest);
        assert(s.last() == hex_digit(v % 16));
    }
}

/// Writing an identifier and reading the text gives the identifier back.
pub proof fn lemma_id_text_parses(id: u128)
    ensures
        parse_id(id_text(id)) == Some(id),
{
    reveal_with_fuel(pow16, 33);
    assert(pow16(32) == 0x1_0000_0000_0000_0000_0000_0000_0000_0000);
    lemma_hex_of_len(id as nat, 32);
    lemma_hex_round_trip(id as nat, 32);
}

/// An identifier drawn at random is never the nil identifier.
pub proof fn lemma_random_id_not_nil(id: u128)
    requires
        is_random_id(id),
    ensures
        id != 0,
{
    assert(id & 0x0000_0000_0000_f000_c000_0000_0000_0000u128
        == 0x0000_0000_0000_4000_8000_0000_0000_0000u128 ==> id != 0) by (bit_vector);
}

} // verus!
