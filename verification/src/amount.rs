use vstd::prelude::*;

use crate::decimal::{decimal_digits, lower_hex_digits};
use crate::error::{ParseError, ParseErrorView};
use crate::hex::{hex_nibble, is_hex_digit, strip_hex_prefix, strip_hex_prefix_exec};

verus! {

/// 2^64.
pub open spec fn limb_base() -> nat {
    0x1_0000_0000_0000_0000nat
}

/// 2^256, one more than the largest 256-bit unsigned integer.
pub open spec fn u256_modulus() -> nat {
    0x1_0000_0000_0000_0000_0000_0000_0000_0000_0000_0000_0000_0000_0000_0000_0000_0000_0000_0000_0000_0000nat
}

/// A 256-bit unsigned integer, as four 64-bit limbs, least significant first.
#[derive(Debug, Clone, Copy, PartialEq, Eq, Hash)]
pub struct U256 {
    pub limbs: [u64; 4],
}

/// The number that four little-endian 64-bit limbs stand for.
pub open spec fn limbs_value(l: Seq<u64>) -> nat {
    l[0] as nat + limb_base() * (l[1] as nat + limb_base() * (l[2] as nat + limb_base() * (
    l[3] as nat)))
}

impl View for U256 {
    type V = nat;

    open spec fn view(&self) -> nat {
        limbs_value(self.limbs@)
    }
}

/// A character accepted by a radix-16 number: a hex digit or a `_` separator.
pub open spec fn is_radix16_char(c: char) -> bool {
    is_hex_digit(c) || c == '_'
}

/// The value of a radix-16 numeral, most significant digit first; `_`
/// separators are skipped.
pub open spec fn hex_digits_value(s: Seq<char>) -> nat
    decreases s.len(),
{
    if s.len() == 0 {
        0
    } else if s.last() == '_' {
        hex_digits_value(s.drop_last())
    } else {
        hex_digits_value(s.drop_last()) * 16 + hex_nibble(s.last())
    }
}

/// Whether `s` is a radix-16 numeral whose value fits in 256 bits.
pub open spec fn radix16_parses(s: Seq<char>) -> bool {
    &&& forall|i: int| 0 <= i < s.len() ==> is_radix16_char(#[trigger] s[i])
    &&& hex_digits_value(s) < u256_modulus()
}

/// The text of the error that `U256::from_str_radix(s, 16)` reports for an
/// input it refuses (an invalid digit, or a value too large).
pub uninterp spec fn radix16_error_message(s: Seq<char>) -> Seq<char>;

/// Calls `alloy_primitives::U256::from_str_radix(s, 16)` (ruint). By its
/// source and documentation: hex digits of either case are accepted, `_` is
/// skipped, any other character is an invalid digit, and a value of 2^256 or
/// more is an overflow; an empty input gives zero. The error's text is named
/// `radix16_error_message`.
#[verifier::external_body]
fn u256_from_hex_digits(s: &str) -> (res: Result<U256, String>)
    ensures
        match res {
            Ok(v) => radix16_parses(s@) && v@ == hex_digits_value(s@),
            Err(m) => !radix16_parses(s@) && m@ == radix16_error_message(s@),
        },
{
    match alloy_primitives::U256::from_str_radix(s, 16) {
        Ok(v) => Ok(U256 { limbs: v.into_limbs() }),
        Err(e) => Err(e.to_string()),
    }
}

/// Calls `Display` of `alloy_primitives::U256`: the decimal digits, without
/// leading zeros.
#[verifier::external_body]
fn u256_to_decimal(v: &U256) -> (res: String)
    ensures
        res@ == decimal_digits(v@),
{
    alloy_primitives::U256::from_limbs(v.limbs).to_string()
}

/// Calls `LowerHex` of `alloy_primitives::U256` with the `#` flag: `0x`
/// followed by the lower-case hex digits, without leading zeros.
#[verifier::external_body]
fn u256_to_prefixed_hex(v: &U256) -> (res: String)
    ensures
        res@ == seq!['0', 'x'] + lower_hex_digits(v@),
{
    format!("{:#x}", alloy_primitives::U256::from_limbs(v.limbs))
}

impl U256 {
    /// The decimal rendering, as `Display` prints it.
    pub fn to_string(&self) -> (res: String)
        ensures
            res@ == decimal_digits(self@),
    {
        u256_to_decimal(self)
    }

    /// The `0x`-prefixed lower-case hexadecimal rendering.
    pub fn to_hex_string(&self) -> (res: String)
        ensures
            res@ == seq!['0', 'x'] + lower_hex_digits(self@),
    {
        u256_to_prefixed_hex(self)
    }
}

/// What `parse_amount_hex` answers for the raw `amount` query value.
pub open spec fn spec_parse_amount_hex(raw: Seq<char>) -> Result<nat, ParseErrorView> {
    let t = strip_hex_prefix(raw);
    if t.len() == 0 {
        Err(ParseErrorView::InvalidAmount { value: raw, reason: "empty amount"@ })
    } else if radix16_parses(t) {
        Ok(hex_digits_value(t))
    } else {
        Err(ParseErrorView::InvalidAmount { value: raw, reason: radix16_error_message(t) })
    }
}

/// Decodes the `amount` query value: a hexadecimal 256-bit unsigned integer
/// with an optional `0x`/`0X` prefix. Digits without a prefix are still read
/// as hexadecimal, never as decimal. An empty value, or a bare prefix, is
/// refused rather than read as zero.
pub fn parse_amount_hex(raw: &str) -> (res: Result<U256, ParseError>)
    ensures
        match res {
            Ok(v) => spec_parse_amount_hex(raw@) == Ok::<nat, ParseErrorView>(v@),
            Err(e) => spec_parse_amount_hex(raw@) == Err::<nat, ParseErrorView>(e@),
        },
{
    let trimmed = strip_hex_prefix_exec(raw);
    if trimmed.unicode_len() == 0 {
        return Err(
            ParseError::InvalidAmount {
                value: String::from_str(raw),
                reason: String::from_str("empty amount"),
            },
        );
    }
    match u256_from_hex_digits(trimmed) {
        Ok(v) => Ok(v),
        Err(m) => Err(ParseError::InvalidAmount { value: String::from_str(raw), reason: m }),
    }
}

} // verus!
