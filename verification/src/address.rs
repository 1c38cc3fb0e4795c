use vstd::prelude::*;

use crate::error::{ParseError, ParseErrorView};
use crate::hex::{has_hex_prefix, hex_nibble, is_hex_digit, strip_hex_prefix};

verus! {

/// A 20-byte account address.
#[derive(Debug, Clone, Copy, PartialEq, Eq, Hash)]
pub struct Address {
    pub bytes: [u8; 20],
}

impl View for Address {
    type V = Seq<u8>;

    open spec fn view(&self) -> Seq<u8> {
        self.bytes@
    }
}

/// The `j`-th hexadecimal digit (most significant first) of `bytes`.
pub open spec fn nibble_at(bytes: Seq<u8>, j: int) -> nat {
    if j % 2 == 0 {
        (bytes[j / 2] / 16) as nat
    } else {
        (bytes[j / 2] % 16) as nat
    }
}

/// Decodes 40 hexadecimal digits into 20 bytes, most significant digit first.
pub open spec fn decode_hex_40(h: Seq<char>) -> Seq<u8> {
    Seq::new(20, |i: int| (hex_nibble(h[2 * i]) * 16 + hex_nibble(h[2 * i + 1])) as u8)
}

/// The lenient textual address syntax: an optional `0x`/`0X` prefix followed
/// by exactly 40 hexadecimal digits of either case.
pub open spec fn spec_address_from_str(s: Seq<char>) -> Option<Seq<u8>> {
    let h = strip_hex_prefix(s);
    if h.len() == 40 && (forall|i: int| 0 <= i < 40 ==> is_hex_digit(#[trigger] h[i])) {
        Some(decode_hex_40(h))
    } else {
        None
    }
}

/// The EIP-55 mixed-case checksum rendering (`0x` and 40 digits) of an
/// address. It depends on a Keccak-256 hash of the lower-case digits.
pub uninterp spec fn eip55_checksum(bytes: Seq<u8>) -> Seq<char>;

/// The strict syntax: `s` starts with `0x`, has the lenient syntax, and is
/// character for character the checksum rendering of the address it denotes.
pub open spec fn spec_checksummed(s: Seq<char>) -> Option<Seq<u8>> {
    if s.len() >= 2 && s[0] == '0' && s[1] == 'x' {
        match spec_address_from_str(s) {
            Some(b) => if s == eip55_checksum(b) {
                Some(b)
            } else {
                None
            },
            None => None,
        }
    } else {
        None
    }
}

/// What `parse_address` answers.
pub open spec fn spec_parse_address(raw: Seq<char>) -> Result<Seq<u8>, ParseErrorView> {
    match spec_address_from_str(raw) {
        Some(b) => Ok(b),
        None => Err(ParseErrorView::InvalidAddress { value: raw }),
    }
}

/// What `validate_checksum` answers.
pub open spec fn spec_validate_checksum(raw: Seq<char>) -> Result<Seq<u8>, ParseErrorView> {
    match spec_checksummed(raw) {
        Some(b) => Ok(b),
        None => Err(ParseErrorView::InvalidAddress { value: raw }),
    }
}

/// Calls `<alloy_primitives::Address as FromStr>::from_str`. By its source
/// (const-hex `decode_to_array`): one `0x`/`0X` prefix is stripped, then
/// exactly 40 hex digits of either case must remain, decoded two per byte.
/// The outside error value is dropped.
#[verifier::external_body]
fn address_from_str(raw: &str) -> (res: Option<Address>)
    ensures
        match res {
            Some(a) => spec_address_from_str(raw@) == Some(a@),
            None => spec_address_from_str(raw@) is None,
        },
{
    match <alloy_primitives::Address as core::str::FromStr>::from_str(raw) {
        Ok(a) => Some(Address { bytes: a.0.0 }),
        Err(_) => None,
    }
}

/// Calls `alloy_primitives::Address::to_checksum(None)`. The result is named
/// `eip55_checksum`; the source also shows that it is `0x` followed by the
/// 40 hex digits of the address, each letter only changed in case.
#[verifier::external_body]
fn address_checksum(a: &Address) -> (res: String)
    ensures
        res@ == eip55_checksum(a@),
        res@.len() == 42,
        res@[0] == '0',
        res@[1] == 'x',
        forall|j: int|
            0 <= j < 40 ==> is_hex_digit(#[trigger] res@[j + 2]) && hex_nibble(res@[j + 2])
                == nibble_at(a@, j),
{
    alloy_primitives::Address::from(a.bytes).to_checksum(None)
}

/// Calls `alloy_primitives::Address::parse_checksummed(raw, None)`. By its
/// source: the input must start with `0x`, parse with `FromStr`, and equal
/// the checksum rendering of the parsed address. The outside error is dropped.
#[verifier::external_body]
fn address_parse_checksummed(raw: &str) -> (res: Option<Address>)
    ensures
        match res {
            Some(a) => spec_checksummed(raw@) == Some(a@),
            None => spec_checksummed(raw@) is None,
        },
{
    match alloy_primitives::Address::parse_checksummed(raw, None) {
        Ok(a) => Some(Address { bytes: a.0.0 }),
        Err(_) => None,
    }
}

/// Decoding the checksum rendering of an address gives the address back.
proof fn lemma_checksum_decodes(a: Seq<u8>, s: Seq<char>)
    requires
        a.len() == 20,
        s.len() == 42,
        s[0] == '0',
        s[1] == 'x',
        forall|j: int|
            0 <= j < 40 ==> is_hex_digit(#[trigger] s[j + 2]) && hex_nibble(s[j + 2]) == nibble_at(
                a,
                j,
            ),
    ensures
        spec_address_from_str(s) == Some(a),
{
    let h = strip_hex_prefix(s);
    assert(h.len() == 40);
    assert forall|i: int| 0 <= i < 40 implies is_hex_digit(#[trigger] h[i]) by {
        assert(h[i] == s[i + 2]);
    }
    assert forall|i: int| 0 <= i < 20 implies #[trigger] decode_hex_40(h)[i] == a[i] by {
        assert(h[2 * i] == s[2 * i + 2]);
        assert(h[2 * i + 1] == s[(2 * i + 1) + 2]);
        assert(nibble_at(a, 2 * i) == a[i] / 16);
        assert(nibble_at(a, 2 * i + 1) == a[i] % 16);
    }
    assert(decode_hex_40(h) =~= a);
}

impl Address {
    /// The EIP-55 checksum rendering, as the address's `Display` prints it.
    /// It parses back, leniently and strictly, to the same address.
    pub fn to_string(&self) -> (res: String)
        ensures
            res@ == eip55_checksum(self@),
            spec_address_from_str(res@) == Some(self@),
            spec_validate_checksum(res@) == Ok::<Seq<u8>, ParseErrorView>(self@),
    {
        let s = address_checksum(self);
        proof {
            lemma_checksum_decodes(self@, s@);
        }
        s
    }
}

/// Lenient address parsing used by the link parser: the case of the digits
/// is not checked, and the `0x`/`0X` prefix is optional.
pub fn parse_address(raw: &str) -> (res: Result<Address, ParseError>)
    ensures
        match res {
            Ok(a) => spec_parse_address(raw@) == Ok::<Seq<u8>, ParseErrorView>(a@),
            Err(e) => spec_parse_address(raw@) == Err::<Seq<u8>, ParseErrorView>(e@),
        },
{
    match address_from_str(raw) {
        Some(a) => Ok(a),
        None => Err(ParseError::InvalidAddress { value: String::from_str(raw) }),
    }
}

/// Strict EIP-55 validation: `raw` must be exactly the checksum rendering of
/// the address it denotes. All-lower-case or all-upper-case spellings carry no
/// checksum and are refused unless they happen to equal that rendering.
pub fn validate_checksum(raw: &str) -> (res: Result<Address, ParseError>)
    ensures
        match res {
            Ok(a) => spec_validate_checksum(raw@) == Ok::<Seq<u8>, ParseErrorView>(a@),
            Err(e) => spec_validate_checksum(raw@) == Err::<Seq<u8>, ParseErrorView>(e@),
        },
{
    match address_parse_checksummed(raw) {
        Some(a) => Ok(a),
        None => Err(ParseError::InvalidAddress { value: String::from_str(raw) }),
    }
}

} // verus!
