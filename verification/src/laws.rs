use vstd::prelude::*;

use crate::address::{spec_address_from_str, spec_parse_address, spec_validate_checksum, decode_hex_40};
use crate::amount::{hex_digits_value, radix16_parses, spec_parse_amount_hex, u256_modulus, is_radix16_char};
use crate::constants;
use crate::decimal::lower_hex_digits;
use crate::error::ParseErrorView;
use crate::hex::{has_hex_prefix, hex_nibble, is_hex_digit, lower_hex_char, strip_hex_prefix};
use crate::link::LinkView;
use crate::parse::{last_value, lemma_known_keys_distinct, spec_link_from_parts, spec_parse};
use crate::url_parts::whatwg_url_parse;

verus! {

/// The value of a successful amount decoding, if any.
pub open spec fn amount_value(r: Result<nat, ParseErrorView>) -> Option<nat> {
    match r {
        Ok(v) => Some(v),
        Err(_) => None,
    }
}

/// ASCII lower-casing of one character.
pub open spec fn ascii_lower_char(c: char) -> char {
    if 'A' <= c && c <= 'Z' {
        (c as nat + 32) as char
    } else {
        c
    }
}

/// ASCII lower-casing of a text.
pub open spec fn ascii_lower(s: Seq<char>) -> Seq<char> {
    s.map_values(|c: char| ascii_lower_char(c))
}

proof fn lemma_lower_char_hex(c: char)
    ensures
        is_hex_digit(ascii_lower_char(c)) == is_hex_digit(c),
        is_hex_digit(c) ==> hex_nibble(ascii_lower_char(c)) == hex_nibble(c),
{
    if 'A' <= c && c <= 'Z' {
        let l = ascii_lower_char(c);
        assert(l as nat == c as nat + 32);
    }
}

/// An amount decodes to the same value with or without a `0x` or `0X`
/// prefix (for a value that does not itself start with such a prefix).
pub proof fn law_amount_prefix_optional(s: Seq<char>)
    requires
        !has_hex_prefix(s),
    ensures
        amount_value(spec_parse_amount_hex(seq!['0', 'x'] + s)) == amount_value(
            spec_parse_amount_hex(s),
        ),
        amount_value(spec_parse_amount_hex(seq!['0', 'X'] + s)) == amount_value(
            spec_parse_amount_hex(s),
        ),
{
    assert(strip_hex_prefix(seq!['0', 'x'] + s) =~= s);
    assert(strip_hex_prefix(seq!['0', 'X'] + s) =~= s);
}

/// An empty amount, or a bare prefix, is refused: it is never read as zero.
pub proof fn law_empty_amount_refused()
    ensures
        spec_parse_amount_hex(Seq::<char>::empty()) is Err,
        spec_parse_amount_hex(seq!['0', 'x']) is Err,
        spec_parse_amount_hex(seq!['0', 'X']) is Err,
{
    assert(strip_hex_prefix(seq!['0', 'x']) =~= Seq::<char>::empty());
    assert(strip_hex_prefix(seq!['0', 'X']) =~= Seq::<char>::empty());
}

proof fn lemma_lower_hex_digits(n: nat)
    ensures
        hex_digits_value(lower_hex_digits(n)) == n,
        lower_hex_digits(n).len() > 0,
        forall|i: int|
            0 <= i < lower_hex_digits(n).len() ==> is_hex_digit(#[trigger] lower_hex_digits(n)[i]),
    decreases n,
{
    let d = n % 16;
    assert(is_hex_digit(lower_hex_char(d)) && hex_nibble(lower_hex_char(d)) == d);
    assert(lower_hex_char(d) != '_');
    vstd::arithmetic::div_mod::lemma_fundamental_div_mod(n as int, 16);
    if n < 16 {
        let s = lower_hex_digits(n);
        assert(s.drop_last() =~= Seq::<char>::empty());
        assert(s.last() == lower_hex_char(n));
        assert(n % 16 == n);
        assert(hex_digits_value(s) == hex_digits_value(s.drop_last()) * 16 + hex_nibble(s.last()));
    } else {
        lemma_lower_hex_digits(n / 16);
        let p = lower_hex_digits(n / 16);
        let s = lower_hex_digits(n);
        assert(s.drop_last() =~= p);
        assert(s.last() == lower_hex_char(d));
        assert(hex_digits_value(s) == hex_digits_value(p) * 16 + hex_nibble(lower_hex_char(d)));
        assert forall|i: int| 0 <= i < s.len() implies is_hex_digit(#[trigger] s[i]) by {
            if i < p.len() {
                assert(s[i] == p[i]);
            }
        }
    }
}

/// The `0x`-prefixed hex rendering of an amount (`U256::to_hex_string`)
/// decodes back to the same amount.
pub proof fn law_hex_rendering_round_trips(n: nat)
    requires
        n < u256_modulus(),
    ensures
        spec_parse_amount_hex(seq!['0', 'x'] + lower_hex_digits(n)) == Ok::<nat, ParseErrorView>(
            n,
        ),
{
    lemma_lower_hex_digits(n);
    let l = lower_hex_digits(n);
    assert(strip_hex_prefix(seq!['0', 'x'] + l) =~= l);
    assert forall|i: int| 0 <= i < l.len() implies is_radix16_char(#[trigger] l[i]) by {}
    assert(radix16_parses(l));
}

/// An address parses the same with or without a `0x` or `0X` prefix (for a
/// text that does not itself start with such a prefix).
pub proof fn law_address_prefix_optional(h: Seq<char>)
    requires
        !has_hex_prefix(h),
    ensures
        spec_address_from_str(seq!['0', 'x'] + h) == spec_address_from_str(h),
        spec_address_from_str(seq!['0', 'X'] + h) == spec_address_from_str(h),
{
    assert(strip_hex_prefix(seq!['0', 'x'] + h) =~= h);
    assert(strip_hex_prefix(seq!['0', 'X'] + h) =~= h);
}

/// Lenient address parsing ignores the case of the digits and of the prefix.
pub proof fn law_address_case_insensitive(s: Seq<char>)
    ensures
        spec_address_from_str(ascii_lower(s)) == spec_address_from_str(s),
{
    let l = ascii_lower(s);
    let h = strip_hex_prefix(s);
    let hl = strip_hex_prefix(l);
    assert(hl =~= ascii_lower(h));
    assert forall|i: int| 0 <= i < h.len() implies is_hex_digit(#[trigger] hl[i]) == is_hex_digit(
        h[i],
    ) && (is_hex_digit(h[i]) ==> hex_nibble(hl[i]) == hex_nibble(h[i])) by {
        assert(hl[i] == ascii_lower_char(h[i]));
        lemma_lower_char_hex(h[i]);
    }
    if h.len() == 40 && (forall|i: int| 0 <= i < 40 ==> is_hex_digit(#[trigger] h[i])) {
        assert forall|i: int| 0 <= i < 40 implies is_hex_digit(#[trigger] hl[i]) by {
            assert(is_hex_digit(hl[i]) == is_hex_digit(h[i]));
        }
        assert forall|i: int| 0 <= i < 20 implies #[trigger] decode_hex_40(hl)[i] == decode_hex_40(
            h,
        )[i] by {
            assert(hex_nibble(hl[2 * i]) == hex_nibble(h[2 * i]));
            assert(hex_nibble(hl[2 * i + 1]) == hex_nibble(h[2 * i + 1]));
        }
        assert(decode_hex_40(hl) =~= decode_hex_40(h));
    } else if hl.len() == 40 && (forall|i: int| 0 <= i < 40 ==> is_hex_digit(#[trigger] hl[i])) {
        assert forall|i: int| 0 <= i < 40 implies is_hex_digit(#[trigger] h[i]) by {
            assert(is_hex_digit(hl[i]) == is_hex_digit(h[i]));
        }
    }
}

/// Whatever strict checksum validation accepts, lenient parsing accepts too,
/// as the same address.
pub proof fn law_checksummed_is_lenient(s: Seq<char>)
    ensures
        spec_validate_checksum(s) is Ok ==> spec_parse_address(s) == spec_validate_checksum(s),
{
}

/// Appending a pair makes its value the one seen for its key.
pub proof fn law_last_occurrence_wins(
    pairs: Seq<(Seq<char>, Seq<char>)>,
    key: Seq<char>,
    value: Seq<char>,
)
    ensures
        last_value(pairs.push((key, value)), key) == Some(value),
{
    assert(pairs.push((key, value)).drop_last() =~= pairs);
}

proof fn lemma_push_other_key(
    pairs: Seq<(Seq<char>, Seq<char>)>,
    k: Seq<char>,
    v: Seq<char>,
    key: Seq<char>,
)
    requires
        k != key,
    ensures
        last_value(pairs.push((k, v)), key) == last_value(pairs, key),
{
    assert(pairs.push((k, v)).drop_last() =~= pairs);
}

/// When a query parameter is repeated, the earlier occurrence has no effect
/// on the parsed link: the later one wins.
pub proof fn law_repeated_param_later_wins(
    host: Option<Seq<char>>,
    pairs: Seq<(Seq<char>, Seq<char>)>,
    key: Seq<char>,
    first: Seq<char>,
    second: Seq<char>,
)
    ensures
        spec_link_from_parts(host, pairs.push((key, first)).push((key, second)))
            == spec_link_from_parts(host, pairs.push((key, second))),
{
    let a = pairs.push((key, first)).push((key, second));
    let b = pairs.push((key, second));
    assert forall|k: Seq<char>| #[trigger] last_value(a, k) == last_value(b, k) by {
        assert(a.drop_last() =~= pairs.push((key, first)));
        assert(b.drop_last() =~= pairs);
        if k != key {
            lemma_push_other_key(pairs, key, first, k);
        }
    }
    assert(last_value(a, "to"@) == last_value(b, "to"@));
    assert(last_value(a, "master_currency_id"@) == last_value(b, "master_currency_id"@));
    assert(last_value(a, "amount"@) == last_value(b, "amount"@));
    assert(last_value(a, "to_name"@) == last_value(b, "to_name"@));
    assert(last_value(a, "type"@) == last_value(b, "type"@));
}

/// A query parameter with a key that the link format does not use is
/// ignored.
pub proof fn law_unknown_param_ignored(
    host: Option<Seq<char>>,
    pairs: Seq<(Seq<char>, Seq<char>)>,
    key: Seq<char>,
    value: Seq<char>,
)
    requires
        key != "to"@,
        key != "master_currency_id"@,
        key != "amount"@,
        key != "to_name"@,
        key != "type"@,
    ensures
        spec_link_from_parts(host, pairs.push((key, value))) == spec_link_from_parts(host, pairs),
{
    lemma_push_other_key(pairs, key, value, "to"@);
    lemma_push_other_key(pairs, key, value, "master_currency_id"@);
    lemma_push_other_key(pairs, key, value, "amount"@);
    lemma_push_other_key(pairs, key, value, "to_name"@);
    lemma_push_other_key(pairs, key, value, "type"@);
}

/// A link is accepted only when its URL parses and its host is exactly the
/// wallet's link host (no suffix matching).
pub proof fn law_accepted_only_with_expected_host(input: Seq<char>)
    ensures
        spec_parse(input) is Ok ==> whatwg_url_parse(input) is Ok && whatwg_url_parse(
            input,
        )->Ok_0.0 == Some(constants::EXPECTED_HOST@),
{
}

/// Every accepted link is on Polygon and carries an address that parses from
/// its `to` parameter.
pub proof fn law_accepted_link_shape(
    host: Option<Seq<char>>,
    pairs: Seq<(Seq<char>, Seq<char>)>,
)
    ensures
        spec_link_from_parts(host, pairs) is Ok ==> {
            let l: LinkView = spec_link_from_parts(host, pairs)->Ok_0;
            &&& l.chain_id == constants::POLYGON_CHAIN_ID
            &&& last_value(pairs, "to"@) is Some
            &&& spec_parse_address(last_value(pairs, "to"@)->Some_0) == Ok::<
                Seq<u8>,
                ParseErrorView,
            >(l.to)
        },
{
}

/// The link a parse result accepts, if any.
pub open spec fn accepted_link(r: Result<LinkView, ParseErrorView>) -> Option<LinkView> {
    match r {
        Ok(l) => Some(l),
        Err(_) => None,
    }
}

proof fn lemma_amount_param_prefix(
    host: Option<Seq<char>>,
    pairs: Seq<(Seq<char>, Seq<char>)>,
    s: Seq<char>,
    p: Seq<char>,
)
    requires
        !has_hex_prefix(s),
        amount_value(spec_parse_amount_hex(p + s)) == amount_value(spec_parse_amount_hex(s)),
    ensures
        accepted_link(spec_link_from_parts(host, pairs.push(("amount"@, p + s)))) == accepted_link(
            spec_link_from_parts(host, pairs.push(("amount"@, s))),
        ),
{
    let a = pairs.push(("amount"@, p + s));
    let b = pairs.push(("amount"@, s));
    lemma_known_keys_distinct();
    law_last_occurrence_wins(pairs, "amount"@, p + s);
    law_last_occurrence_wins(pairs, "amount"@, s);
    lemma_push_other_key(pairs, "amount"@, p + s, "to"@);
    lemma_push_other_key(pairs, "amount"@, s, "to"@);
    lemma_push_other_key(pairs, "amount"@, p + s, "master_currency_id"@);
    lemma_push_other_key(pairs, "amount"@, s, "master_currency_id"@);
    lemma_push_other_key(pairs, "amount"@, p + s, "to_name"@);
    lemma_push_other_key(pairs, "amount"@, s, "to_name"@);
    lemma_push_other_key(pairs, "amount"@, p + s, "type"@);
    lemma_push_other_key(pairs, "amount"@, s, "type"@);
}

/// At the level of a whole link: whether the last `amount` parameter carries
/// a `0x` or `0X` prefix or not, the link is accepted or refused alike, and
/// an accepted link is the same (for a value that does not itself start with
/// such a prefix).
pub proof fn law_link_amount_prefix_optional(
    host: Option<Seq<char>>,
    pairs: Seq<(Seq<char>, Seq<char>)>,
    s: Seq<char>,
)
    requires
        !has_hex_prefix(s),
    ensures
        accepted_link(spec_link_from_parts(host, pairs.push(("amount"@, seq!['0', 'x'] + s))))
            == accepted_link(spec_link_from_parts(host, pairs.push(("amount"@, s)))),
        accepted_link(spec_link_from_parts(host, pairs.push(("amount"@, seq!['0', 'X'] + s))))
            == accepted_link(spec_link_from_parts(host, pairs.push(("amount"@, s)))),
{
    law_amount_prefix_optional(s);
    lemma_amount_param_prefix(host, pairs, s, seq!['0', 'x']);
    lemma_amount_param_prefix(host, pairs, s, seq!['0', 'X']);
}

} // verus!
