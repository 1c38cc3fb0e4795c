use vstd::prelude::*;

use crate::address::{eip55_checksum, spec_address_from_str};
use crate::amount::{hex_digits_value, u256_modulus};
use crate::hex::strip_hex_prefix;
use crate::currency::{spec_currency_from_raw_id, Currency};
use crate::decimal::{decimal_char, decimal_digits};
use crate::error::ParseErrorView;
use crate::link::{spec_eip681, LinkView};
use crate::parse::{last_value, spec_link_from_parts};

verus! {

/// A non-empty run of ASCII decimal digits.
pub open spec fn is_decimal_numeral(s: Seq<char>) -> bool {
    s.len() > 0 && forall|i: int| 0 <= i < s.len() ==> '0' <= #[trigger] s[i] && s[i] <= '9'
}

/// The number a run of decimal digits denotes, most significant digit first.
pub open spec fn decimal_value(s: Seq<char>) -> nat
    decreases s.len(),
{
    if s.len() == 0 {
        0
    } else {
        decimal_value(s.drop_last()) * 10 + (s.last() as nat - '0' as nat) as nat
    }
}

proof fn lemma_decimal_digits_read_back(n: nat)
    ensures
        is_decimal_numeral(decimal_digits(n)),
        decimal_value(decimal_digits(n)) == n,
    decreases n,
{
    let d = n % 10;
    assert(decimal_char(d) as nat - '0' as nat == d);
    vstd::arithmetic::div_mod::lemma_fundamental_div_mod(n as int, 10);
    let s = decimal_digits(n);
    if n < 10 {
        assert(s.drop_last() =~= Seq::<char>::empty());
        assert(s.last() == decimal_char(n));
        assert(n % 10 == n);
        assert(decimal_value(s) == decimal_value(s.drop_last()) * 10 + (s.last() as nat - '0' as nat) as nat);
    } else {
        lemma_decimal_digits_read_back(n / 10);
        let p = decimal_digits(n / 10);
        assert(s.drop_last() =~= p);
        assert(s.last() == decimal_char(d));
        assert(decimal_value(s) == decimal_value(p) * 10 + (decimal_char(d) as nat - '0' as nat) as nat);
        assert forall|i: int| 0 <= i < s.len() implies '0' <= #[trigger] s[i] && s[i] <= '9' by {
            if i < p.len() {
                assert(s[i] == p[i]);
            }
        }
    }
}

/// The same link without its amount.
pub open spec fn without_amount(l: LinkView) -> LinkView {
    LinkView {
        to: l.to,
        currency: l.currency,
        chain_id: l.chain_id,
        amount: None,
        to_name: l.to_name,
        link_type: l.link_type,
    }
}

/// With an amount, the EIP-681 URI is the URI without the amount followed by
/// `&uint256=` and a run of decimal digits that, read back as a number, is
/// exactly the whole amount (of any size).
pub proof fn law_eip681_amount_reads_back(l: LinkView, a: nat)
    requires
        l.amount == Some(a),
    ensures
        ({
            let base = spec_eip681(without_amount(l));
            let u = spec_eip681(l);
            let k = base.len() + "&uint256="@.len();
            &&& k < u.len()
            &&& u.subrange(0, base.len() as int) == base
            &&& u.subrange(base.len() as int, k as int) == "&uint256="@
            &&& is_decimal_numeral(u.subrange(k as int, u.len() as int))
            &&& decimal_value(u.subrange(k as int, u.len() as int)) == a
        }),
{
    let base = spec_eip681(without_amount(l));
    let u = spec_eip681(l);
    let k = base.len() + "&uint256="@.len();
    lemma_decimal_digits_read_back(a);
    assert(u =~= base + "&uint256="@ + decimal_digits(a));
    assert(u.subrange(0, base.len() as int) =~= base);
    assert(u.subrange(base.len() as int, k as int) =~= "&uint256="@);
    assert(u.subrange(k as int, u.len() as int) =~= decimal_digits(a));
}

/// Without an amount, the EIP-681 URI ends with the payee's checksum
/// rendering: no `uint256=` parameter follows it.
pub proof fn law_eip681_without_amount_ends_with_payee(l: LinkView)
    requires
        l.amount is None,
    ensures
        ({
            let u = spec_eip681(l);
            let p = eip55_checksum(l.to);
            p.len() <= u.len() && u.subrange(u.len() - p.len(), u.len() as int) == p
        }),
{
    let u = spec_eip681(l);
    let p = eip55_checksum(l.to);
    assert(u.subrange(u.len() - p.len(), u.len() as int) =~= p);
}

/// The JPYC currency id, spelled out.
pub open spec fn jpyc_id_text() -> Seq<char> {
    seq!['4', '8', '7']
}

/// A raw currency id is accepted exactly when it is the text `487`; it is
/// then JPYC, and otherwise the error carries the raw id unchanged.
pub proof fn law_currency_id_exact(raw: Seq<char>)
    ensures
        spec_currency_from_raw_id(raw) is Ok <==> raw == jpyc_id_text(),
        spec_currency_from_raw_id(raw) is Ok ==> spec_currency_from_raw_id(raw)->Ok_0
            == Currency::Jpyc,
        spec_currency_from_raw_id(raw) is Err ==> spec_currency_from_raw_id(raw)->Err_0
            == (ParseErrorView::UnsupportedCurrency { id: raw }),
{
    reveal_strlit("487");
    assert(crate::constants::JPYC_MASTER_CURRENCY_ID@ =~= jpyc_id_text());
}

/// `last_value` described by positions: it is absent exactly when no pair has
/// the key, and otherwise it is the value of a pair with the key after which
/// no pair has the key.
pub proof fn lemma_last_value_positions(pairs: Seq<(Seq<char>, Seq<char>)>, key: Seq<char>)
    ensures
        last_value(pairs, key) is None <==> (forall|i: int|
            0 <= i < pairs.len() ==> (#[trigger] pairs[i]).0 != key),
        last_value(pairs, key) is Some ==> exists|j: int|
            0 <= j < pairs.len() && #[trigger] pairs[j] == (key, last_value(pairs, key)->Some_0)
                && forall|m: int| j < m < pairs.len() ==> (#[trigger] pairs[m]).0 != key,
    decreases pairs.len(),
{
    if pairs.len() > 0 {
        let p = pairs.drop_last();
        lemma_last_value_positions(p, key);
        let n = pairs.len() - 1;
        if pairs.last().0 == key {
            assert(pairs[n] == (key, last_value(pairs, key)->Some_0));
        } else {
            assert forall|i: int| 0 <= i < p.len() implies (#[trigger] pairs[i]) == p[i] by {}
            if last_value(pairs, key) is Some {
                let j = choose|j: int|
                    0 <= j < p.len() && #[trigger] p[j] == (key, last_value(p, key)->Some_0)
                        && forall|m: int| j < m < p.len() ==> (#[trigger] p[m]).0 != key;
                assert(pairs[j] == p[j]);
                assert forall|m: int| j < m < pairs.len() implies (#[trigger] pairs[m]).0 != key by {
                    if m < n {
                        assert(pairs[m] == p[m]);
                    }
                }
            } else {
                assert forall|i: int| 0 <= i < pairs.len() implies (#[trigger] pairs[i]).0 != key by {
                    if i < n {
                        assert(pairs[i] == p[i]);
                    }
                }
            }
        }
    }
}

/// For an accepted link, the field read from query key `key` is absent
/// exactly when no query pair has that key, and otherwise is the value of a
/// pair with that key after which no pair has it (whatever other pairs are
/// present).
pub open spec fn field_is_last_occurrence(
    field: Option<Seq<char>>,
    pairs: Seq<(Seq<char>, Seq<char>)>,
    key: Seq<char>,
) -> bool {
    &&& field is None <==> (forall|i: int| 0 <= i < pairs.len() ==> (#[trigger] pairs[i]).0 != key)
    &&& field matches Some(v) ==> exists|j: int|
        0 <= j < pairs.len() && #[trigger] pairs[j] == (key, v) && forall|m: int|
            j < m < pairs.len() ==> (#[trigger] pairs[m]).0 != key
}

/// `j` is the position of the last pair with key `key`.
pub open spec fn is_last_pair_at(pairs: Seq<(Seq<char>, Seq<char>)>, key: Seq<char>, j: int) -> bool {
    &&& 0 <= j < pairs.len()
    &&& pairs[j].0 == key
    &&& forall|m: int| j < m < pairs.len() ==> (#[trigger] pairs[m]).0 != key
}

/// Every accepted link is on chain 137; its payee is the address that the
/// last `to` pair spells; its amount is absent exactly when there is no
/// `amount` pair, and otherwise is the hexadecimal value, below 2^256, of the
/// last `amount` pair with its prefix removed.
pub proof fn law_accepted_link_payee_and_amount(
    host: Option<Seq<char>>,
    pairs: Seq<(Seq<char>, Seq<char>)>,
)
    ensures
        spec_link_from_parts(host, pairs) is Ok ==> {
            let l = spec_link_from_parts(host, pairs)->Ok_0;
            &&& l.chain_id == 137
            &&& exists|j: int|
                is_last_pair_at(pairs, "to"@, j) && spec_address_from_str(#[trigger] pairs[j].1)
                    == Some(l.to)
            &&& l.amount is None <==> (forall|i: int|
                0 <= i < pairs.len() ==> (#[trigger] pairs[i]).0 != "amount"@)
            &&& l.amount matches Some(a) ==> a < u256_modulus() && exists|j: int|
                is_last_pair_at(pairs, "amount"@, j) && hex_digits_value(
                    strip_hex_prefix(#[trigger] pairs[j].1),
                ) == a
        },
{
    lemma_last_value_positions(pairs, "to"@);
    lemma_last_value_positions(pairs, "amount"@);
    if spec_link_from_parts(host, pairs) is Ok {
        let l = spec_link_from_parts(host, pairs)->Ok_0;
        let t = last_value(pairs, "to"@)->Some_0;
        let j = choose|j: int|
            0 <= j < pairs.len() && #[trigger] pairs[j] == ("to"@, t) && forall|m: int|
                j < m < pairs.len() ==> (#[trigger] pairs[m]).0 != "to"@;
        assert(is_last_pair_at(pairs, "to"@, j));
        assert(spec_address_from_str(pairs[j].1) == Some(l.to));
        assert(l.chain_id == 137);
        if last_value(pairs, "amount"@) is Some {
            let r = last_value(pairs, "amount"@)->Some_0;
            let k = choose|k: int|
                0 <= k < pairs.len() && #[trigger] pairs[k] == ("amount"@, r) && forall|m: int|
                    k < m < pairs.len() ==> (#[trigger] pairs[m]).0 != "amount"@;
            assert(is_last_pair_at(pairs, "amount"@, k));
            assert(pairs[k].1 == r);
            assert(l.amount == Some(hex_digits_value(strip_hex_prefix(r))));
            assert(hex_digits_value(strip_hex_prefix(r)) < u256_modulus());
        } else {
            assert(l.amount is None);
        }
    }
}

/// In every accepted link, `to_name` and `link_type` are the values of the
/// last `to_name` and `type` query pairs, independently of each other and of
/// all other pairs; each is `None` exactly when its key is absent. The
/// currency id that was accepted is the text `487`, as the last
/// `master_currency_id` pair.
pub proof fn law_accepted_link_fields_from_query(
    host: Option<Seq<char>>,
    pairs: Seq<(Seq<char>, Seq<char>)>,
)
    ensures
        spec_link_from_parts(host, pairs) is Ok ==> {
            let l = spec_link_from_parts(host, pairs)->Ok_0;
            &&& field_is_last_occurrence(l.to_name, pairs, "to_name"@)
            &&& field_is_last_occurrence(l.link_type, pairs, "type"@)
            &&& field_is_last_occurrence(
                Some(jpyc_id_text()),
                pairs,
                "master_currency_id"@,
            )
        },
{
    lemma_last_value_positions(pairs, "to_name"@);
    lemma_last_value_positions(pairs, "type"@);
    lemma_last_value_positions(pairs, "master_currency_id"@);
    if spec_link_from_parts(host, pairs) is Ok {
        let c = last_value(pairs, "master_currency_id"@);
        law_currency_id_exact(c->Some_0);
    }
}

} // verus!
