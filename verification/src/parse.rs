use vstd::prelude::*;

use crate::address::{parse_address, spec_parse_address};
use crate::amount::{parse_amount_hex, spec_parse_amount_hex, U256};
use crate::constants;
use crate::currency::{spec_currency_from_raw_id, Currency};
use crate::error::{ParseError, ParseErrorView};
use crate::link::{ChainId, LinkView, ParsedLink};
use crate::text::str_eq;
use crate::url_parts::{opt_str_view, pairs_view, url_parse, whatwg_url_parse, UrlParts};

verus! {

/// The value of the last pair whose key is `key`: when a parameter is
/// repeated, the later occurrence wins.
pub open spec fn last_value(pairs: Seq<(Seq<char>, Seq<char>)>, key: Seq<char>) -> Option<
    Seq<char>,
>
    decreases pairs.len(),
{
    if pairs.len() == 0 {
        None
    } else if pairs.last().0 == key {
        Some(pairs.last().1)
    } else {
        last_value(pairs.drop_last(), key)
    }
}

/// The view of a parse result.
pub open spec fn link_result_view(r: Result<ParsedLink, ParseError>) -> Result<
    LinkView,
    ParseErrorView,
> {
    match r {
        Ok(l) => Ok(l@),
        Err(e) => Err(e@),
    }
}

/// What the link parser answers for a URL with the given host and query
/// pairs. The checks come in this order: host, `to` present,
/// `master_currency_id` present, currency supported, address, amount.
pub open spec fn spec_link_from_parts(
    host: Option<Seq<char>>,
    pairs: Seq<(Seq<char>, Seq<char>)>,
) -> Result<LinkView, ParseErrorView> {
    match host {
        None => Err(ParseErrorView::UnsupportedHost { host: Seq::empty() }),
        Some(h) => if h != constants::EXPECTED_HOST@ {
            Err(ParseErrorView::UnsupportedHost { host: h })
        } else {
            match last_value(pairs, "to"@) {
                None => Err(ParseErrorView::MissingParam { name: "to"@ }),
                Some(to_raw) => match last_value(pairs, "master_currency_id"@) {
                    None => Err(ParseErrorView::MissingParam { name: "master_currency_id"@ }),
                    Some(currency_raw) => match spec_currency_from_raw_id(currency_raw) {
                        Err(e) => Err(e),
                        Ok(currency) => match spec_parse_address(to_raw) {
                            Err(e) => Err(e),
                            Ok(to) => match spec_amount_param(pairs) {
                                Err(e) => Err(e),
                                Ok(amount) => Ok(
                                    LinkView {
                                        to,
                                        currency,
                                        chain_id: constants::POLYGON_CHAIN_ID,
                                        amount,
                                        to_name: last_value(pairs, "to_name"@),
                                        link_type: last_value(pairs, "type"@),
                                    },
                                ),
                            },
                        },
                    },
                },
            }
        },
    }
}

/// The optional amount: absent when there is no `amount` parameter, else the
/// decoded value or the decoding error.
pub open spec fn spec_amount_param(pairs: Seq<(Seq<char>, Seq<char>)>) -> Result<
    Option<nat>,
    ParseErrorView,
> {
    match last_value(pairs, "amount"@) {
        None => Ok(None),
        Some(raw) => match spec_parse_amount_hex(raw) {
            Ok(v) => Ok(Some(v)),
            Err(e) => Err(e),
        },
    }
}

/// What `parse` answers for `input`.
pub open spec fn spec_parse(input: Seq<char>) -> Result<LinkView, ParseErrorView> {
    match whatwg_url_parse(input) {
        Err(m) => Err(ParseErrorView::InvalidUrl { message: m }),
        Ok(p) => spec_link_from_parts(p.0, p.1),
    }
}

/// The five query keys of the link format are different texts.
pub(crate) proof fn lemma_known_keys_distinct()
    ensures
        "to"@ != "master_currency_id"@,
        "to"@ != "amount"@,
        "to"@ != "to_name"@,
        "to"@ != "type"@,
        "master_currency_id"@ != "amount"@,
        "master_currency_id"@ != "to_name"@,
        "master_currency_id"@ != "type"@,
        "amount"@ != "to_name"@,
        "amount"@ != "type"@,
        "to_name"@ != "type"@,
{
    reveal_strlit("to");
    reveal_strlit("master_currency_id");
    reveal_strlit("amount");
    reveal_strlit("to_name");
    reveal_strlit("type");
    assert("to"@.len() == 2);
    assert("master_currency_id"@.len() == 18);
    assert("amount"@.len() == 6);
    assert("to_name"@.len() == 7);
    assert("type"@.len() == 4);
}

proof fn lemma_last_value_step(pairs: Seq<(Seq<char>, Seq<char>)>, i: int, key: Seq<char>)
    requires
        0 <= i < pairs.len(),
    ensures
        last_value(pairs.take(i + 1), key) == (if pairs[i].0 == key {
            Some(pairs[i].1)
        } else {
            last_value(pairs.take(i), key)
        }),
{
    assert(pairs.take(i + 1).drop_last() =~= pairs.take(i));
}

/// Breaks an already parsed URL into a payment link: checks the host, takes
/// the last value of each known query parameter, ignores unknown ones, and
/// decodes the currency, address and amount.
pub fn parse_url_parts(parts: &UrlParts) -> (res: Result<ParsedLink, ParseError>)
    ensures
        link_result_view(res) == spec_link_from_parts(parts@.host, parts@.query),
{
    let host = match &parts.host {
        None => {
            return Err(ParseError::UnsupportedHost { host: String::new() });
        },
        Some(h) => h,
    };
    if !str_eq(host.as_str(), constants::EXPECTED_HOST) {
        return Err(ParseError::UnsupportedHost { host: host.clone() });
    }
    let ghost pairs = parts@.query;
    let mut to_raw: Option<String> = None;
    let mut currency_raw: Option<String> = None;
    let mut amount_raw: Option<String> = None;
    let mut to_name: Option<String> = None;
    let mut link_type: Option<String> = None;
    let n = parts.query.len();
    let mut i: usize = 0;
    while i < n
        invariant
            n == parts.query.len(),
            pairs == pairs_view(parts.query@),
            0 <= i <= n,
            opt_str_view(to_raw) == last_value(pairs.take(i as int), "to"@),
            opt_str_view(currency_raw) == last_value(pairs.take(i as int), "master_currency_id"@),
            opt_str_view(amount_raw) == last_value(pairs.take(i as int), "amount"@),
            opt_str_view(to_name) == last_value(pairs.take(i as int), "to_name"@),
            opt_str_view(link_type) == last_value(pairs.take(i as int), "type"@),
        decreases n - i,
    {
        let k = parts.query[i].0.as_str();
        let v = &parts.query[i].1;
        proof {
            assert(pairs[i as int] == (k@, v@));
            lemma_known_keys_distinct();
            lemma_last_value_step(pairs, i as int, "to"@);
            lemma_last_value_step(pairs, i as int, "master_currency_id"@);
            lemma_last_value_step(pairs, i as int, "amount"@);
            lemma_last_value_step(pairs, i as int, "to_name"@);
            lemma_last_value_step(pairs, i as int, "type"@);
        }
        if str_eq(k, "to") {
            to_raw = Some(v.clone());
        } else if str_eq(k, "master_currency_id") {
            currency_raw = Some(v.clone());
        } else if str_eq(k, "amount") {
            amount_raw = Some(v.clone());
        } else if str_eq(k, "to_name") {
            to_name = Some(v.clone());
        } else if str_eq(k, "type") {
            link_type = Some(v.clone());
        }
        i = i + 1;
    }
    proof {
        assert(pairs.take(n as int) =~= pairs);
    }
    let to_raw = match to_raw {
        Some(s) => s,
        None => {
            return Err(ParseError::MissingParam { name: "to" });
        },
    };
    let currency_raw = match currency_raw {
        Some(s) => s,
        None => {
            return Err(ParseError::MissingParam { name: "master_currency_id" });
        },
    };
    let currency = match Currency::from_raw_id(currency_raw.as_str()) {
        Ok(c) => c,
        Err(e) => {
            return Err(e);
        },
    };
    let to = match parse_address(to_raw.as_str()) {
        Ok(a) => a,
        Err(e) => {
            return Err(e);
        },
    };
    let amount: Option<U256> = match &amount_raw {
        None => None,
        Some(raw) => match parse_amount_hex(raw.as_str()) {
            Ok(v) => Some(v),
            Err(e) => {
                return Err(e);
            },
        },
    };
    Ok(ParsedLink { to, currency, chain_id: ChainId::polygon(), amount, to_name, link_type })
}

/// Parses a wallet payment link into its parts. The steps run in order (URL
/// syntax, host, query, currency, address, amount) and the first failure is
/// returned.
pub fn parse(input: &str) -> (res: Result<ParsedLink, ParseError>)
    ensures
        link_result_view(res) == spec_parse(input@),
{
    match url_parse(input) {
        Err(m) => Err(ParseError::InvalidUrl { message: m }),
        Ok(parts) => parse_url_parts(&parts),
    }
}

} // verus!
