use hpw_convert_eip681::{
    is_supported, parse, parse_address, parse_amount_hex, parse_url_parts, validate_checksum,
    Address, ChainId, Currency, ParseError, UrlParts, U256,
};

const CHECKSUM_ADDR: &str = "0x5aAeb6053F3E94C9b9A09f33669435E7Ef1BeAed";
const JPYC_ADDR: &str = "0xE7C3D8C9a439feDe00D2600032D5dB0Be71C3c29";

fn small(n: u64) -> U256 {
    U256 { limbs: [n, 0, 0, 0] }
}

fn link(query: &str) -> String {
    format!("https://link.expo2025-wallet.com/pay?{query}")
}

fn parts(host: Option<&str>, pairs: &[(&str, &str)]) -> UrlParts {
    UrlParts {
        host: host.map(|h| h.to_string()),
        query: pairs.iter().map(|(k, v)| (k.to_string(), v.to_string())).collect(),
    }
}

#[test]
fn currency_constants() {
    assert_eq!(Currency::Jpyc.decimals(), 18);
    assert_eq!(Currency::Jpyc.symbol(), "JPYC");
    assert_eq!(Currency::Jpyc.contract_address().to_string(), JPYC_ADDR);
    assert_eq!(ChainId::polygon(), ChainId(137));
}

#[test]
fn currency_from_raw_id() {
    assert_eq!(Currency::from_raw_id("487"), Ok(Currency::Jpyc));
    assert_eq!(
        Currency::from_raw_id("4870"),
        Err(ParseError::UnsupportedCurrency { id: "4870".to_string() })
    );
    assert_eq!(
        Currency::from_raw_id(""),
        Err(ParseError::UnsupportedCurrency { id: String::new() })
    );
}

#[test]
fn amount_hex_decoding_values() {
    assert_eq!(parse_amount_hex("0x3e8"), Ok(small(1000)));
    assert_eq!(parse_amount_hex("0X3E8"), Ok(small(1000)));
    assert_eq!(parse_amount_hex("3e8"), Ok(small(1000)));
    assert_eq!(parse_amount_hex("1000"), Ok(small(4096)));
    assert_eq!(parse_amount_hex("0"), Ok(small(0)));
    // `_` separators are skipped by the radix-16 reader.
    assert_eq!(parse_amount_hex("1_0"), Ok(small(16)));
    // 2^64 spills into the second limb.
    assert_eq!(
        parse_amount_hex("0x10000000000000000"),
        Ok(U256 { limbs: [0, 1, 0, 0] })
    );
    // The largest 256-bit value is accepted, one more is refused.
    assert_eq!(
        parse_amount_hex(&"f".repeat(64)),
        Ok(U256 { limbs: [u64::MAX; 4] })
    );
    assert!(matches!(
        parse_amount_hex(&format!("1{}", "0".repeat(64))),
        Err(ParseError::InvalidAmount { .. })
    ));
}

#[test]
fn amount_hex_errors() {
    assert_eq!(
        parse_amount_hex(""),
        Err(ParseError::InvalidAmount {
            value: String::new(),
            reason: "empty amount".to_string()
        })
    );
    assert_eq!(
        parse_amount_hex("0X"),
        Err(ParseError::InvalidAmount {
            value: "0X".to_string(),
            reason: "empty amount".to_string()
        })
    );
    // Only one prefix is stripped.
    match parse_amount_hex("0x0x1") {
        Err(ParseError::InvalidAmount { value, reason }) => {
            assert_eq!(value, "0x0x1");
            assert_eq!(reason, "invalid digit: x");
        }
        other => panic!("unexpected {other:?}"),
    }
    match parse_amount_hex(&"f".repeat(65)) {
        Err(ParseError::InvalidAmount { reason, .. }) => {
            assert_eq!(reason, "the value is too large to fit the target type")
        }
        other => panic!("unexpected {other:?}"),
    }
}

#[test]
fn amount_renderings() {
    let one_token = parse_amount_hex("de0b6b3a7640000").unwrap();
    assert_eq!(one_token.to_string(), "1000000000000000000");
    assert_eq!(one_token.to_hex_string(), "0xde0b6b3a7640000");
    assert_eq!(small(0).to_string(), "0");
    assert_eq!(small(0).to_hex_string(), "0x0");
    let big = U256 { limbs: [u64::MAX; 4] };
    assert_eq!(
        big.to_string(),
        "115792089237316195423570985008687907853269984665640564039457584007913129639935"
    );
}

#[test]
fn law_hex_rendering_round_trips_on_values() {
    for v in [small(0), small(1000), U256 { limbs: [7, 0, 0, 1] }, U256 { limbs: [u64::MAX; 4] }] {
        assert_eq!(parse_amount_hex(&v.to_hex_string()), Ok(v));
    }
}

#[test]
fn law_amount_prefix_optional_on_values() {
    for s in ["3e8", "FFFF", "0", "1_000"] {
        assert_eq!(parse_amount_hex(s).ok(), parse_amount_hex(&format!("0x{s}")).ok());
        assert_eq!(parse_amount_hex(s).ok(), parse_amount_hex(&format!("0X{s}")).ok());
    }
}

#[test]
fn address_parsing_and_rendering() {
    let a = parse_address(CHECKSUM_ADDR).unwrap();
    assert_eq!(
        a.bytes,
        [
            0x5a, 0xae, 0xb6, 0x05, 0x3f, 0x3e, 0x94, 0xc9, 0xb9, 0xa0, 0x9f, 0x33, 0x66, 0x94,
            0x35, 0xe7, 0xef, 0x1b, 0xea, 0xed
        ]
    );
    assert_eq!(a.to_string(), CHECKSUM_ADDR);
    assert_eq!(
        parse_address("0x123"),
        Err(ParseError::InvalidAddress { value: "0x123".to_string() })
    );
}

#[test]
fn law_address_prefix_and_case_irrelevant_on_values() {
    let a = parse_address(CHECKSUM_ADDR).unwrap();
    let digits = &CHECKSUM_ADDR[2..];
    assert_eq!(parse_address(digits), Ok(a));
    assert_eq!(parse_address(&format!("0X{digits}")), Ok(a));
    assert_eq!(parse_address(&CHECKSUM_ADDR.to_lowercase()), Ok(a));
    assert_eq!(parse_address(&digits.to_uppercase()), Ok(a));
}

#[test]
fn law_rendering_validates_strictly() {
    for raw in [CHECKSUM_ADDR, JPYC_ADDR, "0x0000000000000000000000000000000000000000"] {
        let a = parse_address(raw).unwrap();
        let shown = a.to_string();
        assert_eq!(validate_checksum(&shown), Ok(a));
        assert_eq!(parse_address(&shown), Ok(a));
    }
}

#[test]
fn law_checksummed_is_lenient_on_values() {
    let strict = validate_checksum(JPYC_ADDR).unwrap();
    assert_eq!(parse_address(JPYC_ADDR), Ok(strict));
    // Without the `0x` prefix the strict check refuses what the lenient one accepts.
    assert_eq!(
        validate_checksum(&JPYC_ADDR[2..]),
        Err(ParseError::InvalidAddress { value: JPYC_ADDR[2..].to_string() })
    );
    assert!(parse_address(&JPYC_ADDR[2..]).is_ok());
}

#[test]
fn eip681_for_other_chain_and_amount() {
    let mut l = parse(&link(&format!(
        "to={CHECKSUM_ADDR}&master_currency_id=487&amount=0x3e8"
    )))
    .unwrap();
    l.chain_id = ChainId(1);
    assert_eq!(
        l.to_eip681(),
        format!("ethereum:{JPYC_ADDR}@1/transfer?address={CHECKSUM_ADDR}&uint256=1000")
    );
    let pair = l.address_amount();
    assert_eq!(pair.address, l.address());
    assert_eq!(pair.amount, Some(small(1000)));
}

#[test]
fn parse_error_variants() {
    assert!(matches!(parse("::"), Err(ParseError::InvalidUrl { .. })));
    // A URL without a host.
    assert_eq!(
        parse("mailto:someone@example.com"),
        Err(ParseError::UnsupportedHost { host: String::new() })
    );
    assert_eq!(
        parse(&link("master_currency_id=487")),
        Err(ParseError::MissingParam { name: "to" })
    );
    assert_eq!(
        parse(&link("to=zz&master_currency_id=487")),
        Err(ParseError::InvalidAddress { value: "zz".to_string() })
    );
    // The currency is checked before the address.
    assert_eq!(
        parse(&link("to=zz&master_currency_id=9")),
        Err(ParseError::UnsupportedCurrency { id: "9".to_string() })
    );
    assert_eq!(
        parse(&link(&format!("to={CHECKSUM_ADDR}&master_currency_id=487&amount=0x"))),
        Err(ParseError::InvalidAmount {
            value: "0x".to_string(),
            reason: "empty amount".to_string()
        })
    );
}

#[test]
fn query_values_are_percent_decoded() {
    let l = parse(&link(&format!(
        "to={CHECKSUM_ADDR}&master_currency_id=%34%387&to_name=a+b%26c"
    )))
    .unwrap();
    assert_eq!(l.currency, Currency::Jpyc);
    assert_eq!(l.to_name.as_deref(), Some("a b&c"));
}

#[test]
fn law_repeated_param_later_wins_on_values() {
    let l = parse(&link(&format!(
        "to=zz&to={CHECKSUM_ADDR}&master_currency_id=1&master_currency_id=487&type=a&type=b"
    )))
    .unwrap();
    assert_eq!(l.to.to_string(), CHECKSUM_ADDR);
    assert_eq!(l.link_type.as_deref(), Some("b"));
}

#[test]
fn law_unknown_param_ignored_on_parts() {
    let base = [("to", CHECKSUM_ADDR), ("master_currency_id", "487"), ("amount", "10")];
    let mut extended = base.to_vec();
    extended.push(("TO", "zz"));
    extended.push(("foo", "bar"));
    let a = parse_url_parts(&parts(Some("link.expo2025-wallet.com"), &base));
    let b = parse_url_parts(&parts(Some("link.expo2025-wallet.com"), &extended));
    assert_eq!(a, b);
    assert_eq!(a.unwrap().amount, Some(small(16)));
}

#[test]
fn law_host_must_match_exactly() {
    let pairs = [("to", CHECKSUM_ADDR), ("master_currency_id", "487")];
    assert_eq!(
        parse_url_parts(&parts(None, &pairs)),
        Err(ParseError::UnsupportedHost { host: String::new() })
    );
    assert_eq!(
        parse_url_parts(&parts(Some("wallet.com"), &pairs)),
        Err(ParseError::UnsupportedHost { host: "wallet.com".to_string() })
    );
    // The host is compared as given; case folding is the URL parser's job.
    assert!(parse_url_parts(&parts(Some("LINK.EXPO2025-WALLET.COM"), &pairs)).is_err());
    assert!(is_supported("https://Link.Expo2025-Wallet.com/x?to=5aAeb6053F3E94C9b9A09f33669435E7Ef1BeAed&master_currency_id=487"));
}

#[test]
fn address_type_is_plain_bytes() {
    let a = Address { bytes: [0u8; 20] };
    assert_eq!(a.to_string(), "0x0000000000000000000000000000000000000000");
}

#[test]
fn law_link_amount_prefix_optional_on_parts() {
    for v in ["3e8", "ffffffffffffffffffffffffffffffff00", "1_0", "zz", ""] {
        let with = format!("0x{v}");
        let with_upper = format!("0X{v}");
        let results: Vec<_> = [v, with.as_str(), with_upper.as_str()]
            .iter()
            .map(|a| {
                parse_url_parts(&parts(
                    Some("link.expo2025-wallet.com"),
                    &[("to", CHECKSUM_ADDR), ("master_currency_id", "487"), ("amount", a)],
                ))
                .ok()
            })
            .collect();
        assert_eq!(results[0], results[1]);
        assert_eq!(results[0], results[2]);
    }
}

#[test]
fn decimal_rendering_of_chain_ids() {
    let mut l = parse(&link(&format!("to={CHECKSUM_ADDR}&master_currency_id=487"))).unwrap();
    for (id, text) in [(0u64, "0"), (9, "9"), (10, "10"), (u64::MAX, "18446744073709551615")] {
        l.chain_id = ChainId(id);
        assert_eq!(
            l.to_eip681(),
            format!("ethereum:{JPYC_ADDR}@{text}/transfer?address={CHECKSUM_ADDR}")
        );
    }
}
