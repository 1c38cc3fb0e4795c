use vstd::prelude::*;

use crate::address::Address;
use crate::constants;
use crate::error::{ParseError, ParseErrorView};
use crate::text::str_eq;

verus! {

/// The tokens that a payment link may ask for.
#[derive(Debug, Clone, Copy, PartialEq, Eq)]
pub enum Currency {
    Jpyc,
}

/// What `Currency::from_raw_id` answers for a raw `master_currency_id`.
pub open spec fn spec_currency_from_raw_id(raw: Seq<char>) -> Result<Currency, ParseErrorView> {
    if raw == constants::JPYC_MASTER_CURRENCY_ID@ {
        Ok(Currency::Jpyc)
    } else {
        Err(ParseErrorView::UnsupportedCurrency { id: raw })
    }
}

/// The token contract's address bytes.
pub open spec fn spec_contract_bytes(c: Currency) -> Seq<u8> {
    match c {
        Currency::Jpyc => constants::jpyc_polygon_bytes(),
    }
}

impl Currency {
    /// The address of the token contract on Polygon.
    pub fn contract_address(self) -> (a: Address)
        ensures
            a@ == spec_contract_bytes(self),
    {
        match self {
            Currency::Jpyc => constants::jpyc_polygon_address(),
        }
    }

    /// Number of decimal places of the token's smallest unit.
    pub fn decimals(self) -> (d: u8)
        ensures
            d == constants::JPYC_DECIMALS,
    {
        match self {
            Currency::Jpyc => constants::JPYC_DECIMALS,
        }
    }

    /// The token's ticker symbol.
    pub fn symbol(self) -> (s: &'static str)
        ensures
            s@ == "JPYC"@,
    {
        match self {
            Currency::Jpyc => "JPYC",
        }
    }

    /// Parses the raw `master_currency_id` query value.
    pub fn from_raw_id(raw: &str) -> (res: Result<Currency, ParseError>)
        ensures
            match res {
                Ok(c) => spec_currency_from_raw_id(raw@) == Ok::<Currency, ParseErrorView>(c),
                Err(e) => spec_currency_from_raw_id(raw@) == Err::<Currency, ParseErrorView>(e@),
            },
    {
        if str_eq(raw, constants::JPYC_MASTER_CURRENCY_ID) {
            Ok(Currency::Jpyc)
        } else {
            Err(ParseError::UnsupportedCurrency { id: String::from_str(raw) })
        }
    }
}

} // verus!
