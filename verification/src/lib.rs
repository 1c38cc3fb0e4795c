mod address;
mod amount;
mod constants;
mod currency;
mod decimal;
mod error;
mod hex;
pub mod laws;
pub mod laws_output;
mod link;
mod parse;
mod text;
mod url_parts;

pub use address::{parse_address, validate_checksum, Address};
pub use amount::{parse_amount_hex, U256};
pub use currency::Currency;
pub use error::ParseError;
pub use link::{AddressAmount, ChainId, ParsedLink};
pub use parse::{parse, parse_url_parts};
pub use url_parts::UrlParts;

use vstd::prelude::*;

verus! {

/// Whether `url` is a wallet payment link that [`parse`] accepts. To learn
/// why a link is refused, call `parse` itself.
pub fn is_supported(url: &str) -> (b: bool)
    ensures
        b == (parse::spec_parse(url@) is Ok),
{
    parse(url).is_ok()
}

} // verus!
