use vstd::prelude::*;

use crate::address::Address;

verus! {

/// The only host accepted for wallet payment links. It is compared exactly,
/// not as a suffix, so that look-alike subdomains are refused.
pub const EXPECTED_HOST: &'static str = "link.expo2025-wallet.com";

/// Raw `master_currency_id` value that denotes JPYC.
pub const JPYC_MASTER_CURRENCY_ID: &'static str = "487";

pub const JPYC_DECIMALS: u8 = 18;

pub const POLYGON_CHAIN_ID: u64 = 137;

/// The 20 bytes of the official JPYC token contract on Polygon
/// (`0xE7C3D8C9a439feDe00D2600032D5dB0Be71C3c29`).
pub open spec fn jpyc_polygon_bytes() -> Seq<u8> {
    seq![
        0xE7u8, 0xC3u8, 0xD8u8, 0xC9u8, 0xA4u8, 0x39u8, 0xFEu8, 0xDEu8, 0x00u8, 0xD2u8,
        0x60u8, 0x00u8, 0x32u8, 0xD5u8, 0xDBu8, 0x0Bu8, 0xE7u8, 0x1Cu8, 0x3Cu8, 0x29u8,
    ]
}

/// The official JPYC token contract on Polygon.
pub fn jpyc_polygon_address() -> (a: Address)
    ensures
        a@ == jpyc_polygon_bytes(),
{
    let a = Address {
        bytes: [
            0xE7, 0xC3, 0xD8, 0xC9, 0xA4, 0x39, 0xFE, 0xDE, 0x00, 0xD2, 0x60, 0x00, 0x32, 0xD5,
            0xDB, 0x0B, 0xE7, 0x1C, 0x3C, 0x29,
        ],
    };
    assert(a@ =~= jpyc_polygon_bytes());
    a
}

} // verus!
