use vstd::prelude::*;

use crate::address::{eip55_checksum, Address};
use crate::amount::U256;
use crate::constants;
use crate::currency::{spec_contract_bytes, Currency};
use crate::decimal::{decimal_digits, u64_to_decimal};
use crate::url_parts::opt_str_view;

verus! {

/// An EVM chain id.
#[derive(Debug, Clone, Copy, PartialEq, Eq)]
pub struct ChainId(pub u64);

impl ChainId {
    /// Polygon PoS mainnet.
    pub fn polygon() -> (c: ChainId)
        ensures
            c.0 == constants::POLYGON_CHAIN_ID,
    {
        ChainId(constants::POLYGON_CHAIN_ID)
    }
}

/// A payment link broken into its parts.
#[derive(Debug, Clone, PartialEq, Eq)]
pub struct ParsedLink {
    /// The payee.
    pub to: Address,
    pub currency: Currency,
    pub chain_id: ChainId,
    /// The amount in the token's smallest unit, decoded from the hex `amount`
    /// parameter; `None` when the parameter is absent.
    pub amount: Option<U256>,
    /// The raw, unchecked `to_name` label; `None` only when the parameter is
    /// absent, `Some("")` when it is present but empty.
    pub to_name: Option<String>,
    /// The raw, uninterpreted `type` parameter (such as `"dynamic"`); `None`
    /// when the parameter is absent.
    pub link_type: Option<String>,
}

/// The mathematical value of a [`ParsedLink`].
pub struct LinkView {
    pub to: Seq<u8>,
    pub currency: Currency,
    pub chain_id: u64,
    pub amount: Option<nat>,
    pub to_name: Option<Seq<char>>,
    pub link_type: Option<Seq<char>>,
}

/// The view of an optional amount.
pub open spec fn opt_amount_view(o: Option<U256>) -> Option<nat> {
    match o {
        Some(a) => Some(a@),
        None => None,
    }
}

impl View for ParsedLink {
    type V = LinkView;

    open spec fn view(&self) -> LinkView {
        LinkView {
            to: self.to@,
            currency: self.currency,
            chain_id: self.chain_id.0,
            amount: opt_amount_view(self.amount),
            to_name: opt_str_view(self.to_name),
            link_type: opt_str_view(self.link_type),
        }
    }
}

/// A payee address together with the optional amount.
#[derive(Debug, Clone, Copy, PartialEq, Eq)]
pub struct AddressAmount {
    pub address: Address,
    pub amount: Option<U256>,
}

/// The EIP-681 payment URI of a link: a `transfer` call on the token contract
/// with the payee and, when present, the amount in decimal.
pub open spec fn spec_eip681(l: LinkView) -> Seq<char> {
    let base = "ethereum:"@ + eip55_checksum(spec_contract_bytes(l.currency)) + "@"@
        + decimal_digits(l.chain_id as nat) + "/transfer?address="@ + eip55_checksum(l.to);
    match l.amount {
        Some(a) => base + "&uint256="@ + decimal_digits(a),
        None => base,
    }
}

impl ParsedLink {
    /// Renders the EIP-681 (ERC-681) URI. The amount, hex in the source link,
    /// is written in decimal as `uint256=` requires; without an amount the
    /// `uint256=` parameter is left out, so that the wallet asks for one.
    pub fn to_eip681(&self) -> (uri: String)
        ensures
            uri@ == spec_eip681(self@),
    {
        let contract = self.currency.contract_address();
        let mut uri = String::from_str("ethereum:");
        let c = contract.to_string();
        uri.append(c.as_str());
        uri.append("@");
        let id = u64_to_decimal(self.chain_id.0);
        uri.append(id.as_str());
        uri.append("/transfer?address=");
        let to = self.to.to_string();
        uri.append(to.as_str());
        match &self.amount {
            Some(a) => {
                uri.append("&uint256=");
                let d = a.to_string();
                uri.append(d.as_str());
            },
            None => {},
        }
        uri
    }

    pub fn address(&self) -> (a: Address)
        ensures
            a == self.to,
    {
        self.to
    }

    pub fn amount(&self) -> (a: Option<U256>)
        ensures
            a == self.amount,
    {
        self.amount
    }

    pub fn address_amount(&self) -> (p: AddressAmount)
        ensures
            p.address == self.to,
            p.amount == self.amount,
    {
        AddressAmount { address: self.to, amount: self.amount }
    }
}

} // verus!
