//! The messages the contract is sent.
use vstd::prelude::*;

use crate::state::Trait;

verus! {

/// Message for instantiating the contract; it carries nothing.
#[derive(Debug, Clone, PartialEq, Eq)]
pub struct InstantiateMsg {}

/// Message for executing the contract.
#[derive(Debug, Clone, PartialEq, Eq)]
pub enum ExecuteMsg {
    /// The admin allows tokens of a collection with a trait ("any"/"any" where none is named).
    AllowToken { contract_address: String, token_type: Option<Trait> },
    /// An NFT collection hands a token over to the contract.
    ReceiveNft(Cw721ReceiveMsg),
}

/// Message for querying the contract.
#[derive(Debug, Clone, PartialEq, Eq)]
pub enum QueryMsg {
    /// The configuration.
    Config {},
    /// The vouchers an owner holds for a kind of token ("any"/"any" where no trait is named).
    RemainingVouchers { owner: String, contract_address: String, token_type: Option<Trait> },
    /// The list of allowed token kinds.
    AllowedTokens {},
}

/// What an NFT collection sends along with a token it hands over: the previous owner,
/// the token, and a message for the receiver, still encoded.
#[derive(Debug, Clone, PartialEq, Eq)]
pub struct Cw721ReceiveMsg {
    pub sender: String,
    pub token_id: String,
    pub msg: Vec<u8>,
}

/// The message a sender encodes into a [`Cw721ReceiveMsg`].
#[derive(Debug, Clone, PartialEq, Eq)]
pub enum Cw721HookMsg {
    /// Burn the handed-over token for a voucher.
    Burn { contract_address: String, token_id: String, token_type: Option<Trait> },
}

} // verus!
