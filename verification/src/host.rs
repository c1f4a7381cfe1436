//! How the contract talks to its host chain.
//!
//! The contract's work alternates between decisions and requests to the host (validate an
//! address, read storage, ask an NFT collection about a token, decode a message). Each entry
//! point of the contract is a decision function: from what it was sent and what the host has
//! told it so far (a [`Knowledge`]), it either asks for the next thing it needs
//! ([`Step::Ask`]), or finishes ([`Step::Done`]). The host answers the request, records the
//! answer, and calls the function again.
use vstd::prelude::*;

use crate::msg::Cw721HookMsg;
use crate::state::{AllowedTokens, Config, VoucherKey};

verus! {

/// A request to the host.
#[derive(Debug)]
pub enum HostCall {
    /// Decode the message sent along with an NFT as a [`Cw721HookMsg`].
    ParseBurnHook(Vec<u8>),
    /// Validate an address; the answer is the normalized address or the host's error.
    ValidateAddress(String),
    /// Read the configuration from storage.
    LoadConfig,
    /// Read the list of allowed token kinds from storage.
    LoadAllowedTokens,
    /// Send an encoded query to an NFT collection; the answer is the encoded response.
    QueryNftInfo { contract_address: String, msg: Vec<u8> },
    /// Read the voucher count under a key from storage (none where nothing is stored).
    LoadVouchers(VoucherKey),
}

/// The host's answer to a [`HostCall`].
#[derive(Debug)]
pub enum HostAnswer {
    /// The decoded hook message, or none where it did not decode.
    BurnHook(Option<Cw721HookMsg>),
    Address(Result<String, cosmwasm_std::StdError>),
    Config(Result<Config, cosmwasm_std::StdError>),
    AllowedTokens(Result<AllowedTokens, cosmwasm_std::StdError>),
    /// The collection's encoded response, none where the query failed.
    NftInfo(Option<Vec<u8>>),
    Vouchers(Result<Option<u64>, cosmwasm_std::StdError>),
}

/// What the host has told the contract during one call. Addresses are validated in a
/// fixed order per entry point, so the first and the second answer each have a place.
#[derive(Debug)]
pub struct Knowledge {
    pub burn_hook: Option<Option<Cw721HookMsg>>,
    pub first_address: Option<Result<String, cosmwasm_std::StdError>>,
    pub second_address: Option<Result<String, cosmwasm_std::StdError>>,
    pub config: Option<Result<Config, cosmwasm_std::StdError>>,
    pub allowed_tokens: Option<Result<AllowedTokens, cosmwasm_std::StdError>>,
    pub nft_info: Option<Option<Vec<u8>>>,
    pub vouchers: Option<Result<Option<u64>, cosmwasm_std::StdError>>,
}

/// One step of an entry point.
#[derive(Debug)]
pub enum Step<T> {
    /// The contract needs the answer to this call; it hands back what it knows.
    Ask(HostCall, Knowledge),
    /// The contract has finished with this result.
    Done(T),
    /// The contract aborts the transaction: it panics at this point.
    Abort,
}

/// Whether the host's knowledge still lacks the answer to a call: an entry point only asks
/// for what it does not know yet.
pub open spec fn lacks(known: Knowledge, call: HostCall) -> bool {
    match call {
        HostCall::ParseBurnHook(_) => known.burn_hook is None,
        HostCall::ValidateAddress(_) => known.first_address is None || known.second_address is None,
        HostCall::LoadConfig => known.config is None,
        HostCall::LoadAllowedTokens => known.allowed_tokens is None,
        HostCall::QueryNftInfo { .. } => known.nft_info is None,
        HostCall::LoadVouchers(_) => known.vouchers is None,
    }
}

/// The knowledge after recording an answer.
pub open spec fn recorded(known: Knowledge, answer: HostAnswer) -> Knowledge {
    match answer {
        HostAnswer::BurnHook(h) => Knowledge { burn_hook: Some(h), ..known },
        HostAnswer::Address(a) => if known.first_address is None {
            Knowledge { first_address: Some(a), ..known }
        } else {
            Knowledge { second_address: Some(a), ..known }
        },
        HostAnswer::Config(c) => Knowledge { config: Some(c), ..known },
        HostAnswer::AllowedTokens(t) => Knowledge { allowed_tokens: Some(t), ..known },
        HostAnswer::NftInfo(a) => Knowledge { nft_info: Some(a), ..known },
        HostAnswer::Vouchers(v) => Knowledge { vouchers: Some(v), ..known },
    }
}

impl Knowledge {
    /// Knowledge that holds no answer yet.
    pub open spec fn empty() -> Knowledge {
        Knowledge {
            burn_hook: None,
            first_address: None,
            second_address: None,
            config: None,
            allowed_tokens: None,
            nft_info: None,
            vouchers: None,
        }
    }

    /// Knowledge that holds no answer yet.
    pub fn new() -> (r: Knowledge)
        ensures
            r == Knowledge::empty(),
    {
        Knowledge {
            burn_hook: None,
            first_address: None,
            second_address: None,
            config: None,
            allowed_tokens: None,
            nft_info: None,
            vouchers: None,
        }
    }

    /// The host's error in the first address answer.
    pub(crate) fn into_first_address_error(self) -> (e: cosmwasm_std::StdError)
        requires
            self.first_address matches Some(Err(_)),
        ensures
            self.first_address == Some(Err::<String, cosmwasm_std::StdError>(e)),
    {
        match self.first_address {
            Some(Err(e)) => e,
            _ => vstd::pervasive::unreached(),
        }
    }

    /// The host's error in the second address answer.
    pub(crate) fn into_second_address_error(self) -> (e: cosmwasm_std::StdError)
        requires
            self.second_address matches Some(Err(_)),
        ensures
            self.second_address == Some(Err::<String, cosmwasm_std::StdError>(e)),
    {
        match self.second_address {
            Some(Err(e)) => e,
            _ => vstd::pervasive::unreached(),
        }
    }

    /// The host's error in the configuration answer.
    pub(crate) fn into_config_error(self) -> (e: cosmwasm_std::StdError)
        requires
            self.config matches Some(Err(_)),
        ensures
            self.config == Some(Err::<Config, cosmwasm_std::StdError>(e)),
    {
        match self.config {
            Some(Err(e)) => e,
            _ => vstd::pervasive::unreached(),
        }
    }

    /// The host's error in the allowed tokens answer.
    pub(crate) fn into_allowed_tokens_error(self) -> (e: cosmwasm_std::StdError)
        requires
            self.allowed_tokens matches Some(Err(_)),
        ensures
            self.allowed_tokens == Some(Err::<AllowedTokens, cosmwasm_std::StdError>(e)),
    {
        match self.allowed_tokens {
            Some(Err(e)) => e,
            _ => vstd::pervasive::unreached(),
        }
    }

    /// The list of allowed tokens the host read.
    pub(crate) fn into_allowed_tokens(self) -> (t: AllowedTokens)
        requires
            self.allowed_tokens matches Some(Ok(_)),
        ensures
            self.allowed_tokens == Some(Ok::<AllowedTokens, cosmwasm_std::StdError>(t)),
    {
        match self.allowed_tokens {
            Some(Ok(t)) => t,
            _ => vstd::pervasive::unreached(),
        }
    }

    /// The host's error in the voucher count answer.
    pub(crate) fn into_vouchers_error(self) -> (e: cosmwasm_std::StdError)
        requires
            self.vouchers matches Some(Err(_)),
        ensures
            self.vouchers == Some(Err::<Option<u64>, cosmwasm_std::StdError>(e)),
    {
        match self.vouchers {
            Some(Err(e)) => e,
            _ => vstd::pervasive::unreached(),
        }
    }

    /// Records an answer of the host: an address goes to the first place while that is
    /// free and to the second one after.
    pub fn record(&mut self, answer: HostAnswer)
        ensures
            *final(self) == recorded(*old(self), answer),
    {
        match answer {
            HostAnswer::BurnHook(h) => self.burn_hook = Some(h),
            HostAnswer::Address(a) => {
                if self.first_address.is_none() {
                    self.first_address = Some(a);
                } else {
                    self.second_address = Some(a);
                }
            },
            HostAnswer::Config(c) => self.config = Some(c),
            HostAnswer::AllowedTokens(t) => self.allowed_tokens = Some(t),
            HostAnswer::NftInfo(a) => self.nft_info = Some(a),
            HostAnswer::Vouchers(v) => self.vouchers = Some(v),
        }
    }
}

} // verus!
