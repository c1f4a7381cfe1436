//! The contract's entry points and the decisions they make.
//!
//! Every entry point but `instantiate` is a decision function in the sense of
//! [`crate::host`]: given what it was sent and what the host has told it so far, it asks for the
//! next thing it needs or finishes. Its contract states, for every knowledge, which of the two
//! it does and with what.
use vstd::prelude::*;

use crate::error::ContractError;
use crate::host::{HostCall, Knowledge, Step};
use crate::nft::{
    decode_nft_info_attributes, encode_nft_info_query, nft_info_attributes, nft_info_query, traits_view,
};
use crate::msg::{Cw721HookMsg, Cw721ReceiveMsg, ExecuteMsg, InstantiateMsg, QueryMsg};
use crate::response::{Effects, Instantiation, QueryResponse, Response, StorageWrite};
use crate::state::{
    any_trait, copy_string, make_voucher_key, trait_or_any, trait_or_any_of, voucher_key,
    AllowedTokens, Config, TokenInfo, TokenInfoView, Trait, TraitView,
};

verus! {

/// A step of an execute message: it ends in effects or in an error.
pub type ExecStep = Step<Result<Effects, ContractError>>;

/// The attributes of the response to instantiation.
pub open spec fn instantiate_attributes(admin: Seq<char>) -> Seq<(Seq<char>, Seq<char>)> {
    seq![("action"@, "instantiate"@), ("admin"@, admin)]
}

/// The attributes of the response to allowing a token kind.
pub open spec fn allow_token_attributes(token_info: TokenInfoView) -> Seq<(Seq<char>, Seq<char>)> {
    seq![
        ("action"@, "allow_token"@),
        ("contract_address"@, token_info.contract_address),
        ("trait_type"@, token_info.token_type.trait_type),
        ("trait_value"@, token_info.token_type.value),
    ]
}

/// The attributes of the response to a burn.
pub open spec fn burn_attributes(
    nft_sender: Seq<char>,
    contract_address: Seq<char>,
    token_id: Seq<char>,
    token_type: TraitView,
) -> Seq<(Seq<char>, Seq<char>)> {
    seq![
        ("action"@, "burn"@),
        ("sender"@, nft_sender),
        ("contract_address"@, contract_address),
        ("token_id"@, token_id),
        ("trait_type"@, token_type.trait_type),
        ("trait_value"@, token_type.value),
    ]
}

/// The stored voucher count, zero where nothing is stored.
pub open spec fn vouchers_or_zero(stored: Option<u64>) -> u64 {
    match stored {
        Some(n) => n,
        None => 0,
    }
}

/// Whether a list of NFT attributes holds a trait with the given type and value.
pub open spec fn has_trait(attributes: Seq<TraitView>, token_type: TraitView) -> bool {
    exists|i: int| 0 <= i < attributes.len() && attributes[i] == token_type
}

/// What the list of allowed token kinds decides about a token kind.
pub enum TraitCheck {
    /// The token kind is not allowed.
    Invalid,
    /// The token kind is allowed for every token of its collection.
    Valid,
    /// The token kind is allowed for tokens with its trait: the token must be looked at.
    CheckNft,
}

/// The decision that the list of allowed token kinds makes about a token kind.
pub open spec fn trait_check(allowed: Seq<TokenInfoView>, token_info: TokenInfoView) -> TraitCheck {
    if !allowed.contains(token_info) {
        TraitCheck::Invalid
    } else if token_info.token_type == any_trait() {
        TraitCheck::Valid
    } else {
        TraitCheck::CheckNft
    }
}

/// Whether the attributes an NFT collection reported for a token hold the trait;
/// no attributes hold no trait.
pub open spec fn attributes_hold(attributes: Option<Vec<Trait>>, token_type: TraitView) -> bool {
    match attributes {
        Some(a) => has_trait(traits_view(a), token_type),
        None => false,
    }
}

/// Whether an NFT collection's encoded answer to the `nft_info` query shows the trait: a
/// failed query, a response that does not decode, and a token without attributes do not.
pub open spec fn nft_response_holds(response: Option<Vec<u8>>, token_type: TraitView) -> bool {
    match response {
        Some(bytes) => match nft_info_attributes(bytes@) {
            Some(Some(attributes)) => has_trait(attributes, token_type),
            _ => false,
        },
        None => false,
    }
}

/// The name under which the contract records its version.
pub open spec fn contract_name() -> Seq<char> {
    "crates.io:voucher"@
}

/// Instantiates the contract at the given version: it records its name and that version, the
/// sender becomes the admin and no token kind is allowed.
pub fn instantiate(sender: String, msg: &InstantiateMsg, version: String) -> (r: Instantiation)
    ensures
        r.contract_name@ == contract_name(),
        r.contract_version@ == version@,
        r.config.admin@ == sender@,
        r.allowed_tokens@ == Seq::<TokenInfoView>::empty(),
        r.response@ == instantiate_attributes(sender@),
{
    let response = Response::new()
        .add_attribute("action", String::from_str("instantiate"))
        .add_attribute("admin", copy_string(&sender));
    let allowed_tokens = AllowedTokens { tokens: Vec::new() };
    assert(allowed_tokens@ =~= Seq::<TokenInfoView>::empty());
    Instantiation {
        contract_name: String::from_str("crates.io:voucher"),
        contract_version: version,
        config: Config { admin: sender },
        allowed_tokens,
        response,
    }
}

/// What `allow_token` does, for every knowledge: it reads the configuration; only the admin
/// may allow; it reads the allowed list; a kind already on it is refused; otherwise the
/// kind is appended and the list saved.
pub open spec fn allow_token_step(
    sender: Seq<char>,
    token_info: TokenInfoView,
    known: Knowledge,
    r: ExecStep,
) -> bool {
    match known.config {
        None => r == ExecStep::Ask(HostCall::LoadConfig, known),
        Some(Err(e)) => r == ExecStep::Done(Err(ContractError::Std(e))),
        Some(Ok(config)) => if config.admin@ != sender {
            r == ExecStep::Done(Err(ContractError::Unauthorized {}))
        } else {
            match known.allowed_tokens {
                None => r == ExecStep::Ask(HostCall::LoadAllowedTokens, known),
                Some(Err(e)) => r == ExecStep::Done(Err(ContractError::Std(e))),
                Some(Ok(allowed)) => if allowed@.contains(token_info) {
                    r == ExecStep::Done(Err(ContractError::AlreadyAllowed {}))
                } else {
                    &&& r matches Step::Done(Ok(effects))
                    &&& effects.write matches StorageWrite::AllowedTokens(saved)
                    &&& saved@ == allowed@.push(token_info)
                    &&& effects.response@ == allow_token_attributes(token_info)
                },
            }
        },
    }
}

/// Allows a kind of token to be burned for vouchers.
pub fn allow_token(sender: &String, token_info: TokenInfo, known: Knowledge) -> (r: ExecStep)
    ensures
        allow_token_step(sender@, token_info@, known, r),
{
    if known.config.is_none() {
        return Step::Ask(HostCall::LoadConfig, known);
    }
    let is_admin = match &known.config {
        Some(Ok(config)) => Some(config.admin == *sender),
        _ => None,
    };
    match is_admin {
        None => {
            return Step::Done(Err(ContractError::Std(known.into_config_error())));
        },
        Some(false) => {
            return Step::Done(Err(ContractError::Unauthorized {}));
        },
        Some(true) => {},
    }
    if known.allowed_tokens.is_none() {
        return Step::Ask(HostCall::LoadAllowedTokens, known);
    }
    let already = match &known.allowed_tokens {
        Some(Ok(allowed)) => Some(allowed.contains(&token_info)),
        _ => None,
    };
    match already {
        None => {
            return Step::Done(Err(ContractError::Std(known.into_allowed_tokens_error())));
        },
        Some(true) => {
            return Step::Done(Err(ContractError::AlreadyAllowed {}));
        },
        Some(false) => {},
    }
    let response = Response::new()
        .add_attribute("action", String::from_str("allow_token"))
        .add_attribute("contract_address", copy_string(&token_info.contract_address))
        .add_attribute("trait_type", copy_string(&token_info.token_type.trait_type))
        .add_attribute("trait_value", copy_string(&token_info.token_type.value));
    assert(response@ =~= allow_token_attributes(token_info@));
    let mut allowed = known.into_allowed_tokens();
    let ghost before = allowed@;
    let ghost info = token_info@;
    allowed.tokens.push(token_info);
    assert(allowed@ =~= before.push(info));
    Step::Done(Ok(Effects { write: StorageWrite::AllowedTokens(allowed), response }))
}

/// Decides from the list of allowed token kinds whether a token kind may be burned, or
/// whether the token itself must be looked at.
pub fn valid_trait(allowed_tokens: &AllowedTokens, token_info: &TokenInfo) -> (r: TraitCheck)
    ensures
        r == trait_check(allowed_tokens@, token_info@),
{
    if !allowed_tokens.contains(token_info) {
        TraitCheck::Invalid
    } else if token_info.token_type.is_any() {
        TraitCheck::Valid
    } else {
        TraitCheck::CheckNft
    }
}

/// Whether the attributes an NFT collection reported for a token hold the trait.
pub fn nft_has_trait(attributes: &Option<Vec<Trait>>, token_type: &Trait) -> (r: bool)
    ensures
        r == attributes_hold(*attributes, token_type@),
{
    match attributes {
        None => false,
        Some(list) => {
            let mut i: usize = 0;
            while i < list.len()
                invariant
                    *attributes == Some(*list),
                    i <= list.len(),
                    forall|j: int| 0 <= j < i ==> traits_view(*list)[j] != token_type@,
                decreases list.len() - i,
            {
                if list[i].same_as(token_type) {
                    assert(traits_view(*list)[i as int] == token_type@);
                    assert(has_trait(traits_view(*list), token_type@));
                    return true;
                }
                i = i + 1;
            }
            false
        },
    }
}

/// A copy of a byte string.
fn copy_bytes(bytes: &Vec<u8>) -> (r: Vec<u8>)
    ensures
        r@ == bytes@,
{
    let mut r: Vec<u8> = Vec::new();
    let mut i: usize = 0;
    while i < bytes.len()
        invariant
            i <= bytes.len(),
            r@ == bytes@.subrange(0, i as int),
        decreases bytes.len() - i,
    {
        r.push(bytes[i]);
        i = i + 1;
        assert(r@ =~= bytes@.subrange(0, i as int));
    }
    assert(r@ =~= bytes@);
    r
}

/// The trait that a request names, or ("any", "any") where it names none.
fn trait_or_any_ref(token_type: &Option<Trait>) -> (r: Trait)
    ensures
        r@ == trait_or_any(*token_type),
{
    match token_type {
        Some(t) => t.copy(),
        None => Trait::any(),
    }
}

/// What the last part of a burn does: it validates the previous owner of the token (the
/// transaction aborts where that address is invalid), reads the owner's voucher count for the
/// token kind, and saves it one higher (aborting where it cannot grow).
pub open spec fn burn_step(
    nft_sender: Seq<char>,
    contract_address: Seq<char>,
    token_id: Seq<char>,
    token_type: TraitView,
    known: Knowledge,
    r: ExecStep,
) -> bool {
    match known.second_address {
        None => {
            &&& r matches Step::Ask(HostCall::ValidateAddress(address), k)
            &&& address@ == nft_sender
            &&& k == known
        },
        Some(Err(_)) => r is Abort,
        Some(Ok(owner)) => {
            let key = voucher_key(owner@, contract_address, token_type);
            match known.vouchers {
                None => {
                    &&& r matches Step::Ask(HostCall::LoadVouchers(asked), k)
                    &&& asked@ == key
                    &&& k == known
                },
                Some(Err(e)) => r == ExecStep::Done(Err(ContractError::Std(e))),
                Some(Ok(stored)) => if vouchers_or_zero(stored) == u64::MAX {
                    r is Abort
                } else {
                    &&& r matches Step::Done(Ok(effects))
                    &&& effects.write matches StorageWrite::Vouchers(saved_key, count)
                    &&& saved_key@ == key
                    &&& count == vouchers_or_zero(stored) + 1
                    &&& effects.response@ == burn_attributes(nft_sender, contract_address, token_id, token_type)
                },
            }
        },
    }
}

/// Records one voucher for the previous owner of a burned token.
fn burn_voucher(
    nft_sender: &String,
    contract_address: String,
    token_id: String,
    token_type: Trait,
    known: Knowledge,
) -> (r: ExecStep)
    ensures
        burn_step(nft_sender@, contract_address@, token_id@, token_type@, known, r),
{
    if known.second_address.is_none() {
        return Step::Ask(HostCall::ValidateAddress(copy_string(nft_sender)), known);
    }
    let owner = match &known.second_address {
        Some(Ok(owner)) => Some(copy_string(owner)),
        _ => None,
    };
    let owner = match owner {
        Some(owner) => owner,
        None => {
            return Step::Abort;
        },
    };
    let key = make_voucher_key(owner, copy_string(&contract_address), &token_type);
    if known.vouchers.is_none() {
        return Step::Ask(HostCall::LoadVouchers(key), known);
    }
    let stored = match &known.vouchers {
        Some(Ok(Some(n))) => Some(*n),
        Some(Ok(None)) => Some(0u64),
        _ => None,
    };
    let stored = match stored {
        Some(n) => n,
        None => {
            return Step::Done(Err(ContractError::Std(known.into_vouchers_error())));
        },
    };
    if stored == u64::MAX {
        return Step::Abort;
    }
    let response = Response::new()
        .add_attribute("action", String::from_str("burn"))
        .add_attribute("sender", copy_string(nft_sender))
        .add_attribute("contract_address", contract_address)
        .add_attribute("token_id", token_id)
        .add_attribute("trait_type", token_type.trait_type)
        .add_attribute("trait_value", token_type.value);
    assert(response@ =~= burn_attributes(nft_sender@, contract_address@, token_id@, token_type@));
    Step::Done(Ok(Effects { write: StorageWrite::Vouchers(key, stored + 1), response }))
}

/// What `receive_cw721` does, for every knowledge: it decodes the hook message (a message that
/// does not decode is refused); it validates the collection the message names, which must be
/// the sender; it reads the allowed list and checks the token kind (the collection with the
/// named trait, "any"/"any" where none is named), looking at the token's attributes where the
/// kind names a trait; and it records one voucher for the token's previous owner.
pub open spec fn receive_cw721_step(
    sender: Seq<char>,
    cw721_msg: Cw721ReceiveMsg,
    known: Knowledge,
    r: ExecStep,
) -> bool {
    match known.burn_hook {
        None => {
            &&& r matches Step::Ask(HostCall::ParseBurnHook(bytes), k)
            &&& bytes@ == cw721_msg.msg@
            &&& k == known
        },
        Some(None) => r == ExecStep::Done(Err(ContractError::NotAllowed {})),
        Some(Some(Cw721HookMsg::Burn { contract_address: named, token_id, token_type })) => {
            match known.first_address {
                None => {
                    &&& r matches Step::Ask(HostCall::ValidateAddress(address), k)
                    &&& address@ == named@
                    &&& k == known
                },
                Some(Err(e)) => r == ExecStep::Done(Err(ContractError::Std(e))),
                Some(Ok(contract)) => if contract@ != sender {
                    r == ExecStep::Done(Err(ContractError::Unauthorized {}))
                } else {
                    let kind = trait_or_any(token_type);
                    let token_info = TokenInfoView { contract_address: contract@, token_type: kind };
                    match known.allowed_tokens {
                        None => r == ExecStep::Ask(HostCall::LoadAllowedTokens, known),
                        Some(Err(e)) => r == ExecStep::Done(Err(ContractError::Std(e))),
                        Some(Ok(allowed)) => match trait_check(allowed@, token_info) {
                            TraitCheck::Invalid => r == ExecStep::Done(Err(ContractError::NotAllowed {})),
                            TraitCheck::Valid => burn_step(
                                cw721_msg.sender@,
                                contract@,
                                token_id@,
                                kind,
                                known,
                                r,
                            ),
                            TraitCheck::CheckNft => match known.nft_info {
                                None => {
                                    &&& r matches Step::Ask(
                                        HostCall::QueryNftInfo { contract_address: asked, msg: asked_msg },
                                        k,
                                    )
                                    &&& asked@ == contract@
                                    &&& asked_msg@ == nft_info_query(token_id@)
                                    &&& k == known
                                },
                                Some(response) => if !nft_response_holds(response, kind) {
                                    r == ExecStep::Done(Err(ContractError::NotAllowed {}))
                                } else {
                                    burn_step(cw721_msg.sender@, contract@, token_id@, kind, known, r)
                                },
                            },
                        },
                    }
                },
            }
        },
    }
}

/// Handles an NFT handed over to the contract: burns it for a voucher of its previous owner
/// where the hook message asks for that and the token kind is allowed.
pub fn receive_cw721(sender: &String, cw721_msg: &Cw721ReceiveMsg, known: Knowledge) -> (r: ExecStep)
    ensures
        receive_cw721_step(sender@, *cw721_msg, known, r),
{
    if known.burn_hook.is_none() {
        return Step::Ask(HostCall::ParseBurnHook(copy_bytes(&cw721_msg.msg)), known);
    }
    let burn = match &known.burn_hook {
        Some(Some(Cw721HookMsg::Burn { contract_address, token_id, token_type })) => Some(
            (copy_string(contract_address), copy_string(token_id), trait_or_any_ref(token_type)),
        ),
        _ => None,
    };
    let (named, token_id, token_type) = match burn {
        Some(b) => b,
        None => {
            return Step::Done(Err(ContractError::NotAllowed {}));
        },
    };
    if known.first_address.is_none() {
        return Step::Ask(HostCall::ValidateAddress(named), known);
    }
    let contract = match &known.first_address {
        Some(Ok(a)) => Some(copy_string(a)),
        _ => None,
    };
    let contract = match contract {
        Some(a) => a,
        None => {
            return Step::Done(Err(ContractError::Std(known.into_first_address_error())));
        },
    };
    if !(contract == *sender) {
        return Step::Done(Err(ContractError::Unauthorized {}));
    }
    let token_info = TokenInfo { contract_address: copy_string(&contract), token_type: token_type.copy() };
    if known.allowed_tokens.is_none() {
        return Step::Ask(HostCall::LoadAllowedTokens, known);
    }
    let check = match &known.allowed_tokens {
        Some(Ok(allowed)) => Some(valid_trait(allowed, &token_info)),
        _ => None,
    };
    match check {
        None => {
            return Step::Done(Err(ContractError::Std(known.into_allowed_tokens_error())));
        },
        Some(TraitCheck::Invalid) => {
            return Step::Done(Err(ContractError::NotAllowed {}));
        },
        Some(TraitCheck::Valid) => {},
        Some(TraitCheck::CheckNft) => {
            let query = match encode_nft_info_query(&token_id) {
                Ok(query) => query,
                Err(e) => {
                    return Step::Done(Err(ContractError::Std(e)));
                },
            };
            if known.nft_info.is_none() {
                return Step::Ask(HostCall::QueryNftInfo { contract_address: contract, msg: query }, known);
            }
            let holds = match &known.nft_info {
                Some(Some(response)) => match decode_nft_info_attributes(response) {
                    Some(attributes) => nft_has_trait(&attributes, &token_type),
                    None => false,
                },
                _ => false,
            };
            if !holds {
                return Step::Done(Err(ContractError::NotAllowed {}));
            }
        },
    }
    burn_voucher(&cw721_msg.sender, contract, token_id, token_type, known)
}

/// What `execute` does, for every knowledge.
pub open spec fn execute_step(sender: Seq<char>, msg: ExecuteMsg, known: Knowledge, r: ExecStep) -> bool {
    match msg {
        ExecuteMsg::AllowToken { contract_address, token_type } => match known.first_address {
            None => {
                &&& r matches Step::Ask(HostCall::ValidateAddress(address), k)
                &&& address@ == contract_address@
                &&& k == known
            },
            Some(Err(e)) => r == ExecStep::Done(Err(ContractError::Std(e))),
            Some(Ok(address)) => allow_token_step(
                sender,
                TokenInfoView { contract_address: address@, token_type: trait_or_any(token_type) },
                known,
                r,
            ),
        },
        ExecuteMsg::ReceiveNft(cw721_msg) => receive_cw721_step(sender, cw721_msg, known, r),
    }
}

/// Executes a message.
pub fn execute(sender: &String, msg: &ExecuteMsg, known: Knowledge) -> (r: ExecStep)
    ensures
        execute_step(sender@, *msg, known, r),
{
    match msg {
        ExecuteMsg::AllowToken { contract_address, token_type } => {
            if known.first_address.is_none() {
                return Step::Ask(HostCall::ValidateAddress(copy_string(contract_address)), known);
            }
            let address = match &known.first_address {
                Some(Ok(a)) => Some(copy_string(a)),
                _ => None,
            };
            match address {
                None => Step::Done(Err(ContractError::Std(known.into_first_address_error()))),
                Some(address) => {
                    let token_info = TokenInfo {
                        contract_address: address,
                        token_type: trait_or_any_ref(token_type),
                    };
                    allow_token(sender, token_info, known)
                },
            }
        },
        ExecuteMsg::ReceiveNft(cw721_msg) => receive_cw721(sender, cw721_msg, known),
    }
}

/// A step of a query: it ends in an answer or in the host's error.
pub type QueryStep<T> = Step<Result<T, cosmwasm_std::StdError>>;

/// What the configuration query does, for every knowledge: it reads the configuration and
/// answers with it (wrapped as the caller wants it).
pub open spec fn query_config_step<T>(known: Knowledge, r: QueryStep<T>, wrap: spec_fn(Config) -> T) -> bool {
    match known.config {
        None => r == QueryStep::<T>::Ask(HostCall::LoadConfig, known),
        Some(Err(e)) => r == QueryStep::<T>::Done(Err(e)),
        Some(Ok(config)) => r == QueryStep::<T>::Done(Ok(wrap(config))),
    }
}

/// Answers with the configuration.
pub fn query_config(known: Knowledge) -> (r: QueryStep<Config>)
    ensures
        query_config_step(known, r, |c: Config| c),
{
    if known.config.is_none() {
        return Step::Ask(HostCall::LoadConfig, known);
    }
    match known.config {
        Some(config) => Step::Done(config),
        None => vstd::pervasive::unreached(),
    }
}

/// What the allowed tokens query does, for every knowledge: it reads the list of allowed
/// token kinds and answers with it (wrapped as the caller wants it).
pub open spec fn query_allowed_tokens_step<T>(
    known: Knowledge,
    r: QueryStep<T>,
    wrap: spec_fn(AllowedTokens) -> T,
) -> bool {
    match known.allowed_tokens {
        None => r == QueryStep::<T>::Ask(HostCall::LoadAllowedTokens, known),
        Some(Err(e)) => r == QueryStep::<T>::Done(Err(e)),
        Some(Ok(allowed)) => r == QueryStep::<T>::Done(Ok(wrap(allowed))),
    }
}

/// Answers with the list of allowed token kinds.
pub fn query_allowed_tokens(known: Knowledge) -> (r: QueryStep<AllowedTokens>)
    ensures
        query_allowed_tokens_step(known, r, |t: AllowedTokens| t),
{
    if known.allowed_tokens.is_none() {
        return Step::Ask(HostCall::LoadAllowedTokens, known);
    }
    match known.allowed_tokens {
        Some(allowed) => Step::Done(allowed),
        None => vstd::pervasive::unreached(),
    }
}

/// What the remaining vouchers query does, for every knowledge: it validates the owner, then
/// the collection, reads the voucher count under their key for the named trait ("any"/"any"
/// where none is named), and answers with it, zero where nothing is stored.
pub open spec fn query_remaining_vouchers_step<T>(
    owner: Seq<char>,
    contract_address: Seq<char>,
    token_type: Option<Trait>,
    known: Knowledge,
    r: QueryStep<T>,
    wrap: spec_fn(u64) -> T,
) -> bool {
    match known.first_address {
        None => {
            &&& r matches Step::Ask(HostCall::ValidateAddress(address), k)
            &&& address@ == owner
            &&& k == known
        },
        Some(Err(e)) => r == QueryStep::<T>::Done(Err(e)),
        Some(Ok(valid_owner)) => match known.second_address {
            None => {
                &&& r matches Step::Ask(HostCall::ValidateAddress(address), k)
                &&& address@ == contract_address
                &&& k == known
            },
            Some(Err(e)) => r == QueryStep::<T>::Done(Err(e)),
            Some(Ok(valid_contract)) => {
                let key = voucher_key(valid_owner@, valid_contract@, trait_or_any(token_type));
                match known.vouchers {
                    None => {
                        &&& r matches Step::Ask(HostCall::LoadVouchers(asked), k)
                        &&& asked@ == key
                        &&& k == known
                    },
                    Some(Err(e)) => r == QueryStep::<T>::Done(Err(e)),
                    Some(Ok(stored)) => r == QueryStep::<T>::Done(Ok(wrap(vouchers_or_zero(stored)))),
                }
            },
        },
    }
}

/// Answers with the number of vouchers an owner holds for a kind of token.
pub fn query_remaining_vouchers(
    owner: &String,
    contract_address: &String,
    token_type: Option<Trait>,
    known: Knowledge,
) -> (r: QueryStep<u64>)
    ensures
        query_remaining_vouchers_step(owner@, contract_address@, token_type, known, r, |n: u64| n),
{
    if known.first_address.is_none() {
        return Step::Ask(HostCall::ValidateAddress(copy_string(owner)), known);
    }
    let valid_owner = match &known.first_address {
        Some(Ok(a)) => Some(copy_string(a)),
        _ => None,
    };
    let valid_owner = match valid_owner {
        Some(a) => a,
        None => {
            return Step::Done(Err(known.into_first_address_error()));
        },
    };
    if known.second_address.is_none() {
        return Step::Ask(HostCall::ValidateAddress(copy_string(contract_address)), known);
    }
    let valid_contract = match &known.second_address {
        Some(Ok(a)) => Some(copy_string(a)),
        _ => None,
    };
    let valid_contract = match valid_contract {
        Some(a) => a,
        None => {
            return Step::Done(Err(known.into_second_address_error()));
        },
    };
    let kind = trait_or_any_of(token_type);
    let key = make_voucher_key(valid_owner, valid_contract, &kind);
    if known.vouchers.is_none() {
        return Step::Ask(HostCall::LoadVouchers(key), known);
    }
    let stored = match &known.vouchers {
        Some(Ok(Some(n))) => Some(*n),
        Some(Ok(None)) => Some(0u64),
        _ => None,
    };
    match stored {
        Some(n) => Step::Done(Ok(n)),
        None => Step::Done(Err(known.into_vouchers_error())),
    }
}

/// What `query` does, for every knowledge: the query the message names.
pub open spec fn query_step(msg: QueryMsg, known: Knowledge, r: QueryStep<QueryResponse>) -> bool {
    match msg {
        QueryMsg::Config {} => query_config_step(known, r, |c: Config| QueryResponse::Config(c)),
        QueryMsg::RemainingVouchers { owner, contract_address, token_type } => query_remaining_vouchers_step(
            owner@,
            contract_address@,
            token_type,
            known,
            r,
            |n: u64| QueryResponse::RemainingVouchers(n),
        ),
        QueryMsg::AllowedTokens {} => query_allowed_tokens_step(
            known,
            r,
            |t: AllowedTokens| QueryResponse::AllowedTokens(t),
        ),
    }
}

/// Answers a query.
pub fn query(msg: &QueryMsg, known: Knowledge) -> (r: QueryStep<QueryResponse>)
    ensures
        query_step(*msg, known, r),
{
    match msg {
        QueryMsg::Config {} => match query_config(known) {
            Step::Ask(call, k) => Step::Ask(call, k),
            Step::Done(Ok(config)) => Step::Done(Ok(QueryResponse::Config(config))),
            Step::Done(Err(e)) => Step::Done(Err(e)),
            Step::Abort => Step::Abort,
        },
        QueryMsg::RemainingVouchers { owner, contract_address, token_type } => {
            let kind = match token_type {
                Some(t) => Some(t.copy()),
                None => None,
            };
            match query_remaining_vouchers(owner, contract_address, kind, known) {
                Step::Ask(call, k) => Step::Ask(call, k),
                Step::Done(Ok(n)) => Step::Done(Ok(QueryResponse::RemainingVouchers(n))),
                Step::Done(Err(e)) => Step::Done(Err(e)),
                Step::Abort => Step::Abort,
            }
        },
        QueryMsg::AllowedTokens {} => match query_allowed_tokens(known) {
            Step::Ask(call, k) => Step::Ask(call, k),
            Step::Done(Ok(allowed)) => Step::Done(Ok(QueryResponse::AllowedTokens(allowed))),
            Step::Done(Err(e)) => Step::Done(Err(e)),
            Step::Abort => Step::Abort,
        },
    }
}

} // verus!
