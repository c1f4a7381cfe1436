use cosmwasm_std::testing::MockApi;
use cosmwasm_std::{from_json, to_json_vec, Api, StdError};
use cw2981_royalties::Metadata;
use cw721::{Cw721QueryMsg, NftInfoResponse};
use serde_json::Value;

use voucher::contract::{
    allow_token, execute, instantiate, nft_has_trait, query, query_allowed_tokens,
    query_config, query_remaining_vouchers, receive_cw721, valid_trait, TraitCheck,
};
use voucher::error::ContractError;
use voucher::host::{HostAnswer, HostCall, Knowledge, Step};
use voucher::msg::{Cw721HookMsg, Cw721ReceiveMsg, ExecuteMsg, InstantiateMsg, QueryMsg};
use voucher::response::{Effects, QueryResponse, Response, StorageWrite};
use voucher::state::{make_voucher_key, AllowedTokens, Config, TokenInfo, Trait, VoucherKey};

const ADMIN: &str = "aura1uh24g2lc8hvvkaaf7awz25lrh5fptthu2dhq0n";
const USER_1: &str = "aura1fqj2redmssckrdeekhkcvd2kzp9f4nks4fctrt";
// the addresses a test chain gives to the contracts it instantiates, in order
const NFT: &str = "contract0";
const VOUCHER: &str = "contract1";
const NFT_FAKE: &str = "contract2";

/// A chain in a test: storage of the voucher contract, an address validator, and the
/// attributes that NFT collections report for their tokens.
struct Chain {
    api: MockApi,
    config: Option<Config>,
    allowed_tokens: Option<AllowedTokens>,
    vouchers: Vec<(VoucherKey, u64)>,
    nft_attributes: Vec<(String, String, Option<Vec<Trait>>)>,
    contract_version: Option<(String, String)>,
    calls: Vec<String>,
}

/// What an execute message ended in.
#[derive(Debug)]
enum Outcome {
    Succeeded(Response),
    Failed(ContractError),
    Aborted,
}

impl Chain {
    fn new() -> Chain {
        Chain {
            api: MockApi::default(),
            config: None,
            allowed_tokens: None,
            vouchers: Vec::new(),
            nft_attributes: Vec::new(),
            contract_version: None,
            calls: Vec::new(),
        }
    }

    fn answer(&mut self, call: HostCall) -> HostAnswer {
        self.calls.push(format!("{:?}", call));
        match call {
            HostCall::ParseBurnHook(bytes) => HostAnswer::BurnHook(decode_hook(&bytes)),
            HostCall::ValidateAddress(a) => {
                HostAnswer::Address(self.api.addr_validate(&a).map(|a| a.to_string()))
            }
            HostCall::LoadConfig => HostAnswer::Config(
                self.config.clone().ok_or_else(|| StdError::not_found("config")),
            ),
            HostCall::LoadAllowedTokens => HostAnswer::AllowedTokens(
                self.allowed_tokens.clone().ok_or_else(|| StdError::not_found("allowed_tokens")),
            ),
            HostCall::QueryNftInfo { contract_address, msg } => {
                let token_id = match from_json::<Cw721QueryMsg>(&msg) {
                    Ok(Cw721QueryMsg::NftInfo { token_id }) => token_id,
                    other => panic!("unexpected query {:?}", other),
                };
                let found = self
                    .nft_attributes
                    .iter()
                    .find(|(c, t, _)| *c == contract_address && *t == token_id)
                    .map(|(_, _, a)| a.clone());
                HostAnswer::NftInfo(found.map(|attributes| nft_info_response(attributes)))
            }
            HostCall::LoadVouchers(key) => HostAnswer::Vouchers(Ok(self
                .vouchers
                .iter()
                .find(|(k, _)| *k == key)
                .map(|(_, n)| *n))),
        }
    }

    fn instantiate(&mut self, sender: &str) -> Response {
        let inst = instantiate(sender.to_string(), &InstantiateMsg {}, "0.1.0".to_string());
        self.contract_version = Some((inst.contract_name, inst.contract_version));
        self.config = Some(inst.config);
        self.allowed_tokens = Some(inst.allowed_tokens);
        inst.response
    }

    fn apply(&mut self, effects: Effects) -> Response {
        match effects.write {
            StorageWrite::AllowedTokens(list) => self.allowed_tokens = Some(list),
            StorageWrite::Vouchers(key, n) => {
                self.vouchers.retain(|(k, _)| *k != key);
                self.vouchers.push((key, n));
            }
        }
        effects.response
    }

    fn execute(&mut self, sender: &str, msg: ExecuteMsg) -> Outcome {
        let mut known = Knowledge::new();
        loop {
            match execute(&sender.to_string(), &msg, known) {
                Step::Ask(call, k) => {
                    known = k;
                    let a = self.answer(call);
                    known.record(a);
                }
                Step::Done(Ok(effects)) => return Outcome::Succeeded(self.apply(effects)),
                Step::Done(Err(e)) => return Outcome::Failed(e),
                Step::Abort => return Outcome::Aborted,
            }
        }
    }

    /// An NFT collection `collection` hands token `token_id` of `owner` to the voucher
    /// contract, with a burn hook message naming `named`.
    fn send_nft(&mut self, collection: &str, owner: &str, token_id: &str, named: &str, token_type: Option<Trait>) -> Outcome {
        let msg = ExecuteMsg::ReceiveNft(Cw721ReceiveMsg {
            sender: owner.to_string(),
            token_id: token_id.to_string(),
            msg: encode_hook(named, token_id, &token_type),
        });
        self.execute(collection, msg)
    }

    fn query(&mut self, msg: QueryMsg) -> Result<QueryResponse, StdError> {
        let mut known = Knowledge::new();
        loop {
            match query(&msg, known) {
                Step::Ask(call, k) => {
                    known = k;
                    let a = self.answer(call);
                    known.record(a);
                }
                Step::Done(r) => return r,
                Step::Abort => panic!("a query aborted"),
            }
        }
    }

    fn remaining(&mut self, owner: &str, collection: &str, token_type: Option<Trait>) -> u64 {
        match self.query(QueryMsg::RemainingVouchers {
            owner: owner.to_string(),
            contract_address: collection.to_string(),
            token_type,
        }) {
            Ok(QueryResponse::RemainingVouchers(n)) => n,
            other => panic!("unexpected answer {:?}", other),
        }
    }
}

fn trait_json(t: &Trait) -> Value {
    let mut object = serde_json::Map::new();
    object.insert("trait_type".to_string(), Value::String(t.trait_type.clone()));
    object.insert("value".to_string(), Value::String(t.value.clone()));
    Value::Object(object)
}

/// The JSON encoding of a burn hook message, as a sender writes it.
fn encode_hook(named: &str, token_id: &str, token_type: &Option<Trait>) -> Vec<u8> {
    let mut burn = serde_json::Map::new();
    burn.insert("contract_address".to_string(), Value::String(named.to_string()));
    burn.insert("token_id".to_string(), Value::String(token_id.to_string()));
    burn.insert("token_type".to_string(), token_type.as_ref().map(trait_json).unwrap_or(Value::Null));
    let mut outer = serde_json::Map::new();
    outer.insert("burn".to_string(), Value::Object(burn));
    serde_json::to_vec(&Value::Object(outer)).unwrap()
}

/// Decodes a burn hook message from JSON; none where it is not one.
fn decode_hook(bytes: &[u8]) -> Option<Cw721HookMsg> {
    let value: Value = serde_json::from_slice(bytes).ok()?;
    let outer = value.as_object()?;
    if outer.len() != 1 {
        return None;
    }
    let burn = outer.get("burn")?.as_object()?;
    let text = |key: &str| burn.get(key).and_then(|v| v.as_str()).map(|v| v.to_string());
    let token_type = match burn.get("token_type") {
        None | Some(Value::Null) => None,
        Some(t) => {
            let t = t.as_object()?;
            Some(Trait {
                trait_type: t.get("trait_type")?.as_str()?.to_string(),
                value: t.get("value")?.as_str()?.to_string(),
            })
        }
    };
    Some(Cw721HookMsg::Burn { contract_address: text("contract_address")?, token_id: text("token_id")?, token_type })
}

/// The encoded answer of a cw2981 collection to the `nft_info` query.
fn nft_info_response(attributes: Option<Vec<Trait>>) -> Vec<u8> {
    let extension = Metadata {
        attributes: attributes.map(|list| {
            list.into_iter()
                .map(|t| cw2981_royalties::Trait { display_type: None, trait_type: t.trait_type, value: t.value })
                .collect()
        }),
        ..Metadata::default()
    };
    to_json_vec(&NftInfoResponse { token_uri: None, extension }).unwrap()
}

fn allow(collection: &str, token_type: Option<Trait>) -> ExecuteMsg {
    ExecuteMsg::AllowToken { contract_address: collection.to_string(), token_type }
}

fn rarity(value: &str) -> Trait {
    Trait { trait_type: "rarity".to_string(), value: value.to_string() }
}

fn any() -> Trait {
    Trait { trait_type: "any".to_string(), value: "any".to_string() }
}

fn attributes(r: &Response) -> Vec<(String, String)> {
    r.attributes.iter().map(|a| (a.key.clone(), a.value.clone())).collect()
}

fn pairs(v: &[(&str, &str)]) -> Vec<(String, String)> {
    v.iter().map(|(k, v)| (k.to_string(), v.to_string())).collect()
}

/// The chain after instantiation, with the real collection allowed for every token.
fn instantiate_contracts() -> Chain {
    let mut chain = Chain::new();
    chain.instantiate(ADMIN);
    assert!(matches!(chain.execute(ADMIN, allow(NFT, None)), Outcome::Succeeded(_)));
    chain
}

// User can not allow nft contract is used in voucher contract
#[test]
fn cannot_allow_nft_contract_because_not_admin() {
    let mut chain = Chain::new();
    chain.instantiate(ADMIN);
    match chain.execute(USER_1, allow(NFT, None)) {
        Outcome::Failed(e) => assert_eq!(e.message(), "Unauthorized"),
        other => panic!("unexpected outcome {:?}", other),
    }
}

// Admin can allow nft contract is used in voucher contract
#[test]
fn admin_can_allow_nft_contract() {
    let mut chain = Chain::new();
    chain.instantiate(ADMIN);
    let response = chain.execute(ADMIN, allow(NFT, None));
    assert!(matches!(response, Outcome::Succeeded(_)));
}

// Cannot send fake nft to voucher contract
#[test]
fn cannot_send_fake_nft_to_voucher_contract() {
    let mut chain = instantiate_contracts();
    match chain.send_nft(NFT_FAKE, USER_1, "1", NFT_FAKE, None) {
        Outcome::Failed(e) => assert_eq!(e.message(), "Cannot burn this type of token"),
        other => panic!("unexpected outcome {:?}", other),
    }
}

// Can send real nft to voucher contract
#[test]
fn cannot_send_real_nft_to_voucher_contract() {
    let mut chain = instantiate_contracts();

    assert!(matches!(chain.send_nft(NFT, USER_1, "1", NFT, None), Outcome::Succeeded(_)));
    assert_eq!(chain.remaining(USER_1, NFT, None), 1);
    assert_eq!(chain.remaining(ADMIN, NFT, None), 0);

    assert!(matches!(chain.send_nft(NFT, USER_1, "2", NFT, None), Outcome::Succeeded(_)));
    assert_eq!(chain.remaining(USER_1, NFT, None), 2);
}

#[test]
fn instantiate_makes_sender_admin() {
    let mut chain = Chain::new();
    let response = chain.instantiate(ADMIN);
    assert_eq!(attributes(&response), pairs(&[("action", "instantiate"), ("admin", ADMIN)]));
    assert_eq!(chain.contract_version, Some(("crates.io:voucher".to_string(), "0.1.0".to_string())));
    match chain.query(QueryMsg::Config {}) {
        Ok(QueryResponse::Config(c)) => assert_eq!(c.admin, ADMIN),
        other => panic!("unexpected answer {:?}", other),
    }
    match chain.query(QueryMsg::AllowedTokens {}) {
        Ok(QueryResponse::AllowedTokens(list)) => assert!(list.tokens.is_empty()),
        other => panic!("unexpected answer {:?}", other),
    }
}

#[test]
fn non_admin_changes_nothing() {
    let mut chain = instantiate_contracts();
    let before = chain.allowed_tokens.clone();
    assert!(matches!(chain.execute(USER_1, allow(NFT_FAKE, None)), Outcome::Failed(ContractError::Unauthorized {})));
    assert_eq!(chain.allowed_tokens, before);
}

#[test]
fn allow_token_reports_and_saves_the_kind() {
    let mut chain = Chain::new();
    chain.instantiate(ADMIN);
    match chain.execute(ADMIN, allow(NFT, Some(rarity("gold")))) {
        Outcome::Succeeded(r) => assert_eq!(
            attributes(&r),
            pairs(&[
                ("action", "allow_token"),
                ("contract_address", NFT),
                ("trait_type", "rarity"),
                ("trait_value", "gold"),
            ])
        ),
        other => panic!("unexpected outcome {:?}", other),
    }
    let expected = TokenInfo { contract_address: NFT.to_string(), token_type: rarity("gold") };
    match chain.query(QueryMsg::AllowedTokens {}) {
        Ok(QueryResponse::AllowedTokens(list)) => assert_eq!(list.tokens, vec![expected]),
        other => panic!("unexpected answer {:?}", other),
    }
}

#[test]
fn allow_token_without_trait_allows_any() {
    let chain = instantiate_contracts();
    let expected = TokenInfo { contract_address: NFT.to_string(), token_type: any() };
    assert_eq!(chain.allowed_tokens.clone().unwrap().tokens, vec![expected]);
}

#[test]
fn allowing_twice_is_refused() {
    let mut chain = instantiate_contracts();
    match chain.execute(ADMIN, allow(NFT, None)) {
        Outcome::Failed(e) => {
            assert!(matches!(e, ContractError::AlreadyAllowed {}));
            assert_eq!(e.message(), "Token already allowed");
        }
        other => panic!("unexpected outcome {:?}", other),
    }
    // the same collection with "any"/"any" named explicitly is the same kind
    assert!(matches!(chain.execute(ADMIN, allow(NFT, Some(any()))), Outcome::Failed(ContractError::AlreadyAllowed {})));
    // another trait of the same collection is another kind
    assert!(matches!(chain.execute(ADMIN, allow(NFT, Some(rarity("gold")))), Outcome::Succeeded(_)));
    assert_eq!(chain.allowed_tokens.clone().unwrap().tokens.len(), 2);
}

#[test]
fn allow_token_with_invalid_address_fails_with_host_error() {
    let mut chain = Chain::new();
    chain.instantiate(ADMIN);
    match chain.execute(ADMIN, allow("ab", None)) {
        Outcome::Failed(ContractError::Std(e)) => assert!(e.to_string().contains("too short")),
        other => panic!("unexpected outcome {:?}", other),
    }
    // the address is validated before the admin is checked
    match chain.execute(USER_1, allow("NotNormalized", None)) {
        Outcome::Failed(ContractError::Std(_)) => {}
        other => panic!("unexpected outcome {:?}", other),
    }
}

#[test]
fn allow_token_before_instantiation_fails_with_host_error() {
    let mut chain = Chain::new();
    match chain.execute(ADMIN, allow(NFT, None)) {
        Outcome::Failed(e @ ContractError::Std(_)) => assert!(e.message().contains("not found")),
        other => panic!("unexpected outcome {:?}", other),
    }
}

#[test]
fn burn_reports_attributes_and_stores_voucher() {
    let mut chain = instantiate_contracts();
    chain.calls.clear();
    match chain.send_nft(NFT, USER_1, "7", NFT, None) {
        Outcome::Succeeded(r) => assert_eq!(
            attributes(&r),
            pairs(&[
                ("action", "burn"),
                ("sender", USER_1),
                ("contract_address", NFT),
                ("token_id", "7"),
                ("trait_type", "any"),
                ("trait_value", "any"),
            ])
        ),
        other => panic!("unexpected outcome {:?}", other),
    }
    let key = VoucherKey {
        owner: USER_1.to_string(),
        contract_address: NFT.to_string(),
        token_type: "anyany".to_string(),
    };
    assert_eq!(chain.vouchers, vec![(key, 1)]);
    // each request is made once, in order; an "any" collection needs no look at the token
    let kinds: Vec<&str> = chain.calls.iter().map(|c| c.split(|ch: char| !ch.is_alphanumeric()).next().unwrap()).collect();
    assert_eq!(kinds, vec!["ParseBurnHook", "ValidateAddress", "LoadAllowedTokens", "ValidateAddress", "LoadVouchers"]);
}

#[test]
fn burn_naming_another_collection_is_unauthorized() {
    let mut chain = instantiate_contracts();
    match chain.send_nft(NFT_FAKE, USER_1, "1", NFT, None) {
        Outcome::Failed(e) => assert_eq!(e.message(), "Unauthorized"),
        other => panic!("unexpected outcome {:?}", other),
    }
    assert_eq!(chain.remaining(USER_1, NFT, None), 0);
}

#[test]
fn undecodable_hook_is_not_allowed() {
    let mut chain = instantiate_contracts();
    let msg = ExecuteMsg::ReceiveNft(Cw721ReceiveMsg {
        sender: USER_1.to_string(),
        token_id: "1".to_string(),
        msg: b"not json".to_vec(),
    });
    assert!(matches!(chain.execute(NFT, msg), Outcome::Failed(ContractError::NotAllowed {})));
}

#[test]
fn burn_with_trait_looks_at_the_token() {
    let mut chain = Chain::new();
    chain.instantiate(ADMIN);
    assert!(matches!(chain.execute(ADMIN, allow(NFT, Some(rarity("gold")))), Outcome::Succeeded(_)));
    chain.nft_attributes.push((NFT.to_string(), "1".to_string(), Some(vec![rarity("silver"), rarity("gold")])));
    chain.nft_attributes.push((NFT.to_string(), "2".to_string(), Some(vec![rarity("silver")])));
    chain.nft_attributes.push((NFT.to_string(), "3".to_string(), None));

    assert!(matches!(chain.send_nft(NFT, USER_1, "1", NFT, Some(rarity("gold"))), Outcome::Succeeded(_)));
    assert!(matches!(chain.send_nft(NFT, USER_1, "2", NFT, Some(rarity("gold"))), Outcome::Failed(ContractError::NotAllowed {})));
    assert!(matches!(chain.send_nft(NFT, USER_1, "3", NFT, Some(rarity("gold"))), Outcome::Failed(ContractError::NotAllowed {})));
    // the query was made for each token with a trait
    assert_eq!(chain.calls.iter().filter(|c| c.contains("QueryNftInfo")).count(), 3);
    // a token the collection does not know
    assert!(matches!(chain.send_nft(NFT, USER_1, "9", NFT, Some(rarity("gold"))), Outcome::Failed(ContractError::NotAllowed {})));
    // the collection is not allowed for every token
    assert!(matches!(chain.send_nft(NFT, USER_1, "1", NFT, None), Outcome::Failed(ContractError::NotAllowed {})));

    assert_eq!(chain.remaining(USER_1, NFT, Some(rarity("gold"))), 1);
    assert_eq!(chain.remaining(USER_1, NFT, None), 0);
}

#[test]
fn burn_with_invalid_previous_owner_aborts() {
    let mut chain = instantiate_contracts();
    assert!(matches!(chain.send_nft(NFT, "X", "1", NFT, None), Outcome::Aborted));
}

#[test]
fn burn_at_the_largest_count_aborts() {
    let mut chain = instantiate_contracts();
    let key = VoucherKey {
        owner: USER_1.to_string(),
        contract_address: NFT.to_string(),
        token_type: "anyany".to_string(),
    };
    chain.vouchers.push((key, u64::MAX));
    assert!(matches!(chain.send_nft(NFT, USER_1, "1", NFT, None), Outcome::Aborted));
    chain.vouchers[0].1 = u64::MAX - 1;
    assert!(matches!(chain.send_nft(NFT, USER_1, "1", NFT, None), Outcome::Succeeded(_)));
    assert_eq!(chain.remaining(USER_1, NFT, None), u64::MAX);
}

#[test]
fn query_with_invalid_address_fails() {
    let mut chain = instantiate_contracts();
    assert!(chain
        .query(QueryMsg::RemainingVouchers {
            owner: "ab".to_string(),
            contract_address: NFT.to_string(),
            token_type: None,
        })
        .is_err());
    assert!(chain
        .query(QueryMsg::RemainingVouchers {
            owner: USER_1.to_string(),
            contract_address: "AB".to_string(),
            token_type: None,
        })
        .is_err());
}

#[test]
fn queries_before_instantiation_fail() {
    let mut chain = Chain::new();
    assert!(chain.query(QueryMsg::Config {}).is_err());
    assert!(chain.query(QueryMsg::AllowedTokens {}).is_err());
    // an unknown key holds no vouchers even before instantiation
    assert_eq!(chain.remaining(USER_1, NFT, None), 0);
}

#[test]
fn voucher_key_joins_trait_type_and_value() {
    let key = make_voucher_key(USER_1.to_string(), NFT.to_string(), &rarity("gold"));
    assert_eq!(key.owner, USER_1);
    assert_eq!(key.contract_address, NFT);
    assert_eq!(key.token_type, "raritygold");
}

#[test]
fn entry_points_ask_in_order() {
    // allow_token reads the configuration, then the allowed list
    let sender = ADMIN.to_string();
    let info = TokenInfo { contract_address: NFT.to_string(), token_type: any() };
    match allow_token(&sender, info.clone(), Knowledge::new()) {
        Step::Ask(HostCall::LoadConfig, _) => {}
        other => panic!("unexpected step {:?}", other),
    }
    let mut known = Knowledge::new();
    known.record(HostAnswer::Config(Ok(Config { admin: sender.clone() })));
    match allow_token(&sender, info, known) {
        Step::Ask(HostCall::LoadAllowedTokens, _) => {}
        other => panic!("unexpected step {:?}", other),
    }
    // the burn hook bytes that a sender encodes decode to the burn message
    let bytes = encode_hook(NFT, "4", &Some(rarity("gold")));
    assert_eq!(
        decode_hook(&bytes),
        Some(Cw721HookMsg::Burn { contract_address: NFT.to_string(), token_id: "4".to_string(), token_type: Some(rarity("gold")) })
    );
    // receive_cw721 first asks to decode the hook bytes it was sent
    let msg = Cw721ReceiveMsg { sender: USER_1.to_string(), token_id: "1".to_string(), msg: vec![1, 2, 3] };
    match receive_cw721(&NFT.to_string(), &msg, Knowledge::new()) {
        Step::Ask(HostCall::ParseBurnHook(bytes), _) => assert_eq!(bytes, vec![1, 2, 3]),
        other => panic!("unexpected step {:?}", other),
    }
    // a burn of a kind with a trait asks the collection with the cw721 `nft_info` query
    let mut known = Knowledge::new();
    known.record(HostAnswer::BurnHook(Some(Cw721HookMsg::Burn {
        contract_address: NFT.to_string(),
        token_id: "1".to_string(),
        token_type: Some(rarity("gold")),
    })));
    known.record(HostAnswer::Address(Ok(NFT.to_string())));
    known.record(HostAnswer::AllowedTokens(Ok(AllowedTokens {
        tokens: vec![TokenInfo { contract_address: NFT.to_string(), token_type: rarity("gold") }],
    })));
    match receive_cw721(&NFT.to_string(), &msg, known) {
        Step::Ask(HostCall::QueryNftInfo { contract_address, msg }, _) => {
            assert_eq!(contract_address, NFT);
            assert_eq!(msg, br#"{"nft_info":{"token_id":"1"}}"#.to_vec());
        }
        other => panic!("unexpected step {:?}", other),
    }
    // the remaining vouchers query validates the owner first
    match query_remaining_vouchers(&USER_1.to_string(), &NFT.to_string(), None, Knowledge::new()) {
        Step::Ask(HostCall::ValidateAddress(a), _) => assert_eq!(a, USER_1),
        other => panic!("unexpected step {:?}", other),
    }
    assert!(matches!(query_config(Knowledge::new()), Step::Ask(HostCall::LoadConfig, _)));
    assert!(matches!(query_allowed_tokens(Knowledge::new()), Step::Ask(HostCall::LoadAllowedTokens, _)));
}

#[test]
fn knowledge_places_addresses_in_order() {
    let mut known = Knowledge::new();
    known.record(HostAnswer::Address(Ok("first".to_string())));
    known.record(HostAnswer::Address(Ok("second".to_string())));
    assert!(matches!(&known.first_address, Some(Ok(a)) if a == "first"));
    assert!(matches!(&known.second_address, Some(Ok(a)) if a == "second"));
}

#[test]
fn valid_trait_decisions() {
    let list = AllowedTokens {
        tokens: vec![
            TokenInfo { contract_address: NFT.to_string(), token_type: any() },
            TokenInfo { contract_address: NFT_FAKE.to_string(), token_type: rarity("gold") },
        ],
    };
    let kind = |c: &str, t: Trait| TokenInfo { contract_address: c.to_string(), token_type: t };
    assert!(matches!(valid_trait(&list, &kind(NFT, any())), TraitCheck::Valid));
    assert!(matches!(valid_trait(&list, &kind(NFT_FAKE, rarity("gold"))), TraitCheck::CheckNft));
    assert!(matches!(valid_trait(&list, &kind(NFT_FAKE, any())), TraitCheck::Invalid));
    assert!(matches!(valid_trait(&list, &kind(VOUCHER, any())), TraitCheck::Invalid));
    assert!(nft_has_trait(&Some(vec![rarity("a"), rarity("gold")]), &rarity("gold")));
    assert!(!nft_has_trait(&Some(vec![rarity("a")]), &rarity("gold")));
    assert!(!nft_has_trait(&Some(vec![]), &rarity("gold")));
    assert!(!nft_has_trait(&None, &rarity("gold")));
}

#[test]
fn collection_responses_are_decoded() {
    let mut chain = Chain::new();
    chain.instantiate(ADMIN);
    assert!(matches!(chain.execute(ADMIN, allow(NFT, Some(rarity("gold")))), Outcome::Succeeded(_)));
    let hook = Cw721HookMsg::Burn { contract_address: NFT.to_string(), token_id: "1".to_string(), token_type: Some(rarity("gold")) };
    let msg = Cw721ReceiveMsg { sender: USER_1.to_string(), token_id: "1".to_string(), msg: vec![] };
    let known_with = |response: Option<Vec<u8>>| {
        let mut known = Knowledge::new();
        known.record(HostAnswer::BurnHook(Some(hook.clone())));
        known.record(HostAnswer::Address(Ok(NFT.to_string())));
        known.record(HostAnswer::AllowedTokens(Ok(chain.allowed_tokens.clone().unwrap())));
        known.record(HostAnswer::NftInfo(response));
        known
    };
    // a response that holds the trait lets the burn go on to the owner
    let holding = nft_info_response(Some(vec![rarity("gold")]));
    assert!(matches!(receive_cw721(&NFT.to_string(), &msg, known_with(Some(holding))), Step::Ask(HostCall::ValidateAddress(_), _)));
    // a response that does not decode, an empty extension and a failed query hold no trait
    for response in [Some(b"not json".to_vec()), Some(br#"{"token_uri":null,"extension":{}}"#.to_vec()), None] {
        assert!(matches!(
            receive_cw721(&NFT.to_string(), &msg, known_with(response)),
            Step::Done(Err(ContractError::NotAllowed {}))
        ));
    }
}

#[test]
fn host_error_message_is_the_host_text() {
    let e = ContractError::Std(StdError::generic_err("boom"));
    assert_eq!(e.message(), "Generic error: boom");
    assert_eq!(ContractError::NotAllowed {}.message(), "Cannot burn this type of token");
}

#[test]
fn burn_leaves_other_keys() {
    let mut chain = instantiate_contracts();
    assert!(matches!(chain.execute(ADMIN, allow(NFT, Some(rarity("gold")))), Outcome::Succeeded(_)));
    chain.nft_attributes.push((NFT.to_string(), "5".to_string(), Some(vec![rarity("gold")])));
    assert!(matches!(chain.send_nft(NFT, USER_1, "5", NFT, Some(rarity("gold"))), Outcome::Succeeded(_)));
    assert!(matches!(chain.send_nft(NFT, ADMIN, "6", NFT, None), Outcome::Succeeded(_)));
    assert!(matches!(chain.send_nft(NFT, ADMIN, "7", NFT, None), Outcome::Succeeded(_)));
    assert_eq!(chain.remaining(USER_1, NFT, Some(rarity("gold"))), 1);
    assert_eq!(chain.remaining(USER_1, NFT, None), 0);
    assert_eq!(chain.remaining(ADMIN, NFT, None), 2);
    assert_eq!(chain.remaining(ADMIN, NFT, Some(rarity("gold"))), 0);
}

#[test]
fn allowed_list_is_the_allowed_kinds_in_order() {
    let mut chain = Chain::new();
    chain.instantiate(ADMIN);
    assert!(matches!(chain.execute(ADMIN, allow(NFT_FAKE, Some(rarity("gold")))), Outcome::Succeeded(_)));
    assert!(matches!(chain.execute(USER_1, allow(VOUCHER, None)), Outcome::Failed(_)));
    assert!(matches!(chain.execute(ADMIN, allow(NFT, None)), Outcome::Succeeded(_)));
    assert!(matches!(chain.execute(ADMIN, allow(NFT_FAKE, Some(rarity("gold")))), Outcome::Failed(_)));
    assert!(matches!(chain.execute(ADMIN, allow(NFT_FAKE, None)), Outcome::Succeeded(_)));
    let kind = |c: &str, t: Trait| TokenInfo { contract_address: c.to_string(), token_type: t };
    match chain.query(QueryMsg::AllowedTokens {}) {
        Ok(QueryResponse::AllowedTokens(list)) => assert_eq!(
            list.tokens,
            vec![kind(NFT_FAKE, rarity("gold")), kind(NFT, any()), kind(NFT_FAKE, any())]
        ),
        other => panic!("unexpected answer {:?}", other),
    }
}
