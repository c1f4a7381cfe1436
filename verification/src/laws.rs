//! Properties of the contract that span its entry points.
use vstd::prelude::*;

use crate::contract::{
    allow_token_step, attributes_hold, execute_step, has_trait, instantiate_attributes,
    nft_response_holds, query_config_step, query_remaining_vouchers_step, query_step,
    receive_cw721_step, trait_check, ExecStep, QueryStep, TraitCheck,
};
use crate::nft::nft_info_attributes;
use crate::error::ContractError;
use crate::host::{lacks, Knowledge, Step};
use crate::msg::{Cw721HookMsg, Cw721ReceiveMsg, ExecuteMsg, QueryMsg};
use crate::response::{Instantiation, QueryResponse, StorageWrite};
use crate::state::{any_text, any_trait, trait_or_any, voucher_key, Config, TokenInfoView, Trait, TraitView, VoucherKeyView};

verus! {

/// An execute message only asks the host for what it does not know yet, and hands its
/// knowledge back unchanged; so each answer fills a place, and a message asks at most as many
/// times as there are places.
pub proof fn law_execute_asks_only_what_it_lacks(
    sender: Seq<char>,
    msg: ExecuteMsg,
    known: Knowledge,
    r: ExecStep,
)
    requires
        execute_step(sender, msg, known, r),
    ensures
        r matches Step::Ask(call, k) ==> lacks(known, call) && k == known,
{
}

/// The sender that instantiates the contract is its admin: with the stored configuration, an
/// allow request from that sender passes the admin check, and one from anybody else is
/// refused as unauthorized.
pub proof fn law_instantiator_is_admin(
    instantiator: Seq<char>,
    instantiation: Instantiation,
    sender: Seq<char>,
    token_info: TokenInfoView,
    known: Knowledge,
    r: ExecStep,
)
    requires
        instantiation.config.admin@ == instantiator,
        known.config == Some(Ok::<Config, cosmwasm_std::StdError>(instantiation.config)),
        allow_token_step(sender, token_info, known, r),
    ensures
        sender == instantiator ==> r != ExecStep::Done(Err(ContractError::Unauthorized {})),
        sender != instantiator ==> r == ExecStep::Done(Err(ContractError::Unauthorized {})),
{
    if sender == instantiator {
        match known.allowed_tokens {
            Some(Ok(allowed)) => {
                if !allowed@.contains(token_info) {
                    assert(r is Done);
                }
            },
            _ => {},
        }
    }
}

/// The list of allowed token kinds never holds a kind twice: it starts empty, and allowing a
/// kind keeps a list without repeats without repeats.
pub proof fn law_allowed_tokens_hold_no_repeats(
    instantiation: Instantiation,
    sender: Seq<char>,
    token_info: TokenInfoView,
    known: Knowledge,
    r: ExecStep,
)
    requires
        instantiation.allowed_tokens@ == Seq::<TokenInfoView>::empty(),
        allow_token_step(sender, token_info, known, r),
        known.allowed_tokens matches Some(Ok(allowed)) ==> allowed@.no_duplicates(),
    ensures
        instantiation.allowed_tokens@.no_duplicates(),
        r matches Step::Done(Ok(effects)) ==> (effects.write matches StorageWrite::AllowedTokens(saved)
            && saved@.no_duplicates()),
{
    if let Step::Done(Ok(effects)) = r {
        if let Some(Ok(allowed)) = known.allowed_tokens {
            if let StorageWrite::AllowedTokens(saved) = effects.write {
                assert forall|i: int, j: int|
                    0 <= i < saved@.len() && 0 <= j < saved@.len() && i != j implies saved@[i]
                    != saved@[j] by {
                    if i < allowed@.len() && j < allowed@.len() {
                    } else if i < allowed@.len() {
                        assert(saved@[i] == allowed@[i]);
                        assert(allowed@.contains(saved@[i]) ==> saved@[i] != token_info);
                    } else if j < allowed@.len() {
                        assert(saved@[j] == allowed@[j]);
                        assert(allowed@.contains(saved@[j]) ==> saved@[j] != token_info);
                    }
                }
            }
        }
    }
}

/// A token kind that the admin has just allowed is accepted by the allowed list it was saved
/// in: a burn of that collection with the same trait is no longer refused by the list, and
/// where the kind names no trait it needs no look at the token.
pub proof fn law_allowed_kind_is_accepted(
    sender: Seq<char>,
    contract_address: String,
    token_type: Option<Trait>,
    known: Knowledge,
    r: ExecStep,
)
    requires
        execute_step(sender, ExecuteMsg::AllowToken { contract_address, token_type }, known, r),
    ensures
        r matches Step::Done(Ok(effects)) ==> {
            &&& effects.write matches StorageWrite::AllowedTokens(saved)
            &&& known.first_address matches Some(Ok(address))
            &&& trait_check(
                saved@,
                TokenInfoView { contract_address: address@, token_type: trait_or_any(token_type) },
            ) != TraitCheck::Invalid
            &&& token_type is None ==> trait_check(
                saved@,
                TokenInfoView { contract_address: address@, token_type: trait_or_any(token_type) },
            ) == TraitCheck::Valid
        },
{
    if let Step::Done(Ok(effects)) = r {
        if let Some(Ok(address)) = known.first_address {
            if let StorageWrite::AllowedTokens(saved) = effects.write {
                let info = TokenInfoView { contract_address: address@, token_type: trait_or_any(token_type) };
                assert(saved@[saved@.len() - 1] == info);
                assert(saved@.contains(info));
            }
        }
    }
}

/// Burning adds exactly one voucher: where a burn succeeds, a remaining vouchers query for the
/// previous owner, the collection and the trait of the burn reads the key the burn saved under;
/// it answered the stored count before the burn, and it answers that count plus one after it.
pub proof fn law_burn_adds_one_voucher(
    sender: Seq<char>,
    cw721_msg: Cw721ReceiveMsg,
    burn_known: Knowledge,
    burn: ExecStep,
    owner: String,
    contract_address: String,
    token_type: Option<Trait>,
    before_known: Knowledge,
    before: QueryStep<u64>,
    after_known: Knowledge,
    after: QueryStep<u64>,
)
    requires
        receive_cw721_step(sender, cw721_msg, burn_known, burn),
        burn_known.burn_hook matches Some(Some(Cw721HookMsg::Burn { token_type: burned, .. }))
            && trait_or_any(burned) == trait_or_any(token_type),
        // the query validates the owner and the collection to the same addresses as the burn
        before_known.first_address == burn_known.second_address,
        before_known.second_address == burn_known.first_address,
        after_known.first_address == burn_known.second_address,
        after_known.second_address == burn_known.first_address,
        // before the burn the query reads what the burn read; after it, what the burn saved
        before_known.vouchers == burn_known.vouchers,
        burn matches Step::Done(Ok(effects)) && effects.write matches StorageWrite::Vouchers(_, saved)
            ==> after_known.vouchers == Some(Ok::<Option<u64>, cosmwasm_std::StdError>(Some(saved))),
        query_remaining_vouchers_step(owner@, contract_address@, token_type, before_known, before, |n: u64| n),
        query_remaining_vouchers_step(owner@, contract_address@, token_type, after_known, after, |n: u64| n),
    ensures
        burn matches Step::Done(Ok(effects)) ==> {
            &&& effects.write matches StorageWrite::Vouchers(saved_key, saved)
            &&& burn_known.second_address matches Some(Ok(valid_owner))
            &&& burn_known.first_address matches Some(Ok(valid_contract))
            &&& saved_key@ == voucher_key(valid_owner@, valid_contract@, trait_or_any(token_type))
            &&& before matches Step::Done(Ok(count))
            &&& after matches Step::Done(Ok(later)) && later == count + 1
        },
{
    if let Step::Done(Ok(effects)) = burn {
        assert(burn_known.vouchers matches Some(Ok(_)));
    }
}

/// A configuration query after instantiation answers with the instantiating sender as admin.
pub proof fn law_instantiator_is_reported(
    instantiator: Seq<char>,
    instantiation: Instantiation,
    known: Knowledge,
    r: QueryStep<Config>,
)
    requires
        instantiation.config.admin@ == instantiator,
        instantiation.response@ == instantiate_attributes(instantiator),
        known.config == Some(Ok::<Config, cosmwasm_std::StdError>(instantiation.config)),
        query_config_step(known, r, |c: Config| c),
    ensures
        r matches Step::Done(Ok(config)) && config.admin@ == instantiator,
{
}

/// A remaining vouchers query for a key under which nothing is stored answers zero.
pub proof fn law_unknown_key_has_no_vouchers(
    owner: Seq<char>,
    contract_address: Seq<char>,
    token_type: Option<Trait>,
    known: Knowledge,
    r: QueryStep<u64>,
)
    requires
        query_remaining_vouchers_step(owner, contract_address, token_type, known, r, |n: u64| n),
        known.first_address matches Some(Ok(_)),
        known.second_address matches Some(Ok(_)),
        known.vouchers == Some(Ok::<Option<u64>, cosmwasm_std::StdError>(None)),
    ensures
        r == QueryStep::<u64>::Done(Ok(0)),
{
}

/// A query only asks the host for what it does not know yet, and hands its knowledge back
/// unchanged.
pub proof fn law_query_asks_only_what_it_lacks(
    msg: QueryMsg,
    known: Knowledge,
    r: QueryStep<QueryResponse>,
)
    requires
        query_step(msg, known, r),
    ensures
        r matches Step::Ask(call, k) ==> lacks(known, call) && k == known,
        !(r is Abort),
{
}

/// Only the admin changes the list of allowed token kinds: an execute message that saves the
/// list was sent by the admin of the stored configuration.
pub proof fn law_only_admin_changes_allowed_tokens(
    sender: Seq<char>,
    msg: ExecuteMsg,
    known: Knowledge,
    r: ExecStep,
)
    requires
        execute_step(sender, msg, known, r),
    ensures
        r matches Step::Done(Ok(effects)) && effects.write is AllowedTokens ==> {
            &&& msg is AllowToken
            &&& known.config matches Some(Ok(config))
            &&& config.admin@ == sender
        },
{
}

/// Vouchers are only counted for tokens that their own collection hands over: an execute
/// message that saves a voucher count is a received NFT whose hook names, as its collection,
/// an address that validates to the sender.
pub proof fn law_vouchers_only_from_the_collection(
    sender: Seq<char>,
    msg: ExecuteMsg,
    known: Knowledge,
    r: ExecStep,
)
    requires
        execute_step(sender, msg, known, r),
    ensures
        r matches Step::Done(Ok(effects)) && effects.write is Vouchers ==> {
            &&& msg is ReceiveNft
            &&& known.first_address matches Some(Ok(collection))
            &&& collection@ == sender
        },
{
}

/// What storage holds under each voucher key.
pub open spec fn stored_count(store: Map<VoucherKeyView, u64>, key: VoucherKeyView) -> Option<u64> {
    if store.dom().contains(key) {
        Some(store[key])
    } else {
        None
    }
}

/// The voucher counts in storage after a write.
pub open spec fn vouchers_after(store: Map<VoucherKeyView, u64>, write: StorageWrite) -> Map<VoucherKeyView, u64> {
    match write {
        StorageWrite::Vouchers(key, count) => store.insert(key@, count),
        StorageWrite::AllowedTokens(_) => store,
    }
}

/// A burn changes the count of its own key only: a remaining vouchers query for any other key
/// answers after the burn what it answered before.
pub proof fn law_burn_changes_only_its_key(
    sender: Seq<char>,
    cw721_msg: Cw721ReceiveMsg,
    burn_known: Knowledge,
    burn: ExecStep,
    store: Map<VoucherKeyView, u64>,
    owner: String,
    contract_address: String,
    token_type: Option<Trait>,
    key: VoucherKeyView,
    before_known: Knowledge,
    before: QueryStep<u64>,
    after_known: Knowledge,
    after: QueryStep<u64>,
)
    requires
        receive_cw721_step(sender, cw721_msg, burn_known, burn),
        burn matches Step::Done(Ok(effects)) && effects.write matches StorageWrite::Vouchers(saved_key, _)
            && saved_key@ != key,
        // the key the query reads
        before_known.first_address matches Some(Ok(valid_owner)) && before_known.second_address matches Some(
            Ok(valid_contract),
        ) && key == voucher_key(valid_owner@, valid_contract@, trait_or_any(token_type)),
        after_known.first_address == before_known.first_address,
        after_known.second_address == before_known.second_address,
        // before the burn the query reads storage; after it, storage with the burn's write
        before_known.vouchers == Some(Ok::<Option<u64>, cosmwasm_std::StdError>(stored_count(store, key))),
        burn matches Step::Done(Ok(effects)) ==> after_known.vouchers == Some(
            Ok::<Option<u64>, cosmwasm_std::StdError>(stored_count(vouchers_after(store, effects.write), key)),
        ),
        query_remaining_vouchers_step(owner@, contract_address@, token_type, before_known, before, |n: u64| n),
        query_remaining_vouchers_step(owner@, contract_address@, token_type, after_known, after, |n: u64| n),
    ensures
        before is Done,
        after == before,
{
    if let Step::Done(Ok(effects)) = burn {
        if let StorageWrite::Vouchers(saved_key, count) = effects.write {
            assert(stored_count(vouchers_after(store, effects.write), key) == stored_count(store, key));
        }
    }
}

/// One execute message the contract handled: its sender, the message, what the host told it,
/// and the step it ended with.
pub struct ExecuteRun {
    pub sender: Seq<char>,
    pub msg: ExecuteMsg,
    pub known: Knowledge,
    pub result: ExecStep,
}

/// The list of allowed token kinds that a handled message saved, if it saved one.
pub open spec fn saved_allowed_tokens(run: ExecuteRun) -> Option<Seq<TokenInfoView>> {
    match run.result {
        Step::Done(Ok(effects)) => match effects.write {
            StorageWrite::AllowedTokens(list) => Some(list@),
            StorageWrite::Vouchers(_, _) => None,
        },
        _ => None,
    }
}

/// The list of allowed token kinds in storage after a sequence of handled messages, starting
/// from the list that instantiation saved.
pub open spec fn allowed_list_after(start: Seq<TokenInfoView>, runs: Seq<ExecuteRun>) -> Seq<TokenInfoView>
    decreases runs.len(),
{
    if runs.len() == 0 {
        start
    } else {
        match saved_allowed_tokens(runs.last()) {
            Some(list) => list,
            None => allowed_list_after(start, runs.drop_last()),
        }
    }
}

/// The token kind an allow message names: the validated collection with the named trait
/// ("any"/"any" where none is named).
pub open spec fn named_kind(run: ExecuteRun) -> TokenInfoView {
    let collection = match run.known.first_address {
        Some(Ok(address)) => address@,
        _ => Seq::empty(),
    };
    let token_type = match run.msg {
        ExecuteMsg::AllowToken { token_type, .. } => trait_or_any(token_type),
        ExecuteMsg::ReceiveNft(_) => any_trait(),
    };
    TokenInfoView { contract_address: collection, token_type }
}

/// The kinds that the successful allow messages of a sequence allowed, in order.
pub open spec fn allowed_kinds(runs: Seq<ExecuteRun>) -> Seq<TokenInfoView>
    decreases runs.len(),
{
    if runs.len() == 0 {
        Seq::empty()
    } else if saved_allowed_tokens(runs.last()) is Some {
        allowed_kinds(runs.drop_last()).push(named_kind(runs.last()))
    } else {
        allowed_kinds(runs.drop_last())
    }
}

/// Over any sequence of execute messages after instantiation, where each message reads the
/// list that the earlier ones left in storage, the stored list of allowed token kinds is the
/// kinds that the successful allow messages named, in the order they came.
pub proof fn law_allowed_tokens_are_the_allowed_kinds(instantiation: Instantiation, runs: Seq<ExecuteRun>)
    requires
        instantiation.allowed_tokens@ == Seq::<TokenInfoView>::empty(),
        forall|i: int|
            0 <= i < runs.len() ==> execute_step(
                #[trigger] runs[i].sender,
                runs[i].msg,
                runs[i].known,
                runs[i].result,
            ),
        forall|i: int|
            0 <= i < runs.len() ==> (#[trigger] runs[i].known.allowed_tokens matches Some(Ok(read)) ==> read@
                == allowed_list_after(instantiation.allowed_tokens@, runs.take(i))),
    ensures
        allowed_list_after(instantiation.allowed_tokens@, runs) == allowed_kinds(runs),
    decreases runs.len(),
{
    if runs.len() > 0 {
        let n = runs.len() - 1;
        let prev = runs.drop_last();
        assert forall|i: int| 0 <= i < prev.len() implies prev.take(i) == runs.take(i) by {
            assert(prev.take(i) =~= runs.take(i));
        }
        assert forall|i: int| 0 <= i < prev.len() implies execute_step(
            #[trigger] prev[i].sender,
            prev[i].msg,
            prev[i].known,
            prev[i].result,
        ) by {
            assert(prev[i] == runs[i]);
        }
        assert forall|i: int| 0 <= i < prev.len() implies (#[trigger] prev[i].known.allowed_tokens matches Some(
            Ok(read),
        ) ==> read@ == allowed_list_after(instantiation.allowed_tokens@, prev.take(i))) by {
            assert(prev[i] == runs[i]);
            assert(prev.take(i) =~= runs.take(i));
        }
        law_allowed_tokens_are_the_allowed_kinds(instantiation, prev);
        let last = runs[n];
        assert(runs.last() == last);
        assert(runs.take(n) =~= prev);
        assert(execute_step(last.sender, last.msg, last.known, last.result));
        if let Some(list) = saved_allowed_tokens(last) {
            if let Some(Ok(read)) = last.known.allowed_tokens {
                assert(read@ == allowed_list_after(instantiation.allowed_tokens@, prev));
            }
        }
    }
}

/// The allowed list decides a token kind by the whole kind: a kind that is not on the list is
/// refused whatever trait it names; a kind on the list is never refused, and it is accepted
/// without a look at the token exactly where it names "any"/"any".
pub proof fn law_allowed_list_decides_by_the_whole_kind(allowed: Seq<TokenInfoView>, token_info: TokenInfoView)
    ensures
        !allowed.contains(token_info) ==> trait_check(allowed, token_info) == TraitCheck::Invalid,
        allowed.contains(token_info) ==> trait_check(allowed, token_info) != TraitCheck::Invalid,
        trait_check(allowed, token_info) == TraitCheck::Valid <==> (allowed.contains(token_info)
            && token_info.token_type.trait_type == any_text() && token_info.token_type.value == any_text()),
{
}

/// A token holds a trait exactly where one of its attributes has both the trait's type and its
/// value; attributes that all differ from it in type, or all in value, do not hold it.
pub proof fn law_trait_needs_type_and_value(attributes: Seq<TraitView>, token_type: TraitView)
    ensures
        has_trait(attributes, token_type) <==> exists|i: int|
            0 <= i < attributes.len() && #[trigger] attributes[i].trait_type == token_type.trait_type
                && attributes[i].value == token_type.value,
        (forall|i: int| 0 <= i < attributes.len() ==> #[trigger] attributes[i].trait_type != token_type.trait_type)
            ==> !has_trait(attributes, token_type),
        (forall|i: int| 0 <= i < attributes.len() ==> #[trigger] attributes[i].value != token_type.value)
            ==> !has_trait(attributes, token_type),
{
    if has_trait(attributes, token_type) {
        let i = choose|i: int| 0 <= i < attributes.len() && attributes[i] == token_type;
        assert(attributes[i].trait_type == token_type.trait_type);
    }
    if exists|i: int|
        0 <= i < attributes.len() && #[trigger] attributes[i].trait_type == token_type.trait_type
            && attributes[i].value == token_type.value {
        let i = choose|i: int|
            0 <= i < attributes.len() && #[trigger] attributes[i].trait_type == token_type.trait_type
                && attributes[i].value == token_type.value;
        assert(attributes[i] == token_type);
    }
}

/// The attributes an NFT collection reported hold a trait exactly where one of them has the
/// trait's type and value as strings; no attributes hold no trait.
pub proof fn law_reported_attributes_hold_by_type_and_value(attributes: Option<Vec<Trait>>, token_type: Trait)
    ensures
        attributes_hold(attributes, token_type@) <==> (attributes matches Some(list) && exists|i: int|
            0 <= i < list.len() && (#[trigger] list@[i]).trait_type@ == token_type.trait_type@
                && list@[i].value@ == token_type.value@),
{
    if let Some(list) = attributes {
        let view = list@.map_values(|t: Trait| t@);
        law_trait_needs_type_and_value(view, token_type@);
        if exists|i: int|
            0 <= i < list.len() && (#[trigger] list@[i]).trait_type@ == token_type.trait_type@
                && list@[i].value@ == token_type.value@ {
            let i = choose|i: int|
                0 <= i < list.len() && (#[trigger] list@[i]).trait_type@ == token_type.trait_type@
                    && list@[i].value@ == token_type.value@;
            assert(view[i].trait_type == token_type@.trait_type);
        }
    }
}

/// The admin's request to allow a kind that is not on the list succeeds and saves the list with
/// the kind appended; a request for a kind already on the list is refused. Two kinds are the
/// same only where collection, trait type and trait value all agree.
pub proof fn law_admin_allows_every_new_kind(
    sender: Seq<char>,
    token_info: TokenInfoView,
    known: Knowledge,
    r: ExecStep,
)
    requires
        allow_token_step(sender, token_info, known, r),
        known.config matches Some(Ok(config)) && config.admin@ == sender,
        known.allowed_tokens matches Some(Ok(_)),
    ensures
        known.allowed_tokens matches Some(Ok(allowed)) && {
            &&& !(exists|i: int| 0 <= i < allowed@.len() && #[trigger] allowed@[i] == token_info) ==> {
                &&& r matches Step::Done(Ok(effects))
                &&& effects.write matches StorageWrite::AllowedTokens(saved)
                &&& saved@.len() == allowed@.len() + 1
                &&& saved@[allowed@.len() as int] == token_info
                &&& forall|j: int| 0 <= j < allowed@.len() ==> #[trigger] saved@[j] == allowed@[j]
            }
            &&& (exists|i: int| 0 <= i < allowed@.len() && #[trigger] allowed@[i] == token_info)
                ==> r == ExecStep::Done(Err(ContractError::AlreadyAllowed {}))
        },
{
    if let Some(Ok(allowed)) = known.allowed_tokens {
        if exists|i: int| 0 <= i < allowed@.len() && #[trigger] allowed@[i] == token_info {
            let i = choose|i: int| 0 <= i < allowed@.len() && #[trigger] allowed@[i] == token_info;
            assert(allowed@.contains(token_info));
        } else {
            assert(!allowed@.contains(token_info));
        }
    }
}

/// A burn that stores a voucher burned a kind that is on the allowed list it read: the
/// collection the hook names validates to the sender, the list holds exactly that collection
/// with the named trait ("any"/"any" where none is named), and where the trait is not
/// "any"/"any" the collection reported that trait, type and value, for the token.
pub proof fn law_burn_needs_an_allowed_kind(
    sender: Seq<char>,
    cw721_msg: Cw721ReceiveMsg,
    known: Knowledge,
    r: ExecStep,
)
    requires
        receive_cw721_step(sender, cw721_msg, known, r),
    ensures
        r matches Step::Done(Ok(effects)) ==> {
            &&& known.burn_hook matches Some(Some(Cw721HookMsg::Burn { token_type, .. }))
            &&& known.first_address matches Some(Ok(collection))
            &&& collection@ == sender
            &&& known.allowed_tokens matches Some(Ok(allowed))
            &&& allowed@.contains(TokenInfoView { contract_address: collection@, token_type: trait_or_any(token_type) })
            &&& !(trait_or_any(token_type).trait_type == any_text() && trait_or_any(token_type).value
                == any_text()) ==> {
                &&& known.nft_info matches Some(Some(response))
                &&& nft_info_attributes(response@) matches Some(Some(attributes))
                &&& exists|i: int|
                    0 <= i < attributes.len() && #[trigger] attributes[i].trait_type == trait_or_any(
                        token_type,
                    ).trait_type && attributes[i].value == trait_or_any(token_type).value
            }
        },
{
    if let Step::Done(Ok(effects)) = r {
        if let Some(Some(Cw721HookMsg::Burn { contract_address, token_id, token_type })) = known.burn_hook {
            if let Some(Ok(collection)) = known.first_address {
                if let Some(Ok(allowed)) = known.allowed_tokens {
                    let kind = trait_or_any(token_type);
                    let info = TokenInfoView { contract_address: collection@, token_type: kind };
                    law_allowed_list_decides_by_the_whole_kind(allowed@, info);
                    if !(kind.trait_type == any_text() && kind.value == any_text()) {
                        if let Some(response) = known.nft_info {
                            assert(nft_response_holds(response, kind));
                            if let Some(bytes) = response {
                                if let Some(Some(attributes)) = nft_info_attributes(bytes@) {
                                    law_trait_needs_type_and_value(attributes, kind);
                                }
                            }
                        }
                    }
                }
            }
        }
    }
}

} // verus!
