//! What the contract asks an NFT collection about a token, and how it reads the answer.
use vstd::prelude::*;

use crate::state::{Trait, TraitView};

verus! {

/// The encoded `nft_info` query of the cw721 standard for a token.
pub uninterp spec fn nft_info_query(token_id: Seq<char>) -> Seq<u8>;

/// The attributes in an encoded cw721 `nft_info` response whose extension is the cw2981
/// metadata: none where the response does not decode; inside, none where the token has
/// no attributes; otherwise every attribute of the metadata, in order, with its trait type
/// and value.
pub uninterp spec fn nft_info_attributes(response: Seq<u8>) -> Option<Option<Seq<TraitView>>>;

/// The models of a list of traits.
pub open spec fn traits_view(traits: Vec<Trait>) -> Seq<TraitView> {
    traits@.map_values(|t: Trait| t@)
}

/// The model of decoded attributes.
pub open spec fn decoded_view(decoded: Option<Option<Vec<Trait>>>) -> Option<Option<Seq<TraitView>>> {
    match decoded {
        None => None,
        Some(None) => Some(None),
        Some(Some(list)) => Some(Some(traits_view(list))),
    }
}

/// Encodes the cw721 `nft_info` query for a token with `cosmwasm_std::to_json_vec`; the
/// contract claims that encoding succeeds (the JSON serializer never fails on a struct
/// variant of strings) and that the result is the named encoding of the token id.
#[verifier::external_body]
pub(crate) fn encode_nft_info_query(token_id: &String) -> (r: Result<Vec<u8>, cosmwasm_std::StdError>)
    ensures
        r is Ok,
        r matches Ok(bytes) ==> bytes@ == nft_info_query(token_id@),
{
    cosmwasm_std::to_json_vec(&cw721::Cw721QueryMsg::NftInfo { token_id: token_id.clone() })
}

/// Decodes a cw721 `nft_info` response with cw2981 metadata with `cosmwasm_std::from_json`
/// and keeps the type and value of every attribute, in order; the contract claims that the
/// result is the named decoding of the bytes.
#[verifier::external_body]
pub(crate) fn decode_nft_info_attributes(response: &Vec<u8>) -> (r: Option<Option<Vec<Trait>>>)
    ensures
        decoded_view(r) == nft_info_attributes(response@),
{
    cosmwasm_std::from_json::<cw721::NftInfoResponse<cw2981_royalties::Metadata>>(response)
        .ok()
        .map(|info| info.extension.attributes.map(|list| {
            list.into_iter().map(|a| Trait { trait_type: a.trait_type, value: a.value }).collect()
        }))
}

} // verus!
