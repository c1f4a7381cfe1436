//! What the contract answers with and what it writes to storage.
use vstd::prelude::*;

use crate::state::{AllowedTokens, Config, VoucherKey};

verus! {

/// One key-value attribute of a response.
#[derive(Debug, Clone, PartialEq, Eq)]
pub struct Attribute {
    pub key: String,
    pub value: String,
}

impl View for Attribute {
    type V = (Seq<char>, Seq<char>);

    open spec fn view(&self) -> (Seq<char>, Seq<char>) {
        (self.key@, self.value@)
    }
}

/// A response to a successful message: the attributes it reports, in order.
#[derive(Debug, Clone, PartialEq, Eq)]
pub struct Response {
    pub attributes: Vec<Attribute>,
}

impl View for Response {
    type V = Seq<(Seq<char>, Seq<char>)>;

    open spec fn view(&self) -> Seq<(Seq<char>, Seq<char>)> {
        self.attributes@.map_values(|a: Attribute| a@)
    }
}

impl Response {
    /// A response without attributes.
    pub fn new() -> (r: Response)
        ensures
            r@ == Seq::<(Seq<char>, Seq<char>)>::empty(),
    {
        Response { attributes: Vec::new() }
    }

    /// This response with one more attribute at the end.
    pub fn add_attribute(self, key: &str, value: String) -> (r: Response)
        ensures
            r@ == self@.push((key@, value@)),
    {
        let mut attributes = self.attributes;
        let ghost before = attributes@;
        attributes.push(Attribute { key: String::from_str(key), value });
        let r = Response { attributes };
        assert(r@ =~= self@.push((key@, value@))) by {
            assert(attributes@ == before.push(attributes@[before.len() as int]));
        }
        r
    }
}

/// The storage write that a successful execute message makes.
#[derive(Debug, Clone, PartialEq, Eq)]
pub enum StorageWrite {
    /// Save this list of allowed token kinds.
    AllowedTokens(AllowedTokens),
    /// Save this voucher count under this key.
    Vouchers(VoucherKey, u64),
}

/// What a successful execute message does: one storage write and a response.
#[derive(Debug, Clone, PartialEq, Eq)]
pub struct Effects {
    pub write: StorageWrite,
    pub response: Response,
}

/// What instantiating the contract stores and answers: the contract's name and version
/// (the cw2 record), the configuration, the allowed list and the response.
#[derive(Debug, Clone, PartialEq, Eq)]
pub struct Instantiation {
    pub contract_name: String,
    pub contract_version: String,
    pub config: Config,
    pub allowed_tokens: AllowedTokens,
    pub response: Response,
}

/// The answer to a query.
#[derive(Debug, Clone, PartialEq, Eq)]
pub enum QueryResponse {
    Config(Config),
    RemainingVouchers(u64),
    AllowedTokens(AllowedTokens),
}

} // verus!
