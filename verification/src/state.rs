//! What the contract keeps in storage, and the mathematical model of each piece.
use vstd::prelude::*;

verus! {

/// The trait type and the trait value that stand for "every token of the collection".
pub open spec fn any_text() -> Seq<char> {
    seq!['a', 'n', 'y']
}

/// An NFT trait: a type and a value, such as ("rarity", "gold").
#[derive(Debug, Clone, PartialEq, Eq)]
pub struct Trait {
    pub trait_type: String,
    pub value: String,
}

/// The model of a [`Trait`].
pub struct TraitView {
    pub trait_type: Seq<char>,
    pub value: Seq<char>,
}

impl View for Trait {
    type V = TraitView;

    open spec fn view(&self) -> TraitView {
        TraitView { trait_type: self.trait_type@, value: self.value@ }
    }
}

/// The trait that matches every token: both its type and its value are "any".
pub open spec fn any_trait() -> TraitView {
    TraitView { trait_type: any_text(), value: any_text() }
}

/// The trait that a request names, or "any"/"any" where it names none.
pub open spec fn trait_or_any(token_type: Option<Trait>) -> TraitView {
    match token_type {
        Some(t) => t@,
        None => any_trait(),
    }
}

/// The contract's configuration: the address that may allow tokens.
#[derive(Debug, Clone, PartialEq, Eq)]
pub struct Config {
    pub admin: String,
}

/// A kind of NFT that can be burned for vouchers: a collection and a trait its tokens must have.
#[derive(Debug, Clone, PartialEq, Eq)]
pub struct TokenInfo {
    pub contract_address: String,
    pub token_type: Trait,
}

/// The model of a [`TokenInfo`].
pub struct TokenInfoView {
    pub contract_address: Seq<char>,
    pub token_type: TraitView,
}

impl View for TokenInfo {
    type V = TokenInfoView;

    open spec fn view(&self) -> TokenInfoView {
        TokenInfoView { contract_address: self.contract_address@, token_type: self.token_type@ }
    }
}

/// The list of token kinds that the admin has allowed, in the order they were allowed.
#[derive(Debug, Clone, PartialEq, Eq)]
pub struct AllowedTokens {
    pub tokens: Vec<TokenInfo>,
}

impl View for AllowedTokens {
    type V = Seq<TokenInfoView>;

    open spec fn view(&self) -> Seq<TokenInfoView> {
        self.tokens@.map_values(|t: TokenInfo| t@)
    }
}

/// The key under which the vouchers of one owner for one kind of token are counted:
/// the owner, the collection, and the trait type and value written one after the other.
#[derive(Debug, Clone, PartialEq, Eq)]
pub struct VoucherKey {
    pub owner: String,
    pub contract_address: String,
    pub token_type: String,
}

/// The model of a [`VoucherKey`].
pub struct VoucherKeyView {
    pub owner: Seq<char>,
    pub contract_address: Seq<char>,
    pub token_type: Seq<char>,
}

impl View for VoucherKey {
    type V = VoucherKeyView;

    open spec fn view(&self) -> VoucherKeyView {
        VoucherKeyView {
            owner: self.owner@,
            contract_address: self.contract_address@,
            token_type: self.token_type@,
        }
    }
}

/// The voucher key of an owner, a collection and a trait.
pub open spec fn voucher_key(owner: Seq<char>, contract_address: Seq<char>, token_type: TraitView) -> VoucherKeyView {
    VoucherKeyView {
        owner,
        contract_address,
        token_type: token_type.trait_type + token_type.value,
    }
}

/// A copy of a string, equal to it.
pub fn copy_string(s: &String) -> (r: String)
    ensures
        r == *s,
        r@ == s@,
{
    s.clone()
}

/// The string "any".
pub fn any_string() -> (r: String)
    ensures
        r@ == any_text(),
{
    proof {
        reveal_strlit("any");
    }
    String::from_str("any")
}

impl Trait {
    /// The trait that matches every token of a collection: ("any", "any").
    pub fn any() -> (r: Trait)
        ensures
            r@ == any_trait(),
    {
        Trait { trait_type: any_string(), value: any_string() }
    }

    /// A copy of this trait.
    pub fn copy(&self) -> (r: Trait)
        ensures
            r@ == self@,
    {
        Trait { trait_type: copy_string(&self.trait_type), value: copy_string(&self.value) }
    }

    /// Whether this trait is ("any", "any").
    pub fn is_any(&self) -> (r: bool)
        ensures
            r == (self@ == any_trait()),
    {
        let any = any_string();
        let r = self.trait_type == any && self.value == any;
        proof {
            if self@ == any_trait() {
                assert(self.trait_type@ == any@);
                assert(self.value@ == any@);
            }
        }
        r
    }

    /// Whether two traits have the same type and the same value.
    pub fn same_as(&self, other: &Trait) -> (r: bool)
        ensures
            r == (self@ == other@),
    {
        let r = self.trait_type == other.trait_type && self.value == other.value;
        proof {
            if self@ == other@ {
                assert(self.trait_type@ == other.trait_type@);
                assert(self.value@ == other.value@);
            }
        }
        r
    }
}

/// The trait that a request names, or ("any", "any") where it names none.
pub fn trait_or_any_of(token_type: Option<Trait>) -> (r: Trait)
    ensures
        r@ == trait_or_any(token_type),
{
    match token_type {
        Some(t) => t,
        None => Trait::any(),
    }
}

impl TokenInfo {
    /// Whether two token kinds name the same collection and the same trait.
    pub fn same_as(&self, other: &TokenInfo) -> (r: bool)
        ensures
            r == (self@ == other@),
    {
        let r = self.contract_address == other.contract_address && self.token_type.same_as(&other.token_type);
        proof {
            if self@ == other@ {
                assert(self.contract_address@ == other.contract_address@);
            }
        }
        r
    }
}

impl AllowedTokens {
    /// Whether this list holds the given token kind.
    pub fn contains(&self, token_info: &TokenInfo) -> (r: bool)
        ensures
            r == self@.contains(token_info@),
    {
        let mut i: usize = 0;
        while i < self.tokens.len()
            invariant
                i <= self.tokens.len(),
                forall|j: int| 0 <= j < i ==> self@[j] != token_info@,
            decreases self.tokens.len() - i,
        {
            if self.tokens[i].same_as(token_info) {
                assert(self@[i as int] == token_info@);
                return true;
            }
            i = i + 1;
        }
        proof {
            if self@.contains(token_info@) {
                let k = choose|k: int| 0 <= k < self@.len() && self@[k] == token_info@;
                assert(self@[k] != token_info@);
            }
        }
        false
    }
}

/// Builds the voucher key of an owner, a collection and a trait.
pub fn make_voucher_key(owner: String, contract_address: String, token_type: &Trait) -> (r: VoucherKey)
    ensures
        r@ == voucher_key(owner@, contract_address@, token_type@),
{
    let joined = copy_string(&token_type.trait_type).concat(token_type.value.as_str());
    VoucherKey { owner, contract_address, token_type: joined }
}

} // verus!
