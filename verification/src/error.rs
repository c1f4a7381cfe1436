//! The errors the contract answers with.
use vstd::prelude::*;

verus! {

/// The error type of the host chain's standard library (failed storage reads, invalid
/// addresses). The contract only carries such an error through to its caller.
#[verifier::external_type_specification]
#[verifier::external_body]
pub struct ExStdError(cosmwasm_std::StdError);

/// Why an execute message was refused.
#[derive(Debug)]
pub enum ContractError {
    /// The host failed: an address did not validate or storage could not be read.
    Std(cosmwasm_std::StdError),
    /// The sender may not do this.
    Unauthorized {},
    /// The token may not be burned for vouchers.
    NotAllowed {},
    /// The token kind was allowed before.
    AlreadyAllowed {},
}

/// The message of an error that the contract raises itself.
pub open spec fn error_message(e: ContractError) -> Seq<char> {
    match e {
        ContractError::Std(_) => Seq::empty(),
        ContractError::Unauthorized {} => "Unauthorized"@,
        ContractError::NotAllowed {} => "Cannot burn this type of token"@,
        ContractError::AlreadyAllowed {} => "Token already allowed"@,
    }
}

/// The text that the host library writes for one of its errors.
#[verifier::external_body]
fn std_error_text(e: &cosmwasm_std::StdError) -> String {
    e.to_string()
}

impl ContractError {
    /// The text of this error, as it is shown to the sender.
    pub fn message(&self) -> (r: String)
        ensures
            !(self is Std) ==> r@ == error_message(*self),
    {
        match self {
            ContractError::Std(e) => std_error_text(e),
            ContractError::Unauthorized {} => String::from_str("Unauthorized"),
            ContractError::NotAllowed {} => String::from_str("Cannot burn this type of token"),
            ContractError::AlreadyAllowed {} => String::from_str("Token already allowed"),
        }
    }
}

} // verus!
