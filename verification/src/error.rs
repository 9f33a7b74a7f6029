//! Error values the contract returns to the host runtime.
//!
//! The taxonomy is small: a generic wrapped-runtime error carrying a
//! free-text message, and an authorization failure used when a deposit
//! notification's opaque payload cannot be read as a hook message.
use vstd::prelude::*;

verus! {

/// A host-runtime error: only the generic free-text kind is ever produced or
/// inspected by this contract.
#[derive(Clone, Debug, PartialEq)]
pub enum StdError {
    GenericErr { msg: String },
}

/// The contract's error type.
#[derive(Clone, Debug, PartialEq)]
pub enum ContractError {
    /// A wrapped host-runtime error with a free-text message.
    Std(StdError),
    /// The opaque payload of a deposit notification was not a recognized
    /// hook message.
    Unauthorized,
}

impl StdError {
    /// Whether this is a generic error carrying exactly the message `m`.
    pub open spec fn is_generic(self, m: Seq<char>) -> bool {
        self matches StdError::GenericErr { msg } && msg@ == m
    }
}

impl ContractError {
    /// Whether this is a wrapped generic error carrying exactly the message `m`.
    pub open spec fn is_generic(self, m: Seq<char>) -> bool {
        self matches ContractError::Std(e) && e.is_generic(m)
    }
}

} // verus!
