//! Message shapes for the contract's entry points.
//!
//! Amounts are 128-bit unsigned integers, addresses are strings as the host
//! hands them in, and the opaque payload of a deposit notification appears
//! here as the hook message the host's decoder read from it (`None` when the
//! bytes do not decode as a hook).
use vstd::prelude::*;

verus! {

/// The (empty) configuration a contract instance is created with.
#[derive(Clone, Debug, PartialEq)]
pub struct InstantiateMsg {}

/// The call context: the address that sent the current message.
#[derive(Clone, Debug, PartialEq)]
pub struct MessageInfo {
    pub sender: String,
}

/// A request to withdraw tokens held by this contract.
#[derive(Clone, Debug, PartialEq)]
pub struct WithdrawMsg {
    /// The token contract asked to carry out the transfer.
    pub cw20_address: String,
    /// The amount to transfer to the caller.
    pub amount: u128,
}

/// The claims a depositor embeds in the opaque payload of a notification.
#[derive(Clone, Debug, PartialEq)]
pub struct DepositMsg {
    /// The token contract the depositor claims moved the funds.
    pub cw20_address: String,
    /// The amount the depositor claims was moved.
    pub amount: u128,
}

/// The hook message carried inside a token-transfer notification.
#[derive(Clone, Debug, PartialEq)]
pub enum Cw20HookMsg {
    Deposit(DepositMsg),
}

/// A token contract's notification that it moved tokens into this contract's
/// custody.
#[derive(Clone, Debug, PartialEq)]
pub struct Cw20ReceiveMsg {
    /// The account that sent the tokens to the token contract.
    pub sender: String,
    /// The amount the token contract reports having moved.
    pub amount: u128,
    /// The opaque payload, as the host's decoder read it; `None` when it does
    /// not decode as a hook message.
    pub msg: Option<Cw20HookMsg>,
}

/// The execute entry point's dispatch envelope.
#[derive(Clone, Debug, PartialEq)]
pub enum ExecuteMsg {
    Withdraw(WithdrawMsg),
    Receive(Cw20ReceiveMsg),
}

/// The query envelope. The contract defines no answerable query, so every
/// request reaches the entry point as `Unsupported` and is rejected there.
#[derive(Clone, Debug, PartialEq)]
pub enum QueryMsg {
    Unsupported,
}

} // verus!
