//! The host-runtime boundary that can be reached from verified code: the
//! serializer for the outbound token-transfer instruction.
//!
//! The host's address validator (`cosmwasm_std::Api::addr_validate`) sits
//! behind `deps.api`, a trait object on a handle whose type this verifier
//! refuses to declare, so the entry points in the surrounding binary call it
//! and hand its outcome to the contract functions as a plain
//! `Result<String, StdError>`.
use vstd::prelude::*;

verus! {

/// The JSON bytes of the token contract's transfer instruction for this
/// recipient and amount: a function of the two arguments alone.
pub uninterp spec fn transfer_payload(recipient: Seq<char>, amount: u128) -> Seq<u8>;

/// Relies on cosmwasm_std::to_json_binary over cw20::Cw20ExecuteMsg::Transfer:
/// the serializer writes the derived JSON form into a growing buffer and has
/// no failing path for this message (a string field and an integer rendered
/// as a decimal string), and the bytes depend on the two arguments alone.
#[verifier::external_body]
pub(crate) fn encode_transfer(recipient: &String, amount: u128) -> (r: Vec<u8>)
    ensures
        r@ == transfer_payload(recipient@, amount),
{
    let msg = cw20::Cw20ExecuteMsg::Transfer {
        recipient: recipient.clone(),
        amount: cosmwasm_std::Uint128::new(amount),
    };
    cosmwasm_std::to_json_binary(&msg).unwrap().to_vec()
}

} // verus!
