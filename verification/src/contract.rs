//! The contract's entry-point logic: instantiation, the execute dispatcher
//! with its withdraw and deposit handlers, and the (unsupported) query path.
//!
//! Address validation is the host's job: the surrounding binary calls
//! `deps.api.addr_validate` and passes the outcome in as a
//! `Result<String, StdError>`. The validator's documentation promises that a
//! successful validation returns an address with the same data as its input;
//! that promise is each handler's `requires`.
use vstd::prelude::*;

use crate::error::ContractError;
use crate::error::StdError;
use crate::host;
use crate::msg::Cw20HookMsg;
use crate::msg::Cw20ReceiveMsg;
use crate::msg::ExecuteMsg;
use crate::msg::InstantiateMsg;
use crate::msg::MessageInfo;
use crate::msg::QueryMsg;
use crate::msg::WithdrawMsg;
use crate::response::CosmosMsg;
use crate::response::Response;
use crate::response::WasmExecute;
use crate::response::WasmMsg;

verus! {

/// The host's answers to the address validations the routed handler needs:
/// one pair for a withdraw (the token contract named in the request and the
/// caller), one for a deposit notification (the token contract the hook
/// names).
pub enum AddrChecks {
    Withdraw { cw20: Result<String, StdError>, sender: Result<String, StdError> },
    Receive { hook_addr: Result<String, StdError> },
}

/// A response carrying no outbound instruction and no attribute.
pub open spec fn is_empty_response(r: Response) -> bool {
    r.messages@.len() == 0 && r.attributes@.len() == 0
}

/// A response whose only content is one outbound instruction: invoke the
/// token contract at `contract`, carrying the serialized transfer of `amount`
/// to `recipient`, with no attached funds.
pub open spec fn is_transfer_response(
    r: Response,
    contract: Seq<char>,
    recipient: Seq<char>,
    amount: u128,
) -> bool {
    &&& r.attributes@.len() == 0
    &&& r.messages@.len() == 1
    &&& (r.messages@[0] matches CosmosMsg::Wasm(WasmMsg::Execute(x))
        && x.contract_addr@ == contract
        && x.msg@ == host::transfer_payload(recipient, amount)
        && x.funds@.len() == 0)
}

/// What a withdraw request answers, given the host's two validation
/// outcomes: the token-contract address is checked first, a zero amount is
/// rejected next, the caller's address is checked last, and otherwise the
/// single outbound transfer instruction is issued.
pub open spec fn withdraw_post(
    info: MessageInfo,
    msg: WithdrawMsg,
    cw20_check: Result<String, StdError>,
    sender_check: Result<String, StdError>,
    r: Result<Response, ContractError>,
) -> bool {
    &&& (cw20_check matches Err(e) ==> r == Err::<Response, ContractError>(ContractError::Std(e)))
    &&& (cw20_check is Ok && msg.amount == 0 ==> (r matches Err(e)
        && e.is_generic("Invalid zero amount"@)))
    &&& (cw20_check is Ok && msg.amount != 0 ==> (sender_check matches Err(e) ==> r == Err::<
        Response,
        ContractError,
    >(ContractError::Std(e))))
    &&& (cw20_check is Ok && msg.amount != 0 && sender_check is Ok ==> (r matches Ok(resp)
        && is_transfer_response(resp, msg.cw20_address@, info.sender@, msg.amount)))
    &&& (msg.amount == 0 ==> r is Err)
    &&& (r matches Err(e) ==> e is Std)
}

/// What a deposit notification answers, given the host's validation outcome
/// for the address the hook names: an undecodable payload is an authorization
/// failure, a hook whose amount or token address disagrees with the
/// notification is rejected, and a consistent notification returns the empty
/// response.
pub open spec fn deposit_post(
    info: MessageInfo,
    m: Cw20ReceiveMsg,
    hook_addr_check: Result<String, StdError>,
    r: Result<Response, ContractError>,
) -> bool {
    &&& (m.msg is None <==> r == Err::<Response, ContractError>(ContractError::Unauthorized))
    &&& (m.msg matches Some(Cw20HookMsg::Deposit(d)) ==> {
        &&& (d.amount != m.amount ==> (r matches Err(e) && e.is_generic("Invalid amount"@)))
        &&& (d.amount == m.amount ==> {
            &&& (hook_addr_check matches Err(e) ==> r == Err::<Response, ContractError>(
                ContractError::Std(e),
            ))
            &&& (hook_addr_check is Ok && d.cw20_address@ != info.sender@ ==> (r matches Err(e)
                && e.is_generic("Invalid amount"@)))
            &&& (hook_addr_check is Ok && d.cw20_address@ == info.sender@ ==> (r matches Ok(resp)
                && is_empty_response(resp)))
        })
    })
}

/// Creates a contract instance. Every configuration is accepted, nothing is
/// stored, and the response only reports the attribute `method=instantiate`.
pub fn instantiate(_msg: InstantiateMsg) -> (r: Result<Response, ContractError>)
    ensures
        r is Ok,
        r matches Ok(resp) ==> {
            &&& resp.messages@.len() == 0
            &&& resp.attributes@.len() == 1
            &&& resp.attributes@[0].key@ == "method"@
            &&& resp.attributes@[0].value@ == "instantiate"@
        },
{
    Ok(Response::new().add_attribute("method".to_owned(), "instantiate".to_owned()))
}

/// Routes an execute request to the withdraw or deposit handler. `checks`
/// carries the host's address-validation outcomes for the routed handler;
/// the `requires` states what `Api::addr_validate` documents: a successful
/// validation returns an address with the same data as its input.
pub fn execute(info: &MessageInfo, msg: &ExecuteMsg, checks: AddrChecks) -> (r: Result<
    Response,
    ContractError,
>)
    requires
        (*msg matches ExecuteMsg::Withdraw(w) ==> (checks matches AddrChecks::Withdraw {
            cw20,
            sender,
        } && (cw20 matches Ok(a) ==> a@ == w.cw20_address@) && (sender matches Ok(a) ==> a@
            == info.sender@))),
        (*msg matches ExecuteMsg::Receive(m) ==> (checks matches AddrChecks::Receive { hook_addr }
            && (m.msg matches Some(Cw20HookMsg::Deposit(d)) ==> (hook_addr matches Ok(a) ==> a@
            == d.cw20_address@)))),
    ensures
        (*msg matches ExecuteMsg::Withdraw(w) ==> (checks matches AddrChecks::Withdraw {
            cw20,
            sender,
        } ==> withdraw_post(*info, w, cw20, sender, r))),
        (*msg matches ExecuteMsg::Receive(m) ==> (checks matches AddrChecks::Receive { hook_addr }
            ==> deposit_post(*info, m, hook_addr, r))),
{
    match (msg, checks) {
        (ExecuteMsg::Withdraw(w), AddrChecks::Withdraw { cw20, sender }) => withdraw_cw20(
            info,
            w,
            cw20,
            sender,
        ),
        (ExecuteMsg::Receive(m), AddrChecks::Receive { hook_addr }) => deposit_cw20(
            info,
            m,
            hook_addr,
        ),
        _ => {
            proof {
                assert(false);
            }
            Err(ContractError::Unauthorized)
        },
    }
}

/// Answers a withdraw request: after both addresses validate and the amount
/// is non-zero, exactly one outbound instruction is issued, telling the token
/// contract to transfer the requested amount to the caller.
pub fn withdraw_cw20(
    info: &MessageInfo,
    msg: &WithdrawMsg,
    cw20_check: Result<String, StdError>,
    sender_check: Result<String, StdError>,
) -> (r: Result<Response, ContractError>)
    requires
        cw20_check matches Ok(a) ==> a@ == msg.cw20_address@,
        sender_check matches Ok(a) ==> a@ == info.sender@,
    ensures
        withdraw_post(*info, *msg, cw20_check, sender_check, r),
{
    let contract_addr = match cw20_check {
        Ok(a) => a,
        Err(e) => {
            return Err(ContractError::Std(e));
        },
    };
    if msg.amount == 0 {
        return Err(
            ContractError::Std(StdError::GenericErr { msg: "Invalid zero amount".to_owned() }),
        );
    }
    let recipient = match sender_check {
        Ok(a) => a,
        Err(e) => {
            return Err(ContractError::Std(e));
        },
    };
    let payload = host::encode_transfer(&recipient, msg.amount);
    let instruction = CosmosMsg::Wasm(
        WasmMsg::Execute(WasmExecute { contract_addr, msg: payload, funds: Vec::new() }),
    );
    Ok(Response::new().add_message(instruction))
}

/// Answers a token contract's deposit notification: the opaque payload must
/// decode as a deposit hook, the hook's amount must equal the notified
/// amount, and the hook's token address must validate to the notifying
/// contract's own address; nothing is stored on success.
pub fn deposit_cw20(
    info: &MessageInfo,
    cw20_msg: &Cw20ReceiveMsg,
    hook_addr_check: Result<String, StdError>,
) -> (r: Result<Response, ContractError>)
    requires
        cw20_msg.msg matches Some(Cw20HookMsg::Deposit(d)) ==> (hook_addr_check matches Ok(a)
            ==> a@ == d.cw20_address@),
    ensures
        deposit_post(*info, *cw20_msg, hook_addr_check, r),
{
    match &cw20_msg.msg {
        Some(hook) => match hook {
            Cw20HookMsg::Deposit(d) => {
                if cw20_msg.amount != d.amount {
                    return Err(
                        ContractError::Std(StdError::GenericErr { msg: "Invalid amount".to_owned() }),
                    );
                }
                match hook_addr_check {
                    Ok(validated) => {
                        if validated == info.sender {
                            Ok(Response::new())
                        } else {
                            Err(
                                ContractError::Std(
                                    StdError::GenericErr { msg: "Invalid amount".to_owned() },
                                ),
                            )
                        }
                    },
                    Err(e) => Err(ContractError::Std(e)),
                }
            },
        },
        None => Err(ContractError::Unauthorized),
    }
}

/// Answers a query request. The contract defines no answerable query, so
/// every request fails with an unsupported-query error.
pub fn query(_msg: QueryMsg) -> (r: Result<Vec<u8>, StdError>)
    ensures
        r matches Err(e) && e.is_generic("unsupported query"@),
{
    Err(StdError::GenericErr { msg: "unsupported query".to_owned() })
}

} // verus!

