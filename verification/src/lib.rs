//! A CosmWasm-style deposit/withdraw contract for a cw20 token.
//!
//! The library holds the verified message-handling logic: dispatching an
//! execute request, validating a withdraw, and checking a deposit
//! notification for consistency. The outbound transfer instruction is
//! serialized through the trusted wrapper in `host`; the host's address
//! validator cannot be called from verified code, so its outcomes come in as
//! plain arguments, bound to the addresses by each handler's `requires`.
mod contract;
mod error;
mod host;
mod msg;
mod response;

pub use contract::deposit_cw20;
pub use contract::deposit_post;
pub use contract::execute;
pub use contract::instantiate;
pub use contract::is_empty_response;
pub use contract::is_transfer_response;
pub use contract::query;
pub use contract::withdraw_cw20;
pub use contract::withdraw_post;
pub use contract::AddrChecks;
pub use host::transfer_payload;

pub use error::ContractError;
pub use error::StdError;
pub use msg::Cw20HookMsg;
pub use msg::Cw20ReceiveMsg;
pub use msg::DepositMsg;
pub use msg::ExecuteMsg;
pub use msg::InstantiateMsg;
pub use msg::MessageInfo;
pub use msg::QueryMsg;
pub use msg::WithdrawMsg;
pub use response::Attribute;
pub use response::Coin;
pub use response::CosmosMsg;
pub use response::Response;
pub use response::WasmExecute;
pub use response::WasmMsg;
