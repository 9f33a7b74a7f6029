//! The contract's answer to the host runtime: attributes for the event log
//! and outbound instructions for the host to execute atomically with the
//! current transaction.
use vstd::prelude::*;

verus! {

/// A key/value pair the host records in the transaction's event log.
#[derive(Clone, Debug, PartialEq)]
pub struct Attribute {
    pub key: String,
    pub value: String,
}

/// A native coin attached to an outbound instruction.
#[derive(Clone, Debug, PartialEq)]
pub struct Coin {
    pub denom: String,
    pub amount: u128,
}

/// An instruction to invoke another contract's execute entry point.
#[derive(Clone, Debug, PartialEq)]
pub struct WasmExecute {
    /// The contract to invoke.
    pub contract_addr: String,
    /// The serialized message handed to it.
    pub msg: Vec<u8>,
    /// Native coins attached to the call.
    pub funds: Vec<Coin>,
}

/// An instruction addressed to a wasm contract.
#[derive(Clone, Debug, PartialEq)]
pub enum WasmMsg {
    Execute(WasmExecute),
}

/// An outbound instruction for the host runtime.
#[derive(Clone, Debug, PartialEq)]
pub enum CosmosMsg {
    Wasm(WasmMsg),
}

/// What a handler returns on success.
#[derive(Clone, Debug, PartialEq)]
pub struct Response {
    /// Outbound instructions, executed by the host in order.
    pub messages: Vec<CosmosMsg>,
    /// Event-log attributes.
    pub attributes: Vec<Attribute>,
}

impl Response {
    /// An empty response: no outbound instruction, no attribute.
    pub fn new() -> (r: Response)
        ensures
            r.messages@ == Seq::<CosmosMsg>::empty(),
            r.attributes@ == Seq::<Attribute>::empty(),
    {
        Response { messages: Vec::new(), attributes: Vec::new() }
    }

    /// Appends one event-log attribute.
    pub fn add_attribute(self, key: String, value: String) -> (r: Response)
        ensures
            r.messages@ == self.messages@,
            r.attributes@ == self.attributes@.push((Attribute { key, value })),
    {
        let mut attributes = self.attributes;
        attributes.push(Attribute { key, value });
        Response { messages: self.messages, attributes }
    }

    /// Appends one outbound instruction.
    pub fn add_message(self, msg: CosmosMsg) -> (r: Response)
        ensures
            r.messages@ == self.messages@.push(msg),
            r.attributes@ == self.attributes@,
    {
        let mut messages = self.messages;
        messages.push(msg);
        Response { messages, attributes: self.attributes }
    }
}

} // verus!
