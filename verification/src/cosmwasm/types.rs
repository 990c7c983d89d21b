//! Domain types for CosmWasm SDK operations.
use vstd::prelude::*;
use crate::common::prefixed;

verus! {

/// Metadata about a deployed CosmWasm contract.
#[derive(Clone, Debug)]
pub struct ContractInfo {
    /// The contract's Morpheum address.
    pub address: String,
    /// The code ID of the WASM module backing this contract.
    pub code_id: u64,
    /// The contract's admin address (if set).
    pub admin: Option<String>,
    /// The contract's label (human-readable name set at instantiation).
    pub label: String,
}

/// Raw key-value entry from contract storage.
#[derive(Clone, Debug)]
pub struct RawStateEntry {
    pub key: Vec<u8>,
    pub value: Vec<u8>,
}

/// Errors from CosmWasm SDK operations.
#[derive(Clone, Debug, PartialEq, Eq)]
pub enum CosmWasmError {
    QueryFailed(String),
    ExecutionFailed(String),
    Serialization(String),
    Deserialization(String),
    Transport(String),
    InvalidInput(String),
}

impl CosmWasmError {
    /// The message of the error: a prefix naming its kind, then its detail.
    pub open spec fn text(&self) -> Seq<char> {
        match self {
            CosmWasmError::QueryFailed(m) => "contract query failed: "@ + m@,
            CosmWasmError::ExecutionFailed(m) => "contract execution failed: "@ + m@,
            CosmWasmError::Serialization(m) => "serialization error: "@ + m@,
            CosmWasmError::Deserialization(m) => "deserialization error: "@ + m@,
            CosmWasmError::Transport(m) => "transport error: "@ + m@,
            CosmWasmError::InvalidInput(m) => "invalid input: "@ + m@,
        }
    }

    /// The human-readable message of the error.
    pub fn to_string(&self) -> (r: String)
        ensures
            r@ == self.text(),
    {
        match self {
            CosmWasmError::QueryFailed(m) => prefixed("contract query failed: ", m.as_str()),
            CosmWasmError::ExecutionFailed(m) => prefixed("contract execution failed: ", m.as_str()),
            CosmWasmError::Serialization(m) => prefixed("serialization error: ", m.as_str()),
            CosmWasmError::Deserialization(m) => prefixed("deserialization error: ", m.as_str()),
            CosmWasmError::Transport(m) => prefixed("transport error: ", m.as_str()),
            CosmWasmError::InvalidInput(m) => prefixed("invalid input: ", m.as_str()),
        }
    }
}

} // verus!
