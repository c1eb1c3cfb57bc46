//! Error taxonomy of the connector.

use vstd::prelude::*;
use crate::version::dec_digits;

verus! {

/// Everything that can go wrong while loading or evaluating a policy.
///
/// Load-class errors (`WasmLoadError`, `IoError`) fail a reload closed;
/// evaluation-class errors turn into a denying response with a diagnostic.
#[derive(Debug, Clone)]
pub enum ConnectorError {
    /// The artifact could not be compiled or the engine could not be built.
    WasmLoadError(String),
    /// The guest trapped or failed in a way not classified below.
    PolicyExecutionError(String),
    /// The guest consumed its whole fuel budget.
    FuelExhausted { consumed: u64 },
    /// The request does not fit at the requested input offset.
    MemoryOutOfBounds { offset: u64 },
    /// A required guest export is missing.
    FunctionNotFound(String),
    /// The artifact file could not be read.
    IoError(String),
}

pub type ConnectorResult<T> = Result<T, ConnectorError>;

/// The diagnostic text of an error, as shown in responses.
pub open spec fn spec_message(e: ConnectorError) -> Seq<char> {
    match e {
        ConnectorError::WasmLoadError(s) => "Failed to load WASM module: "@ + s@,
        ConnectorError::PolicyExecutionError(s) => "Policy execution failed: "@ + s@,
        ConnectorError::FuelExhausted { consumed } => "Fuel limit exceeded after "@ + dec_digits(
            consumed as nat,
        ) + " units"@,
        ConnectorError::MemoryOutOfBounds { offset } => "Memory access out of bounds at offset "@
            + dec_digits(offset as nat),
        ConnectorError::FunctionNotFound(s) => "Function not found: "@ + s@,
        ConnectorError::IoError(s) => s@,
    }
}

impl ConnectorError {
    /// Renders the diagnostic text of this error.
    pub fn message(&self) -> (s: String)
        ensures
            s@ == spec_message(*self),
    {
        match self {
            ConnectorError::WasmLoadError(m) => {
                let s = String::from_str("Failed to load WASM module: ");
                s.concat(m.as_str())
            },
            ConnectorError::PolicyExecutionError(m) => {
                let s = String::from_str("Policy execution failed: ");
                s.concat(m.as_str())
            },
            ConnectorError::FuelExhausted { consumed } => {
                let mut s = String::from_str("Fuel limit exceeded after ");
                let digits = crate::version::u64_to_string(*consumed);
                s.append(digits.as_str());
                s.append(" units");
                s
            },
            ConnectorError::MemoryOutOfBounds { offset } => {
                let mut s = String::from_str("Memory access out of bounds at offset ");
                let digits = crate::version::u64_to_string(*offset);
                s.append(digits.as_str());
                s
            },
            ConnectorError::FunctionNotFound(m) => {
                let s = String::from_str("Function not found: ");
                s.concat(m.as_str())
            },
            ConnectorError::IoError(m) => m.clone(),
        }
    }
}

} // verus!
