use vstd::prelude::*;

verus! {

/// Every failure aborts the enclosing top-level invocation.
#[derive(Clone, Debug, PartialEq, Eq)]
pub enum ContractError {
    /// The address book was read before it was written.
    Uninitialized,
    /// The orchestration context was read before it was reset.
    ContextUninitialized,
    /// A continuation arrived without a payload.
    PayloadMissing,
    /// A continuation arrived with a payload that does not decode to `Data`.
    PayloadMalformed(String),
    /// The environment reported that a dispatched call failed.
    RemoteCallFailed(String),
    /// No handler is registered under this continuation identifier.
    UnknownContinuation(u64),
    /// The loop counter is already at its largest value.
    LoopIndexOverflow,
}

} // verus!
