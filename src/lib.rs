//! Orchestrates a fixed five-stage pipeline of remote calls whose results
//! come back as continuations: durable state, the continuation handlers as a
//! verified state machine, and in-order settlement with rollback.

use vstd::prelude::*;

pub mod callee;
pub mod error;
pub mod msg;
pub mod state;
pub mod contract;
pub mod settle;

verus! {

} // verus!
