use vstd::prelude::*;

verus! {

/// Record returned by every remote service of the workflow.
#[derive(Clone, Copy, Debug, PartialEq, Eq, Structural)]
pub struct Data {
    pub alpha: u8,
    pub beta: u8,
    pub delta: u8,
    pub gamma: u8,
    pub is_ok: bool,
}

/// Instantiation message of a remote service.
#[derive(Clone, Copy, Debug, PartialEq, Eq, Structural)]
pub struct InstantiateMsg {}

/// Operation of a remote service: two optional numeric parameters.
#[derive(Clone, Copy, Debug, PartialEq, Eq, Structural)]
pub struct DoSomethingMsg {
    pub value_1: Option<u8>,
    pub value_2: Option<u8>,
}

/// Execution message of a remote service.
#[derive(Clone, Copy, Debug, PartialEq, Eq, Structural)]
pub enum ExecuteMsg {
    DoSomething(DoSomethingMsg),
}

/// Migration message of a remote service: no migrations are defined.
#[derive(Clone, Copy, Debug, PartialEq, Eq, Structural)]
pub struct MigrateMsg {}

/// Query message of a remote service: no queries are defined.
#[derive(Clone, Copy, Debug, PartialEq, Eq, Structural)]
pub struct QueryMsg {}

} // verus!
