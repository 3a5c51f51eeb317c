use vstd::prelude::*;

verus! {

/// Configuration message: the addresses of the five service roles.
#[derive(Clone, Debug)]
pub struct InstantiateMsg {
    pub contract_1: String,
    pub contract_2: String,
    pub contract_3: String,
    pub contract_4: String,
    pub contract_5: String,
}

/// Top-level operation of the orchestrator.
#[derive(Clone, Copy, Debug, PartialEq, Eq, Structural)]
pub enum ExecuteMsg {
    HogeHoge(HogeHogeMsg),
}

/// The request that starts one run of the workflow.
#[derive(Clone, Copy, Debug, PartialEq, Eq, Structural)]
pub struct HogeHogeMsg {
    pub value: u8,
}

/// Migration message: no migrations are defined.
#[derive(Clone, Copy, Debug, PartialEq, Eq, Structural)]
pub struct MigrateMsg {}

/// Status query message: no queries are defined.
#[derive(Clone, Copy, Debug, PartialEq, Eq, Structural)]
pub struct QueryMsg {}

} // verus!
