use vstd::prelude::*;

use crate::callee;
use crate::error::ContractError;
use crate::msg::HogeHogeMsg;

verus! {

/// The five logical service roles of the pipeline.
#[derive(Clone, Copy, Debug, PartialEq, Eq, Structural)]
pub enum Role {
    Contract1,
    Contract2,
    Contract3,
    Contract4,
    Contract5,
}

/// Address of each service role, written once at configuration time.
#[derive(Clone, Debug)]
pub struct Addresses {
    pub contract_1: String,
    pub contract_2: String,
    pub contract_3: String,
    pub contract_4: String,
    pub contract_5: String,
}

impl Addresses {
    pub open spec fn address_of(self, role: Role) -> Seq<char> {
        match role {
            Role::Contract1 => self.contract_1@,
            Role::Contract2 => self.contract_2@,
            Role::Contract3 => self.contract_3@,
            Role::Contract4 => self.contract_4@,
            Role::Contract5 => self.contract_5@,
        }
    }

    /// The address registered for `role`.
    pub fn address(&self, role: Role) -> (r: String)
        ensures
            r@ == self.address_of(role),
    {
        match role {
            Role::Contract1 => self.contract_1.clone(),
            Role::Contract2 => self.contract_2.clone(),
            Role::Contract3 => self.contract_3.clone(),
            Role::Contract4 => self.contract_4.clone(),
            Role::Contract5 => self.contract_5.clone(),
        }
    }
}

/// Snapshot of a service result as the context keeps it.
#[derive(Clone, Copy, Debug, PartialEq, Eq, Structural)]
pub struct Data {
    pub alpha: u8,
    pub beta: u8,
    pub delta: u8,
    pub gamma: u8,
    pub is_ok: bool,
}

pub open spec fn stored(d: callee::Data) -> Data {
    Data { alpha: d.alpha, beta: d.beta, delta: d.delta, gamma: d.gamma, is_ok: d.is_ok }
}

pub open spec fn loaded(d: Data) -> callee::Data {
    callee::Data { alpha: d.alpha, beta: d.beta, delta: d.delta, gamma: d.gamma, is_ok: d.is_ok }
}

/// The durable state of one run of the workflow.
#[derive(Clone, Copy, Debug, PartialEq, Eq, Structural)]
pub struct Context {
    pub req: HogeHogeMsg,
    pub c1_result: Data,
    pub loop_index: u8,
}

pub open spec fn zero_context() -> Context {
    Context {
        req: HogeHogeMsg { value: 0 },
        c1_result: Data { alpha: 0, beta: 0, delta: 0, gamma: 0, is_ok: false },
        loop_index: 0,
    }
}

/// Durable storage of the orchestrator: the address book and the context.
/// `None` is an entry that was never written.
#[derive(Clone, Debug)]
pub struct Store {
    pub addresses: Option<Addresses>,
    pub context: Option<Context>,
}

impl Store {
    /// Storage in which nothing was written yet.
    pub fn new() -> (r: Store)
        ensures
            r.addresses is None,
            r.context is None,
    {
        Store { addresses: None, context: None }
    }
}

/// `s` with its context replaced by `c`.
pub open spec fn with_context(s: Store, c: Context) -> Store {
    Store { context: Some(c), ..s }
}

/// Overwrites the address book.
pub fn set_addresses(storage: &mut Store, addresses: Addresses)
    ensures
        *final(storage) == (Store { addresses: Some(addresses), ..*old(storage) }),
{
    storage.addresses = Some(addresses);
}

/// Reads the address book.
pub fn get_addresses(storage: &Store) -> (r: Result<&Addresses, ContractError>)
    ensures
        storage.addresses matches Some(a) ==> r == Ok::<&Addresses, ContractError>(&a),
        storage.addresses is None ==> r == Err::<&Addresses, ContractError>(
            ContractError::Uninitialized,
        ),
{
    match &storage.addresses {
        Some(a) => Ok(a),
        None => Err(ContractError::Uninitialized),
    }
}

/// Writes the zero-value context, discarding what was there.
pub fn init_context(storage: &mut Store)
    ensures
        *final(storage) == with_context(*old(storage), zero_context()),
{
    storage.context = Some(
        Context {
            req: HogeHogeMsg { value: 0 },
            c1_result: Data { alpha: 0, beta: 0, delta: 0, gamma: 0, is_ok: false },
            loop_index: 0,
        },
    );
}

/// Records the request of the current run.
pub fn set_req(storage: &mut Store, req: HogeHogeMsg) -> (r: Result<(), ContractError>)
    ensures
        old(storage).context matches Some(c) ==> r is Ok && *final(storage) == with_context(
            *old(storage),
            Context { req, ..c },
        ),
        old(storage).context is None ==> r == Err::<(), ContractError>(
            ContractError::ContextUninitialized,
        ) && *final(storage) == *old(storage),
{
    match storage.context {
        Some(c) => {
            storage.context = Some(Context { req, ..c });
            Ok(())
        },
        None => Err(ContractError::ContextUninitialized),
    }
}

/// The request of the current run.
pub fn get_req(storage: &Store) -> (r: Result<HogeHogeMsg, ContractError>)
    ensures
        storage.context matches Some(c) ==> r == Ok::<HogeHogeMsg, ContractError>(c.req),
        storage.context is None ==> r == Err::<HogeHogeMsg, ContractError>(
            ContractError::ContextUninitialized,
        ),
{
    match storage.context {
        Some(c) => Ok(c.req),
        None => Err(ContractError::ContextUninitialized),
    }
}

/// Records the result of the first stage.
pub fn set_c1_result(storage: &mut Store, result: callee::Data) -> (r: Result<(), ContractError>)
    ensures
        old(storage).context matches Some(c) ==> r is Ok && *final(storage) == with_context(
            *old(storage),
            Context { c1_result: stored(result), ..c },
        ),
        old(storage).context is None ==> r == Err::<(), ContractError>(
            ContractError::ContextUninitialized,
        ) && *final(storage) == *old(storage),
{
    match storage.context {
        Some(c) => {
            let d = Data {
                alpha: result.alpha,
                beta: result.beta,
                delta: result.delta,
                gamma: result.gamma,
                is_ok: result.is_ok,
            };
            storage.context = Some(Context { c1_result: d, ..c });
            Ok(())
        },
        None => Err(ContractError::ContextUninitialized),
    }
}

/// The result of the first stage, as recorded.
pub fn get_c1_result(storage: &Store) -> (r: Result<callee::Data, ContractError>)
    ensures
        storage.context matches Some(c) ==> r == Ok::<callee::Data, ContractError>(
            loaded(c.c1_result),
        ),
        storage.context is None ==> r == Err::<callee::Data, ContractError>(
            ContractError::ContextUninitialized,
        ),
{
    match storage.context {
        Some(c) => Ok(
            callee::Data {
                alpha: c.c1_result.alpha,
                beta: c.c1_result.beta,
                delta: c.c1_result.delta,
                gamma: c.c1_result.gamma,
                is_ok: c.c1_result.is_ok,
            },
        ),
        None => Err(ContractError::ContextUninitialized),
    }
}

/// Advances the loop counter by one; the counter never wraps.
pub fn increment_loop_index(storage: &mut Store) -> (r: Result<(), ContractError>)
    ensures
        old(storage).context matches Some(c) ==> if c.loop_index < 255 {
            r is Ok && *final(storage) == with_context(
                *old(storage),
                Context { loop_index: (c.loop_index + 1) as u8, ..c },
            )
        } else {
            r == Err::<(), ContractError>(ContractError::LoopIndexOverflow)
        },
        old(storage).context is None ==> r == Err::<(), ContractError>(
            ContractError::ContextUninitialized,
        ),
        r is Err ==> *final(storage) == *old(storage),
{
    match storage.context {
        Some(c) => {
            if c.loop_index == 255 {
                return Err(ContractError::LoopIndexOverflow);
            }
            storage.context = Some(Context { loop_index: c.loop_index + 1, ..c });
            Ok(())
        },
        None => Err(ContractError::ContextUninitialized),
    }
}

/// The loop counter of the current run.
pub fn get_loop_index(storage: &Store) -> (r: Result<u8, ContractError>)
    ensures
        storage.context matches Some(c) ==> r == Ok::<u8, ContractError>(c.loop_index),
        storage.context is None ==> r == Err::<u8, ContractError>(
            ContractError::ContextUninitialized,
        ),
{
    match storage.context {
        Some(c) => Ok(c.loop_index),
        None => Err(ContractError::ContextUninitialized),
    }
}

} // verus!
