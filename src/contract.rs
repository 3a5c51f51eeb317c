use vstd::prelude::*;

use crate::callee::{self, DoSomethingMsg};
use crate::error::ContractError;
use crate::state::{
    get_addresses, get_c1_result, get_loop_index, get_req, increment_loop_index, init_context,
    set_addresses, set_c1_result, set_req, with_context, zero_context, Addresses, Context, Role, Store, stored,
};
use crate::msg::{ExecuteMsg, HogeHogeMsg, InstantiateMsg, MigrateMsg, QueryMsg};

verus! {

/// Continuation identifier of the first stage's call.
pub const EXEC_HOGEHOGE_CALLBACK_ID_1: u64 = 1;

/// Continuation identifier of the second stage's call.
pub const EXEC_HOGEHOGE_CALLBACK_ID_2: u64 = 2;

/// Continuation identifier of the third stage's call, on either branch.
pub const EXEC_HOGEHOGE_CALLBACK_ID_3: u64 = 3;

/// Continuation identifier of each fanned-out fourth-stage call.
pub const EXEC_HOGEHOGE_CALLBACK_ID_4: u64 = 4;

/// The four continuations of the workflow.
#[derive(Clone, Copy, Debug, PartialEq, Eq, Structural)]
pub enum Continuation {
    Stage1,
    Stage2,
    Stage3,
    Stage4,
}

pub open spec fn continuation_of(id: u64) -> Option<Continuation> {
    if id == EXEC_HOGEHOGE_CALLBACK_ID_1 {
        Some(Continuation::Stage1)
    } else if id == EXEC_HOGEHOGE_CALLBACK_ID_2 {
        Some(Continuation::Stage2)
    } else if id == EXEC_HOGEHOGE_CALLBACK_ID_3 {
        Some(Continuation::Stage3)
    } else if id == EXEC_HOGEHOGE_CALLBACK_ID_4 {
        Some(Continuation::Stage4)
    } else {
        None
    }
}

impl Continuation {
    /// The continuation registered under `id`, if any.
    pub fn from_id(id: u64) -> (r: Option<Continuation>)
        ensures
            r == continuation_of(id),
    {
        if id == EXEC_HOGEHOGE_CALLBACK_ID_1 {
            Some(Continuation::Stage1)
        } else if id == EXEC_HOGEHOGE_CALLBACK_ID_2 {
            Some(Continuation::Stage2)
        } else if id == EXEC_HOGEHOGE_CALLBACK_ID_3 {
            Some(Continuation::Stage3)
        } else if id == EXEC_HOGEHOGE_CALLBACK_ID_4 {
            Some(Continuation::Stage4)
        } else {
            None
        }
    }
}

/// One outbound call, answered later by the continuation `reply_id`.
#[derive(Clone, Debug)]
pub struct DispatchedCall {
    pub role: Role,
    pub contract_addr: String,
    pub msg: DoSomethingMsg,
    pub reply_id: u64,
}

/// `c` is the call of `role` at its address in `a`, with these parameters and tag.
pub open spec fn is_call(
    c: DispatchedCall,
    a: Addresses,
    role: Role,
    value_1: Option<u8>,
    value_2: Option<u8>,
    reply_id: u64,
) -> bool {
    &&& c.role == role
    &&& c.contract_addr@ == a.address_of(role)
    &&& c.msg == (DoSomethingMsg { value_1, value_2 })
    &&& c.reply_id == reply_id
}

/// A key and value that describe a response.
#[derive(Clone, Debug)]
pub struct Attribute {
    pub key: String,
    pub value: String,
}

/// The terminal side effect of a fourth-stage continuation.
#[derive(Clone, Copy, Debug, PartialEq, Eq, Structural)]
pub struct SinkCall {
    pub index: u8,
    pub gamma: u8,
}

/// What a step hands back to the host: calls to issue, attributes, and the
/// terminal side effect it performed, if any.
#[derive(Clone, Debug)]
pub struct Response {
    pub attributes: Vec<Attribute>,
    pub messages: Vec<DispatchedCall>,
    pub sink: Option<SinkCall>,
}

impl Response {
    /// A response with nothing in it.
    pub fn new() -> (r: Response)
        ensures
            r.attributes@.len() == 0,
            r.messages@.len() == 0,
            r.sink is None,
    {
        Response { attributes: Vec::new(), messages: Vec::new(), sink: None }
    }
}

/// The payload that a settled call delivered.
#[derive(Clone, Debug)]
pub enum Payload {
    Missing,
    Malformed(String),
    Decoded(callee::Data),
}

/// How a dispatched call settled.
#[derive(Clone, Debug)]
pub enum CallResult {
    Settled(Payload),
    Failed(String),
}

/// An inbound continuation.
#[derive(Clone, Debug)]
pub struct Reply {
    pub id: u64,
    pub result: CallResult,
}

pub open spec fn decode_spec(p: Payload) -> Result<callee::Data, ContractError> {
    match p {
        Payload::Missing => Err(ContractError::PayloadMissing),
        Payload::Malformed(m) => Err(ContractError::PayloadMalformed(m)),
        Payload::Decoded(d) => Ok(d),
    }
}

/// The error that ends the continuation `k` on store `s` with payload `p`, in
/// the order in which the handler meets them; `None` when it succeeds.
pub open spec fn handler_error(s: Store, k: Continuation, p: Payload) -> Option<ContractError> {
    match k {
        Continuation::Stage1 | Continuation::Stage2 => if decode_spec(p) is Err {
            Some(decode_spec(p)->Err_0)
        } else if s.context is None {
            Some(ContractError::ContextUninitialized)
        } else if s.addresses is None {
            Some(ContractError::Uninitialized)
        } else {
            None
        },
        Continuation::Stage3 => if decode_spec(p) is Err {
            Some(decode_spec(p)->Err_0)
        } else if decode_spec(p)->Ok_0.delta > 0 && s.addresses is None {
            Some(ContractError::Uninitialized)
        } else {
            None
        },
        Continuation::Stage4 => if s.context is None {
            Some(ContractError::ContextUninitialized)
        } else if decode_spec(p) is Err {
            Some(decode_spec(p)->Err_0)
        } else if s.context->Some_0.loop_index == 255 {
            Some(ContractError::LoopIndexOverflow)
        } else {
            None
        },
    }
}

/// The store after the continuation `k` succeeded with result `d`.
pub open spec fn handler_store(s: Store, k: Continuation, d: callee::Data) -> Store {
    let c = s.context->Some_0;
    match k {
        Continuation::Stage1 => with_context(s, Context { c1_result: stored(d), ..c }),
        Continuation::Stage4 => with_context(s, Context { loop_index: (c.loop_index + 1) as u8, ..c }),
        _ => s,
    }
}

/// `resp` is what the continuation `k` hands back on store `s` with result `d`.
pub open spec fn handler_response(s: Store, k: Continuation, d: callee::Data, resp: Response) -> bool {
    let a = s.addresses->Some_0;
    let c = s.context->Some_0;
    let m = resp.messages@;
    &&& resp.attributes@.len() == 0
    &&& match k {
        Continuation::Stage1 => {
            &&& m.len() == 1
            &&& is_call(m[0], a, Role::Contract2, Some(c.req.value), Some(d.alpha), EXEC_HOGEHOGE_CALLBACK_ID_2)
            &&& resp.sink is None
        },
        Continuation::Stage2 => {
            &&& m.len() == 1
            &&& if d.is_ok && c.c1_result.is_ok {
                is_call(m[0], a, Role::Contract3, Some(c.c1_result.alpha), None, EXEC_HOGEHOGE_CALLBACK_ID_3)
            } else {
                is_call(m[0], a, Role::Contract4, Some(d.alpha), None, EXEC_HOGEHOGE_CALLBACK_ID_3)
            }
            &&& resp.sink is None
        },
        Continuation::Stage3 => {
            &&& m.len() == d.delta
            &&& forall|i: int| 0 <= i < m.len() ==> is_call(#[trigger] m[i], a, Role::Contract5, None, None, EXEC_HOGEHOGE_CALLBACK_ID_4)
            &&& resp.sink is None
        },
        Continuation::Stage4 => {
            &&& m.len() == 0
            &&& resp.sink == Some(SinkCall { index: c.loop_index, gamma: d.gamma })
        },
    }
}

/// What a handler of `k` promises on store `s` with payload `p`.
pub open spec fn handled(
    s: Store,
    k: Continuation,
    p: Payload,
    r: Result<Response, ContractError>,
    s2: Store,
) -> bool {
    match handler_error(s, k, p) {
        Some(e) => r == Err::<Response, ContractError>(e) && s2 == s,
        None => r matches Ok(resp) && s2 == handler_store(s, k, decode_spec(p)->Ok_0)
            && handler_response(s, k, decode_spec(p)->Ok_0, resp),
    }
}

/// Reads the payload of a settled call.
fn decode(payload: &Payload) -> (r: Result<callee::Data, ContractError>)
    ensures
        r == decode_spec(*payload),
{
    match payload {
        Payload::Missing => Err(ContractError::PayloadMissing),
        Payload::Malformed(m) => Err(ContractError::PayloadMalformed(m.clone())),
        Payload::Decoded(d) => Ok(*d),
    }
}

/// Builds the call of `role` at its registered address, tagged with `reply_id`.
pub fn dispatch(
    storage: &Store,
    role: Role,
    value_1: Option<u8>,
    value_2: Option<u8>,
    reply_id: u64,
) -> (r: Result<DispatchedCall, ContractError>)
    ensures
        storage.addresses matches Some(a) ==> r matches Ok(c) && is_call(
            c,
            a,
            role,
            value_1,
            value_2,
            reply_id,
        ),
        storage.addresses is None ==> r == Err::<DispatchedCall, ContractError>(
            ContractError::Uninitialized,
        ),
{
    let a = get_addresses(storage)?;
    Ok(
        DispatchedCall {
            role,
            contract_addr: a.address(role),
            msg: DoSomethingMsg { value_1, value_2 },
            reply_id,
        },
    )
}

/// Terminal side effect of the workflow, one per fourth-stage continuation.
/// The host performs it from the `SinkCall` that this hands back.
pub fn do_something(index: u8, gamma: u8) -> (r: SinkCall)
    ensures
        r == (SinkCall { index, gamma }),
{
    SinkCall { index, gamma }
}

/// Continuation of the first stage: records its result and calls the second stage.
pub fn handle_hogehoge_callback_1(storage: &mut Store, payload: &Payload) -> (r: Result<
    Response,
    ContractError,
>)
    ensures
        handled(*old(storage), Continuation::Stage1, *payload, r, *final(storage)),
{
    let data = match decode(payload) {
        Ok(d) => d,
        Err(e) => return Err(e),
    };
    let req = match get_req(storage) {
        Ok(q) => q,
        Err(e) => return Err(e),
    };
    let call = match dispatch(
        storage,
        Role::Contract2,
        Some(req.value),
        Some(data.alpha),
        EXEC_HOGEHOGE_CALLBACK_ID_2,
    ) {
        Ok(c) => c,
        Err(e) => return Err(e),
    };
    match set_c1_result(storage, data) {
        Ok(()) => {},
        Err(e) => return Err(e),
    }
    let mut res = Response::new();
    res.messages.push(call);
    Ok(res)
}

/// Continuation of the second stage: calls the third stage on one of two roles.
pub fn handle_hogehoge_callback_2(storage: &Store, payload: &Payload) -> (r: Result<
    Response,
    ContractError,
>)
    ensures
        handled(*storage, Continuation::Stage2, *payload, r, *storage),
{
    let data = match decode(payload) {
        Ok(d) => d,
        Err(e) => return Err(e),
    };
    let c1_result = match get_c1_result(storage) {
        Ok(d) => d,
        Err(e) => return Err(e),
    };
    let dispatched = if data.is_ok && c1_result.is_ok {
        dispatch(storage, Role::Contract3, Some(c1_result.alpha), None, EXEC_HOGEHOGE_CALLBACK_ID_3)
    } else {
        dispatch(storage, Role::Contract4, Some(data.alpha), None, EXEC_HOGEHOGE_CALLBACK_ID_3)
    };
    let call = match dispatched {
        Ok(c) => c,
        Err(e) => return Err(e),
    };
    let mut res = Response::new();
    res.messages.push(call);
    Ok(res)
}

/// Continuation of the third stage: fans out `delta` calls to the fifth role.
pub fn handle_hogehoge_callback_3(storage: &Store, payload: &Payload) -> (r: Result<
    Response,
    ContractError,
>)
    ensures
        handled(*storage, Continuation::Stage3, *payload, r, *storage),
{
    let data = match decode(payload) {
        Ok(d) => d,
        Err(e) => return Err(e),
    };
    let mut res = Response::new();
    let mut i: u8 = 0;
    while i < data.delta
        invariant
            decode_spec(*payload) == Ok::<callee::Data, ContractError>(data),
            i <= data.delta,
            i > 0 ==> storage.addresses is Some,
            res.attributes@.len() == 0,
            res.sink is None,
            res.messages@.len() == i,
            forall|j: int|
                0 <= j < i ==> is_call(
                    #[trigger] res.messages@[j],
                    storage.addresses->Some_0,
                    Role::Contract5,
                    None,
                    None,
                    EXEC_HOGEHOGE_CALLBACK_ID_4,
                ),
        decreases data.delta - i,
    {
        let call = match dispatch(storage, Role::Contract5, None, None, EXEC_HOGEHOGE_CALLBACK_ID_4) {
            Ok(c) => c,
            Err(e) => return Err(e),
        };
        res.messages.push(call);
        i = i + 1;
    }
    Ok(res)
}

/// Continuation of a fanned-out call: performs the terminal side effect with
/// the current loop index, then advances the index.
pub fn handle_hogehoge_callback_4(storage: &mut Store, payload: &Payload) -> (r: Result<
    Response,
    ContractError,
>)
    ensures
        handled(*old(storage), Continuation::Stage4, *payload, r, *final(storage)),
{
    let index = match get_loop_index(storage) {
        Ok(i) => i,
        Err(e) => return Err(e),
    };
    let data = match decode(payload) {
        Ok(d) => d,
        Err(e) => return Err(e),
    };
    match increment_loop_index(storage) {
        Ok(()) => {},
        Err(e) => return Err(e),
    }
    let mut res = Response::new();
    res.sink = Some(do_something(index, data.gamma));
    Ok(res)
}

/// The error that ends the delivery of `rp` on store `s`; `None` when it succeeds.
pub open spec fn reply_error(s: Store, rp: Reply) -> Option<ContractError> {
    match rp.result {
        CallResult::Failed(m) => Some(ContractError::RemoteCallFailed(m)),
        CallResult::Settled(p) => match continuation_of(rp.id) {
            Some(k) => handler_error(s, k, p),
            None => Some(ContractError::UnknownContinuation(rp.id)),
        },
    }
}

/// The store after `rp` was delivered successfully on `s`.
pub open spec fn reply_store(s: Store, rp: Reply) -> Store {
    match rp.result {
        CallResult::Settled(p) => match continuation_of(rp.id) {
            Some(k) => handler_store(s, k, decode_spec(p)->Ok_0),
            None => s,
        },
        CallResult::Failed(_) => s,
    }
}

/// `resp` is what the delivery of `rp` on `s` hands back when it succeeds.
pub open spec fn reply_response(s: Store, rp: Reply, resp: Response) -> bool {
    match rp.result {
        CallResult::Settled(p) => match continuation_of(rp.id) {
            Some(k) => handler_response(s, k, decode_spec(p)->Ok_0, resp),
            None => false,
        },
        CallResult::Failed(_) => false,
    }
}

/// What delivering `rp` on store `s` promises: the error and an untouched
/// store, or the next store and the response.
pub open spec fn replied(s: Store, rp: Reply, r: Result<Response, ContractError>, s2: Store) -> bool {
    match reply_error(s, rp) {
        Some(e) => r == Err::<Response, ContractError>(e) && s2 == s,
        None => r matches Ok(resp) && s2 == reply_store(s, rp) && reply_response(s, rp, resp),
    }
}

/// Routes an inbound continuation to its handler.
pub fn reply(storage: &mut Store, msg: &Reply) -> (r: Result<Response, ContractError>)
    ensures
        replied(*old(storage), *msg, r, *final(storage)),
{
    let payload = match &msg.result {
        CallResult::Settled(p) => p,
        CallResult::Failed(e) => return Err(ContractError::RemoteCallFailed(e.clone())),
    };
    match Continuation::from_id(msg.id) {
        Some(Continuation::Stage1) => handle_hogehoge_callback_1(storage, payload),
        Some(Continuation::Stage2) => handle_hogehoge_callback_2(storage, payload),
        Some(Continuation::Stage3) => handle_hogehoge_callback_3(storage, payload),
        Some(Continuation::Stage4) => handle_hogehoge_callback_4(storage, payload),
        None => Err(ContractError::UnknownContinuation(msg.id)),
    }
}

/// What starting a run with `msg` on store `s` promises.
pub open spec fn entered(s: Store, msg: HogeHogeMsg, r: Result<Response, ContractError>, s2: Store) -> bool {
    match s.addresses {
        Some(a) => r matches Ok(resp) && s2 == with_context(s, Context { req: msg, ..zero_context() })
            && resp.attributes@.len() == 0 && resp.sink is None && resp.messages@.len() == 1
            && is_call(
            resp.messages@[0],
            a,
            Role::Contract1,
            Some(msg.value),
            None,
            EXEC_HOGEHOGE_CALLBACK_ID_1,
        ),
        None => r == Err::<Response, ContractError>(ContractError::Uninitialized) && s2 == s,
    }
}

/// Configures the address book; the response names the method and the sender.
pub fn instantiate(storage: &mut Store, sender: String, msg: InstantiateMsg) -> (r: Response)
    ensures
        *final(storage) == (Store {
            addresses: Some(
                Addresses {
                    contract_1: msg.contract_1,
                    contract_2: msg.contract_2,
                    contract_3: msg.contract_3,
                    contract_4: msg.contract_4,
                    contract_5: msg.contract_5,
                },
            ),
            ..*old(storage)
        }),
        r.messages@.len() == 0,
        r.sink is None,
        r.attributes@.len() == 2,
        r.attributes@[0].key@ == "method"@,
        r.attributes@[0].value@ == "instantiate"@,
        r.attributes@[1].key@ == "owner"@,
        r.attributes@[1].value@ == sender@,
{
    set_addresses(
        storage,
        Addresses {
            contract_1: msg.contract_1,
            contract_2: msg.contract_2,
            contract_3: msg.contract_3,
            contract_4: msg.contract_4,
            contract_5: msg.contract_5,
        },
    );
    let mut res = Response::new();
    res.attributes.push(
        Attribute { key: String::from_str("method"), value: String::from_str("instantiate") },
    );
    res.attributes.push(Attribute { key: String::from_str("owner"), value: sender });
    res
}

/// Migration: no migrations are defined, so nothing changes.
pub fn migrate(_msg: MigrateMsg) -> (r: Response)
    ensures
        r.attributes@.len() == 0,
        r.messages@.len() == 0,
        r.sink is None,
{
    Response::new()
}

/// Status query: no queries are defined, so the answer is empty.
pub fn query(_msg: QueryMsg) -> (r: Vec<u8>)
    ensures
        r@.len() == 0,
{
    Vec::new()
}

/// Top-level operation of the orchestrator.
pub fn execute(storage: &mut Store, msg: ExecuteMsg) -> (r: Result<Response, ContractError>)
    ensures
        msg matches ExecuteMsg::HogeHoge(m) && entered(*old(storage), m, r, *final(storage)),
{
    match msg {
        ExecuteMsg::HogeHoge(m) => exec_hogehoge(storage, m),
    }
}

/// Starts a run: resets the context, records the request and calls the first stage.
pub fn exec_hogehoge(storage: &mut Store, msg: HogeHogeMsg) -> (r: Result<Response, ContractError>)
    ensures
        entered(*old(storage), msg, r, *final(storage)),
{
    let call = match dispatch(
        storage,
        Role::Contract1,
        Some(msg.value),
        None,
        EXEC_HOGEHOGE_CALLBACK_ID_1,
    ) {
        Ok(c) => c,
        Err(e) => return Err(e),
    };
    init_context(storage);
    match set_req(storage, msg) {
        Ok(()) => {},
        Err(e) => return Err(e),
    }
    let mut res = Response::new();
    res.messages.push(call);
    Ok(res)
}

} // verus!
