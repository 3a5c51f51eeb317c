use caller::callee::Data;
use caller::contract::{
    do_something, exec_hogehoge, execute, handle_hogehoge_callback_1, handle_hogehoge_callback_2,
    handle_hogehoge_callback_3, handle_hogehoge_callback_4, instantiate, migrate, query, reply,
    CallResult, Continuation, Payload, Reply, Response, SinkCall, EXEC_HOGEHOGE_CALLBACK_ID_1,
    EXEC_HOGEHOGE_CALLBACK_ID_2, EXEC_HOGEHOGE_CALLBACK_ID_3, EXEC_HOGEHOGE_CALLBACK_ID_4,
};
use caller::error::ContractError;
use caller::msg::{ExecuteMsg, HogeHogeMsg, InstantiateMsg, MigrateMsg, QueryMsg};
use caller::settle::settle_in_order;
use caller::state::{
    get_addresses, get_c1_result, get_loop_index, get_req, increment_loop_index, init_context,
    set_c1_result, set_req, Context, Role, Store,
};

fn data(alpha: u8, delta: u8, gamma: u8, is_ok: bool) -> Data {
    Data { alpha, beta: 0, delta, gamma, is_ok }
}

fn settled(id: u64, d: Data) -> Reply {
    Reply { id, result: CallResult::Settled(Payload::Decoded(d)) }
}

fn configured() -> Store {
    let mut st = Store::new();
    instantiate(
        &mut st,
        "owner".to_string(),
        InstantiateMsg {
            contract_1: "addr1".to_string(),
            contract_2: "addr2".to_string(),
            contract_3: "addr3".to_string(),
            contract_4: "addr4".to_string(),
            contract_5: "addr5".to_string(),
        },
    );
    st
}

fn only_call(resp: &Response) -> (Role, String, Option<u8>, Option<u8>, u64) {
    assert_eq!(resp.messages.len(), 1);
    let c = &resp.messages[0];
    (c.role, c.contract_addr.clone(), c.msg.value_1, c.msg.value_2, c.reply_id)
}

/// A store after the entry point with `value` and the first two stages.
fn after_stage2(value: u8, d1: Data, d2: Data) -> (Store, Response) {
    let mut st = configured();
    exec_hogehoge(&mut st, HogeHogeMsg { value }).unwrap();
    reply(&mut st, &settled(1, d1)).unwrap();
    let r2 = reply(&mut st, &settled(2, d2)).unwrap();
    (st, r2)
}

#[test]
fn happy_path_routes_to_role_three() {
    let (_, r2) = after_stage2(7, data(3, 0, 0, true), data(5, 0, 0, true));
    assert_eq!(only_call(&r2), (Role::Contract3, "addr3".to_string(), Some(3), None, 3));
}

#[test]
fn failed_second_stage_routes_to_role_four() {
    let (_, r2) = after_stage2(7, data(3, 0, 0, true), data(11, 0, 0, false));
    assert_eq!(only_call(&r2), (Role::Contract4, "addr4".to_string(), Some(11), None, 3));
}

#[test]
fn failed_first_stage_routes_to_role_four() {
    let (_, r2) = after_stage2(7, data(3, 0, 0, false), data(11, 0, 0, true));
    assert_eq!(only_call(&r2), (Role::Contract4, "addr4".to_string(), Some(11), None, 3));
}

#[test]
fn fan_out_of_four() {
    let (mut st, _) = after_stage2(7, data(3, 0, 0, true), data(5, 0, 0, true));
    let r3 = reply(&mut st, &settled(3, data(0, 4, 0, true))).unwrap();
    assert_eq!(r3.messages.len(), 4);
    for c in r3.messages.iter() {
        assert_eq!(c.role, Role::Contract5);
        assert_eq!(c.contract_addr, "addr5");
        assert_eq!(c.msg.value_1, None);
        assert_eq!(c.msg.value_2, None);
        assert_eq!(c.reply_id, EXEC_HOGEHOGE_CALLBACK_ID_4);
    }
}

#[test]
fn fan_out_of_zero() {
    let (mut st, _) = after_stage2(7, data(3, 0, 0, true), data(5, 0, 0, true));
    let before = st.context;
    let r3 = reply(&mut st, &settled(3, data(0, 0, 0, true))).unwrap();
    assert!(r3.messages.is_empty());
    assert!(r3.sink.is_none());
    assert_eq!(st.context, before);
}

#[test]
fn fan_out_of_zero_needs_no_addresses() {
    let st = Store::new();
    let r3 = handle_hogehoge_callback_3(&st, &Payload::Decoded(data(0, 0, 0, true))).unwrap();
    assert!(r3.messages.is_empty());
}

#[test]
fn loop_index_advances_once_per_continuation() {
    let (mut st, _) = after_stage2(7, data(3, 0, 0, true), data(5, 0, 0, true));
    reply(&mut st, &settled(3, data(0, 3, 0, true))).unwrap();
    let replies = vec![
        settled(4, data(0, 0, 10, true)),
        settled(4, data(0, 0, 20, true)),
        settled(4, data(0, 0, 30, true)),
    ];
    let out = settle_in_order(&mut st, &replies).unwrap();
    assert_eq!(get_loop_index(&st), Ok(3));
    let sinks: Vec<Option<SinkCall>> = out.iter().map(|r| r.sink).collect();
    assert_eq!(
        sinks,
        vec![
            Some(SinkCall { index: 0, gamma: 10 }),
            Some(SinkCall { index: 1, gamma: 20 }),
            Some(SinkCall { index: 2, gamma: 30 }),
        ]
    );
}

#[test]
fn failed_third_stage_rolls_back_the_invocation() {
    let mut st = configured();
    exec_hogehoge(&mut st, HogeHogeMsg { value: 1 }).unwrap();
    let before = st.context;
    let replies = vec![
        settled(1, data(3, 0, 0, true)),
        settled(2, data(5, 0, 0, true)),
        Reply { id: 3, result: CallResult::Failed("out of gas".to_string()) },
    ];
    let r = settle_in_order(&mut st, &replies);
    assert_eq!(r.err(), Some(ContractError::RemoteCallFailed("out of gas".to_string())));
    assert_eq!(st.context, before);
    assert_eq!(get_c1_result(&st).unwrap().alpha, 0);
}

#[test]
fn failed_fan_out_call_keeps_loop_index() {
    let (mut st, _) = after_stage2(7, data(3, 0, 0, true), data(5, 0, 0, true));
    let replies = vec![
        settled(3, data(0, 2, 0, true)),
        settled(4, data(0, 0, 1, true)),
        Reply { id: 4, result: CallResult::Settled(Payload::Missing) },
    ];
    let r = settle_in_order(&mut st, &replies);
    assert_eq!(r.err(), Some(ContractError::PayloadMissing));
    assert_eq!(get_loop_index(&st), Ok(0));
}

#[test]
fn unknown_continuation() {
    let (mut st, _) = after_stage2(7, data(3, 0, 0, true), data(5, 0, 0, true));
    let before = st.context;
    let r = reply(&mut st, &settled(99, data(1, 1, 1, true)));
    assert_eq!(r.err(), Some(ContractError::UnknownContinuation(99)));
    assert_eq!(st.context, before);
}

#[test]
fn continuation_ids() {
    assert_eq!(Continuation::from_id(EXEC_HOGEHOGE_CALLBACK_ID_1), Some(Continuation::Stage1));
    assert_eq!(Continuation::from_id(EXEC_HOGEHOGE_CALLBACK_ID_2), Some(Continuation::Stage2));
    assert_eq!(Continuation::from_id(EXEC_HOGEHOGE_CALLBACK_ID_3), Some(Continuation::Stage3));
    assert_eq!(Continuation::from_id(EXEC_HOGEHOGE_CALLBACK_ID_4), Some(Continuation::Stage4));
    assert_eq!(Continuation::from_id(0), None);
    assert_eq!(Continuation::from_id(5), None);
}

#[test]
fn entry_dispatches_first_stage() {
    let mut st = configured();
    let r = execute(&mut st, ExecuteMsg::HogeHoge(HogeHogeMsg { value: 7 })).unwrap();
    assert_eq!(only_call(&r), (Role::Contract1, "addr1".to_string(), Some(7), None, 1));
    assert_eq!(get_req(&st), Ok(HogeHogeMsg { value: 7 }));
    assert_eq!(get_loop_index(&st), Ok(0));
}

#[test]
fn entry_resets_previous_run() {
    let (mut st, _) = after_stage2(7, data(3, 0, 0, true), data(5, 0, 0, true));
    reply(&mut st, &settled(3, data(0, 1, 0, true))).unwrap();
    reply(&mut st, &settled(4, data(0, 0, 0, true))).unwrap();
    assert_eq!(get_loop_index(&st), Ok(1));
    exec_hogehoge(&mut st, HogeHogeMsg { value: 2 }).unwrap();
    assert_eq!(get_loop_index(&st), Ok(0));
    assert_eq!(get_c1_result(&st).unwrap().alpha, 0);
    assert_eq!(get_req(&st), Ok(HogeHogeMsg { value: 2 }));
}

#[test]
fn first_stage_records_result_and_calls_second() {
    let mut st = configured();
    exec_hogehoge(&mut st, HogeHogeMsg { value: 7 }).unwrap();
    let r = handle_hogehoge_callback_1(&mut st, &Payload::Decoded(data(3, 4, 5, true))).unwrap();
    assert_eq!(only_call(&r), (Role::Contract2, "addr2".to_string(), Some(7), Some(3), 2));
    let c1 = get_c1_result(&st).unwrap();
    assert_eq!((c1.alpha, c1.delta, c1.gamma, c1.is_ok), (3, 4, 5, true));
}

#[test]
fn second_stage_reads_recorded_result() {
    let mut st = configured();
    exec_hogehoge(&mut st, HogeHogeMsg { value: 7 }).unwrap();
    set_c1_result(&mut st, data(42, 0, 0, true)).unwrap();
    let r = handle_hogehoge_callback_2(&st, &Payload::Decoded(data(8, 0, 0, true))).unwrap();
    assert_eq!(only_call(&r), (Role::Contract3, "addr3".to_string(), Some(42), None, 3));
}

#[test]
fn fourth_stage_hands_index_and_gamma_to_sink() {
    let mut st = configured();
    exec_hogehoge(&mut st, HogeHogeMsg { value: 7 }).unwrap();
    let r = handle_hogehoge_callback_4(&mut st, &Payload::Decoded(data(0, 0, 77, true))).unwrap();
    assert_eq!(r.sink, Some(SinkCall { index: 0, gamma: 77 }));
    assert!(r.messages.is_empty());
    assert_eq!(get_loop_index(&st), Ok(1));
}

#[test]
fn sink_call_carries_its_arguments() {
    assert_eq!(do_something(3, 9), SinkCall { index: 3, gamma: 9 });
}

#[test]
fn missing_payload_is_fatal() {
    let mut st = configured();
    exec_hogehoge(&mut st, HogeHogeMsg { value: 7 }).unwrap();
    let before = st.context;
    let r = reply(&mut st, &Reply { id: 1, result: CallResult::Settled(Payload::Missing) });
    assert_eq!(r.err(), Some(ContractError::PayloadMissing));
    assert_eq!(st.context, before);
}

#[test]
fn malformed_payload_is_fatal() {
    let mut st = configured();
    exec_hogehoge(&mut st, HogeHogeMsg { value: 7 }).unwrap();
    let p = Payload::Malformed("expected value".to_string());
    let r = reply(&mut st, &Reply { id: 2, result: CallResult::Settled(p) });
    assert_eq!(r.err(), Some(ContractError::PayloadMalformed("expected value".to_string())));
}

#[test]
fn failed_call_is_fatal_before_routing() {
    let mut st = configured();
    let r = reply(&mut st, &Reply { id: 99, result: CallResult::Failed("boom".to_string()) });
    assert_eq!(r.err(), Some(ContractError::RemoteCallFailed("boom".to_string())));
}

#[test]
fn entry_without_addresses_is_uninitialized() {
    let mut st = Store::new();
    let r = exec_hogehoge(&mut st, HogeHogeMsg { value: 7 });
    assert_eq!(r.err(), Some(ContractError::Uninitialized));
    assert!(st.context.is_none());
}

#[test]
fn continuation_before_entry_is_context_uninitialized() {
    let mut st = configured();
    let r = reply(&mut st, &settled(1, data(3, 0, 0, true)));
    assert_eq!(r.err(), Some(ContractError::ContextUninitialized));
    let r = reply(&mut st, &settled(4, data(3, 0, 0, true)));
    assert_eq!(r.err(), Some(ContractError::ContextUninitialized));
}

#[test]
fn fan_out_without_addresses_is_uninitialized() {
    let st = Store::new();
    let r = handle_hogehoge_callback_3(&st, &Payload::Decoded(data(0, 2, 0, true)));
    assert_eq!(r.err(), Some(ContractError::Uninitialized));
}

#[test]
fn loop_index_does_not_wrap() {
    let mut st = configured();
    init_context(&mut st);
    for _ in 0..255 {
        increment_loop_index(&mut st).unwrap();
    }
    assert_eq!(get_loop_index(&st), Ok(255));
    assert_eq!(increment_loop_index(&mut st), Err(ContractError::LoopIndexOverflow));
    let r = reply(&mut st, &settled(4, data(0, 0, 0, true)));
    assert_eq!(r.err(), Some(ContractError::LoopIndexOverflow));
    assert_eq!(get_loop_index(&st), Ok(255));
}

#[test]
fn context_accessors() {
    let mut st = Store::new();
    assert_eq!(get_req(&st), Err(ContractError::ContextUninitialized));
    assert_eq!(set_req(&mut st, HogeHogeMsg { value: 1 }), Err(ContractError::ContextUninitialized));
    assert_eq!(get_loop_index(&st), Err(ContractError::ContextUninitialized));
    assert!(get_c1_result(&st).is_err());
    init_context(&mut st);
    let zero = st.context.unwrap();
    assert_eq!(zero.req, HogeHogeMsg { value: 0 });
    assert_eq!(zero.loop_index, 0);
    assert!(!zero.c1_result.is_ok);
    set_req(&mut st, HogeHogeMsg { value: 200 }).unwrap();
    assert_eq!(get_req(&st), Ok(HogeHogeMsg { value: 200 }));
    let ctx: Context = st.context.unwrap();
    assert_eq!(ctx.loop_index, 0);
}

#[test]
fn address_book() {
    let st = Store::new();
    assert!(matches!(get_addresses(&st), Err(ContractError::Uninitialized)));
    let st = configured();
    let a = get_addresses(&st).unwrap();
    assert_eq!(a.address(Role::Contract1), "addr1");
    assert_eq!(a.address(Role::Contract5), "addr5");
    assert_eq!(a.duplicate().contract_3, "addr3");
}

#[test]
fn instantiate_writes_addresses_and_attributes() {
    let mut st = Store::new();
    let r = instantiate(
        &mut st,
        "creator".to_string(),
        InstantiateMsg {
            contract_1: "a".to_string(),
            contract_2: "b".to_string(),
            contract_3: "c".to_string(),
            contract_4: "d".to_string(),
            contract_5: "e".to_string(),
        },
    );
    let attrs: Vec<(String, String)> =
        r.attributes.iter().map(|a| (a.key.clone(), a.value.clone())).collect();
    assert_eq!(
        attrs,
        vec![
            ("method".to_string(), "instantiate".to_string()),
            ("owner".to_string(), "creator".to_string()),
        ]
    );
    assert_eq!(get_addresses(&st).unwrap().contract_4, "d");
}

#[test]
fn protocol_stubs_do_nothing() {
    let r = migrate(MigrateMsg {});
    assert!(r.messages.is_empty() && r.attributes.is_empty());
    assert!(query(QueryMsg {}).is_empty());
}

#[test]
fn snapshot_is_equal() {
    let st = configured();
    let copy = st.snapshot();
    assert_eq!(copy.context, st.context);
    assert_eq!(copy.addresses.unwrap().contract_2, "addr2");
}

#[test]
fn third_stage_id_serves_both_branches() {
    let (_, r_a) = after_stage2(7, data(3, 0, 0, true), data(5, 0, 0, true));
    let (_, r_b) = after_stage2(7, data(3, 0, 0, true), data(5, 0, 0, false));
    assert_eq!(r_a.messages[0].reply_id, EXEC_HOGEHOGE_CALLBACK_ID_3);
    assert_eq!(r_b.messages[0].reply_id, EXEC_HOGEHOGE_CALLBACK_ID_3);
    assert_eq!(EXEC_HOGEHOGE_CALLBACK_ID_2, 2);
}
