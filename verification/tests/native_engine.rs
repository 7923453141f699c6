use torca::bridge::{BridgeResult, BridgeSnapshot};
use torca::native_engine::NativeEngineState;
use torca::native_json::empty_snapshot_json;
use torca::runtime_support::{ABI_CLOSED, ABI_ERROR, ABI_OK};

fn empty_snapshot() -> BridgeSnapshot {
    BridgeSnapshot {
        contract_version: 1,
        identity_name: Some("Ada".to_owned()),
        pairings: Vec::new(),
        contacts: Vec::new(),
        conversations: Vec::new(),
        messages: Vec::new(),
    }
}

#[test]
fn an_engine_starts_initialized_and_records_each_answer() {
    let mut engine = NativeEngineState::new();
    assert_eq!(engine.last_result_json, "{\"ok\":true,\"kind\":\"initialized\",\"error\":null}");
    assert_eq!(engine.snapshot_json, empty_snapshot_json());
    assert_eq!(engine.admit_command(), None);
    let failed = BridgeResult { ok: false, kind: "error".to_owned(), error: Some("bad \"id\"".to_owned()) };
    assert_eq!(engine.command_answered(&failed), ABI_ERROR);
    assert_eq!(engine.last_result_json, "{\"ok\":false,\"kind\":\"error\",\"error\":\"bad \\\"id\\\"\"}");
    let done = BridgeResult { ok: true, kind: "message_queued".to_owned(), error: None };
    assert_eq!(engine.command_answered(&done), ABI_OK);
    assert_eq!(engine.snapshot_answered(Ok(&empty_snapshot())), ABI_OK);
    assert!(engine.snapshot_json.contains("\"displayName\":\"Ada\""));
    assert_eq!(engine.snapshot_answered(Err("engine stopped".to_owned())), ABI_ERROR);
    assert!(engine.last_result_json.contains("engine stopped"));
}

#[test]
fn a_closed_engine_refuses_commands_and_closes_once() {
    let mut engine = NativeEngineState::new();
    assert!(engine.begin_close());
    assert_eq!(engine.shutdown_finished(None), ABI_OK);
    assert!(!engine.begin_close());
    assert_eq!(engine.admit_command(), Some(ABI_CLOSED));
    assert_eq!(engine.last_result_json, "{\"ok\":false,\"kind\":\"error\",\"error\":\"native engine is closed\"}");
    assert_eq!(engine.snapshot_answered(Ok(&empty_snapshot())), ABI_CLOSED);
}
