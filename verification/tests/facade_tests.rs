use polkabind::balance::{interpret_account, AccountData};
use polkabind::connection::{ConnectAction, ConnectionManager};
use polkabind::errors::{error_code_of, transfer_error_of, ErrorCode, Failure, TransferError};
use polkabind::facade::Polkabind;

const DEST_HEX: &str = "0x8eaf04151687736326c9fea17e25fc5287613693c912909cb226aa4794f26a48";

#[test]
fn facade_keeps_its_endpoint() {
    let p = Polkabind::new("ws://127.0.0.1:8000");
    assert_eq!(p.ws_url, "ws://127.0.0.1:8000");
}

#[test]
fn facade_plans_the_transfer_call() {
    let p = Polkabind::new("ws://127.0.0.1:8000");
    let call = p.plan_transfer(DEST_HEX, 250).expect("valid destination");
    assert_eq!(call.pallet, "Balances");
    assert_eq!(call.method, "transfer_allow_death");
    assert_eq!(call.amount, 250);
}

#[test]
fn facade_reports_bad_destinations_as_decode_errors() {
    let p = Polkabind::new("ws://127.0.0.1:8000");
    let e = p.plan_transfer("0xdeadbeef", 250).err().unwrap();
    assert_eq!(e, TransferError::Decode("invalid 32-byte address".to_string()));
}

#[test]
fn second_connect_reuses_the_session() {
    let mut m = ConnectionManager::new();
    assert_eq!(m.plan_connect(), ConnectAction::Dial);
    m.complete_dial("ws://127.0.0.1:8000".to_string(), true).expect("dial succeeded");
    assert_eq!(m.current_url().unwrap().as_str(), "ws://127.0.0.1:8000");
    // The second connect with the same URL performs no dial: one session only.
    assert_eq!(m.plan_connect(), ConnectAction::UseExisting);
    assert_eq!(m.current_url().unwrap().as_str(), "ws://127.0.0.1:8000");
}

#[test]
fn failed_dial_leaves_the_manager_uninitialized() {
    let mut m = ConnectionManager::new();
    let r = m.complete_dial("ws://unreachable:1".to_string(), false);
    assert_eq!(r.err().unwrap(), Failure::Connection);
    assert!(m.current_url().is_none());
    assert_eq!(m.plan_connect(), ConnectAction::Dial);
}

#[test]
fn reset_allows_reinitialization() {
    let mut m = ConnectionManager::new();
    m.complete_dial("ws://a".to_string(), true).unwrap();
    m.reset();
    assert!(m.current_url().is_none());
    assert_eq!(m.plan_connect(), ConnectAction::Dial);
}

#[test]
fn absent_account_reads_as_zero_balance() {
    let d = interpret_account(None);
    assert_eq!(d, AccountData { free: 0, reserved: 0 });
}

#[test]
fn present_account_reads_as_reported() {
    let d = interpret_account(Some(AccountData { free: 10, reserved: 3 }));
    assert_eq!(d, AccountData { free: 10, reserved: 3 });
}

#[test]
fn every_failure_maps_to_its_boundary_code() {
    assert_eq!(error_code_of(Failure::Connection), ErrorCode::RpcError);
    assert_eq!(error_code_of(Failure::Decode), ErrorCode::DecodeError);
    assert_eq!(error_code_of(Failure::Signing), ErrorCode::SigningError);
    assert_eq!(error_code_of(Failure::Submission), ErrorCode::RpcError);
    assert_eq!(error_code_of(Failure::Finalization), ErrorCode::RpcError);
    assert_eq!(error_code_of(Failure::Query), ErrorCode::RpcError);
}

#[test]
fn transfer_errors_keep_decode_apart() {
    assert_eq!(
        transfer_error_of(Failure::Decode, "bad hex".to_string()),
        TransferError::Decode("bad hex".to_string())
    );
    assert_eq!(
        transfer_error_of(Failure::Submission, "dropped".to_string()),
        TransferError::Subxt("dropped".to_string())
    );
}
