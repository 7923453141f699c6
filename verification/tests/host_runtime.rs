use torca::contract::names::CommunicationState as TorState;
use torca::host_runtime::{
    canonical_bootstrap_wire_state, projected_host_bootstrap_phase, CommissioningEvent, CommissioningStage,
    HostBootstrapState,
};

#[test]
fn native_runtime_host_projection_cannot_unlock_profile_before_runtime_bootstrap_finishes() {
    assert_eq!(projected_host_bootstrap_phase(TorState::Starting), "running");
    assert_eq!(projected_host_bootstrap_phase(TorState::Ready), "running");
    assert_eq!(projected_host_bootstrap_phase(TorState::Failed), "degraded");
}

#[test]
fn native_runtime_host_bootstrap_projection_uses_only_contract_states() {
    for state in ["pending", "running", "verifying", "ready", "degraded", "failed", "blocked"] {
        assert!(canonical_bootstrap_wire_state(state));
    }
    assert!(!canonical_bootstrap_wire_state("retrying"));
    assert!(!canonical_bootstrap_wire_state("stalled"));
}

#[test]
fn support_host_projection_cannot_unlock_profile_before_runtime_bootstrap_finishes() {
    assert_eq!(projected_host_bootstrap_phase(TorState::Starting), "running");
    assert_eq!(projected_host_bootstrap_phase(TorState::Ready), "running");
    assert_eq!(projected_host_bootstrap_phase(TorState::Failed), "degraded");
}

#[test]
fn support_host_bootstrap_projection_uses_only_contract_states() {
    for state in ["pending", "running", "verifying", "ready", "degraded", "failed", "blocked"] {
        assert!(canonical_bootstrap_wire_state(state));
    }
    assert!(!canonical_bootstrap_wire_state("retrying"));
    assert!(!canonical_bootstrap_wire_state("stalled"));
}

#[test]
fn closing_the_host_forgets_startup_progress() {
    let mut host = HostBootstrapState::stopped();
    assert_eq!(host.network_state(), "pending");
    let event = CommissioningEvent {
        stage: CommissioningStage::LocalRuntime,
        progress: 100,
        attempt: 1,
        retry_after_ms: None,
        code: "READY".to_owned(),
        summary: "ready".to_owned(),
    };
    assert!(host.apply_bootstrap_progress(&event, Some(10), None));
    assert_eq!(host.network_state(), "ready");
    host.close();
    assert_eq!(host.network_state(), "pending");
    assert_eq!(host.host_progress, 0);
    assert_eq!(host.host_status_code, None);
    assert_eq!(host.host_state_hint, TorState::Stopped);
}

#[test]
fn provider_start_retries_twice_then_fails_for_good() {
    let mut host = HostBootstrapState::stopped();
    assert!(host.may_begin_start(false, false));
    assert!(!host.may_begin_start(true, false));
    host.begin_start(Some(1_000));
    assert!(!host.may_begin_start(false, false));
    assert_eq!(host.host_status_code.as_deref(), Some("COMMUNICATION_STARTING"));
    assert_eq!(host.host_attempt, 1);

    assert_eq!(host.start_failed(2_000), Some(5_000));
    assert_eq!(host.host_state_hint, TorState::Degraded);
    assert_eq!(host.host_retry_at_ms, Some(7_000));
    assert!(!host.retry_due(6_999, false, true));
    assert!(host.retry_due(7_000, false, true));
    assert!(!host.retry_due(7_000, false, false));

    host.begin_start(Some(7_000));
    assert_eq!(host.start_failed(8_000), Some(15_000));
    assert_eq!(host.host_retry_at_ms, Some(23_000));

    host.begin_start(Some(23_000));
    assert_eq!(host.start_failed(24_000), None);
    assert_eq!(host.host_state_hint, TorState::Failed);
    assert_eq!(host.host_status_code.as_deref(), Some("COMMUNICATION_FAILED"));
    assert!(!host.retry_due(i64::MAX, false, true));
}

#[test]
fn a_started_provider_is_ready_and_forgets_failures() {
    let mut host = HostBootstrapState::stopped();
    host.begin_start(Some(1));
    host.start_failed(2);
    host.begin_start(Some(3));
    host.start_succeeded();
    assert_eq!(host.host_failures, 0);
    assert_eq!(host.host_state_hint, TorState::Ready);
    assert_eq!(host.host_progress, 100);
    assert_eq!(host.host_incoming_progress, 5);
    assert_eq!(host.host_incoming_status_code.as_deref(), Some("INCOMING_REACHABILITY_PENDING"));
    assert_eq!(host.network_state(), "ready");
}
