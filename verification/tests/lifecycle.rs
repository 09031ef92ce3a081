use suzent_sidecar::health::HealthPoll;
use suzent_sidecar::health::PollStep;
use suzent_sidecar::health::MAX_HEALTH_ATTEMPTS;
use suzent_sidecar::supervisor::BackendProcess;
use suzent_sidecar::supervisor::Phase;

#[test]
fn fresh_supervisor_port_is_zero() {
    let sup = BackendProcess::new();
    assert_eq!(sup.current_port(), 0);
    assert_eq!(sup.phase, Phase::Idle);
    assert!(sup.child_pid.is_none());
}

#[test]
fn start_flow_becomes_ready_and_returns_port() {
    let mut sup = BackendProcess::new();
    assert!(sup.can_start());
    sup.begin_start(8123);
    assert_eq!(sup.phase, Phase::Starting);
    sup.record_spawn(41);

    let mut poll = HealthPoll::new();
    assert_eq!(poll.record(Some(200)), PollStep::Ready);

    let port = sup.mark_ready();
    assert_eq!(port, 8123);
    assert_eq!(sup.phase, Phase::Ready);
    assert_eq!(sup.current_port(), 8123);
    assert_eq!(sup.child_pid, Some(41));
}

#[test]
fn poll_404_counts_as_ready() {
    let mut poll = HealthPoll::new();
    assert_eq!(poll.record(Some(404)), PollStep::Ready);
}

#[test]
fn poll_success_statuses_count_as_ready() {
    let mut poll = HealthPoll::new();
    assert_eq!(poll.record(Some(204)), PollStep::Ready);
    let mut poll2 = HealthPoll::new();
    assert_eq!(poll2.record(Some(299)), PollStep::Ready);
}

#[test]
fn poll_other_statuses_retry() {
    let mut poll = HealthPoll::new();
    assert_eq!(poll.record(Some(500)), PollStep::Retry);
    assert_eq!(poll.record(Some(301)), PollStep::Retry);
    assert_eq!(poll.record(Some(199)), PollStep::Retry);
    assert_eq!(poll.record(Some(403)), PollStep::Retry);
}

#[test]
fn poll_transport_failure_retries() {
    let mut poll = HealthPoll::new();
    assert_eq!(poll.record(None), PollStep::Retry);
}

#[test]
fn poll_exhausts_after_exact_budget_and_child_is_killed() {
    let mut sup = BackendProcess::new();
    sup.begin_start(8200);
    sup.record_spawn(77);

    let mut poll = HealthPoll::new();
    let mut last = PollStep::Retry;
    let mut attempts: u32 = 0;
    while poll.can_attempt() {
        last = poll.record(None);
        attempts += 1;
        if attempts < MAX_HEALTH_ATTEMPTS {
            assert_eq!(last, PollStep::Retry);
        }
    }
    assert_eq!(attempts, MAX_HEALTH_ATTEMPTS);
    assert_eq!(last, PollStep::Exhausted);

    let victim = sup.abort_start();
    assert_eq!(victim, Some(77));
    assert!(sup.child_pid.is_none());
    assert_eq!(sup.phase, Phase::Failed);
    assert_eq!(sup.current_port(), 8200);
}

#[test]
fn stop_twice_is_idempotent() {
    let mut sup = BackendProcess::new();
    sup.begin_start(8300);
    sup.record_spawn(55);
    sup.mark_ready();

    let first = sup.stop();
    assert_eq!(first, Some(55));
    assert!(sup.child_pid.is_none());
    assert_eq!(sup.phase, Phase::Stopped);

    let second = sup.stop();
    assert_eq!(second, None);
    assert!(sup.child_pid.is_none());
    assert_eq!(sup.phase, Phase::Stopped);
}

#[test]
fn stop_keeps_port_readable() {
    let mut sup = BackendProcess::new();
    sup.begin_start(8400);
    sup.record_spawn(12);
    sup.mark_ready();
    sup.stop();
    assert_eq!(sup.current_port(), 8400);
    sup.stop();
    assert_eq!(sup.current_port(), 8400);
}

#[test]
fn stop_on_fresh_supervisor_is_a_noop() {
    let mut sup = BackendProcess::new();
    assert_eq!(sup.stop(), None);
    assert_eq!(sup.phase, Phase::Idle);
    assert_eq!(sup.current_port(), 0);
}

#[test]
fn failed_start_allows_a_fresh_attempt() {
    let mut sup = BackendProcess::new();
    sup.begin_start(8500);
    let victim = sup.abort_start();
    assert_eq!(victim, None);
    assert_eq!(sup.phase, Phase::Failed);
    assert!(sup.can_start());

    sup.begin_start(8501);
    sup.record_spawn(9);
    let port = sup.mark_ready();
    assert_eq!(port, 8501);
    assert_eq!(sup.phase, Phase::Ready);
}

#[test]
fn attach_external_is_ready_without_a_child() {
    let mut sup = BackendProcess::new();
    sup.attach_external(suzent_sidecar::frontend::DEV_FALLBACK_PORT);
    assert_eq!(sup.phase, Phase::Ready);
    assert_eq!(sup.current_port(), 8000);
    assert!(sup.child_pid.is_none());
    assert_eq!(sup.stop(), None);
}
