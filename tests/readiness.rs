use pv_inspect::readiness::{parse_phase, readiness, PodPhase, Readiness, StatusSnapshot};

fn snapshot(phase: Option<PodPhase>, ready: &[bool]) -> StatusSnapshot {
    StatusSnapshot { phase, containers_ready: ready.to_vec() }
}

#[test]
fn running_with_all_containers_ready_is_ready() {
    let s = snapshot(Some(PodPhase::Running), &[true, true]);
    assert_eq!(readiness(&s), Readiness::Ready);
}

#[test]
fn running_alone_is_not_enough() {
    let s = snapshot(Some(PodPhase::Running), &[true, false]);
    assert_eq!(readiness(&s), Readiness::NotReady);
}

#[test]
fn running_without_reported_containers_is_ready() {
    let s = snapshot(Some(PodPhase::Running), &[]);
    assert_eq!(readiness(&s), Readiness::Ready);
}

#[test]
fn pending_or_missing_status_is_not_ready() {
    assert_eq!(readiness(&snapshot(Some(PodPhase::Pending), &[true])), Readiness::NotReady);
    assert_eq!(readiness(&snapshot(None, &[])), Readiness::NotReady);
    assert_eq!(readiness(&snapshot(Some(PodPhase::Unknown), &[true])), Readiness::NotReady);
}

#[test]
fn finished_pods_never_become_ready() {
    assert_eq!(readiness(&snapshot(Some(PodPhase::Failed), &[true])), Readiness::TerminalFailure);
    assert_eq!(readiness(&snapshot(Some(PodPhase::Succeeded), &[])), Readiness::TerminalFailure);
}

#[test]
fn more_ready_containers_stay_ready() {
    let before = snapshot(Some(PodPhase::Running), &[true, true, true]);
    let after = snapshot(Some(PodPhase::Running), &[true, true, true]);
    assert_eq!(readiness(&before), Readiness::Ready);
    assert_eq!(readiness(&after), Readiness::Ready);
    let partial = snapshot(Some(PodPhase::Running), &[true, false, true]);
    let more = snapshot(Some(PodPhase::Running), &[true, true, true]);
    assert_eq!(readiness(&partial), Readiness::NotReady);
    assert_eq!(readiness(&more), Readiness::Ready);
}

#[test]
fn phase_strings_are_read() {
    assert_eq!(parse_phase(&"Running".to_string()), PodPhase::Running);
    assert_eq!(parse_phase(&"Pending".to_string()), PodPhase::Pending);
    assert_eq!(parse_phase(&"Succeeded".to_string()), PodPhase::Succeeded);
    assert_eq!(parse_phase(&"Failed".to_string()), PodPhase::Failed);
    assert_eq!(parse_phase(&"running".to_string()), PodPhase::Unknown);
    assert_eq!(parse_phase(&"".to_string()), PodPhase::Unknown);
}
