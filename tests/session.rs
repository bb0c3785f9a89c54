use pv_inspect::readiness::{readiness, PodPhase, Readiness, StatusSnapshot};
use pv_inspect::relay::{relay_step, RelayAction, RelayEvent};
use pv_inspect::request::InspectionRequest;
use pv_inspect::session::{Outcome, Session, SessionError, Step};

fn claims(names: &[&str]) -> Vec<String> {
    names.iter().map(|n| n.to_string()).collect()
}

fn run(s: &mut Session, outcomes: &[Outcome]) -> Vec<Step> {
    let mut steps = vec![];
    for o in outcomes {
        s.advance(*o);
        steps.push(s.step);
    }
    steps
}

#[test]
fn missing_claim_is_a_validation_error() {
    let req = InspectionRequest::new("default".to_string(), "missing".to_string());
    let mut s = req.start(&claims(&["data-1", "data-2"]));
    assert_eq!(s.step, Step::Done);
    assert_eq!(s.result(), Err(SessionError::Validation));
    let steps = run(&mut s, &[Outcome::Succeeded, Outcome::Succeeded]);
    assert!(steps.iter().all(|st| *st == Step::Done));
    assert_eq!(s.result(), Err(SessionError::Validation));
}

#[test]
fn empty_claim_list_is_a_validation_error() {
    let s = Session::begin(&vec![], &"data-1".to_string(), false, true);
    assert_eq!(s.result(), Err(SessionError::Validation));
}

#[test]
fn full_session_against_listed_claim() {
    let req = InspectionRequest::new("default".to_string(), "data-1".to_string());
    let mut s = req.start(&claims(&["other", "data-1"]));
    assert_eq!(s.step, Step::GenerateCredential);
    s.advance(Outcome::Succeeded);
    assert_eq!(s.step, Step::CreatePod);
    let d = req.pod(pv_inspect::pod_spec::PodTemplate { containers: vec![] }, None);
    assert_eq!(d.labels[0].value, "active");
    assert!(d.volume.read_only);
    s.advance(Outcome::Succeeded);
    assert_eq!(s.step, Step::AwaitReady);
    let pending = StatusSnapshot { phase: Some(PodPhase::Pending), containers_ready: vec![false] };
    s.advance(Outcome::Observed(readiness(&pending)));
    assert_eq!(s.step, Step::AwaitReady);
    let ready = StatusSnapshot { phase: Some(PodPhase::Running), containers_ready: vec![true] };
    s.advance(Outcome::Observed(readiness(&ready)));
    assert_eq!(s.step, Step::StartForward);
    s.advance(Outcome::Succeeded);
    assert_eq!(s.step, Step::OpenShell);
    s.advance(Outcome::Succeeded);
    assert_eq!(s.step, Step::Relay);
    match relay_step(RelayEvent::PodClosed) {
        RelayAction::End(o) => s.advance(o),
        other => panic!("relay went on: {:?}", other),
    }
    assert_eq!(s.step, Step::StopForward);
    let steps = run(&mut s, &[Outcome::Succeeded, Outcome::Succeeded, Outcome::Succeeded, Outcome::Succeeded]);
    assert_eq!(steps, vec![Step::Relabel, Step::Delete, Step::AwaitDeleted, Step::Done]);
    assert_eq!(s.result(), Ok(()));
    assert_eq!(s.deletion_error(), None);
}

#[test]
fn mount_is_stopped_before_forward_and_pod() {
    let mut s = Session::begin(&claims(&["c"]), &"c".to_string(), true, false);
    let steps = run(
        &mut s,
        &[
            Outcome::Succeeded,
            Outcome::Succeeded,
            Outcome::Observed(Readiness::Ready),
            Outcome::Succeeded,
            Outcome::Succeeded,
            Outcome::Succeeded,
            Outcome::Succeeded,
            Outcome::Succeeded,
            Outcome::Succeeded,
            Outcome::Succeeded,
            Outcome::Succeeded,
        ],
    );
    assert_eq!(
        steps,
        vec![
            Step::CreatePod,
            Step::AwaitReady,
            Step::StartForward,
            Step::StartMount,
            Step::OpenShell,
            Step::Relay,
            Step::StopMount,
            Step::StopForward,
            Step::Relabel,
            Step::Delete,
            Step::Done
        ]
    );
    assert_eq!(s.result(), Ok(()));
}

fn at_delete(wait: bool) -> Session {
    let mut s = Session::begin(&claims(&["c"]), &"c".to_string(), false, wait);
    run(
        &mut s,
        &[
            Outcome::Succeeded,
            Outcome::Succeeded,
            Outcome::Observed(Readiness::Ready),
            Outcome::Succeeded,
            Outcome::Succeeded,
            Outcome::Succeeded,
            Outcome::Succeeded,
            Outcome::Succeeded,
        ],
    );
    assert_eq!(s.step, Step::Delete);
    s
}

#[test]
fn deleting_a_deleted_pod_goes_on() {
    let mut gone = at_delete(true);
    let mut ok = at_delete(true);
    gone.advance(Outcome::AlreadyGone);
    ok.advance(Outcome::Succeeded);
    assert_eq!(gone, ok);
    assert_eq!(gone.step, Step::AwaitDeleted);
    gone.advance(Outcome::Succeeded);
    assert_eq!(gone.result(), Ok(()));
    assert_eq!(gone.deletion_error(), None);
}

#[test]
fn failed_helper_stops_still_reach_the_pod() {
    let mut s = Session::begin(&claims(&["c"]), &"c".to_string(), true, true);
    run(
        &mut s,
        &[
            Outcome::Succeeded,
            Outcome::Succeeded,
            Outcome::Observed(Readiness::Ready),
            Outcome::Succeeded,
            Outcome::Succeeded,
            Outcome::Succeeded,
        ],
    );
    s.advance(Outcome::Failed);
    assert_eq!(s.step, Step::StopMount);
    assert_eq!(s.result(), Err(SessionError::SessionIo));
    let steps = run(&mut s, &[Outcome::Failed, Outcome::Failed, Outcome::Failed, Outcome::Failed]);
    assert_eq!(steps, vec![Step::StopForward, Step::Relabel, Step::Delete, Step::Done]);
    assert_eq!(s.result(), Err(SessionError::SessionIo));
    assert_eq!(s.deletion_error(), Some(SessionError::PodDeletion));
}

#[test]
fn relabel_alone_is_enough() {
    let mut s = Session::begin(&claims(&["c"]), &"c".to_string(), false, true);
    run(
        &mut s,
        &[
            Outcome::Succeeded,
            Outcome::Succeeded,
            Outcome::Observed(Readiness::Ready),
            Outcome::Succeeded,
            Outcome::Succeeded,
            Outcome::Succeeded,
            Outcome::Succeeded,
        ],
    );
    assert_eq!(s.step, Step::Relabel);
    s.advance(Outcome::Succeeded);
    s.advance(Outcome::Failed);
    assert_eq!(s.step, Step::Done);
    assert_eq!(s.result(), Ok(()));
    assert_eq!(s.deletion_error(), None);
}

#[test]
fn setup_failures_need_no_cleanup() {
    let mut s = Session::begin(&claims(&["c"]), &"c".to_string(), false, true);
    s.advance(Outcome::Failed);
    assert_eq!(s.step, Step::Done);
    assert_eq!(s.result(), Err(SessionError::CredentialGeneration));
    let mut s = Session::begin(&claims(&["c"]), &"c".to_string(), false, true);
    s.advance(Outcome::Succeeded);
    s.advance(Outcome::Failed);
    assert_eq!(s.step, Step::Done);
    assert_eq!(s.result(), Err(SessionError::PodCreation));
}

#[test]
fn pod_that_never_becomes_ready_is_cleaned_up() {
    let mut s = Session::begin(&claims(&["c"]), &"c".to_string(), false, false);
    s.advance(Outcome::Succeeded);
    s.advance(Outcome::Succeeded);
    s.advance(Outcome::Observed(Readiness::TerminalFailure));
    assert_eq!(s.step, Step::Relabel);
    assert_eq!(s.result(), Err(SessionError::ReadinessTimeout));
    let mut t = Session::begin(&claims(&["c"]), &"c".to_string(), false, false);
    t.advance(Outcome::Succeeded);
    t.advance(Outcome::Succeeded);
    t.advance(Outcome::Failed);
    assert_eq!(t.step, Step::Relabel);
    assert_eq!(t.result(), Err(SessionError::ReadinessTimeout));
}

#[test]
fn missing_mount_tool_ends_with_helper_error() {
    let mut s = Session::begin(&claims(&["c"]), &"c".to_string(), true, false);
    run(&mut s, &[Outcome::Succeeded, Outcome::Succeeded, Outcome::Observed(Readiness::Ready), Outcome::Succeeded]);
    assert_eq!(s.step, Step::StartMount);
    s.advance(Outcome::Failed);
    assert_eq!(s.step, Step::StopForward);
    assert_eq!(s.result(), Err(SessionError::HelperProcess));
    assert!(!s.is_done());
}
