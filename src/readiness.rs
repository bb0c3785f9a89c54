use vstd::prelude::*;

verus! {

/// Lifecycle phase that the cluster reports for a pod.
#[derive(Clone, Copy, Debug, PartialEq, Eq, Structural)]
pub enum PodPhase {
    Pending,
    Running,
    Succeeded,
    Failed,
    Unknown,
}

/// What a status watch observed of the pod at one moment.
///
/// `phase` is `None` while the pod or its status is not visible yet;
/// `containers_ready` holds the ready flag of each reported container.
#[derive(Debug)]
pub struct StatusSnapshot {
    pub phase: Option<PodPhase>,
    pub containers_ready: Vec<bool>,
}

/// Outcome of the readiness predicate.
#[derive(Clone, Copy, Debug, PartialEq, Eq, Structural)]
pub enum Readiness {
    NotReady,
    Ready,
    TerminalFailure,
}

pub open spec fn all_ready(ready: Seq<bool>) -> bool {
    forall|i: int| 0 <= i < ready.len() ==> #[trigger] ready[i]
}

/// Number of containers reported ready.
pub open spec fn ready_count(ready: Seq<bool>) -> nat
    decreases ready.len(),
{
    if ready.len() == 0 {
        0
    } else {
        ready_count(ready.drop_last()) + if ready.last() { 1nat } else { 0nat }
    }
}

/// Ready means: the phase is running and every reported container is ready.
/// A pod that has run to completion or failed will never become ready.
pub open spec fn readiness_of(phase: Option<PodPhase>, ready: Seq<bool>) -> Readiness {
    match phase {
        Some(PodPhase::Running) => if all_ready(ready) {
            Readiness::Ready
        } else {
            Readiness::NotReady
        },
        Some(PodPhase::Succeeded) | Some(PodPhase::Failed) => Readiness::TerminalFailure,
        _ => Readiness::NotReady,
    }
}

/// Phase named by the cluster's phase string; unrecognised strings are `Unknown`.
pub open spec fn phase_of(s: Seq<char>) -> PodPhase {
    if s == "Pending"@ {
        PodPhase::Pending
    } else if s == "Running"@ {
        PodPhase::Running
    } else if s == "Succeeded"@ {
        PodPhase::Succeeded
    } else if s == "Failed"@ {
        PodPhase::Failed
    } else {
        PodPhase::Unknown
    }
}

/// Reads the cluster's phase string.
pub fn parse_phase(s: &String) -> (r: PodPhase)
    ensures
        r == phase_of(s@),
{
    if *s == String::from_str("Pending") {
        PodPhase::Pending
    } else if *s == String::from_str("Running") {
        PodPhase::Running
    } else if *s == String::from_str("Succeeded") {
        PodPhase::Succeeded
    } else if *s == String::from_str("Failed") {
        PodPhase::Failed
    } else {
        PodPhase::Unknown
    }
}

/// The readiness predicate that gates the start of a session.
pub fn readiness(s: &StatusSnapshot) -> (r: Readiness)
    ensures
        r == readiness_of(s.phase, s.containers_ready@),
{
    match s.phase {
        Some(PodPhase::Running) => {
            let mut i: usize = 0;
            while i < s.containers_ready.len()
                invariant
                    0 <= i <= s.containers_ready@.len(),
                    s.phase == Some(PodPhase::Running),
                    forall|j: int| 0 <= j < i ==> #[trigger] s.containers_ready@[j],
                decreases s.containers_ready@.len() - i,
            {
                if !s.containers_ready[i] {
                    assert(!s.containers_ready@[i as int]);
                    return Readiness::NotReady;
                }
                i = i + 1;
            }
            Readiness::Ready
        },
        Some(PodPhase::Succeeded) | Some(PodPhase::Failed) => Readiness::TerminalFailure,
        _ => Readiness::NotReady,
    }
}

proof fn lemma_ready_count_bound(ready: Seq<bool>)
    ensures
        ready_count(ready) <= ready.len(),
        ready_count(ready) == ready.len() <==> all_ready(ready),
    decreases ready.len(),
{
    if ready.len() > 0 {
        let init = ready.drop_last();
        lemma_ready_count_bound(init);
        if all_ready(ready) {
            assert forall|i: int| 0 <= i < init.len() implies #[trigger] init[i] by {
                assert(ready[i]);
            }
            assert(ready[ready.len() - 1]);
        }
        if ready_count(ready) == ready.len() {
            assert forall|i: int| 0 <= i < ready.len() implies #[trigger] ready[i] by {
                if i < ready.len() - 1 {
                    assert(init[i]);
                }
            }
        }
    }
}

/// Once a snapshot is judged ready, any snapshot with the same phase, the
/// same number of reported containers and at least as many of them ready is
/// judged ready too.
pub proof fn readiness_monotonic(
    phase: Option<PodPhase>,
    before: Seq<bool>,
    after: Seq<bool>,
)
    requires
        readiness_of(phase, before) == Readiness::Ready,
        after.len() == before.len(),
        ready_count(after) >= ready_count(before),
    ensures
        readiness_of(phase, after) == Readiness::Ready,
{
    lemma_ready_count_bound(before);
    lemma_ready_count_bound(after);
}

} // verus!
