use vstd::prelude::*;

use crate::readiness::Readiness;

verus! {

/// Why a session failed.
#[derive(Clone, Copy, Debug, PartialEq, Eq, Structural)]
pub enum SessionError {
    /// The named claim is not among the claims of the namespace.
    Validation,
    CredentialGeneration,
    PodCreation,
    /// The pod was created but never became ready.
    ReadinessTimeout,
    SessionIo,
    HelperProcess,
    /// Neither the deferred-deletion label nor the delete request went through.
    PodDeletion,
}

/// The piece of outside work that the session asks for next.
#[derive(Clone, Copy, Debug, PartialEq, Eq, Structural)]
pub enum Step {
    GenerateCredential,
    CreatePod,
    AwaitReady,
    StartForward,
    StartMount,
    OpenShell,
    Relay,
    StopMount,
    StopForward,
    Relabel,
    Delete,
    AwaitDeleted,
    Done,
}

/// How the last piece of outside work ended.
#[derive(Clone, Copy, Debug, PartialEq, Eq, Structural)]
pub enum Outcome {
    Succeeded,
    Failed,
    /// The pod was not there any more.
    AlreadyGone,
    /// A status watch judged the pod.
    Observed(Readiness),
}

/// One inspection session, from validation to the end of cleanup.
///
/// The caller performs `step`, reports its outcome to `advance`, and repeats
/// until `step` is `Done`.
#[derive(Clone, Copy, Debug, PartialEq, Eq, Structural)]
pub struct Session {
    pub step: Step,
    pub mount_requested: bool,
    pub wait: bool,
    pub failure: Option<SessionError>,
    pub forward_started: bool,
    pub mount_started: bool,
    pub relabeled: bool,
    pub delete_failed: bool,
}

pub open spec fn claim_listed(names: Seq<String>, claim: Seq<char>) -> bool {
    exists|i: int| 0 <= i < names.len() && (#[trigger] names[i])@ == claim
}

pub open spec fn initial(listed: bool, mount_requested: bool, wait: bool) -> Session {
    Session {
        step: if listed {
            Step::GenerateCredential
        } else {
            Step::Done
        },
        mount_requested,
        wait,
        failure: if listed {
            None
        } else {
            Some(SessionError::Validation)
        },
        forward_started: false,
        mount_started: false,
        relabeled: false,
        delete_failed: false,
    }
}

/// The first cleanup step: local helpers are stopped before the pod is touched.
pub open spec fn cleanup_entry(s: Session) -> Step {
    if s.mount_started {
        Step::StopMount
    } else if s.forward_started {
        Step::StopForward
    } else {
        Step::Relabel
    }
}

/// Ends the live part of a session and starts cleanup, recording `err`.
pub open spec fn into_cleanup(s: Session, err: Option<SessionError>) -> Session {
    Session { step: cleanup_entry(s), failure: err, ..s }
}

pub open spec fn finish(s: Session, err: SessionError) -> Session {
    Session { step: Step::Done, failure: Some(err), ..s }
}

/// The transition taken when the work of `s.step` ended with `o`.
pub open spec fn next(s: Session, o: Outcome) -> Session {
    let ok = o == Outcome::Succeeded;
    match s.step {
        Step::GenerateCredential => if ok {
            Session { step: Step::CreatePod, ..s }
        } else {
            finish(s, SessionError::CredentialGeneration)
        },
        Step::CreatePod => if ok {
            Session { step: Step::AwaitReady, ..s }
        } else {
            finish(s, SessionError::PodCreation)
        },
        Step::AwaitReady => match o {
            Outcome::Observed(Readiness::Ready) => Session { step: Step::StartForward, ..s },
            Outcome::Observed(Readiness::NotReady) => s,
            _ => into_cleanup(s, Some(SessionError::ReadinessTimeout)),
        },
        Step::StartForward => if ok {
            Session {
                step: if s.mount_requested {
                    Step::StartMount
                } else {
                    Step::OpenShell
                },
                forward_started: true,
                ..s
            }
        } else {
            into_cleanup(s, Some(SessionError::HelperProcess))
        },
        Step::StartMount => if ok {
            Session { step: Step::OpenShell, mount_started: true, ..s }
        } else {
            into_cleanup(s, Some(SessionError::HelperProcess))
        },
        Step::OpenShell => if ok {
            Session { step: Step::Relay, ..s }
        } else {
            into_cleanup(s, Some(SessionError::SessionIo))
        },
        Step::Relay => if ok {
            into_cleanup(s, None)
        } else {
            into_cleanup(s, Some(SessionError::SessionIo))
        },
        Step::StopMount => Session {
            step: if s.forward_started {
                Step::StopForward
            } else {
                Step::Relabel
            },
            ..s
        },
        Step::StopForward => Session { step: Step::Relabel, ..s },
        Step::Relabel => Session { step: Step::Delete, relabeled: ok, ..s },
        Step::Delete => {
            let failed = o != Outcome::Succeeded && o != Outcome::AlreadyGone;
            Session {
                step: if s.wait && !failed {
                    Step::AwaitDeleted
                } else {
                    Step::Done
                },
                delete_failed: failed,
                ..s
            }
        },
        Step::AwaitDeleted => Session { step: Step::Done, ..s },
        Step::Done => s,
    }
}

/// The session after a run of outcomes.
pub open spec fn run(s: Session, outcomes: Seq<Outcome>) -> Session
    decreases outcomes.len(),
{
    if outcomes.len() == 0 {
        s
    } else {
        next(run(s, outcomes.drop_last()), outcomes.last())
    }
}

pub open spec fn result_of(s: Session) -> Result<(), SessionError> {
    match s.failure {
        Some(e) => Err(e),
        None => Ok(()),
    }
}

/// Whether `claim` is among the listed claim names.
pub fn is_listed(names: &Vec<String>, claim: &String) -> (r: bool)
    ensures
        r == claim_listed(names@, claim@),
{
    let mut i: usize = 0;
    while i < names.len()
        invariant
            0 <= i <= names@.len(),
            forall|j: int| 0 <= j < i ==> (#[trigger] names@[j])@ != claim@,
        decreases names@.len() - i,
    {
        if names[i] == *claim {
            assert(names@[i as int]@ == claim@);
            return true;
        }
        i = i + 1;
    }
    false
}

fn cleanup_start(s: &Session) -> (r: Step)
    ensures
        r == cleanup_entry(*s),
{
    if s.mount_started {
        Step::StopMount
    } else if s.forward_started {
        Step::StopForward
    } else {
        Step::Relabel
    }
}

impl Session {
    /// Starts a session for `claim`: it proceeds only when the claim is among
    /// `names`, the claims listed in the namespace; otherwise it is over at
    /// once, with a validation error and no pod.
    pub fn begin(names: &Vec<String>, claim: &String, mount_requested: bool, wait: bool) -> (r:
        Session)
        ensures
            r == initial(claim_listed(names@, claim@), mount_requested, wait),
    {
        let listed = is_listed(names, claim);
        Session {
            step: if listed {
                Step::GenerateCredential
            } else {
                Step::Done
            },
            mount_requested,
            wait,
            failure: if listed {
                None
            } else {
                Some(SessionError::Validation)
            },
            forward_started: false,
            mount_started: false,
            relabeled: false,
            delete_failed: false,
        }
    }

    /// Takes the outcome of the current step and moves to the next one.
    pub fn advance(&mut self, o: Outcome)
        ensures
            *final(self) == next(*old(self), o),
    {
        let ok = o == Outcome::Succeeded;
        match self.step {
            Step::GenerateCredential => if ok {
                self.step = Step::CreatePod;
            } else {
                self.step = Step::Done;
                self.failure = Some(SessionError::CredentialGeneration);
            },
            Step::CreatePod => if ok {
                self.step = Step::AwaitReady;
            } else {
                self.step = Step::Done;
                self.failure = Some(SessionError::PodCreation);
            },
            Step::AwaitReady => match o {
                Outcome::Observed(Readiness::Ready) => {
                    self.step = Step::StartForward;
                },
                Outcome::Observed(Readiness::NotReady) => {},
                _ => {
                    self.step = cleanup_start(self);
                    self.failure = Some(SessionError::ReadinessTimeout);
                },
            },
            Step::StartForward => if ok {
                self.step = if self.mount_requested {
                    Step::StartMount
                } else {
                    Step::OpenShell
                };
                self.forward_started = true;
            } else {
                self.step = cleanup_start(self);
                self.failure = Some(SessionError::HelperProcess);
            },
            Step::StartMount => if ok {
                self.step = Step::OpenShell;
                self.mount_started = true;
            } else {
                self.step = cleanup_start(self);
                self.failure = Some(SessionError::HelperProcess);
            },
            Step::OpenShell => if ok {
                self.step = Step::Relay;
            } else {
                self.step = cleanup_start(self);
                self.failure = Some(SessionError::SessionIo);
            },
            Step::Relay => {
                self.step = cleanup_start(self);
                self.failure = if ok {
                    None
                } else {
                    Some(SessionError::SessionIo)
                };
            },
            Step::StopMount => {
                self.step = if self.forward_started {
                    Step::StopForward
                } else {
                    Step::Relabel
                };
            },
            Step::StopForward => {
                self.step = Step::Relabel;
            },
            Step::Relabel => {
                self.step = Step::Delete;
                self.relabeled = ok;
            },
            Step::Delete => {
                let failed = o != Outcome::Succeeded && o != Outcome::AlreadyGone;
                self.step = if self.wait && !failed {
                    Step::AwaitDeleted
                } else {
                    Step::Done
                };
                self.delete_failed = failed;
            },
            Step::AwaitDeleted => {
                self.step = Step::Done;
            },
            Step::Done => {},
        }
    }

    /// Whether the session has nothing left to do.
    pub fn is_done(&self) -> (r: bool)
        ensures
            r == (self.step == Step::Done),
    {
        self.step == Step::Done
    }

    /// The session's own verdict. A failed deletion is not part of it: the
    /// sweeper is the fallback for that.
    pub fn result(&self) -> (r: Result<(), SessionError>)
        ensures
            r == result_of(*self),
    {
        match self.failure {
            Some(e) => Err(e),
            None => Ok(()),
        }
    }

    /// Reports a pod that may outlive the session unmarked: neither the
    /// deferred-deletion label nor the delete request went through.
    pub fn deletion_error(&self) -> (r: Option<SessionError>)
        ensures
            r == (if self.delete_failed && !self.relabeled {
                Some(SessionError::PodDeletion)
            } else {
                None
            }),
    {
        if self.delete_failed && !self.relabeled {
            Some(SessionError::PodDeletion)
        } else {
            None
        }
    }
}

/// A request for a claim that is not listed ends with a validation error,
/// and no outcome reported afterwards ever leads to creating a pod.
pub proof fn missing_claim_creates_no_pod(
    names: Seq<String>,
    claim: Seq<char>,
    mount_requested: bool,
    wait: bool,
    outcomes: Seq<Outcome>,
)
    requires
        !claim_listed(names, claim),
    ensures
        ({
            let s0 = initial(claim_listed(names, claim), mount_requested, wait);
            &&& result_of(s0) == Err::<(), SessionError>(SessionError::Validation)
            &&& s0.step != Step::CreatePod
            &&& run(s0, outcomes) == s0
        }),
    decreases outcomes.len(),
{
    if outcomes.len() > 0 {
        missing_claim_creates_no_pod(names, claim, mount_requested, wait, outcomes.drop_last());
    }
}

/// Deleting a pod that is already gone is a success: the session goes on
/// exactly as after a delete that went through.
pub proof fn delete_of_deleted_pod(s: Session)
    requires
        s.step == Step::Delete,
    ensures
        next(s, Outcome::AlreadyGone) == next(s, Outcome::Succeeded),
{
}

/// Each cleanup step is best effort: whatever its outcome, the next step is
/// the one that follows success, and the session's verdict is unchanged.
/// Only the wait for deletion is skipped after a failed delete.
pub proof fn cleanup_is_best_effort(s: Session, o: Outcome)
    requires
        s.step == Step::StopMount || s.step == Step::StopForward || s.step == Step::Relabel
            || s.step == Step::Delete,
    ensures
        next(s, o).failure == s.failure,
        s.step != Step::Delete ==> next(s, o).step == next(s, Outcome::Succeeded).step,
        s.step == Step::Delete ==> next(s, o).step == next(s, Outcome::Succeeded).step
            || next(s, o).step == Step::Done,
{
}

/// The interactive part starts only from a pod that was observed ready.
pub proof fn session_starts_only_when_ready(s: Session, o: Outcome)
    requires
        next(s, o).step == Step::StartForward,
    ensures
        s.step == Step::AwaitReady,
        o == Outcome::Observed(Readiness::Ready),
{
}

/// Once a pod exists, every outcome leads on towards its cleanup: the session
/// never ends, nor starts over, without passing through the cleanup steps.
pub proof fn created_pod_is_cleaned_up(s: Session, o: Outcome)
    requires
        s.step == Step::AwaitReady || s.step == Step::StartForward || s.step == Step::StartMount
            || s.step == Step::OpenShell || s.step == Step::Relay,
    ensures
        next(s, o).step != Step::Done,
        next(s, o).step != Step::GenerateCredential,
        next(s, o).step != Step::CreatePod,
{
}

} // verus!
