use vstd::prelude::*;

use crate::session::Outcome;

verus! {

/// What the interactive relay saw on one of its two directions.
#[derive(Debug)]
pub enum RelayEvent {
    /// Bytes typed by the operator.
    TerminalInput(Vec<u8>),
    /// The operator's input ended or could not be read.
    TerminalClosed,
    /// Bytes written by the pod's shell.
    PodOutput(Vec<u8>),
    /// The pod's output ended or could not be read.
    PodClosed,
    /// Handing bytes on to either side failed.
    WriteFailed,
    /// A local helper process (port forward or remote mount) exited on its own.
    HelperExited,
}

/// What the relay does with an event.
#[derive(Debug)]
pub enum RelayAction {
    SendToPod(Vec<u8>),
    ShowOnTerminal(Vec<u8>),
    /// The relay is over; the outcome goes to the session.
    End(Outcome),
}

/// Bytes pass through unchanged in their own direction; the first end of
/// either stream ends the whole relay, and a failed write or a helper process
/// that exited unexpectedly ends it as a failure.
pub open spec fn relay_action_of(e: RelayEvent) -> RelayAction {
    match e {
        RelayEvent::TerminalInput(b) => RelayAction::SendToPod(b),
        RelayEvent::PodOutput(b) => RelayAction::ShowOnTerminal(b),
        RelayEvent::TerminalClosed | RelayEvent::PodClosed => RelayAction::End(Outcome::Succeeded),
        RelayEvent::WriteFailed | RelayEvent::HelperExited => RelayAction::End(Outcome::Failed),
    }
}

/// Decides what the relay does with one event.
pub fn relay_step(e: RelayEvent) -> (r: RelayAction)
    ensures
        r == relay_action_of(e),
{
    match e {
        RelayEvent::TerminalInput(b) => RelayAction::SendToPod(b),
        RelayEvent::PodOutput(b) => RelayAction::ShowOnTerminal(b),
        RelayEvent::TerminalClosed | RelayEvent::PodClosed => RelayAction::End(Outcome::Succeeded),
        RelayEvent::WriteFailed | RelayEvent::HelperExited => RelayAction::End(Outcome::Failed),
    }
}

} // verus!
