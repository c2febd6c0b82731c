//! What one probe attempt reports.

use crate::resolver::ConnectionMode;
use vstd::prelude::*;

verus! {

/// The step of a probe that an operation belongs to.
#[derive(Clone, Copy, Debug, PartialEq, Eq, Hash, Structural)]
pub enum ProbePhase {
    /// Opening the transport.
    Connect,
    /// Negotiating encryption in-band.
    Upgrade,
    /// The authenticate exchange.
    Authenticate,
    /// The graceful termination after a successful authentication.
    Disconnect,
}

/// An outcome as a mathematical value.
pub enum OutcomeView {
    Success,
    Failure { phase: ProbePhase, detail: Seq<char> },
}

/// How an attempt ended. A failed graceful termination counts as a failure of
/// the attempt, tagged `Disconnect`, although the authentication before it
/// succeeded.
#[derive(Debug, PartialEq, Eq)]
pub enum ProbeOutcome {
    Success,
    Failure { phase: ProbePhase, detail: String },
}

impl View for ProbeOutcome {
    type V = OutcomeView;

    open spec fn view(&self) -> OutcomeView {
        match self {
            ProbeOutcome::Success => OutcomeView::Success,
            ProbeOutcome::Failure { phase, detail } => OutcomeView::Failure {
                phase: *phase,
                detail: detail@,
            },
        }
    }
}

impl ProbeOutcome {
    /// Whether the attempt succeeded.
    pub fn is_success(&self) -> (success: bool)
        ensures
            success == (self@ is Success),
    {
        match self {
            ProbeOutcome::Success => true,
            ProbeOutcome::Failure { .. } => false,
        }
    }

    /// The phase that failed, if one did.
    pub fn failed_phase(&self) -> (phase: Option<ProbePhase>)
        ensures
            phase == match self@ {
                OutcomeView::Success => None,
                OutcomeView::Failure { phase, .. } => Some(phase),
            },
    {
        match self {
            ProbeOutcome::Success => None,
            ProbeOutcome::Failure { phase, .. } => Some(*phase),
        }
    }
}

/// A result as a mathematical value.
pub struct ResultView {
    pub mode: ConnectionMode,
    pub attempt_index: nat,
    pub outcome: OutcomeView,
}

/// The record of one attempt: which mode, which repetition, how it ended.
#[derive(Debug, PartialEq, Eq)]
pub struct ProbeResult {
    pub mode: ConnectionMode,
    pub attempt_index: usize,
    pub outcome: ProbeOutcome,
}

impl View for ProbeResult {
    type V = ResultView;

    open spec fn view(&self) -> ResultView {
        ResultView {
            mode: self.mode,
            attempt_index: self.attempt_index as nat,
            outcome: self.outcome@,
        }
    }
}

} // verus!
