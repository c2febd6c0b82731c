//! The probe as a mathematical state machine: what it asks for, how it
//! reacts to each answer, and how an attempt ends.

use crate::credentials::CredentialsView;
use crate::options::ProbeOptions;
use crate::outcome::{OutcomeView, ProbePhase, ResultView};
use crate::resolver::EndpointView;
use crate::text::decimal;
use vstd::prelude::*;

verus! {

/// How the operation that the probe asked for ended.
pub enum EventView {
    /// It ran to completion.
    Completed,
    /// The server answered with a result code; zero accepts, anything else declines.
    ServerReplied { code: u32, text: Seq<char> },
    /// It broke off below the server's decision: transport or protocol.
    Failed { detail: Seq<char> },
    /// The timeout expired first.
    TimedOut,
}

/// What the probe asks its caller to do next.
pub enum ActionView {
    /// Open the transport to `url`. `upgrade_requested` says that an
    /// upgrade request will follow a successful open, for transports that
    /// must know this while they open.
    OpenTransport {
        url: Seq<char>,
        upgrade_requested: bool,
        verify_certificates: bool,
        timeout_millis: u64,
    },
    UpgradeToEncrypted { timeout_millis: u64 },
    Authenticate { principal: Seq<char>, secret: Seq<char>, timeout_millis: u64 },
    Close { timeout_millis: u64 },
    /// Nothing: the attempt is over.
    Finished,
}

/// Where an attempt stands. Each stage but the last waits for the answer to
/// one operation.
pub enum StageView {
    Opening,
    Upgrading,
    Authenticating,
    /// Closing after a successful authentication.
    Disconnecting,
    /// Closing after the given failure.
    Releasing { phase: ProbePhase, detail: Seq<char> },
    Done { outcome: OutcomeView },
}

/// A probe as a mathematical value.
pub struct ProbeModel {
    pub endpoint: EndpointView,
    pub credentials: CredentialsView,
    pub options: ProbeOptions,
    pub attempt_index: nat,
    pub stage: StageView,
}

/// Whether an answer lets the probe go on.
pub open spec fn accepted(event: EventView) -> bool {
    match event {
        EventView::Completed => true,
        EventView::ServerReplied { code, .. } => code == 0,
        EventView::Failed { .. } => false,
        EventView::TimedOut => false,
    }
}

/// The detail that a failure carries for the answer that caused it. The three
/// texts start differently, so a broken exchange, a server's refusal and a
/// timeout can be told apart.
pub open spec fn failure_detail(event: EventView) -> Seq<char> {
    match event {
        EventView::Completed => Seq::empty(),
        EventView::ServerReplied { code, text } => "rejected by server with result code "@
            + decimal(code as nat) + ": "@ + text,
        EventView::Failed { detail } => "operation failed: "@ + detail,
        EventView::TimedOut => "timed out"@,
    }
}

/// The detail of a failure whose release was answered by `event`: unchanged
/// when the release went through, extended by the release's own failure
/// otherwise.
pub open spec fn detail_after_release(detail: Seq<char>, event: EventView) -> Seq<char> {
    if accepted(event) {
        detail
    } else {
        detail + "; release failed: "@ + failure_detail(event)
    }
}

pub open spec fn authenticate_action(probe: ProbeModel) -> ActionView {
    ActionView::Authenticate {
        principal: probe.credentials.principal,
        secret: probe.credentials.secret,
        timeout_millis: probe.options.timeout_millis,
    }
}

pub open spec fn close_action(probe: ProbeModel) -> ActionView {
    ActionView::Close { timeout_millis: probe.options.timeout_millis }
}

/// A fresh probe and the first thing it asks for: to open the transport.
pub open spec fn probe_begin(
    endpoint: EndpointView,
    credentials: CredentialsView,
    options: ProbeOptions,
    attempt_index: nat,
) -> (ProbeModel, ActionView) {
    (
        ProbeModel { endpoint, credentials, options, attempt_index, stage: StageView::Opening },
        ActionView::OpenTransport {
            url: endpoint.url,
            upgrade_requested: endpoint.upgrade_requested,
            verify_certificates: options.verify_certificates,
            timeout_millis: options.timeout_millis,
        },
    )
}

/// The probe's reaction to the answer to its last request.
///
/// - A failed open ends the attempt at once: nothing is open, nothing is closed.
/// - After an open, the upgrade comes first if the endpoint asks for one.
/// - A failed upgrade or authentication closes the transport before the
///   attempt ends with that failure.
/// - A successful authentication closes the transport; a failure of that
///   close is the attempt's failure, tagged `Disconnect`.
/// - No operation is ever asked for a second time.
pub open spec fn probe_step(probe: ProbeModel, event: EventView) -> (ProbeModel, ActionView) {
    match probe.stage {
        StageView::Opening => {
            if !accepted(event) {
                (
                    ProbeModel {
                        stage: StageView::Done {
                            outcome: OutcomeView::Failure {
                                phase: ProbePhase::Connect,
                                detail: failure_detail(event),
                            },
                        },
                        ..probe
                    },
                    ActionView::Finished,
                )
            } else if probe.endpoint.upgrade_requested {
                (
                    ProbeModel { stage: StageView::Upgrading, ..probe },
                    ActionView::UpgradeToEncrypted { timeout_millis: probe.options.timeout_millis },
                )
            } else {
                (ProbeModel { stage: StageView::Authenticating, ..probe }, authenticate_action(probe))
            }
        },
        StageView::Upgrading => {
            if accepted(event) {
                (ProbeModel { stage: StageView::Authenticating, ..probe }, authenticate_action(probe))
            } else {
                (
                    ProbeModel {
                        stage: StageView::Releasing {
                            phase: ProbePhase::Upgrade,
                            detail: failure_detail(event),
                        },
                        ..probe
                    },
                    close_action(probe),
                )
            }
        },
        StageView::Authenticating => {
            if accepted(event) {
                (ProbeModel { stage: StageView::Disconnecting, ..probe }, close_action(probe))
            } else {
                (
                    ProbeModel {
                        stage: StageView::Releasing {
                            phase: ProbePhase::Authenticate,
                            detail: failure_detail(event),
                        },
                        ..probe
                    },
                    close_action(probe),
                )
            }
        },
        StageView::Disconnecting => {
            let outcome = if accepted(event) {
                OutcomeView::Success
            } else {
                OutcomeView::Failure {
                    phase: ProbePhase::Disconnect,
                    detail: failure_detail(event),
                }
            };
            (ProbeModel { stage: StageView::Done { outcome }, ..probe }, ActionView::Finished)
        },
        StageView::Releasing { phase, detail } => {
            (
                ProbeModel {
                    stage: StageView::Done {
                        outcome: OutcomeView::Failure {
                            phase,
                            detail: detail_after_release(detail, event),
                        },
                    },
                    ..probe
                },
                ActionView::Finished,
            )
        },
        StageView::Done { .. } => (probe, ActionView::Finished),
    }
}

/// The result of a probe that has ended; `None` while it is under way.
pub open spec fn probe_result(probe: ProbeModel) -> Option<ResultView> {
    match probe.stage {
        StageView::Done { outcome } => Some(
            ResultView { mode: probe.endpoint.mode, attempt_index: probe.attempt_index, outcome },
        ),
        _ => None,
    }
}

/// The probe after it has received the given answers in order.
pub open spec fn probe_after(probe: ProbeModel, events: Seq<EventView>) -> ProbeModel
    decreases events.len(),
{
    if events.len() == 0 {
        probe
    } else {
        probe_after(probe_step(probe, events[0]).0, events.drop_first())
    }
}

/// The requests that the probe makes in reaction to the given answers, one
/// for each answer.
pub open spec fn probe_reactions(probe: ProbeModel, events: Seq<EventView>) -> Seq<ActionView>
    decreases events.len(),
{
    if events.len() == 0 {
        Seq::empty()
    } else {
        seq![probe_step(probe, events[0]).1] + probe_reactions(
            probe_step(probe, events[0]).0,
            events.drop_first(),
        )
    }
}

} // verus!
