//! One connect, authenticate, disconnect attempt, driven from outside.
//!
//! A `BindProbe` never touches the network. It hands out one `ProbeAction`
//! at a time; the caller performs it and reports how it ended as a
//! `ProbeEvent`.

use crate::credentials::Credentials;
use crate::options::ProbeOptions;
use crate::outcome::{ProbeOutcome, ProbePhase, ProbeResult};
use crate::probe_model::{
    accepted, authenticate_action, failure_detail, probe_after, probe_begin, probe_result,
    probe_step, ActionView, EventView, ProbeModel, StageView,
};
use crate::resolver::Endpoint;
use crate::text::decimal_string;
use vstd::prelude::*;
use vstd::string::*;

verus! {

/// How the operation that the probe asked for ended.
#[derive(Debug, PartialEq, Eq)]
pub enum ProbeEvent {
    /// It ran to completion.
    Completed,
    /// The server answered with a result code; zero accepts, anything else declines.
    ServerReplied { code: u32, text: String },
    /// It broke off below the server's decision: transport or protocol.
    Failed { detail: String },
    /// The timeout expired first.
    TimedOut,
}

impl View for ProbeEvent {
    type V = EventView;

    open spec fn view(&self) -> EventView {
        match self {
            ProbeEvent::Completed => EventView::Completed,
            ProbeEvent::ServerReplied { code, text } => EventView::ServerReplied {
                code: *code,
                text: text@,
            },
            ProbeEvent::Failed { detail } => EventView::Failed { detail: detail@ },
            ProbeEvent::TimedOut => EventView::TimedOut,
        }
    }
}

/// Whether the LDAP client takes a reply with this result code for a
/// success. The body asks `ldap3::LdapResult::success`, which returns `Ok`
/// for result code zero and an error for every other code; that it does so
/// is taken from the client's source and not proved here.
#[verifier::external_body]
fn client_accepts(code: u32) -> (accepted: bool)
    ensures
        accepted == (code == 0),
{
    let reply = ldap3::LdapResult {
        rc: code,
        matched: String::new(),
        text: String::new(),
        refs: Vec::new(),
        ctrls: Vec::new(),
    };
    reply.success().is_ok()
}

impl ProbeEvent {
    /// Whether the answer lets the probe go on: a completion, or a server's
    /// reply that the client takes for a success, which is one with result
    /// code zero.
    pub fn is_accepted(&self) -> (yes: bool)
        ensures
            yes == accepted(self@),
    {
        match self {
            ProbeEvent::Completed => true,
            ProbeEvent::ServerReplied { code, .. } => client_accepts(*code),
            ProbeEvent::Failed { .. } => false,
            ProbeEvent::TimedOut => false,
        }
    }

    /// The detail that a failure carries for this answer.
    pub fn failure_detail(&self) -> (detail: String)
        ensures
            detail@ == failure_detail(self@),
    {
        match self {
            ProbeEvent::Completed => String::new(),
            ProbeEvent::ServerReplied { code, text } => {
                let mut detail = String::from_str("rejected by server with result code ");
                let number = decimal_string(*code);
                detail.append(number.as_str());
                detail.append(": ");
                detail.append(text.as_str());
                detail
            },
            ProbeEvent::Failed { detail } => {
                String::from_str("operation failed: ").concat(detail.as_str())
            },
            ProbeEvent::TimedOut => String::from_str("timed out"),
        }
    }
}

/// What the probe asks its caller to do next. There is no `Debug`: an
/// `Authenticate` holds the secret.
#[derive(PartialEq, Eq)]
pub enum ProbeAction {
    /// Open the transport to `url`. `upgrade_requested` says that an
    /// upgrade request will follow a successful open, for transports that
    /// must know this while they open.
    OpenTransport {
        url: String,
        upgrade_requested: bool,
        verify_certificates: bool,
        timeout_millis: u64,
    },
    UpgradeToEncrypted { timeout_millis: u64 },
    Authenticate { principal: String, secret: String, timeout_millis: u64 },
    Close { timeout_millis: u64 },
    /// Nothing: the attempt is over and its result can be taken.
    Finished,
}

impl View for ProbeAction {
    type V = ActionView;

    open spec fn view(&self) -> ActionView {
        match self {
            ProbeAction::OpenTransport {
                url,
                upgrade_requested,
                verify_certificates,
                timeout_millis,
            } => ActionView::OpenTransport {
                url: url@,
                upgrade_requested: *upgrade_requested,
                verify_certificates: *verify_certificates,
                timeout_millis: *timeout_millis,
            },
            ProbeAction::UpgradeToEncrypted { timeout_millis } => ActionView::UpgradeToEncrypted {
                timeout_millis: *timeout_millis,
            },
            ProbeAction::Authenticate {
                principal,
                secret,
                timeout_millis,
            } => ActionView::Authenticate {
                principal: principal@,
                secret: secret@,
                timeout_millis: *timeout_millis,
            },
            ProbeAction::Close { timeout_millis } => ActionView::Close {
                timeout_millis: *timeout_millis,
            },
            ProbeAction::Finished => ActionView::Finished,
        }
    }
}

enum ProbeStage {
    Opening,
    Upgrading,
    Authenticating,
    Disconnecting,
    Releasing { phase: ProbePhase, detail: String },
    Done { outcome: ProbeOutcome },
}

impl View for ProbeStage {
    type V = StageView;

    closed spec fn view(&self) -> StageView {
        match self {
            ProbeStage::Opening => StageView::Opening,
            ProbeStage::Upgrading => StageView::Upgrading,
            ProbeStage::Authenticating => StageView::Authenticating,
            ProbeStage::Disconnecting => StageView::Disconnecting,
            ProbeStage::Releasing { phase, detail } => StageView::Releasing {
                phase: *phase,
                detail: detail@,
            },
            ProbeStage::Done { outcome } => StageView::Done { outcome: outcome@ },
        }
    }
}

/// One attempt against one endpoint.
pub struct BindProbe {
    endpoint: Endpoint,
    credentials: Credentials,
    options: ProbeOptions,
    attempt_index: usize,
    stage: ProbeStage,
}

impl View for BindProbe {
    type V = ProbeModel;

    closed spec fn view(&self) -> ProbeModel {
        ProbeModel {
            endpoint: self.endpoint@,
            credentials: self.credentials@,
            options: self.options,
            attempt_index: self.attempt_index as nat,
            stage: self.stage@,
        }
    }
}

impl BindProbe {
    /// Starts an attempt and says what to do first: open the transport to
    /// the endpoint's URL.
    pub fn begin(
        endpoint: Endpoint,
        credentials: Credentials,
        options: ProbeOptions,
        attempt_index: usize,
    ) -> (started: (BindProbe, ProbeAction))
        ensures
            (started.0@, started.1@) == probe_begin(
                endpoint@,
                credentials@,
                options,
                attempt_index as nat,
            ),
    {
        let action = ProbeAction::OpenTransport {
            url: String::from_str(endpoint.url()),
            upgrade_requested: endpoint.upgrade_requested(),
            verify_certificates: options.verify_certificates,
            timeout_millis: options.timeout_millis,
        };
        (
            BindProbe { endpoint, credentials, options, attempt_index, stage: ProbeStage::Opening },
            action,
        )
    }

    fn authenticate(&self) -> (action: ProbeAction)
        ensures
            action@ == authenticate_action(self@),
    {
        ProbeAction::Authenticate {
            principal: String::from_str(self.credentials.principal()),
            secret: String::from_str(self.credentials.secret()),
            timeout_millis: self.options.timeout_millis,
        }
    }

    /// Takes the answer to the last request and says what to do next.
    pub fn step(self, event: &ProbeEvent) -> (next: (BindProbe, ProbeAction))
        ensures
            (next.0@, next.1@) == probe_step(self@, event@),
    {
        let close = ProbeAction::Close { timeout_millis: self.options.timeout_millis };
        let go_on = event.is_accepted();
        match self.stage {
            ProbeStage::Opening => {
                if !go_on {
                    let outcome = ProbeOutcome::Failure {
                        phase: ProbePhase::Connect,
                        detail: event.failure_detail(),
                    };
                    (BindProbe { stage: ProbeStage::Done { outcome }, ..self }, ProbeAction::Finished)
                } else if self.endpoint.upgrade_requested() {
                    let action = ProbeAction::UpgradeToEncrypted {
                        timeout_millis: self.options.timeout_millis,
                    };
                    (BindProbe { stage: ProbeStage::Upgrading, ..self }, action)
                } else {
                    let action = self.authenticate();
                    (BindProbe { stage: ProbeStage::Authenticating, ..self }, action)
                }
            },
            ProbeStage::Upgrading => {
                if go_on {
                    let action = self.authenticate();
                    (BindProbe { stage: ProbeStage::Authenticating, ..self }, action)
                } else {
                    let stage = ProbeStage::Releasing {
                        phase: ProbePhase::Upgrade,
                        detail: event.failure_detail(),
                    };
                    (BindProbe { stage, ..self }, close)
                }
            },
            ProbeStage::Authenticating => {
                if go_on {
                    (BindProbe { stage: ProbeStage::Disconnecting, ..self }, close)
                } else {
                    let stage = ProbeStage::Releasing {
                        phase: ProbePhase::Authenticate,
                        detail: event.failure_detail(),
                    };
                    (BindProbe { stage, ..self }, close)
                }
            },
            ProbeStage::Disconnecting => {
                let outcome = if go_on {
                    ProbeOutcome::Success
                } else {
                    ProbeOutcome::Failure {
                        phase: ProbePhase::Disconnect,
                        detail: event.failure_detail(),
                    }
                };
                (BindProbe { stage: ProbeStage::Done { outcome }, ..self }, ProbeAction::Finished)
            },
            ProbeStage::Releasing { phase, detail } => {
                let detail = if go_on {
                    detail
                } else {
                    let mut extended = detail;
                    extended.append("; release failed: ");
                    let cause = event.failure_detail();
                    extended.append(cause.as_str());
                    extended
                };
                let outcome = ProbeOutcome::Failure { phase, detail };
                (
                    BindProbe {
                        endpoint: self.endpoint,
                        credentials: self.credentials,
                        options: self.options,
                        attempt_index: self.attempt_index,
                        stage: ProbeStage::Done { outcome },
                    },
                    ProbeAction::Finished,
                )
            },
            ProbeStage::Done { outcome } => {
                (
                    BindProbe {
                        endpoint: self.endpoint,
                        credentials: self.credentials,
                        options: self.options,
                        attempt_index: self.attempt_index,
                        stage: ProbeStage::Done { outcome },
                    },
                    ProbeAction::Finished,
                )
            },
        }
    }

    /// Takes a whole series of answers, one after the other, and leaves the
    /// requests aside: the probe is where it would be had each answer been
    /// given in its turn.
    pub fn replay(self, events: &Vec<ProbeEvent>) -> (after: BindProbe)
        ensures
            after@ == probe_after(self@, events@.map_values(|e: ProbeEvent| e@)),
    {
        let ghost answers = events@.map_values(|e: ProbeEvent| e@);
        let ghost start = self@;
        let mut probe = self;
        let mut given: usize = 0;
        assert(answers.subrange(0, answers.len() as int) =~= answers);
        while given < events.len()
            invariant
                given <= events.len(),
                answers == events@.map_values(|e: ProbeEvent| e@),
                probe_after(probe@, answers.subrange(given as int, answers.len() as int))
                    == probe_after(start, answers),
            decreases events.len() - given,
        {
            let ghost rest = answers.subrange(given as int, answers.len() as int);
            assert(rest[0] == events[given as int]@);
            assert(rest.drop_first() =~= answers.subrange(given + 1, answers.len() as int));
            let (next, _) = probe.step(&events[given]);
            probe = next;
            given += 1;
        }
        probe
    }

    /// Whether the attempt is over.
    pub fn is_finished(&self) -> (finished: bool)
        ensures
            finished == probe_result(self@).is_some(),
    {
        match self.stage {
            ProbeStage::Done { .. } => true,
            _ => false,
        }
    }

    /// The endpoint that the attempt goes to.
    pub fn endpoint(&self) -> (endpoint: &Endpoint)
        ensures
            endpoint@ == self@.endpoint,
    {
        &self.endpoint
    }

    /// The result if the attempt is over, the probe itself if it is not.
    pub fn conclude(self) -> (concluded: Result<ProbeResult, BindProbe>)
        ensures
            match concluded {
                Ok(result) => probe_result(self@) == Some(result@),
                Err(probe) => probe_result(self@).is_none() && probe@ == self@,
            },
    {
        let mode = self.endpoint.mode();
        match self.stage {
            ProbeStage::Done { outcome } => Ok(
                ProbeResult { mode, attempt_index: self.attempt_index, outcome },
            ),
            stage => Err(
                BindProbe {
                    endpoint: self.endpoint,
                    credentials: self.credentials,
                    options: self.options,
                    attempt_index: self.attempt_index,
                    stage,
                },
            ),
        }
    }

    /// The result, once the attempt is over; `None` before that.
    pub fn into_result(self) -> (result: Option<ProbeResult>)
        ensures
            match result {
                Some(r) => probe_result(self@) == Some(r@),
                None => probe_result(self@).is_none(),
            },
    {
        let mode = self.endpoint.mode();
        match self.stage {
            ProbeStage::Done { outcome } => Some(
                ProbeResult { mode, attempt_index: self.attempt_index, outcome },
            ),
            _ => None,
        }
    }
}

} // verus!
