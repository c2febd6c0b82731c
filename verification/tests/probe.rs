use ldap_probe::credentials::Credentials;
use ldap_probe::options::ProbeOptions;
use ldap_probe::outcome::{ProbeOutcome, ProbePhase, ProbeResult};
use ldap_probe::probe::{BindProbe, ProbeAction, ProbeEvent};
use ldap_probe::resolver::{resolve, ConnectionMode};

const MODES: [ConnectionMode; 3] = [
    ConnectionMode::Plain,
    ConnectionMode::OpportunisticUpgrade,
    ConnectionMode::EncryptedFromStart,
];

fn begin(mode: ConnectionMode, attempt_index: usize) -> (BindProbe, ProbeAction) {
    BindProbe::begin(
        resolve("dc1.example.org", mode),
        Credentials::new("alice", "hunter2"),
        ProbeOptions::new(3000),
        attempt_index,
    )
}

fn failed(detail: &str) -> ProbeEvent {
    ProbeEvent::Failed { detail: String::from(detail) }
}

fn replied(code: u32, text: &str) -> ProbeEvent {
    ProbeEvent::ServerReplied { code, text: String::from(text) }
}

fn failure(
    mode: ConnectionMode,
    attempt_index: usize,
    phase: ProbePhase,
    detail: &str,
) -> ProbeResult {
    ProbeResult {
        mode,
        attempt_index,
        outcome: ProbeOutcome::Failure { phase, detail: String::from(detail) },
    }
}

/// Feeds the answers one by one and returns the probe with all the requests
/// that it made, the first one included.
fn drive(mode: ConnectionMode, answers: Vec<ProbeEvent>) -> (BindProbe, Vec<ProbeAction>) {
    let (mut probe, first) = begin(mode, 0);
    let mut requests = vec![first];
    for answer in answers {
        let (next, request) = probe.step(&answer);
        probe = next;
        requests.push(request);
    }
    (probe, requests)
}

fn authenticate() -> ProbeAction {
    ProbeAction::Authenticate {
        principal: String::from("alice"),
        secret: String::from("hunter2"),
        timeout_millis: 3000,
    }
}

fn close() -> ProbeAction {
    ProbeAction::Close { timeout_millis: 3000 }
}

#[test]
fn first_request_opens_the_endpoint_url() {
    let (probe, first) = begin(ConnectionMode::EncryptedFromStart, 0);
    assert!(
        first
            == ProbeAction::OpenTransport {
                url: String::from("ldaps://dc1.example.org"),
                upgrade_requested: false,
                verify_certificates: true,
                timeout_millis: 3000,
            }
    );
    assert!(!probe.is_finished());
    assert_eq!(probe.endpoint().url(), "ldaps://dc1.example.org");
    assert!(probe.into_result().is_none());
}

#[test]
fn opt_out_of_certificate_verification_reaches_the_open_request() {
    let (_, first) = BindProbe::begin(
        resolve("10.1.1.1", ConnectionMode::OpportunisticUpgrade),
        Credentials::new("alice", "hunter2"),
        ProbeOptions::new(10).without_certificate_verification(),
        0,
    );
    assert!(
        first
            == ProbeAction::OpenTransport {
                url: String::from("ldap://10.1.1.1"),
                upgrade_requested: true,
                verify_certificates: false,
                timeout_millis: 10,
            }
    );
}

#[test]
fn valid_credentials_succeed_in_every_mode() {
    for mode in MODES {
        let answers = if mode == ConnectionMode::OpportunisticUpgrade {
            vec![
                ProbeEvent::Completed,
                ProbeEvent::Completed,
                replied(0, ""),
                ProbeEvent::Completed,
            ]
        } else {
            vec![ProbeEvent::Completed, replied(0, ""), ProbeEvent::Completed]
        };
        let (probe, requests) = drive(mode, answers);
        assert!(probe.is_finished());
        assert!(*requests.last().unwrap() == ProbeAction::Finished);
        assert_eq!(
            probe.into_result(),
            Some(ProbeResult { mode, attempt_index: 0, outcome: ProbeOutcome::Success })
        );
    }
}

#[test]
fn requests_follow_the_phases_in_order() {
    let (_, requests) = drive(
        ConnectionMode::OpportunisticUpgrade,
        vec![ProbeEvent::Completed, ProbeEvent::Completed, replied(0, ""), ProbeEvent::Completed],
    );
    assert_eq!(requests.len(), 5);
    assert!(matches!(requests[0], ProbeAction::OpenTransport { .. }));
    assert!(requests[1] == ProbeAction::UpgradeToEncrypted { timeout_millis: 3000 });
    assert!(requests[2] == authenticate());
    assert!(requests[3] == close());
    assert!(requests[4] == ProbeAction::Finished);

    let (_, requests) = drive(
        ConnectionMode::Plain,
        vec![ProbeEvent::Completed, ProbeEvent::Completed, ProbeEvent::Completed],
    );
    assert_eq!(requests.len(), 4);
    assert!(requests[1] == authenticate());
    assert!(requests[2] == close());
    assert!(requests[3] == ProbeAction::Finished);
}

#[test]
fn invalid_credentials_fail_authenticate_in_every_mode() {
    for mode in MODES {
        let mut answers = vec![ProbeEvent::Completed];
        if mode == ConnectionMode::OpportunisticUpgrade {
            answers.push(ProbeEvent::Completed);
        }
        answers.push(replied(49, "invalid credentials"));
        answers.push(ProbeEvent::Completed);
        let (probe, requests) = drive(mode, answers);
        assert!(requests[requests.len() - 2] == close());
        assert!(requests[requests.len() - 1] == ProbeAction::Finished);
        assert_eq!(
            probe.into_result(),
            Some(failure(
                mode,
                0,
                ProbePhase::Authenticate,
                "rejected by server with result code 49: invalid credentials"
            ))
        );
    }
}

#[test]
fn broken_exchange_and_refusal_have_different_details() {
    let (broken, _) = drive(
        ConnectionMode::Plain,
        vec![ProbeEvent::Completed, failed("connection reset"), ProbeEvent::Completed],
    );
    let (refused, _) = drive(
        ConnectionMode::Plain,
        vec![ProbeEvent::Completed, replied(49, "connection reset"), ProbeEvent::Completed],
    );
    let broken = broken.into_result().unwrap();
    let refused = refused.into_result().unwrap();
    assert_eq!(
        broken,
        failure(
            ConnectionMode::Plain,
            0,
            ProbePhase::Authenticate,
            "operation failed: connection reset"
        )
    );
    assert_eq!(refused.outcome.failed_phase(), Some(ProbePhase::Authenticate));
    assert_ne!(broken.outcome, refused.outcome);
}

#[test]
fn unreachable_host_fails_connect_and_never_authenticates() {
    for mode in MODES {
        let (probe, requests) = drive(
            mode,
            vec![failed("connection refused"), ProbeEvent::Completed, ProbeEvent::Completed],
        );
        assert_eq!(requests.len(), 4);
        for request in &requests[1..] {
            assert!(*request == ProbeAction::Finished);
        }
        assert_eq!(
            probe.into_result(),
            Some(failure(mode, 0, ProbePhase::Connect, "operation failed: connection refused"))
        );
    }
}

#[test]
fn failed_upgrade_is_released_before_it_is_reported() {
    let (probe, first) = begin(ConnectionMode::OpportunisticUpgrade, 4);
    assert!(matches!(first, ProbeAction::OpenTransport { .. }));
    let (probe, request) = probe.step(&ProbeEvent::Completed);
    assert!(request == ProbeAction::UpgradeToEncrypted { timeout_millis: 3000 });
    let (probe, request) = probe.step(&replied(52, "unavailable"));
    assert!(request == close());
    assert!(!probe.is_finished());
    let (probe, request) = probe.step(&ProbeEvent::Completed);
    assert!(request == ProbeAction::Finished);
    assert_eq!(
        probe.into_result(),
        Some(failure(
            ConnectionMode::OpportunisticUpgrade,
            4,
            ProbePhase::Upgrade,
            "rejected by server with result code 52: unavailable"
        ))
    );
}

#[test]
fn failed_disconnect_is_a_failure_of_the_attempt() {
    let (probe, _) = drive(
        ConnectionMode::EncryptedFromStart,
        vec![ProbeEvent::Completed, replied(0, ""), failed("broken pipe")],
    );
    assert_eq!(
        probe.into_result(),
        Some(failure(
            ConnectionMode::EncryptedFromStart,
            0,
            ProbePhase::Disconnect,
            "operation failed: broken pipe"
        ))
    );
}

#[test]
fn timeout_is_tagged_with_the_phase_in_progress() {
    let (at_connect, requests) = drive(ConnectionMode::Plain, vec![ProbeEvent::TimedOut]);
    assert!(requests[1] == ProbeAction::Finished);
    assert_eq!(
        at_connect.into_result(),
        Some(failure(ConnectionMode::Plain, 0, ProbePhase::Connect, "timed out"))
    );

    let (at_upgrade, requests) = drive(
        ConnectionMode::OpportunisticUpgrade,
        vec![ProbeEvent::Completed, ProbeEvent::TimedOut, ProbeEvent::Completed],
    );
    assert!(requests[2] == close());
    assert_eq!(
        at_upgrade.into_result(),
        Some(failure(ConnectionMode::OpportunisticUpgrade, 0, ProbePhase::Upgrade, "timed out"))
    );

    let (at_authenticate, requests) = drive(
        ConnectionMode::Plain,
        vec![ProbeEvent::Completed, ProbeEvent::TimedOut, ProbeEvent::Completed],
    );
    assert!(requests[2] == close());
    assert_eq!(
        at_authenticate.into_result(),
        Some(failure(ConnectionMode::Plain, 0, ProbePhase::Authenticate, "timed out"))
    );

    let (at_disconnect, _) = drive(
        ConnectionMode::Plain,
        vec![ProbeEvent::Completed, ProbeEvent::Completed, ProbeEvent::TimedOut],
    );
    assert_eq!(
        at_disconnect.into_result(),
        Some(failure(ConnectionMode::Plain, 0, ProbePhase::Disconnect, "timed out"))
    );
}

#[test]
fn failed_release_is_added_to_the_detail() {
    let (probe, _) = drive(
        ConnectionMode::Plain,
        vec![ProbeEvent::Completed, replied(49, "bad password"), ProbeEvent::TimedOut],
    );
    assert_eq!(
        probe.into_result(),
        Some(failure(
            ConnectionMode::Plain,
            0,
            ProbePhase::Authenticate,
            "rejected by server with result code 49: bad password; release failed: timed out"
        ))
    );
}

#[test]
fn nonzero_reply_to_the_open_counts_as_a_failed_connect() {
    let (probe, requests) = drive(ConnectionMode::Plain, vec![replied(2, "protocol error")]);
    assert!(requests[1] == ProbeAction::Finished);
    assert_eq!(
        probe.into_result(),
        Some(failure(
            ConnectionMode::Plain,
            0,
            ProbePhase::Connect,
            "rejected by server with result code 2: protocol error"
        ))
    );
}

#[test]
fn finished_probe_stays_finished() {
    let (probe, _) = drive(ConnectionMode::Plain, vec![ProbeEvent::TimedOut]);
    let (probe, request) = probe.step(&ProbeEvent::Completed);
    assert!(request == ProbeAction::Finished);
    let (probe, request) = probe.step(&failed("late"));
    assert!(request == ProbeAction::Finished);
    assert_eq!(
        probe.into_result(),
        Some(failure(ConnectionMode::Plain, 0, ProbePhase::Connect, "timed out"))
    );
}

#[test]
fn conclude_returns_the_probe_while_it_is_under_way() {
    let (probe, _) = begin(ConnectionMode::Plain, 1);
    let probe = match probe.conclude() {
        Ok(_) => panic!("no answer was given yet"),
        Err(probe) => probe,
    };
    let (probe, request) = probe.step(&ProbeEvent::TimedOut);
    assert!(request == ProbeAction::Finished);
    match probe.conclude() {
        Ok(result) => {
            assert_eq!(result, failure(ConnectionMode::Plain, 1, ProbePhase::Connect, "timed out"))
        }
        Err(_) => panic!("the attempt is over"),
    }
}

#[test]
fn event_details_are_exact() {
    assert_eq!(ProbeEvent::Completed.failure_detail(), "");
    assert_eq!(ProbeEvent::TimedOut.failure_detail(), "timed out");
    assert_eq!(failed("no route to host").failure_detail(), "operation failed: no route to host");
    assert_eq!(
        replied(4294967295, "").failure_detail(),
        "rejected by server with result code 4294967295: "
    );
    assert!(ProbeEvent::Completed.is_accepted());
    assert!(replied(0, "ok").is_accepted());
    assert!(!replied(10, "referral").is_accepted());
    assert!(!failed("x").is_accepted());
    assert!(!ProbeEvent::TimedOut.is_accepted());
}

/// A transport that counts what is done to it and fails where it is told to.
struct FakeTransport {
    fail_at: Option<ProbePhase>,
    opens: usize,
    closes: usize,
    authentications: usize,
}

impl FakeTransport {
    fn new(fail_at: Option<ProbePhase>) -> FakeTransport {
        FakeTransport { fail_at, opens: 0, closes: 0, authentications: 0 }
    }

    fn answer(&self, phase: ProbePhase) -> ProbeEvent {
        if self.fail_at == Some(phase) {
            ProbeEvent::Failed { detail: String::from("injected") }
        } else {
            ProbeEvent::Completed
        }
    }

    fn perform(&mut self, request: &ProbeAction) -> ProbeEvent {
        match request {
            ProbeAction::OpenTransport { .. } => {
                let answer = self.answer(ProbePhase::Connect);
                if answer.is_accepted() {
                    self.opens += 1;
                }
                answer
            }
            ProbeAction::UpgradeToEncrypted { .. } => self.answer(ProbePhase::Upgrade),
            ProbeAction::Authenticate { .. } => {
                self.authentications += 1;
                self.answer(ProbePhase::Authenticate)
            }
            ProbeAction::Close { .. } => {
                self.closes += 1;
                self.answer(ProbePhase::Disconnect)
            }
            ProbeAction::Finished => unreachable!("nothing is asked of the transport"),
        }
    }
}

fn run(mode: ConnectionMode, transport: &mut FakeTransport) -> ProbeResult {
    let (mut probe, mut request) = begin(mode, 0);
    while request != ProbeAction::Finished {
        let answer = transport.perform(&request);
        let (next, following) = probe.step(&answer);
        probe = next;
        request = following;
    }
    probe.into_result().unwrap()
}

#[test]
fn every_successful_open_is_closed_whatever_fails() {
    let failures = [
        None,
        Some(ProbePhase::Connect),
        Some(ProbePhase::Upgrade),
        Some(ProbePhase::Authenticate),
        Some(ProbePhase::Disconnect),
    ];
    for mode in MODES {
        for fail_at in failures {
            let mut transport = FakeTransport::new(fail_at);
            let result = run(mode, &mut transport);
            assert_eq!(transport.closes, transport.opens);
            assert!(transport.opens <= 1);
            let upgrade_skipped =
                fail_at == Some(ProbePhase::Upgrade) && mode != ConnectionMode::OpportunisticUpgrade;
            if fail_at.is_none() || upgrade_skipped {
                assert!(result.outcome.is_success());
            } else {
                assert_eq!(result.outcome.failed_phase(), fail_at);
            }
        }
    }
}

#[test]
fn failed_open_leaves_nothing_to_close_or_authenticate() {
    for mode in MODES {
        let mut transport = FakeTransport::new(Some(ProbePhase::Connect));
        let result = run(mode, &mut transport);
        assert_eq!(transport.opens, 0);
        assert_eq!(transport.closes, 0);
        assert_eq!(transport.authentications, 0);
        assert_eq!(result.outcome.failed_phase(), Some(ProbePhase::Connect));
    }
}

#[test]
fn failed_upgrade_sends_no_credentials() {
    let mut transport = FakeTransport::new(Some(ProbePhase::Upgrade));
    let result = run(ConnectionMode::OpportunisticUpgrade, &mut transport);
    assert_eq!(transport.authentications, 0);
    assert_eq!(transport.opens, 1);
    assert_eq!(transport.closes, 1);
    assert_eq!(result.outcome.failed_phase(), Some(ProbePhase::Upgrade));
}

#[test]
fn replay_ends_where_the_single_steps_end() {
    for mode in MODES {
        let answers = vec![
            ProbeEvent::Completed,
            ProbeEvent::Completed,
            replied(49, "no"),
            failed("gone"),
            ProbeEvent::TimedOut,
        ];
        let (stepped, _) = drive(
            mode,
            vec![
                ProbeEvent::Completed,
                ProbeEvent::Completed,
                replied(49, "no"),
                failed("gone"),
                ProbeEvent::TimedOut,
            ],
        );
        let (probe, _) = begin(mode, 0);
        let replayed = probe.replay(&answers);
        assert!(replayed.is_finished());
        assert_eq!(replayed.into_result(), stepped.into_result());
    }
}

#[test]
fn replay_of_no_answers_changes_nothing() {
    let (probe, _) = begin(ConnectionMode::Plain, 0);
    let probe = probe.replay(&Vec::new());
    assert!(!probe.is_finished());
    let (probe, request) = probe.step(&ProbeEvent::Completed);
    assert!(request == authenticate());
    assert!(!probe.is_finished());
}
