use ldap_probe::credentials::Credentials;
use ldap_probe::options::ProbeOptions;
use ldap_probe::outcome::{ProbeOutcome, ProbePhase};
use ldap_probe::text::decimal_string;

#[test]
fn decimal_of_single_digits() {
    assert_eq!(decimal_string(0), "0");
    assert_eq!(decimal_string(7), "7");
    assert_eq!(decimal_string(9), "9");
}

#[test]
fn decimal_of_longer_numbers() {
    assert_eq!(decimal_string(10), "10");
    assert_eq!(decimal_string(49), "49");
    assert_eq!(decimal_string(100), "100");
    assert_eq!(decimal_string(1234567890), "1234567890");
    assert_eq!(decimal_string(u32::MAX), "4294967295");
}

#[test]
fn decimal_agrees_with_the_standard_rendering() {
    for n in [0u32, 1, 9, 10, 11, 99, 101, 999, 1000, 65535, 65536, 4294967294] {
        assert_eq!(decimal_string(n), n.to_string());
    }
}

#[test]
fn credentials_keep_principal_and_secret() {
    let credentials = Credentials::new("user@domain.local", "secret123");
    assert_eq!(credentials.principal(), "user@domain.local");
    assert_eq!(credentials.secret(), "secret123");
}

#[test]
fn credentials_duplicate_is_equal() {
    let credentials = Credentials::new("cn=admin,dc=example,dc=org", "pw");
    let copy = credentials.duplicate();
    assert!(copy == credentials);
    assert_eq!(copy.principal(), "cn=admin,dc=example,dc=org");
    assert_eq!(copy.secret(), "pw");
}

#[test]
fn description_names_the_principal_and_not_the_secret() {
    let one = Credentials::new("alice", "hunter2");
    let other = Credentials::new("alice", "correct horse");
    assert_eq!(one.describe(), "alice (secret withheld)");
    assert_eq!(one.describe(), other.describe());
    assert!(!one.describe().contains("hunter2"));
}

#[test]
fn options_verify_certificates_by_default() {
    let options = ProbeOptions::new(2500);
    assert_eq!(options.timeout_millis, 2500);
    assert!(options.verify_certificates);
}

#[test]
fn certificate_verification_is_switched_off_only_by_name() {
    let options = ProbeOptions::new(2500).without_certificate_verification();
    assert_eq!(options.timeout_millis, 2500);
    assert!(!options.verify_certificates);
}

#[test]
fn outcome_tells_success_from_failure() {
    let success = ProbeOutcome::Success;
    assert!(success.is_success());
    assert_eq!(success.failed_phase(), None);
    let failure = ProbeOutcome::Failure { phase: ProbePhase::Upgrade, detail: String::from("x") };
    assert!(!failure.is_success());
    assert_eq!(failure.failed_phase(), Some(ProbePhase::Upgrade));
}
