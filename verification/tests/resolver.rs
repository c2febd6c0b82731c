use ldap_probe::resolver::{resolve, ConnectionMode, Scheme};

#[test]
fn plain_resolves_to_plain_scheme_without_upgrade() {
    let endpoint = resolve("127.0.0.1", ConnectionMode::Plain);
    assert_eq!(endpoint.scheme(), Scheme::Plain);
    assert!(!endpoint.upgrade_requested());
    assert_eq!(endpoint.url(), "ldap://127.0.0.1");
    assert_eq!(endpoint.host(), "127.0.0.1");
    assert_eq!(endpoint.mode(), ConnectionMode::Plain);
}

#[test]
fn opportunistic_upgrade_resolves_to_plain_scheme_with_upgrade() {
    let endpoint = resolve("dc1.example.org", ConnectionMode::OpportunisticUpgrade);
    assert_eq!(endpoint.scheme(), Scheme::Plain);
    assert!(endpoint.upgrade_requested());
    assert_eq!(endpoint.url(), "ldap://dc1.example.org");
    assert_eq!(endpoint.mode(), ConnectionMode::OpportunisticUpgrade);
}

#[test]
fn encrypted_from_start_resolves_to_encrypted_scheme_without_upgrade() {
    let endpoint = resolve("dc1.example.org", ConnectionMode::EncryptedFromStart);
    assert_eq!(endpoint.scheme(), Scheme::Encrypted);
    assert!(!endpoint.upgrade_requested());
    assert_eq!(endpoint.url(), "ldaps://dc1.example.org");
    assert_eq!(endpoint.mode(), ConnectionMode::EncryptedFromStart);
}

#[test]
fn no_mode_resolves_to_an_encrypted_scheme_with_upgrade() {
    let modes = [
        ConnectionMode::Plain,
        ConnectionMode::OpportunisticUpgrade,
        ConnectionMode::EncryptedFromStart,
    ];
    for mode in modes {
        let endpoint = resolve("host", mode);
        assert!(!(endpoint.scheme() == Scheme::Encrypted && endpoint.upgrade_requested()));
        assert_eq!(endpoint.scheme() == Scheme::Encrypted, mode == ConnectionMode::EncryptedFromStart);
        assert_eq!(endpoint.upgrade_requested(), mode == ConnectionMode::OpportunisticUpgrade);
    }
}

#[test]
fn host_is_kept_as_given_with_port_and_empty() {
    let with_port = resolve("10.0.0.5:1389", ConnectionMode::Plain);
    assert_eq!(with_port.url(), "ldap://10.0.0.5:1389");
    assert_eq!(with_port.host(), "10.0.0.5:1389");
    let empty = resolve("", ConnectionMode::EncryptedFromStart);
    assert_eq!(empty.url(), "ldaps://");
    assert_eq!(empty.host(), "");
}

#[test]
fn equal_inputs_resolve_to_equal_endpoints() {
    assert_eq!(
        resolve("h", ConnectionMode::OpportunisticUpgrade),
        resolve("h", ConnectionMode::OpportunisticUpgrade)
    );
    assert_ne!(resolve("h", ConnectionMode::Plain), resolve("h", ConnectionMode::OpportunisticUpgrade));
}
