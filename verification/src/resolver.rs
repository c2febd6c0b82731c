//! Resolution of a requested security mode into a concrete endpoint.

use vstd::prelude::*;
use vstd::string::*;

verus! {

/// How a connection to the directory server is secured.
#[derive(Clone, Copy, Debug, PartialEq, Eq, Hash, Structural)]
pub enum ConnectionMode {
    /// No encryption at all.
    Plain,
    /// Plaintext at first, then an in-band upgrade before any credentials are sent.
    OpportunisticUpgrade,
    /// Encrypted from the first byte.
    EncryptedFromStart,
}

/// The transport that a URL selects.
#[derive(Clone, Copy, Debug, PartialEq, Eq, Hash, Structural)]
pub enum Scheme {
    Plain,
    Encrypted,
}

/// The scheme that a mode connects with.
pub open spec fn scheme_of(mode: ConnectionMode) -> Scheme {
    match mode {
        ConnectionMode::Plain => Scheme::Plain,
        ConnectionMode::OpportunisticUpgrade => Scheme::Plain,
        ConnectionMode::EncryptedFromStart => Scheme::Encrypted,
    }
}

/// Whether a mode asks for the in-band upgrade.
pub open spec fn upgrade_requested_by(mode: ConnectionMode) -> bool {
    mode == ConnectionMode::OpportunisticUpgrade
}

/// The marker that a URL of the given scheme starts with.
pub open spec fn transport_marker(scheme: Scheme) -> Seq<char> {
    match scheme {
        Scheme::Plain => "ldap://"@,
        Scheme::Encrypted => "ldaps://"@,
    }
}

/// An endpoint as a mathematical value.
pub struct EndpointView {
    pub host: Seq<char>,
    pub mode: ConnectionMode,
    pub scheme: Scheme,
    pub upgrade_requested: bool,
    pub url: Seq<char>,
}

/// The endpoint that a host and a mode resolve to.
pub open spec fn resolved(host: Seq<char>, mode: ConnectionMode) -> EndpointView {
    EndpointView {
        host,
        mode,
        scheme: scheme_of(mode),
        upgrade_requested: upgrade_requested_by(mode),
        url: transport_marker(scheme_of(mode)) + host,
    }
}

/// A host together with the way to reach it. Every value is the resolution of
/// its own host and mode, so scheme, upgrade flag and URL never disagree.
#[derive(Debug, PartialEq, Eq)]
pub struct Endpoint {
    host: String,
    mode: ConnectionMode,
    scheme: Scheme,
    upgrade_requested: bool,
    url: String,
}

impl View for Endpoint {
    type V = EndpointView;

    closed spec fn view(&self) -> EndpointView {
        EndpointView {
            host: self.host@,
            mode: self.mode,
            scheme: self.scheme,
            upgrade_requested: self.upgrade_requested,
            url: self.url@,
        }
    }
}

impl Endpoint {
    #[verifier::type_invariant]
    spec fn is_resolution(self) -> bool {
        self@ == resolved(self.host@, self.mode)
    }

    /// The host as the caller gave it.
    pub fn host(&self) -> (host: &str)
        ensures
            host@ == self@.host,
    {
        self.host.as_str()
    }

    /// The mode that was asked for.
    pub fn mode(&self) -> (mode: ConnectionMode)
        ensures
            mode == self@.mode,
    {
        self.mode
    }

    /// The scheme to connect with: encrypted exactly for `EncryptedFromStart`.
    pub fn scheme(&self) -> (scheme: Scheme)
        ensures
            scheme == self@.scheme,
            scheme == scheme_of(self@.mode),
    {
        proof {
            use_type_invariant(self);
        }
        self.scheme
    }

    /// Whether to negotiate encryption in-band: exactly for `OpportunisticUpgrade`.
    pub fn upgrade_requested(&self) -> (upgrade: bool)
        ensures
            upgrade == self@.upgrade_requested,
            upgrade == upgrade_requested_by(self@.mode),
    {
        proof {
            use_type_invariant(self);
        }
        self.upgrade_requested
    }

    /// The address to open: the scheme's marker followed by the host.
    pub fn url(&self) -> (url: &str)
        ensures
            url@ == self@.url,
            url@ == transport_marker(scheme_of(self@.mode)) + self@.host,
    {
        proof {
            use_type_invariant(self);
        }
        self.url.as_str()
    }
}

/// Resolves a host and a security mode into an endpoint. Total: every mode
/// has an endpoint.
pub fn resolve(host: &str, mode: ConnectionMode) -> (endpoint: Endpoint)
    ensures
        endpoint@ == resolved(host@, mode),
{
    let scheme = match mode {
        ConnectionMode::Plain => Scheme::Plain,
        ConnectionMode::OpportunisticUpgrade => Scheme::Plain,
        ConnectionMode::EncryptedFromStart => Scheme::Encrypted,
    };
    let marker = match scheme {
        Scheme::Plain => "ldap://",
        Scheme::Encrypted => "ldaps://",
    };
    let url = String::from_str(marker).concat(host);
    Endpoint {
        host: String::from_str(host),
        mode,
        scheme,
        upgrade_requested: mode == ConnectionMode::OpportunisticUpgrade,
        url,
    }
}

/// The three modes resolve as follows, and to nothing else: `Plain` to the
/// plain scheme without upgrade, `OpportunisticUpgrade` to the plain scheme
/// with upgrade, `EncryptedFromStart` to the encrypted scheme without upgrade.
/// An encrypted scheme with an upgrade is never produced.
pub proof fn lemma_resolution_table(host: Seq<char>, mode: ConnectionMode)
    ensures
        resolved(host, mode).host == host,
        resolved(host, mode).mode == mode,
        mode == ConnectionMode::Plain ==> resolved(host, mode).scheme == Scheme::Plain
            && !resolved(host, mode).upgrade_requested,
        mode == ConnectionMode::OpportunisticUpgrade ==> resolved(host, mode).scheme
            == Scheme::Plain && resolved(host, mode).upgrade_requested,
        mode == ConnectionMode::EncryptedFromStart ==> resolved(host, mode).scheme
            == Scheme::Encrypted && !resolved(host, mode).upgrade_requested,
        resolved(host, mode).scheme == Scheme::Encrypted <==> mode
            == ConnectionMode::EncryptedFromStart,
        resolved(host, mode).upgrade_requested <==> mode == ConnectionMode::OpportunisticUpgrade,
        !(resolved(host, mode).scheme == Scheme::Encrypted && resolved(
            host,
            mode,
        ).upgrade_requested),
{
}

} // verus!
