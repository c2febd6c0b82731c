//! Settings that apply to every operation of a probe.

use vstd::prelude::*;

verus! {

/// How long an operation may take and whether server certificates are
/// checked. Certificates are checked unless the caller opts out by name.
#[derive(Clone, Copy, Debug, PartialEq, Eq, Structural)]
pub struct ProbeOptions {
    pub timeout_millis: u64,
    pub verify_certificates: bool,
}

impl ProbeOptions {
    /// Options with the given timeout and certificate verification on.
    pub fn new(timeout_millis: u64) -> (options: ProbeOptions)
        ensures
            options == (ProbeOptions { timeout_millis, verify_certificates: true }),
    {
        ProbeOptions { timeout_millis, verify_certificates: true }
    }

    /// The same options with certificate verification switched off, for
    /// isolated tests against self-signed servers.
    pub fn without_certificate_verification(self) -> (options: ProbeOptions)
        ensures
            options == (ProbeOptions { verify_certificates: false, ..self }),
    {
        ProbeOptions { timeout_millis: self.timeout_millis, verify_certificates: false }
    }
}

} // verus!
