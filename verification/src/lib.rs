//! A connection-mode probe for directory servers.
//!
//! A probe makes one attempt against a server: it opens a connection in one
//! of three security modes, authenticates, and disconnects. A run repeats
//! such attempts over a list of modes and reports how each one ended.
//!
//! The crate decides and performs no I/O. A probe or a run hands out one
//! request at a time; the caller carries it out against the server and
//! reports how it ended, and is told what to do next.
//!
//! - [`resolver`]: from a host and a mode to an endpoint.
//! - [`probe`]: one attempt; [`probe_model`] says what it does and
//!   [`probe_laws`] what follows from that.
//! - [`matrix`]: a run over modes and repetitions; [`matrix_model`] and
//!   [`matrix_laws`] likewise.
//! - [`report`]: the results of a run and the tally for each mode.

pub mod credentials;
pub mod matrix;
pub mod matrix_laws;
pub mod matrix_model;
pub mod options;
pub mod outcome;
pub mod probe;
pub mod probe_laws;
pub mod probe_model;
pub mod report;
pub mod resolver;
pub mod text;
