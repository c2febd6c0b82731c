//! The results of a run in order, with a tally for each mode.

use crate::outcome::{ProbeResult, ResultView};
use crate::resolver::ConnectionMode;
use vstd::prelude::*;

verus! {

/// How many attempts in one mode succeeded and how many failed.
#[derive(Clone, Copy, Debug, PartialEq, Eq, Structural)]
pub struct ModeTally {
    pub succeeded: usize,
    pub failed: usize,
}

/// The number of results in the given mode that are successes.
pub open spec fn succeeded_in(results: Seq<ResultView>, mode: ConnectionMode) -> nat
    decreases results.len(),
{
    if results.len() == 0 {
        0
    } else {
        succeeded_in(results.drop_last(), mode) + (if results.last().mode == mode
            && results.last().outcome is Success {
            1nat
        } else {
            0nat
        })
    }
}

/// The number of results in the given mode that are failures.
pub open spec fn failed_in(results: Seq<ResultView>, mode: ConnectionMode) -> nat
    decreases results.len(),
{
    if results.len() == 0 {
        0
    } else {
        failed_in(results.drop_last(), mode) + (if results.last().mode == mode
            && results.last().outcome is Failure {
            1nat
        } else {
            0nat
        })
    }
}

/// Whether every result is a success.
pub open spec fn all_successes(results: Seq<ResultView>) -> bool {
    forall|i: int| 0 <= i < results.len() ==> (#[trigger] results[i]).outcome is Success
}

/// Every result counts once, in the tally of its own mode: over the three
/// modes, successes and failures add up to the number of results.
pub proof fn lemma_tallies_cover_results(results: Seq<ResultView>)
    ensures
        succeeded_in(results, ConnectionMode::Plain) + failed_in(results, ConnectionMode::Plain)
            + succeeded_in(results, ConnectionMode::OpportunisticUpgrade) + failed_in(
            results,
            ConnectionMode::OpportunisticUpgrade,
        ) + succeeded_in(results, ConnectionMode::EncryptedFromStart) + failed_in(
            results,
            ConnectionMode::EncryptedFromStart,
        ) == results.len(),
    decreases results.len(),
{
    if results.len() > 0 {
        lemma_tallies_cover_results(results.drop_last());
    }
}

/// A run has no failure in any mode exactly when every result is a success.
pub proof fn lemma_no_failures_means_all_successes(results: Seq<ResultView>)
    ensures
        all_successes(results) <==> failed_in(results, ConnectionMode::Plain) + failed_in(
            results,
            ConnectionMode::OpportunisticUpgrade,
        ) + failed_in(results, ConnectionMode::EncryptedFromStart) == 0,
    decreases results.len(),
{
    if results.len() > 0 {
        let earlier = results.drop_last();
        lemma_no_failures_means_all_successes(earlier);
        if all_successes(results) {
            assert forall|i: int| 0 <= i < earlier.len() implies (#[trigger] earlier[i]).outcome is Success by {
                assert(earlier[i] == results[i]);
            }
            assert(results[results.len() - 1].outcome is Success);
        }
        if all_successes(earlier) && results.last().outcome is Success {
            assert forall|i: int| 0 <= i < results.len() implies (#[trigger] results[i]).outcome is Success by {
                if i < earlier.len() {
                    assert(results[i] == earlier[i]);
                }
            }
        }
    }
}

/// What a run reports: every result in the order in which the attempts were
/// made, and for each mode how many of its attempts succeeded and failed.
/// The tallies always agree with the results.
#[derive(Debug, PartialEq, Eq)]
pub struct ProbeReport {
    results: Vec<ProbeResult>,
    plain: ModeTally,
    opportunistic_upgrade: ModeTally,
    encrypted_from_start: ModeTally,
}

impl View for ProbeReport {
    type V = Seq<ResultView>;

    closed spec fn view(&self) -> Seq<ResultView> {
        self.results@.map_values(|r: ProbeResult| r@)
    }
}

impl ProbeReport {
    spec fn tally_of(self, mode: ConnectionMode) -> ModeTally {
        match mode {
            ConnectionMode::Plain => self.plain,
            ConnectionMode::OpportunisticUpgrade => self.opportunistic_upgrade,
            ConnectionMode::EncryptedFromStart => self.encrypted_from_start,
        }
    }

    #[verifier::type_invariant]
    spec fn tallies_agree(self) -> bool {
        forall|mode: ConnectionMode|
            (#[trigger] self.tally_of(mode)).succeeded == succeeded_in(self@, mode)
                && self.tally_of(mode).failed == failed_in(self@, mode)
    }

    /// A report of no attempts.
    pub fn new() -> (report: ProbeReport)
        ensures
            report@ == Seq::<ResultView>::empty(),
    {
        let zero = ModeTally { succeeded: 0, failed: 0 };
        let report = ProbeReport {
            results: Vec::new(),
            plain: zero,
            opportunistic_upgrade: zero,
            encrypted_from_start: zero,
        };
        assert(report@ =~= Seq::<ResultView>::empty());
        report
    }

    /// The report with one more result at its end, counted in the tally of
    /// the result's mode.
    pub fn record(self, result: ProbeResult) -> (report: ProbeReport)
        ensures
            report@ == self@.push(result@),
    {
        proof {
            use_type_invariant(&self);
            lemma_tallies_cover_results(self@);
        }
        let ghost before = self@;
        let ghost old_plain = self.tally_of(ConnectionMode::Plain);
        let ghost old_upgrade = self.tally_of(ConnectionMode::OpportunisticUpgrade);
        let ghost old_encrypted = self.tally_of(ConnectionMode::EncryptedFromStart);
        let mode = result.mode;
        let success = result.outcome.is_success();
        let mut results = self.results;
        let mut plain = self.plain;
        let mut opportunistic_upgrade = self.opportunistic_upgrade;
        let mut encrypted_from_start = self.encrypted_from_start;
        results.push(result);
        let count = results.len();
        proof {
            assert(results@.map_values(|r: ProbeResult| r@) =~= before.push(result@));
            assert(before.push(result@).drop_last() =~= before);
            assert(before.len() + 1 == count);
        }
        match mode {
            ConnectionMode::Plain => {
                plain = counted(plain, success);
            },
            ConnectionMode::OpportunisticUpgrade => {
                opportunistic_upgrade = counted(opportunistic_upgrade, success);
            },
            ConnectionMode::EncryptedFromStart => {
                encrypted_from_start = counted(encrypted_from_start, success);
            },
        }
        let report = ProbeReport { results, plain, opportunistic_upgrade, encrypted_from_start };
        proof {
            let after = before.push(result@);
            assert(report@ == after);
            assert forall|m: ConnectionMode|
                (#[trigger] report.tally_of(m)).succeeded == succeeded_in(after, m)
                    && report.tally_of(m).failed == failed_in(after, m) by {
                assert(after.last() == result@);
                match m {
                    ConnectionMode::Plain => {
                        assert(old_plain.succeeded == succeeded_in(before, m));
                    },
                    ConnectionMode::OpportunisticUpgrade => {
                        assert(old_upgrade.succeeded == succeeded_in(before, m));
                    },
                    ConnectionMode::EncryptedFromStart => {
                        assert(old_encrypted.succeeded == succeeded_in(before, m));
                    },
                }
            }
        }
        report
    }

    /// The number of results.
    pub fn len(&self) -> (n: usize)
        ensures
            n == self@.len(),
    {
        self.results.len()
    }

    /// The result of the attempt that was made as number `index`, counting
    /// from zero; `None` past the end.
    pub fn result(&self, index: usize) -> (result: Option<&ProbeResult>)
        ensures
            match result {
                Some(r) => index < self@.len() && r@ == self@[index as int],
                None => index >= self@.len(),
            },
    {
        if index < self.results.len() {
            Some(&self.results[index])
        } else {
            None
        }
    }

    /// The tally of one mode: the number of successes and of failures among
    /// the results in that mode.
    pub fn tally(&self, mode: ConnectionMode) -> (tally: ModeTally)
        ensures
            tally.succeeded == succeeded_in(self@, mode),
            tally.failed == failed_in(self@, mode),
    {
        proof {
            use_type_invariant(self);
            assert(self.tally_of(mode).succeeded == succeeded_in(self@, mode));
        }
        match mode {
            ConnectionMode::Plain => self.plain,
            ConnectionMode::OpportunisticUpgrade => self.opportunistic_upgrade,
            ConnectionMode::EncryptedFromStart => self.encrypted_from_start,
        }
    }

    /// Whether every attempt succeeded. True of a report of no attempts.
    pub fn all_succeeded(&self) -> (yes: bool)
        ensures
            yes == all_successes(self@),
    {
        proof {
            use_type_invariant(self);
            lemma_no_failures_means_all_successes(self@);
            assert(self.tally_of(ConnectionMode::Plain).failed == failed_in(
                self@,
                ConnectionMode::Plain,
            ));
            assert(self.tally_of(ConnectionMode::OpportunisticUpgrade).failed == failed_in(
                self@,
                ConnectionMode::OpportunisticUpgrade,
            ));
            assert(self.tally_of(ConnectionMode::EncryptedFromStart).failed == failed_in(
                self@,
                ConnectionMode::EncryptedFromStart,
            ));
        }
        self.plain.failed == 0 && self.opportunistic_upgrade.failed == 0
            && self.encrypted_from_start.failed == 0
    }
}

/// A tally with one more success or one more failure.
fn counted(tally: ModeTally, success: bool) -> (next: ModeTally)
    requires
        tally.succeeded + tally.failed < usize::MAX,
    ensures
        next.succeeded == tally.succeeded + (if success {
            1int
        } else {
            0int
        }),
        next.failed == tally.failed + (if success {
            0int
        } else {
            1int
        }),
{
    if success {
        ModeTally { succeeded: tally.succeeded + 1, failed: tally.failed }
    } else {
        ModeTally { succeeded: tally.succeeded, failed: tally.failed + 1 }
    }
}

} // verus!
