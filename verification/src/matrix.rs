//! The run over a matrix of modes and repetitions, driven from outside.
//!
//! A `ProbeMatrixRunner` makes one attempt after another, mode by mode and
//! repetition by repetition, and collects the results. Like the probe it
//! hands out one request at a time and takes the answer to it.

use crate::credentials::Credentials;
use crate::matrix_laws::{
    lemma_begin_is_well_formed, lemma_finished_run_is_complete, lemma_step_keeps_well_formed,
    lemma_unfinished_run_is_incomplete,
};
pub use crate::matrix_model::ConfigError;
use crate::matrix_model::{
    config_error, in_matrix_order, matrix_after, matrix_begin, matrix_step, well_formed,
    MatrixActionView, MatrixModel, MatrixPhase,
};
use crate::options::ProbeOptions;
use crate::probe::{BindProbe, ProbeAction, ProbeEvent};
use crate::probe_model::probe_begin;
use crate::report::ProbeReport;
use crate::resolver::{resolve, resolved, ConnectionMode};
use vstd::prelude::*;
use vstd::string::*;

verus! {

/// What the run asks its caller to do next.
#[derive(PartialEq, Eq)]
pub enum MatrixAction {
    /// Perform this operation for the attempt under way. It is never
    /// `ProbeAction::Finished`: the run takes note of that by itself.
    Perform(ProbeAction),
    /// Wait this long before the next attempt, then answer `Completed`.
    Pause { millis: u64 },
    /// Nothing: every attempt has been made and the report is complete.
    Finished,
}

impl View for MatrixAction {
    type V = MatrixActionView;

    open spec fn view(&self) -> MatrixActionView {
        match self {
            MatrixAction::Perform(action) => MatrixActionView::Perform { action: action@ },
            MatrixAction::Pause { millis } => MatrixActionView::Pause { millis: *millis },
            MatrixAction::Finished => MatrixActionView::Finished,
        }
    }
}

enum RunnerPhase {
    Probing(BindProbe),
    Pausing,
    Finished,
}

impl View for RunnerPhase {
    type V = MatrixPhase;

    closed spec fn view(&self) -> MatrixPhase {
        match self {
            RunnerPhase::Probing(probe) => MatrixPhase::Probing { probe: probe@ },
            RunnerPhase::Pausing => MatrixPhase::Pausing,
            RunnerPhase::Finished => MatrixPhase::Finished,
        }
    }
}

/// A run over a list of modes, each tried a fixed number of times.
pub struct ProbeMatrixRunner {
    host: String,
    credentials: Credentials,
    modes: Vec<ConnectionMode>,
    repetitions: usize,
    options: ProbeOptions,
    pause_millis: u64,
    mode_index: usize,
    attempt_index: usize,
    phase: RunnerPhase,
    report: ProbeReport,
}

impl View for ProbeMatrixRunner {
    type V = MatrixModel;

    closed spec fn view(&self) -> MatrixModel {
        MatrixModel {
            host: self.host@,
            credentials: self.credentials@,
            modes: self.modes@,
            repetitions: self.repetitions as nat,
            options: self.options,
            pause_millis: self.pause_millis,
            mode_index: self.mode_index as nat,
            attempt_index: self.attempt_index as nat,
            phase: self.phase@,
            results: self.report@,
        }
    }
}

/// Starts the attempt in the given mode and repetition against the host.
fn launch(
    host: &String,
    credentials: &Credentials,
    options: ProbeOptions,
    mode: ConnectionMode,
    attempt_index: usize,
) -> (started: (BindProbe, ProbeAction))
    ensures
        (started.0@, started.1@) == probe_begin(
            resolved(host@, mode),
            credentials@,
            options,
            attempt_index as nat,
        ),
{
    BindProbe::begin(resolve(host.as_str(), mode), credentials.duplicate(), options, attempt_index)
}

impl ProbeMatrixRunner {
    #[verifier::type_invariant]
    spec fn is_well_formed(self) -> bool {
        well_formed(self@)
    }

    /// Starts a run and says what to do first. A run needs at least one mode
    /// and at least one repetition: without them it is refused here, before
    /// anything is probed. `pause_millis` is the wait between two attempts;
    /// zero asks for none.
    pub fn begin(
        host: &str,
        credentials: Credentials,
        modes: Vec<ConnectionMode>,
        repetitions_per_mode: usize,
        options: ProbeOptions,
        pause_millis: u64,
    ) -> (started: Result<(ProbeMatrixRunner, MatrixAction), ConfigError>)
        ensures
            match started {
                Ok((runner, action)) => {
                    &&& config_error(modes@, repetitions_per_mode as nat) is None
                    &&& (runner@, action@) == matrix_begin(
                        host@,
                        credentials@,
                        modes@,
                        repetitions_per_mode as nat,
                        options,
                        pause_millis,
                    )
                },
                Err(error) => config_error(modes@, repetitions_per_mode as nat) == Some(error),
            },
    {
        if modes.len() == 0 {
            return Err(ConfigError::NoModes);
        }
        if repetitions_per_mode == 0 {
            return Err(ConfigError::NoRepetitions);
        }
        let host = String::from_str(host);
        let (probe, action) = launch(&host, &credentials, options, modes[0], 0);
        proof {
            lemma_begin_is_well_formed(
                host@,
                credentials@,
                modes@,
                repetitions_per_mode as nat,
                options,
                pause_millis,
            );
        }
        let runner = ProbeMatrixRunner {
            host,
            credentials,
            modes,
            repetitions: repetitions_per_mode,
            options,
            pause_millis,
            mode_index: 0,
            attempt_index: 0,
            phase: RunnerPhase::Probing(probe),
            report: ProbeReport::new(),
        };
        Ok((runner, MatrixAction::Perform(action)))
    }

    /// Takes the answer to the last request and says what to do next. When
    /// an attempt ends, its result goes into the report, and the run goes on
    /// to the next attempt whether this one failed or not.
    pub fn step(self, event: &ProbeEvent) -> (next: (ProbeMatrixRunner, MatrixAction))
        ensures
            (next.0@, next.1@) == matrix_step(self@, event@),
    {
        proof {
            use_type_invariant(&self);
            lemma_step_keeps_well_formed(self@, event@);
        }
        let ghost before = self@;
        let ProbeMatrixRunner {
            host,
            credentials,
            modes,
            repetitions,
            options,
            pause_millis,
            mode_index,
            attempt_index,
            phase,
            report,
        } = self;
        let (mode_index, attempt_index, phase, report, action) = match phase {
            RunnerPhase::Probing(probe) => {
                assert(before.phase == (MatrixPhase::Probing { probe: probe@ }));
                assert(mode_index < modes.len());
                let (probe, action) = probe.step(event);
                match probe.conclude() {
                    Err(probe) => (
                        mode_index,
                        attempt_index,
                        RunnerPhase::Probing(probe),
                        report,
                        MatrixAction::Perform(action),
                    ),
                    Ok(result) => {
                        let report = report.record(result);
                        let (mode_index, attempt_index) = if attempt_index + 1 < repetitions {
                            (mode_index, attempt_index + 1)
                        } else {
                            (mode_index + 1, 0)
                        };
                        if mode_index >= modes.len() {
                            (
                                mode_index,
                                attempt_index,
                                RunnerPhase::Finished,
                                report,
                                MatrixAction::Finished,
                            )
                        } else if pause_millis > 0 {
                            (
                                mode_index,
                                attempt_index,
                                RunnerPhase::Pausing,
                                report,
                                MatrixAction::Pause { millis: pause_millis },
                            )
                        } else {
                            let (probe, action) = launch(
                                &host,
                                &credentials,
                                options,
                                modes[mode_index],
                                attempt_index,
                            );
                            (
                                mode_index,
                                attempt_index,
                                RunnerPhase::Probing(probe),
                                report,
                                MatrixAction::Perform(action),
                            )
                        }
                    },
                }
            },
            RunnerPhase::Pausing => {
                let (probe, action) = launch(
                    &host,
                    &credentials,
                    options,
                    modes[mode_index],
                    attempt_index,
                );
                (
                    mode_index,
                    attempt_index,
                    RunnerPhase::Probing(probe),
                    report,
                    MatrixAction::Perform(action),
                )
            },
            RunnerPhase::Finished => (
                mode_index,
                attempt_index,
                RunnerPhase::Finished,
                report,
                MatrixAction::Finished,
            ),
        };
        let runner = ProbeMatrixRunner {
            host,
            credentials,
            modes,
            repetitions,
            options,
            pause_millis,
            mode_index,
            attempt_index,
            phase,
            report,
        };
        (runner, action)
    }

    /// Takes a whole series of answers, one after the other, and leaves the
    /// requests aside: the run is where it would be had each answer been
    /// given in its turn. The same answers always lead to the same report.
    pub fn replay(self, events: &Vec<ProbeEvent>) -> (after: ProbeMatrixRunner)
        ensures
            after@ == matrix_after(self@, events@.map_values(|e: ProbeEvent| e@)),
    {
        let ghost answers = events@.map_values(|e: ProbeEvent| e@);
        let ghost start = self@;
        let mut runner = self;
        let mut given: usize = 0;
        assert(answers.subrange(0, answers.len() as int) =~= answers);
        while given < events.len()
            invariant
                given <= events.len(),
                answers == events@.map_values(|e: ProbeEvent| e@),
                matrix_after(runner@, answers.subrange(given as int, answers.len() as int))
                    == matrix_after(start, answers),
            decreases events.len() - given,
        {
            let ghost rest = answers.subrange(given as int, answers.len() as int);
            assert(rest[0] == events[given as int]@);
            assert(rest.drop_first() =~= answers.subrange(given + 1, answers.len() as int));
            let (next, _) = runner.step(&events[given]);
            runner = next;
            given += 1;
        }
        runner
    }

    /// Whether every attempt has been made.
    pub fn is_finished(&self) -> (finished: bool)
        ensures
            finished == (self@.phase is Finished),
            finished == (self@.results.len() == self@.modes.len() * self@.repetitions),
    {
        proof {
            use_type_invariant(self);
            if self@.phase is Finished {
                lemma_finished_run_is_complete(self@);
            } else {
                lemma_unfinished_run_is_incomplete(self@);
            }
        }
        match self.phase {
            RunnerPhase::Finished => true,
            _ => false,
        }
    }

    /// The results so far. They are always the first attempts of the matrix
    /// in order, and all of them once the run is finished.
    pub fn report(&self) -> (report: &ProbeReport)
        ensures
            report@ == self@.results,
            in_matrix_order(report@, self@.modes, self@.repetitions),
            report@.len() <= self@.modes.len() * self@.repetitions,
            self@.phase is Finished <==> report@.len() == self@.modes.len() * self@.repetitions,
    {
        proof {
            use_type_invariant(self);
            if self@.phase is Finished {
                lemma_finished_run_is_complete(self@);
            } else {
                lemma_unfinished_run_is_incomplete(self@);
            }
        }
        &self.report
    }

    /// Ends the run and hands over its report, complete or not.
    pub fn into_report(self) -> (report: ProbeReport)
        ensures
            report@ == self@.results,
            in_matrix_order(report@, self@.modes, self@.repetitions),
            report@.len() <= self@.modes.len() * self@.repetitions,
            self@.phase is Finished <==> report@.len() == self@.modes.len() * self@.repetitions,
    {
        proof {
            use_type_invariant(&self);
            if self@.phase is Finished {
                lemma_finished_run_is_complete(self@);
            } else {
                lemma_unfinished_run_is_incomplete(self@);
            }
        }
        self.report
    }
}

} // verus!
