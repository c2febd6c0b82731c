//! The run over modes and repetitions as a mathematical state machine.

use crate::credentials::CredentialsView;
use crate::options::ProbeOptions;
use crate::outcome::ResultView;
use crate::probe_model::{probe_begin, probe_result, probe_step, ActionView, EventView, ProbeModel};
use crate::resolver::{resolved, ConnectionMode};
use vstd::prelude::*;

verus! {

/// Why a run cannot start.
#[derive(Clone, Copy, Debug, PartialEq, Eq, Structural)]
pub enum ConfigError {
    /// The list of modes is empty.
    NoModes,
    /// The number of repetitions for each mode is zero.
    NoRepetitions,
}

/// The error that a configuration is refused with, if it is refused. An
/// empty list of modes is named before a zero count.
pub open spec fn config_error(modes: Seq<ConnectionMode>, repetitions: nat) -> Option<
    ConfigError,
> {
    if modes.len() == 0 {
        Some(ConfigError::NoModes)
    } else if repetitions == 0 {
        Some(ConfigError::NoRepetitions)
    } else {
        None
    }
}

/// What the run asks its caller to do next.
pub enum MatrixActionView {
    /// Perform this operation for the attempt under way.
    Perform { action: ActionView },
    /// Wait this long before the next attempt.
    Pause { millis: u64 },
    /// Nothing: every attempt has been made.
    Finished,
}

/// What the run is waiting for.
pub enum MatrixPhase {
    /// The answer to an operation of the attempt under way.
    Probing { probe: ProbeModel },
    /// The end of the pause before the next attempt.
    Pausing,
    Finished,
}

/// A run as a mathematical value. `mode_index` and `attempt_index` say which
/// attempt is under way or comes next.
pub struct MatrixModel {
    pub host: Seq<char>,
    pub credentials: CredentialsView,
    pub modes: Seq<ConnectionMode>,
    pub repetitions: nat,
    pub options: ProbeOptions,
    pub pause_millis: u64,
    pub mode_index: nat,
    pub attempt_index: nat,
    pub phase: MatrixPhase,
    pub results: Seq<ResultView>,
}

/// The run with its next attempt started: the endpoint is resolved from the
/// host and the attempt's mode, and the first request is that attempt's.
pub open spec fn launched(run: MatrixModel) -> (MatrixModel, MatrixActionView) {
    let started = probe_begin(
        resolved(run.host, run.modes[run.mode_index as int]),
        run.credentials,
        run.options,
        run.attempt_index,
    );
    (
        MatrixModel { phase: MatrixPhase::Probing { probe: started.0 }, ..run },
        MatrixActionView::Perform { action: started.1 },
    )
}

/// The run with its counters moved to the attempt after the current one:
/// the next repetition of the same mode, or the first of the next mode.
pub open spec fn advanced(run: MatrixModel) -> MatrixModel {
    if run.attempt_index + 1 < run.repetitions {
        MatrixModel { attempt_index: run.attempt_index + 1, ..run }
    } else {
        MatrixModel { mode_index: run.mode_index + 1, attempt_index: 0, ..run }
    }
}

/// The run after the attempt under way has ended with `result`: the result
/// is appended, and the run finishes, pauses, or starts the next attempt.
/// A failed attempt is recorded like any other and stops nothing.
pub open spec fn concluded(run: MatrixModel, result: ResultView) -> (
    MatrixModel,
    MatrixActionView,
) {
    let recorded = MatrixModel { results: run.results.push(result), ..advanced(run) };
    if recorded.mode_index >= recorded.modes.len() {
        (MatrixModel { phase: MatrixPhase::Finished, ..recorded }, MatrixActionView::Finished)
    } else if recorded.pause_millis > 0 {
        (
            MatrixModel { phase: MatrixPhase::Pausing, ..recorded },
            MatrixActionView::Pause { millis: recorded.pause_millis },
        )
    } else {
        launched(recorded)
    }
}

/// A run over the given modes, each repeated `repetitions` times, and its
/// first request. Meant for configurations that `config_error` lets pass.
pub open spec fn matrix_begin(
    host: Seq<char>,
    credentials: CredentialsView,
    modes: Seq<ConnectionMode>,
    repetitions: nat,
    options: ProbeOptions,
    pause_millis: u64,
) -> (MatrixModel, MatrixActionView) {
    launched(
        MatrixModel {
            host,
            credentials,
            modes,
            repetitions,
            options,
            pause_millis,
            mode_index: 0,
            attempt_index: 0,
            phase: MatrixPhase::Pausing,
            results: Seq::empty(),
        },
    )
}

/// The run's reaction to the answer to its last request.
pub open spec fn matrix_step(run: MatrixModel, event: EventView) -> (
    MatrixModel,
    MatrixActionView,
) {
    match run.phase {
        MatrixPhase::Probing { probe } => {
            let stepped = probe_step(probe, event);
            match probe_result(stepped.0) {
                Some(result) => concluded(run, result),
                None => (
                    MatrixModel { phase: MatrixPhase::Probing { probe: stepped.0 }, ..run },
                    MatrixActionView::Perform { action: stepped.1 },
                ),
            }
        },
        MatrixPhase::Pausing => launched(run),
        MatrixPhase::Finished => (run, MatrixActionView::Finished),
    }
}

/// The run after it has received the given answers in order.
pub open spec fn matrix_after(run: MatrixModel, events: Seq<EventView>) -> MatrixModel
    decreases events.len(),
{
    if events.len() == 0 {
        run
    } else {
        matrix_after(matrix_step(run, events[0]).0, events.drop_first())
    }
}

/// The position in the report of the attempt that is under way or comes next.
pub open spec fn position(run: MatrixModel) -> nat {
    run.mode_index * run.repetitions + run.attempt_index
}

/// Whether the results are those of the first attempts of the run, in order:
/// mode by mode, and within a mode repetition by repetition.
pub open spec fn in_matrix_order(
    results: Seq<ResultView>,
    modes: Seq<ConnectionMode>,
    repetitions: nat,
) -> bool {
    forall|i: int|
        0 <= i < results.len() ==> {
            &&& 0 <= i / (repetitions as int) < modes.len()
            &&& (#[trigger] results[i]).mode == modes[i / (repetitions as int)]
            &&& results[i].attempt_index == i % (repetitions as int)
        }
}

/// What holds of a run at every moment.
pub open spec fn well_formed(run: MatrixModel) -> bool {
    &&& run.modes.len() > 0
    &&& run.repetitions > 0
    &&& run.mode_index <= run.modes.len()
    &&& run.attempt_index < run.repetitions
    &&& run.results.len() == position(run)
    &&& in_matrix_order(run.results, run.modes, run.repetitions)
    &&& match run.phase {
        MatrixPhase::Probing { probe } => {
            &&& run.mode_index < run.modes.len()
            &&& probe.endpoint == resolved(run.host, run.modes[run.mode_index as int])
            &&& probe.credentials == run.credentials
            &&& probe.options == run.options
            &&& probe.attempt_index == run.attempt_index
            &&& !(probe.stage is Done)
        },
        MatrixPhase::Pausing => run.mode_index < run.modes.len(),
        MatrixPhase::Finished => run.mode_index == run.modes.len() && run.attempt_index == 0,
    }
}

} // verus!
