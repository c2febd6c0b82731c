//! What holds of every run, whatever the answers are.

use crate::credentials::CredentialsView;
use crate::matrix_model::{
    advanced, concluded, config_error, in_matrix_order, matrix_after, matrix_begin,
    matrix_step, position, well_formed, MatrixActionView, MatrixModel, MatrixPhase,
};
use crate::options::ProbeOptions;
use crate::outcome::ResultView;
use crate::probe_laws::{answers_left, lemma_step_uses_an_answer};
use crate::probe_model::{probe_result, probe_step, ActionView, EventView};
use crate::resolver::ConnectionMode;
use vstd::arithmetic::div_mod::lemma_fundamental_div_mod_converse;
use vstd::arithmetic::mul::lemma_mul_is_distributive_add_other_way;
use vstd::prelude::*;

verus! {

/// Whether two runs have the same configuration.
pub open spec fn same_configuration(a: MatrixModel, b: MatrixModel) -> bool {
    &&& a.host == b.host
    &&& a.credentials == b.credentials
    &&& a.modes == b.modes
    &&& a.repetitions == b.repetitions
    &&& a.options == b.options
    &&& a.pause_millis == b.pause_millis
}

/// A run that may start is well formed from its first moment, has no result
/// yet, and first asks to open the transport for its first mode.
pub proof fn lemma_begin_is_well_formed(
    host: Seq<char>,
    credentials: CredentialsView,
    modes: Seq<ConnectionMode>,
    repetitions: nat,
    options: ProbeOptions,
    pause_millis: u64,
)
    requires
        config_error(modes, repetitions) is None,
    ensures
        well_formed(matrix_begin(host, credentials, modes, repetitions, options, pause_millis).0),
        matrix_begin(host, credentials, modes, repetitions, options, pause_millis).0.results.len()
            == 0,
        matrix_begin(host, credentials, modes, repetitions, options, pause_millis).1 matches
        MatrixActionView::Perform { action } && action is OpenTransport,
{
    assert(0 * repetitions == 0) by (nonlinear_arith);
}

/// Recording the result of the attempt under way keeps the results in the
/// order of the matrix and the counters in step with them.
proof fn lemma_concluded_is_well_formed(run: MatrixModel, result: ResultView)
    requires
        well_formed(run),
        run.mode_index < run.modes.len(),
        result.mode == run.modes[run.mode_index as int],
        result.attempt_index == run.attempt_index,
    ensures
        well_formed(concluded(run, result).0),
        concluded(run, result).0.results == run.results.push(result),
        same_configuration(run, concluded(run, result).0),
{
    let here = position(run) as int;
    let reps = run.repetitions as int;
    let recorded = MatrixModel { results: run.results.push(result), ..advanced(run) };
    let next = concluded(run, result).0;
    lemma_fundamental_div_mod_converse(here, reps, run.mode_index as int, run.attempt_index as int);
    assert(position(recorded) == here + 1) by {
        if run.attempt_index + 1 >= run.repetitions {
            lemma_mul_is_distributive_add_other_way(reps, run.mode_index as int, 1);
        }
    }
    assert forall|i: int| 0 <= i < recorded.results.len() implies {
        &&& 0 <= i / reps < recorded.modes.len()
        &&& (#[trigger] recorded.results[i]).mode == recorded.modes[i / reps]
        &&& recorded.results[i].attempt_index == i % reps
    } by {
        if i < here {
            assert(recorded.results[i] == run.results[i]);
        }
    }
    assert(next.results == recorded.results);
    assert(in_matrix_order(next.results, next.modes, next.repetitions));
}

/// Every step leaves a well-formed run well formed, leaves its
/// configuration alone, and keeps the results that it had: at most one is
/// added, at the end.
pub proof fn lemma_step_keeps_well_formed(run: MatrixModel, event: EventView)
    requires
        well_formed(run),
    ensures
        well_formed(matrix_step(run, event).0),
        same_configuration(run, matrix_step(run, event).0),
        matrix_step(run, event).0.results == run.results || exists|result: ResultView|
            matrix_step(run, event).0.results == run.results.push(result),
{
    match run.phase {
        MatrixPhase::Probing { probe } => {
            let stepped = probe_step(probe, event);
            match probe_result(stepped.0) {
                Some(result) => {
                    lemma_concluded_is_well_formed(run, result);
                },
                None => {},
            }
        },
        MatrixPhase::Pausing => {},
        MatrixPhase::Finished => {},
    }
}

/// However many answers arrive, a well-formed run stays well formed and
/// keeps its configuration.
pub proof fn lemma_run_keeps_well_formed(run: MatrixModel, events: Seq<EventView>)
    requires
        well_formed(run),
    ensures
        well_formed(matrix_after(run, events)),
        same_configuration(run, matrix_after(run, events)),
    decreases events.len(),
{
    if events.len() > 0 {
        lemma_step_keeps_well_formed(run, events[0]);
        lemma_run_keeps_well_formed(matrix_step(run, events[0]).0, events.drop_first());
    }
}

/// A finished run reports every attempt of the matrix, no more and no
/// fewer, in order: the result at place `i` is that of mode number
/// `i / repetitions` in its repetition number `i % repetitions`.
pub proof fn lemma_finished_run_is_complete(run: MatrixModel)
    requires
        well_formed(run),
        run.phase is Finished,
    ensures
        run.results.len() == run.modes.len() * run.repetitions,
        in_matrix_order(run.results, run.modes, run.repetitions),
{
}

/// A run that is not finished is short of results: it reports fewer
/// attempts than the matrix has.
pub proof fn lemma_unfinished_run_is_incomplete(run: MatrixModel)
    requires
        well_formed(run),
        !(run.phase is Finished),
    ensures
        run.results.len() < run.modes.len() * run.repetitions,
{
    let reps = run.repetitions as int;
    let left = run.modes.len() - run.mode_index - 1;
    lemma_mul_is_distributive_add_other_way(reps, run.mode_index as int, left + 1);
    lemma_mul_is_distributive_add_other_way(reps, left, 1);
    assert(left * reps >= 0) by (nonlinear_arith)
        requires
            left >= 0,
            reps >= 0,
    ;
}

/// The run never passes on a probe's `Finished`: what it asks to perform is
/// always an operation.
pub proof fn lemma_performs_operations_only(run: MatrixModel, event: EventView)
    requires
        well_formed(run),
    ensures
        matrix_step(run, event).1 != (MatrixActionView::Perform { action: ActionView::Finished }),
{
    match run.phase {
        MatrixPhase::Probing { probe } => {
            lemma_step_uses_an_answer(probe, event);
        },
        MatrixPhase::Pausing => {},
        MatrixPhase::Finished => {},
    }
}

/// The number of answers after which a run is finished at the latest: five
/// for each attempt still to start, one for the pause before it and four
/// for its operations, besides what the attempt under way still needs.
pub open spec fn answers_needed(run: MatrixModel) -> nat {
    let to_make = (run.modes.len() * run.repetitions - run.results.len()) as nat;
    match run.phase {
        MatrixPhase::Probing { probe } => answers_left(probe) + 5 * ((to_make - 1) as nat),
        MatrixPhase::Pausing => 5 * to_make,
        MatrixPhase::Finished => 0,
    }
}

/// Every answer brings a run that is under way nearer to its end.
pub proof fn lemma_step_nears_the_end(run: MatrixModel, event: EventView)
    requires
        well_formed(run),
        !(run.phase is Finished),
    ensures
        answers_needed(matrix_step(run, event).0) < answers_needed(run),
{
    let next = matrix_step(run, event).0;
    lemma_step_keeps_well_formed(run, event);
    lemma_unfinished_run_is_incomplete(run);
    if !(next.phase is Finished) {
        lemma_unfinished_run_is_incomplete(next);
    }
    match run.phase {
        MatrixPhase::Probing { probe } => {
            lemma_step_uses_an_answer(probe, event);
            match probe_result(probe_step(probe, event).0) {
                Some(result) => {
                    lemma_concluded_is_well_formed(run, result);
                },
                None => {},
            }
        },
        MatrixPhase::Pausing => {},
        MatrixPhase::Finished => {},
    }
}

/// A run ends: once it has received as many answers as it needs at the
/// most, whatever they are, it is finished and its report is complete. A
/// failed attempt cannot hold it up.
pub proof fn lemma_run_finishes(run: MatrixModel, events: Seq<EventView>)
    requires
        well_formed(run),
        events.len() >= answers_needed(run),
    ensures
        matrix_after(run, events).phase is Finished,
        matrix_after(run, events).results.len() == run.modes.len() * run.repetitions,
        in_matrix_order(matrix_after(run, events).results, run.modes, run.repetitions),
    decreases events.len(),
{
    lemma_run_keeps_well_formed(run, events);
    if events.len() == 0 {
        if !(run.phase is Finished) {
            lemma_unfinished_run_is_incomplete(run);
        }
        lemma_finished_run_is_complete(run);
    } else {
        lemma_step_keeps_well_formed(run, events[0]);
        if !(run.phase is Finished) {
            lemma_step_nears_the_end(run, events[0]);
        }
        lemma_run_finishes(matrix_step(run, events[0]).0, events.drop_first());
    }
}

/// From its start a run needs at most five answers for each attempt of the
/// matrix. After that it reports every attempt, mode by mode and repetition
/// by repetition, whatever the answers were.
pub proof fn lemma_matrix_finishes(
    host: Seq<char>,
    credentials: CredentialsView,
    modes: Seq<ConnectionMode>,
    repetitions: nat,
    options: ProbeOptions,
    pause_millis: u64,
    events: Seq<EventView>,
)
    requires
        config_error(modes, repetitions) is None,
        events.len() >= 5 * (modes.len() * repetitions),
    ensures
        matrix_after(
            matrix_begin(host, credentials, modes, repetitions, options, pause_millis).0,
            events,
        ).phase is Finished,
        matrix_after(
            matrix_begin(host, credentials, modes, repetitions, options, pause_millis).0,
            events,
        ).results.len() == modes.len() * repetitions,
        in_matrix_order(
            matrix_after(
                matrix_begin(host, credentials, modes, repetitions, options, pause_millis).0,
                events,
            ).results,
            modes,
            repetitions,
        ),
{
    let run = matrix_begin(host, credentials, modes, repetitions, options, pause_millis).0;
    lemma_begin_is_well_formed(host, credentials, modes, repetitions, options, pause_millis);
    lemma_unfinished_run_is_incomplete(run);
    lemma_run_finishes(run, events);
}

/// Running the same matrix twice against answers that are the same gives
/// the same report: a run is determined by its configuration and by the
/// answers that it receives, and by nothing else.
pub proof fn lemma_same_answers_same_report(
    host: Seq<char>,
    credentials: CredentialsView,
    modes: Seq<ConnectionMode>,
    repetitions: nat,
    options: ProbeOptions,
    pause_millis: u64,
    first_answers: Seq<EventView>,
    second_answers: Seq<EventView>,
)
    requires
        first_answers.len() == second_answers.len(),
        forall|i: int| 0 <= i < first_answers.len() ==> first_answers[i] == second_answers[i],
    ensures
        matrix_after(
            matrix_begin(host, credentials, modes, repetitions, options, pause_millis).0,
            first_answers,
        ).results == matrix_after(
            matrix_begin(host, credentials, modes, repetitions, options, pause_millis).0,
            second_answers,
        ).results,
        matrix_after(
            matrix_begin(host, credentials, modes, repetitions, options, pause_millis).0,
            first_answers,
        ) == matrix_after(
            matrix_begin(host, credentials, modes, repetitions, options, pause_millis).0,
            second_answers,
        ),
{
    assert(first_answers =~= second_answers);
}

} // verus!
