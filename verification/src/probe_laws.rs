//! What holds of every attempt, whatever the answers are.

use crate::credentials::CredentialsView;
use crate::options::ProbeOptions;
use crate::outcome::{OutcomeView, ProbePhase, ResultView};
use crate::probe_model::{
    accepted, authenticate_action, detail_after_release, failure_detail, probe_after,
    probe_begin, probe_reactions, probe_result, probe_step, ActionView, EventView, ProbeModel,
    StageView,
};
use crate::resolver::EndpointView;
use vstd::prelude::*;

verus! {

/// The number of answers after which an attempt at the given stage is over
/// at the latest.
pub open spec fn answers_left(probe: ProbeModel) -> nat {
    match probe.stage {
        StageView::Opening => if probe.endpoint.upgrade_requested {
            4
        } else {
            3
        },
        StageView::Upgrading => 3,
        StageView::Authenticating => 2,
        StageView::Disconnecting => 1,
        StageView::Releasing { .. } => 1,
        StageView::Done { .. } => 0,
    }
}

/// Whether the attempt has met no failure so far.
pub open spec fn unfailed(probe: ProbeModel) -> bool {
    match probe.stage {
        StageView::Releasing { .. } => false,
        StageView::Done { outcome } => outcome is Success,
        _ => true,
    }
}

pub open spec fn all_accepted(events: Seq<EventView>) -> bool {
    forall|i: int| 0 <= i < events.len() ==> accepted(#[trigger] events[i])
}

/// The number of close requests among the given requests.
pub open spec fn closes_requested(actions: Seq<ActionView>) -> nat
    decreases actions.len(),
{
    if actions.len() == 0 {
        0
    } else {
        (if actions[0] is Close {
            1nat
        } else {
            0nat
        }) + closes_requested(actions.drop_first())
    }
}

/// The number of open requests that were answered with success while the
/// probe received the given answers.
pub open spec fn opens_succeeded(probe: ProbeModel, events: Seq<EventView>) -> nat
    decreases events.len(),
{
    if events.len() == 0 {
        0
    } else {
        (if probe.stage is Opening && accepted(events[0]) {
            1nat
        } else {
            0nat
        }) + opens_succeeded(probe_step(probe, events[0]).0, events.drop_first())
    }
}

/// The number of transports that a probe at the given stage holds open and
/// has not yet asked to close.
pub open spec fn transports_held(probe: ProbeModel) -> nat {
    match probe.stage {
        StageView::Upgrading => 1,
        StageView::Authenticating => 1,
        _ => 0,
    }
}

/// One more answer takes the probe one step further, and the reactions grow
/// by the reaction to it.
pub proof fn lemma_run_unfolds(probe: ProbeModel, events: Seq<EventView>)
    requires
        events.len() > 0,
    ensures
        probe_after(probe, events) == probe_after(
            probe_step(probe, events[0]).0,
            events.drop_first(),
        ),
        probe_reactions(probe, events).len() == events.len(),
        probe_reactions(probe, events)[0] == probe_step(probe, events[0]).1,
        probe_reactions(probe, events).drop_first() == probe_reactions(
            probe_step(probe, events[0]).0,
            events.drop_first(),
        ),
    decreases events.len(),
{
    let next = probe_step(probe, events[0]).0;
    let rest = events.drop_first();
    if rest.len() > 0 {
        lemma_run_unfolds(next, rest);
    }
    assert(probe_reactions(probe, events).drop_first() =~= probe_reactions(next, rest));
}

/// An attempt that is over stays as it is and asks for nothing more.
pub proof fn lemma_finished_stays_finished(probe: ProbeModel, events: Seq<EventView>)
    requires
        probe.stage is Done,
    ensures
        probe_after(probe, events) == probe,
        forall|i: int|
            0 <= i < events.len() ==> #[trigger] probe_reactions(probe, events)[i]
                == ActionView::Finished,
    decreases events.len(),
{
    if events.len() > 0 {
        lemma_run_unfolds(probe, events);
        lemma_finished_stays_finished(probe, events.drop_first());
        assert forall|i: int| 0 <= i < events.len() implies #[trigger] probe_reactions(
            probe,
            events,
        )[i] == ActionView::Finished by {
            if i > 0 {
                assert(probe_reactions(probe, events)[i] == probe_reactions(
                    probe,
                    events,
                ).drop_first()[i - 1]);
            }
        }
    }
}

/// An attempt is over after at most four answers with an upgrade, three
/// without, and sooner from any later stage: nothing is tried twice.
pub proof fn lemma_attempt_ends(probe: ProbeModel, events: Seq<EventView>)
    requires
        events.len() >= answers_left(probe),
    ensures
        probe_after(probe, events).stage is Done,
        probe_result(probe_after(probe, events)) is Some,
    decreases events.len(),
{
    if events.len() > 0 {
        lemma_run_unfolds(probe, events);
        lemma_attempt_ends(probe_step(probe, events[0]).0, events.drop_first());
    }
}

/// Every answer brings an attempt that is under way nearer to its end.
pub proof fn lemma_step_uses_an_answer(probe: ProbeModel, event: EventView)
    requires
        !(probe.stage is Done),
    ensures
        answers_left(probe_step(probe, event).0) < answers_left(probe),
        probe_step(probe, event).1 is Finished <==> probe_step(probe, event).0.stage is Done,
{
}

/// The phase that the operation awaited at a stage belongs to.
pub open spec fn phase_in_progress(stage: StageView) -> ProbePhase {
    match stage {
        StageView::Opening => ProbePhase::Connect,
        StageView::Upgrading => ProbePhase::Upgrade,
        StageView::Authenticating => ProbePhase::Authenticate,
        _ => ProbePhase::Disconnect,
    }
}

/// An operation that fails or runs out of time fails the attempt in the
/// phase that was in progress, with the detail of that answer. After an
/// open that went through, the probe first asks for the close, whose answer
/// is `release`; where nothing is open, or the close itself is what failed,
/// it asks for nothing more.
pub proof fn lemma_failure_names_the_phase_in_progress(
    probe: ProbeModel,
    event: EventView,
    release: EventView,
)
    requires
        probe.stage is Opening || probe.stage is Upgrading || probe.stage is Authenticating
            || probe.stage is Disconnecting,
        !accepted(event),
    ensures
        probe.stage is Opening || probe.stage is Disconnecting ==> {
            &&& probe_step(probe, event).1 == ActionView::Finished
            &&& probe_step(probe, event).0.stage == (StageView::Done {
                outcome: OutcomeView::Failure {
                    phase: phase_in_progress(probe.stage),
                    detail: failure_detail(event),
                },
            })
        },
        probe.stage is Upgrading || probe.stage is Authenticating ==> {
            &&& probe_step(probe, event).1 is Close
            &&& probe_step(probe_step(probe, event).0, release).1 == ActionView::Finished
            &&& probe_step(probe_step(probe, event).0, release).0.stage == (StageView::Done {
                outcome: OutcomeView::Failure {
                    phase: phase_in_progress(probe.stage),
                    detail: detail_after_release(failure_detail(event), release),
                },
            })
        },
{
}

/// Where every operation succeeds the attempt succeeds: from any stage that
/// has met no failure, answers that are all accepted, and enough of them,
/// end in `Success`.
pub proof fn lemma_accepted_run_succeeds(probe: ProbeModel, events: Seq<EventView>)
    requires
        unfailed(probe),
        all_accepted(events),
        events.len() >= answers_left(probe),
    ensures
        probe_after(probe, events).stage == (StageView::Done { outcome: OutcomeView::Success }),
    decreases events.len(),
{
    if events.len() > 0 {
        lemma_run_unfolds(probe, events);
        let rest = events.drop_first();
        assert(accepted(events[0]));
        assert forall|i: int| 0 <= i < rest.len() implies accepted(#[trigger] rest[i]) by {
            assert(rest[i] == events[i + 1]);
        }
        lemma_accepted_run_succeeds(probe_step(probe, events[0]).0, rest);
    }
}

/// Against an endpoint where the open, the upgrade if one is asked for, the
/// authentication and the close all succeed, the attempt reports `Success`,
/// whatever the mode.
pub proof fn lemma_valid_credentials_succeed(
    endpoint: EndpointView,
    credentials: CredentialsView,
    options: ProbeOptions,
    attempt_index: nat,
    events: Seq<EventView>,
)
    requires
        all_accepted(events),
        events.len() >= (if endpoint.upgrade_requested {
            4nat
        } else {
            3nat
        }),
    ensures
        probe_result(
            probe_after(probe_begin(endpoint, credentials, options, attempt_index).0, events),
        ) == Some(
            ResultView { mode: endpoint.mode, attempt_index, outcome: OutcomeView::Success },
        ),
{
    let probe = probe_begin(endpoint, credentials, options, attempt_index).0;
    lemma_accepted_run_succeeds(probe, events);
    lemma_stage_only_changes(probe, events);
}

/// Answers change nothing of a probe but its stage.
pub proof fn lemma_stage_only_changes(probe: ProbeModel, events: Seq<EventView>)
    ensures
        probe_after(probe, events) == (ProbeModel {
            stage: probe_after(probe, events).stage,
            ..probe
        }),
    decreases events.len(),
{
    if events.len() > 0 {
        lemma_run_unfolds(probe, events);
        lemma_stage_only_changes(probe_step(probe, events[0]).0, events.drop_first());
    }
}

/// The answers of an attempt that gets as far as the authentication and is
/// refused there: an accepted open, an accepted upgrade where the endpoint
/// asks for one, the refusal, and the answer to the release.
pub open spec fn answers_with_refused_authentication(
    upgrade_requested: bool,
    open: EventView,
    upgrade: EventView,
    authentication: EventView,
    release: EventView,
) -> Seq<EventView> {
    if upgrade_requested {
        seq![open, upgrade, authentication, release]
    } else {
        seq![open, authentication, release]
    }
}

/// With a transport that works and credentials that do not, the attempt
/// fails in the `Authenticate` phase, whatever the mode, and the transport
/// has been closed: exactly one close was asked for.
pub proof fn lemma_invalid_credentials_fail_authenticate(
    endpoint: EndpointView,
    credentials: CredentialsView,
    options: ProbeOptions,
    attempt_index: nat,
    open: EventView,
    upgrade: EventView,
    authentication: EventView,
    release: EventView,
)
    requires
        accepted(open),
        accepted(upgrade),
        !accepted(authentication),
    ensures
        ({
            let events = answers_with_refused_authentication(
                endpoint.upgrade_requested,
                open,
                upgrade,
                authentication,
                release,
            );
            let probe = probe_begin(endpoint, credentials, options, attempt_index).0;
            &&& probe_result(probe_after(probe, events)) == Some(
                ResultView {
                    mode: endpoint.mode,
                    attempt_index,
                    outcome: OutcomeView::Failure {
                        phase: ProbePhase::Authenticate,
                        detail: detail_after_release(failure_detail(authentication), release),
                    },
                },
            )
            &&& closes_requested(probe_reactions(probe, events)) == 1
        }),
{
    let events = answers_with_refused_authentication(
        endpoint.upgrade_requested,
        open,
        upgrade,
        authentication,
        release,
    );
    let probe = probe_begin(endpoint, credentials, options, attempt_index).0;
    lemma_release_is_balanced(probe, events);
    lemma_run_unfolds(probe, events);
    let p1 = probe_step(probe, events[0]).0;
    let e1 = events.drop_first();
    lemma_run_unfolds(p1, e1);
    let p2 = probe_step(p1, e1[0]).0;
    let e2 = e1.drop_first();
    lemma_run_unfolds(p2, e2);
    let p3 = probe_step(p2, e2[0]).0;
    let e3 = e2.drop_first();
    if endpoint.upgrade_requested {
        lemma_run_unfolds(p3, e3);
    }
    reveal_with_fuel(opens_succeeded, 5);
}

/// Against a host that cannot be reached the attempt fails in the `Connect`
/// phase with the detail of the failed open, and whatever is answered
/// afterwards the probe asks for nothing more: no upgrade, no
/// authentication, no close.
pub proof fn lemma_unreachable_host_fails_connect(
    endpoint: EndpointView,
    credentials: CredentialsView,
    options: ProbeOptions,
    attempt_index: nat,
    events: Seq<EventView>,
)
    requires
        events.len() >= 1,
        !accepted(events[0]),
    ensures
        probe_result(
            probe_after(probe_begin(endpoint, credentials, options, attempt_index).0, events),
        ) == Some(
            ResultView {
                mode: endpoint.mode,
                attempt_index,
                outcome: OutcomeView::Failure {
                    phase: ProbePhase::Connect,
                    detail: failure_detail(events[0]),
                },
            },
        ),
        forall|i: int|
            0 <= i < events.len() ==> #[trigger] probe_reactions(
                probe_begin(endpoint, credentials, options, attempt_index).0,
                events,
            )[i] == ActionView::Finished,
{
    let probe = probe_begin(endpoint, credentials, options, attempt_index).0;
    lemma_run_unfolds(probe, events);
    let failed = probe_step(probe, events[0]).0;
    lemma_finished_stays_finished(failed, events.drop_first());
    assert forall|i: int| 0 <= i < events.len() implies #[trigger] probe_reactions(
        probe,
        events,
    )[i] == ActionView::Finished by {
        if i > 0 {
            assert(probe_reactions(probe, events)[i] == probe_reactions(
                probe,
                events,
            ).drop_first()[i - 1]);
        }
    }
}

/// Transports are conserved: at every moment, the transports still held plus
/// the closes asked for equal the transports held at the start plus the
/// opens that succeeded.
pub proof fn lemma_release_is_balanced(probe: ProbeModel, events: Seq<EventView>)
    ensures
        transports_held(probe_after(probe, events)) + closes_requested(
            probe_reactions(probe, events),
        ) == transports_held(probe) + opens_succeeded(probe, events),
    decreases events.len(),
{
    if events.len() > 0 {
        lemma_run_unfolds(probe, events);
        lemma_release_is_balanced(probe_step(probe, events[0]).0, events.drop_first());
    }
}

/// Whatever fails and wherever, once an attempt is over it has asked for
/// exactly as many closes as opens succeeded, and that is at most one.
pub proof fn lemma_every_open_is_closed(
    endpoint: EndpointView,
    credentials: CredentialsView,
    options: ProbeOptions,
    attempt_index: nat,
    events: Seq<EventView>,
)
    requires
        probe_after(
            probe_begin(endpoint, credentials, options, attempt_index).0,
            events,
        ).stage is Done,
    ensures
        closes_requested(
            probe_reactions(probe_begin(endpoint, credentials, options, attempt_index).0, events),
        ) == opens_succeeded(
            probe_begin(endpoint, credentials, options, attempt_index).0,
            events,
        ),
        opens_succeeded(probe_begin(endpoint, credentials, options, attempt_index).0, events)
            <= 1,
{
    let probe = probe_begin(endpoint, credentials, options, attempt_index).0;
    lemma_release_is_balanced(probe, events);
    lemma_opens_at_most_once(probe, events);
}

/// A transport is opened at most once in an attempt, and not at all once the
/// attempt is past its first stage.
pub proof fn lemma_opens_at_most_once(probe: ProbeModel, events: Seq<EventView>)
    ensures
        opens_succeeded(probe, events) <= 1,
        !(probe.stage is Opening) ==> opens_succeeded(probe, events) == 0,
    decreases events.len(),
{
    if events.len() > 0 {
        lemma_opens_at_most_once(probe_step(probe, events[0]).0, events.drop_first());
    }
}

/// The credentials leave the probe only in an `Authenticate` request, which
/// is only ever the reaction to an accepted answer: to the open where no
/// upgrade is asked for, to the upgrade where one is. So with an upgrade
/// requested, nothing is sent before the encryption stands.
pub proof fn lemma_credentials_follow_upgrade(
    endpoint: EndpointView,
    credentials: CredentialsView,
    options: ProbeOptions,
    attempt_index: nat,
    events: Seq<EventView>,
    i: int,
)
    requires
        0 <= i < events.len(),
        probe_reactions(
            probe_begin(endpoint, credentials, options, attempt_index).0,
            events,
        )[i] is Authenticate,
    ensures
        accepted(events[0]),
        endpoint.upgrade_requested ==> i == 1 && accepted(events[1]),
        !endpoint.upgrade_requested ==> i == 0,
        probe_reactions(probe_begin(endpoint, credentials, options, attempt_index).0, events)[i]
            == authenticate_action(probe_begin(endpoint, credentials, options, attempt_index).0),
{
    let probe = probe_begin(endpoint, credentials, options, attempt_index).0;
    let reactions = probe_reactions(probe, events);
    lemma_run_unfolds(probe, events);
    let p1 = probe_step(probe, events[0]).0;
    let e1 = events.drop_first();
    if i > 0 {
        assert(reactions[i] == reactions.drop_first()[i - 1]);
        lemma_authenticates_only_early(p1, e1, i - 1);
        assert(e1[0] == events[1]);
    }
}

/// From a stage past the open, an `Authenticate` request can only be the
/// reaction to the first answer, an accepted one, while the probe is
/// upgrading.
proof fn lemma_authenticates_only_early(probe: ProbeModel, events: Seq<EventView>, i: int)
    requires
        !(probe.stage is Opening),
        0 <= i < events.len(),
        probe_reactions(probe, events)[i] is Authenticate,
    ensures
        i == 0,
        probe.stage is Upgrading,
        accepted(events[0]),
        probe_reactions(probe, events)[i] == authenticate_action(probe),
    decreases events.len(),
{
    lemma_run_unfolds(probe, events);
    if i > 0 {
        let reactions = probe_reactions(probe, events);
        assert(reactions[i] == reactions.drop_first()[i - 1]);
        let p1 = probe_step(probe, events[0]).0;
        lemma_authenticates_only_early(p1, events.drop_first(), i - 1);
    }
}

/// A failure's detail tells its cause: the texts for a broken exchange, for a
/// server's refusal and for a timeout differ from one another, whatever the
/// underlying messages are.
pub proof fn lemma_details_tell_causes_apart(
    code: u32,
    text: Seq<char>,
    detail: Seq<char>,
)
    ensures
        failure_detail(EventView::Failed { detail }) != failure_detail(
            EventView::ServerReplied { code, text },
        ),
        failure_detail(EventView::Failed { detail }) != failure_detail(EventView::TimedOut),
        failure_detail(EventView::ServerReplied { code, text }) != failure_detail(
            EventView::TimedOut,
        ),
{
    reveal_strlit("rejected by server with result code ");
    reveal_strlit("operation failed: ");
    reveal_strlit("timed out");
    let broken = failure_detail(EventView::Failed { detail });
    let refused = failure_detail(EventView::ServerReplied { code, text });
    let late = failure_detail(EventView::TimedOut);
    assert(broken[0] == 'o');
    assert(refused[0] == 'r');
    assert(late[0] == 't');
}

} // verus!
