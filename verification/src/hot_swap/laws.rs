//! What holds of the controller over any sequence of operations.
//!
//! The laws are stated over the mathematical content of a controller and the
//! transitions that the controller's methods are proved to make.

use super::config::{
    first_above, lemma_first_above, lemma_next_step_moves_on, lemma_step_has_place, next_step,
};
use super::model::ControllerView;
use super::router::observation_of;
use super::state::MigrationState;
use super::validation::ProbeOutcomes;
use crate::result::success_view;
use vstd::prelude::*;

verus! {

/// One operation on a controller.
pub enum ControlEvent<E> {
    /// A candidate is handed in for staging.
    BeginStaging { candidate: E },
    /// The probes of the candidate came back.
    CompleteStaging { outcomes: ProbeOutcomes },
    /// A migration is asked to start.
    Start,
    /// A request with the given draw is answered and counted; the candidate,
    /// where it was run, hashed with the given success.
    Request { draw: u64, candidate_success: bool },
    /// The migration is asked to advance.
    Advance,
    /// The migration is rolled back.
    Rollback,
}

/// The controller after one operation.
pub open spec fn step<E>(s: ControllerView<E>, event: ControlEvent<E>)
    -> ControllerView<E> {
    match event {
        ControlEvent::BeginStaging { candidate } => s.begin_staging(candidate),
        ControlEvent::CompleteStaging { outcomes } => s.complete_staging(outcomes),
        ControlEvent::Start => s.start(),
        ControlEvent::Request { draw, candidate_success } => s.record(
            observation_of(s.candidate_role(draw), candidate_success),
        ),
        ControlEvent::Advance => s.advance(),
        ControlEvent::Rollback => s.rollback(),
    }
}

/// The controller after a sequence of operations.
pub open spec fn run<E>(s: ControllerView<E>, events: Seq<ControlEvent<E>>)
    -> ControllerView<E>
    decreases events.len(),
{
    if events.len() == 0 {
        s
    } else {
        step(run(s, events.drop_last()), events.last())
    }
}

/// The operation makes the candidate the active engine: it asks a gradual
/// migration within its error budget to advance beyond the last step of the
/// ramp below the whole.
pub open spec fn finalizes<E>(s: ControllerView<E>, event: ControlEvent<E>)
    -> bool {
    &&& event is Advance
    &&& s.migration_state is GradualMigration
    &&& s.advance().migration_state is Complete
}

/// The counters have room for what the operation counts.
pub open spec fn admissible<E>(s: ControllerView<E>, event: ControlEvent<E>)
    -> bool {
    event is Request ==> s.metrics.has_room()
}

/// Every operation keeps the controller well formed.
pub proof fn lemma_step_keeps_wf<E>(s: ControllerView<E>, event: ControlEvent<E>)
    requires
        s.wf(),
        admissible(s, event),
    ensures
        step(s, event).wf(),
{
    if event is Advance {
        if let MigrationState::GradualMigration { percentage } = s.migration_state {
            if next_step(s.config.gradual_percentages, percentage).is_some() {
                lemma_next_step_moves_on(s.config.gradual_percentages, percentage);
            }
        }
    }
}

/// While a staging is outstanding or has passed, handing in another candidate
/// changes nothing, whatever the candidate and whatever its probes would
/// find: the candidate staged before is still the one staged. The call is then
/// refused with `STAGING_IN_PROGRESS`, as the contracts of `begin_staging` and
/// `stage_algorithm` state. (After a failed validation a new candidate may
/// take the place of the failed one.)
pub proof fn lemma_staging_refused_while_staged<E>(
    s: ControllerView<E>,
    candidate: E,
    outcomes: ProbeOutcomes,
)
    requires
        s.wf(),
        !(s.staging_status is NotStaged),
        !(s.staging_status is ValidationFailed),
    ensures
        s.staging_status.blocks_staging(),
        s.begin_staging(candidate) == s,
        s.stage(candidate, outcomes) == s,
        !s.stage_succeeds(outcomes),
{
}

/// Of two candidates handed in one after the other to a controller with
/// nothing staged, the first is accepted and blocks the second: the first is
/// the one staged, and stays it.
pub proof fn lemma_one_of_two_stagings_wins<E>(s: ControllerView<E>, first: E, second: E)
    requires
        s.wf(),
        s.staging_status is NotStaged,
    ensures
        !s.staging_status.blocks_staging(),
        s.begin_staging(first).staging_status.blocks_staging(),
        s.begin_staging(first).begin_staging(second) == s.begin_staging(first),
        s.begin_staging(first).staged == Some(first),
{
}

/// After a rollback no candidate is staged, the staging status is
/// `NotStaged`, the migration state is `RollbackComplete`, and the active
/// engine is the one from before.
pub proof fn lemma_rollback_outcome<E>(s: ControllerView<E>)
    requires
        s.wf(),
    ensures
        s.rollback().wf(),
        s.rollback().staged.is_none(),
        s.rollback().staging_status is NotStaged,
        s.rollback().migration_state is RollbackComplete,
        s.rollback().validation_results.is_none(),
        s.rollback().active == s.active,
{
}

/// An operation changes the active engine only by finalization, and then the
/// new active engine is the candidate that was staged.
pub proof fn lemma_active_changes_by_finalization_only<E>(
    s: ControllerView<E>,
    event: ControlEvent<E>,
)
    requires
        s.wf(),
    ensures
        step(s, event).active == s.active || (finalizes(s, event) && s.staged == Some(
            step(s, event).active,
        )),
{
}

/// Over any sequence of operations none of which finalizes, the active engine
/// stays the one from before the sequence, and so it does through a rollback
/// at the end: a migration that is rolled back, at whatever point, leaves the
/// active engine that was there before it started.
pub proof fn lemma_active_unchanged_until_finalization<E>(
    s: ControllerView<E>,
    events: Seq<ControlEvent<E>>,
)
    requires
        s.wf(),
        forall|k: int|
            0 <= k < events.len() ==> admissible(run(s, events.take(k)), #[trigger] events[k])
                && !finalizes(run(s, events.take(k)), events[k]),
    ensures
        run(s, events).wf(),
        run(s, events).active == s.active,
        run(s, events).rollback().active == s.active,
        run(s, events).rollback().staged.is_none(),
        run(s, events).rollback().migration_state is RollbackComplete,
    decreases events.len(),
{
    if events.len() > 0 {
        let before = events.drop_last();
        let n = before.len() as int;
        assert forall|k: int| 0 <= k < before.len() implies admissible(
            run(s, before.take(k)),
            #[trigger] before[k],
        ) && !finalizes(run(s, before.take(k)), before[k]) by {
            assert(before.take(k) =~= events.take(k));
            assert(before[k] == events[k]);
        }
        lemma_active_unchanged_until_finalization(s, before);
        assert(events.take(n) =~= before);
        assert(events[n] == events.last());
        lemma_step_keeps_wf(run(s, before), events.last());
        lemma_active_changes_by_finalization_only(run(s, before), events.last());
    }
}

/// The controller after `n` requests to advance in a row.
pub open spec fn advance_times<E>(s: ControllerView<E>, n: nat) -> ControllerView<
    E,
>
    decreases n,
{
    if n == 0 {
        s
    } else {
        advance_times(s, (n - 1) as nat).advance()
    }
}

/// In gradual migration within the error budget, a request to advance either
/// completes the migration or leads to a share that is a step of the
/// configured ramp and larger than the share before.
pub proof fn lemma_advance_climbs<E>(s: ControllerView<E>)
    requires
        s.wf(),
        s.migration_state is GradualMigration,
        s.migration_passes(),
    ensures
        s.advance().wf(),
        s.advance().metrics == s.metrics,
        s.advance().config == s.config,
        s.advance_result() == success_view(s.advance().migration_state),
        s.advance().migration_state is Complete || (s.advance().migration_state
            is GradualMigration && s.advance().migration_state->GradualMigration_percentage
            > s.migration_state->GradualMigration_percentage
            && s.config.gradual_percentages.contains(
            s.advance().migration_state->GradualMigration_percentage,
        ) && first_above(
            s.config.gradual_percentages,
            s.advance().migration_state->GradualMigration_percentage,
        ) > first_above(
            s.config.gradual_percentages,
            s.migration_state->GradualMigration_percentage,
        )),
        s.advance().migration_state is Complete ==> s.advance().active == s.staged.unwrap()
            && s.advance().staged.is_none() && s.advance().staging_status is NotStaged,
{
    let percentage = s.migration_state->GradualMigration_percentage;
    if next_step(s.config.gradual_percentages, percentage).is_some() {
        lemma_next_step_moves_on(s.config.gradual_percentages, percentage);
    }
}

/// Ramp monotonicity. From gradual migration within the error budget,
/// repeated requests to advance lead through strictly increasing shares, each
/// a step of the configured ramp, and complete the migration after no more
/// requests than the ramp has steps.
pub proof fn lemma_ramp_climbs_to_completion<E>(s: ControllerView<E>) -> (n: nat)
    requires
        s.wf(),
        s.migration_state is GradualMigration,
        s.migration_passes(),
    ensures
        1 <= n <= s.config.gradual_percentages.len(),
        advance_times(s, n).migration_state is Complete,
        advance_times(s, n).active == s.staged.unwrap(),
        forall|k: nat|
            k < n ==> (#[trigger] advance_times(s, k)).migration_state is GradualMigration
                && s.config.gradual_percentages.contains(
                advance_times(s, k).migration_state->GradualMigration_percentage,
            ),
        forall|j: nat, k: nat|
            j < k < n ==> (#[trigger] advance_times(s, j)).migration_state->GradualMigration_percentage
                < (#[trigger] advance_times(s, k)).migration_state->GradualMigration_percentage,
{
    let ramp = s.config.gradual_percentages;
    let percentage = s.migration_state->GradualMigration_percentage;
    lemma_step_has_place(ramp, percentage);
    lemma_first_above(ramp, percentage);
    lemma_climb(s, (ramp.len() - first_above(ramp, percentage)) as nat)
}

/// The climb of `lemma_ramp_climbs_to_completion`, by induction on the part
/// of the ramp that lies ahead.
proof fn lemma_climb<E>(s: ControllerView<E>, ahead: nat) -> (n: nat)
    requires
        s.wf(),
        s.migration_state is GradualMigration,
        s.migration_passes(),
        first_above(
            s.config.gradual_percentages,
            s.migration_state->GradualMigration_percentage,
        ) + ahead == s.config.gradual_percentages.len(),
    ensures
        1 <= n <= ahead + 1,
        advance_times(s, n).migration_state is Complete,
        advance_times(s, n).active == s.staged.unwrap(),
        forall|k: nat|
            k < n ==> (#[trigger] advance_times(s, k)).migration_state is GradualMigration
                && s.config.gradual_percentages.contains(
                advance_times(s, k).migration_state->GradualMigration_percentage,
            ) && advance_times(s, k).migration_state->GradualMigration_percentage
                >= s.migration_state->GradualMigration_percentage,
        forall|j: nat, k: nat|
            j < k < n ==> (#[trigger] advance_times(s, j)).migration_state->GradualMigration_percentage
                < (#[trigger] advance_times(s, k)).migration_state->GradualMigration_percentage,
    decreases ahead,
{
    let next = s.advance();
    lemma_advance_climbs(s);
    lemma_first_above(s.config.gradual_percentages, s.migration_state->GradualMigration_percentage);
    assert(advance_times(s, 0) == s);
    assert(advance_times(s, 1) == next) by {
        assert(advance_times(s, 1) == advance_times(s, 0).advance());
    }
    if next.migration_state is Complete {
        1
    } else {
        lemma_first_above(
            next.config.gradual_percentages,
            next.migration_state->GradualMigration_percentage,
        );
        let ahead_next = (next.config.gradual_percentages.len() - first_above(
            next.config.gradual_percentages,
            next.migration_state->GradualMigration_percentage,
        )) as nat;
        let m = lemma_climb(next, ahead_next);
        assert forall|k: nat| advance_times(s, k + 1) == #[trigger] advance_times(next, k) by {
            lemma_advance_times_shift(s, k);
        }
        let n = m + 1;
        assert(advance_times(s, n) == advance_times(next, m));
        assert forall|k: nat| k < n implies (#[trigger] advance_times(s, k)).migration_state
            is GradualMigration && s.config.gradual_percentages.contains(
            advance_times(s, k).migration_state->GradualMigration_percentage,
        ) && advance_times(s, k).migration_state->GradualMigration_percentage
            >= s.migration_state->GradualMigration_percentage by {
            if k > 0 {
                assert(advance_times(s, k) == advance_times(next, (k - 1) as nat)) by {
                    lemma_advance_times_shift(s, (k - 1) as nat);
                }
            }
        }
        assert forall|j: nat, k: nat| j < k < n implies (#[trigger] advance_times(
            s,
            j,
        )).migration_state->GradualMigration_percentage < (#[trigger] advance_times(
            s,
            k,
        )).migration_state->GradualMigration_percentage by {
            assert(advance_times(s, k) == advance_times(next, (k - 1) as nat)) by {
                lemma_advance_times_shift(s, (k - 1) as nat);
            }
            if j > 0 {
                assert(advance_times(s, j) == advance_times(next, (j - 1) as nat)) by {
                    lemma_advance_times_shift(s, (j - 1) as nat);
                }
            }
        }
        n
    }
}

/// Advancing once and then `k` times is advancing `k + 1` times.
proof fn lemma_advance_times_shift<E>(s: ControllerView<E>, k: nat)
    ensures
        advance_times(s, k + 1) == advance_times(s.advance(), k),
    decreases k,
{
    if k == 0 {
        assert(advance_times(s, 1) == advance_times(s, 0).advance());
    } else {
        lemma_advance_times_shift(s, (k - 1) as nat);
        assert(advance_times(s, k + 1) == advance_times(s, k).advance());
        assert(advance_times(s.advance(), k) == advance_times(s.advance(), (k - 1) as nat).advance());
    }
}

/// The number of requests to advance among `events`.
pub open spec fn advances<E>(events: Seq<ControlEvent<E>>) -> nat
    decreases events.len(),
{
    if events.len() == 0 {
        0
    } else if events.last() is Advance {
        advances(events.drop_last()) + 1
    } else {
        advances(events.drop_last())
    }
}

/// `events` are requests and requests to advance, every request finds room in
/// the counters, and every request to advance a gradual migration finds the
/// candidate within the error budget.
pub open spec fn climbs<E>(s: ControllerView<E>, events: Seq<ControlEvent<E>>) -> bool {
    forall|k: int|
        0 <= k < events.len() ==> match #[trigger] events[k] {
            ControlEvent::Request { .. } => run(s, events.take(k)).metrics.has_room(),
            ControlEvent::Advance => run(s, events.take(k)).migration_state is GradualMigration
                ==> run(s, events.take(k)).migration_passes(),
            _ => false,
        }
}

/// Ramp monotonicity under traffic. While requests come in and every request
/// to advance finds the candidate within the error budget, a gradual
/// migration never falls back to a smaller share, each request to advance
/// takes it further along the ramp, and once as many of them were made as the
/// ramp has steps the migration is complete, with the candidate active.
pub proof fn lemma_ramp_completes_under_traffic<E>(
    s: ControllerView<E>,
    events: Seq<ControlEvent<E>>,
)
    requires
        s.wf(),
        s.migration_state is GradualMigration,
        climbs(s, events),
    ensures
        run(s, events).wf(),
        run(s, events).config == s.config,
        run(s, events).migration_state is Complete || run(s, events).migration_state
            is GradualMigration,
        run(s, events).migration_state is Complete ==> run(s, events).active
            == s.staged.unwrap(),
        run(s, events).migration_state is GradualMigration ==> {
            &&& run(s, events).active == s.active
            &&& run(s, events).staged == s.staged
            &&& run(s, events).migration_state->GradualMigration_percentage
                >= s.migration_state->GradualMigration_percentage
            &&& first_above(
                s.config.gradual_percentages,
                run(s, events).migration_state->GradualMigration_percentage,
            ) >= first_above(
                s.config.gradual_percentages,
                s.migration_state->GradualMigration_percentage,
            ) + advances(events)
        },
        advances(events) >= s.config.gradual_percentages.len() ==> run(s, events).migration_state
            is Complete,
    decreases events.len(),
{
    let ramp = s.config.gradual_percentages;
    lemma_step_has_place(ramp, s.migration_state->GradualMigration_percentage);
    if events.len() > 0 {
        let before = events.drop_last();
        let n = before.len() as int;
        assert forall|k: int| 0 <= k < before.len() implies match #[trigger] before[k] {
            ControlEvent::Request { .. } => run(s, before.take(k)).metrics.has_room(),
            ControlEvent::Advance => run(s, before.take(k)).migration_state is GradualMigration
                ==> run(s, before.take(k)).migration_passes(),
            _ => false,
        } by {
            assert(before.take(k) =~= events.take(k));
            assert(before[k] == events[k]);
        }
        lemma_ramp_completes_under_traffic(s, before);
        let at = run(s, before);
        assert(events.take(n) =~= before);
        assert(events[n] == events.last());
        if at.migration_state is GradualMigration && events.last() is Advance {
            lemma_advance_climbs(at);
        }
    }
    let reached = run(s, events);
    if reached.migration_state is GradualMigration {
        lemma_first_above(ramp, reached.migration_state->GradualMigration_percentage);
        lemma_step_has_place(ramp, reached.migration_state->GradualMigration_percentage);
    }
}

/// Error budget. Once the candidate's error rate is above the configured
/// bound, a request to advance rolls the migration back: from gradual
/// migration at once, from shadow mode once it has its samples. The share
/// does not grow, the candidate is gone and the active engine stays.
pub proof fn lemma_over_budget_rolls_back<E>(s: ControllerView<E>)
    requires
        s.wf(),
        (s.migration_state is GradualMigration && !s.migration_passes()) || (s.migration_state
            is ShadowMode && s.shadow_sampled() && !s.shadow_passed()),
    ensures
        s.advance() == s.rollback(),
        s.advance().migration_state is RollbackComplete,
        s.advance().staged.is_none(),
        s.advance().active == s.active,
        s.advance_result() == success_view(MigrationState::RollbackComplete),
{
}

/// Rollback is idempotent: a second rollback changes nothing, and like the
/// first it succeeds with `RollbackComplete`.
pub proof fn lemma_rollback_idempotent<E>(s: ControllerView<E>)
    ensures
        s.rollback().rollback() == s.rollback(),
        s.rollback().migration_state is RollbackComplete,
{
}

/// A migration starts only from `Idle` with a candidate that has passed
/// validation, and after a migration has ended only a newly staged candidate
/// that passes validation leads back to `Idle`.
pub proof fn lemma_start_needs_fresh_staging<E>(
    s: ControllerView<E>,
    event: ControlEvent<E>,
)
    requires
        s.wf(),
        s.migration_state.is_terminal(),
    ensures
        s.start() == s,
        s.start_refusal().is_some(),
        step(s, event).migration_state is Idle ==> event is CompleteStaging && step(
            s,
            event,
        ).staging_status is ValidationPassed,
{
}

} // verus!
