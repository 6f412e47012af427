//! Request routing: which engine answers a request, and whether the candidate
//! is also run for measurement.
//!
//! Each request comes with a draw, any number that the caller chose for it (a
//! random number, or a hash of what identifies the request). The draw is
//! reduced to a number of basis points and compared with the share of the
//! current migration state.

use super::state::{MigrationState, FULL_SCALE};
use crate::result::AlgorithmResult;
use vstd::prelude::*;

verus! {

/// The engine whose answer the caller gets.
#[derive(Debug, Clone, Copy, PartialEq, Eq, Structural)]
pub enum Primary {
    Active,
    Candidate,
}

/// How one request is routed.
#[derive(Debug, Clone, Copy, PartialEq, Eq, Structural)]
pub struct RoutingDecision {
    pub primary: Primary,
    pub shadow_candidate_too: bool,
}

/// What a request showed of the candidate, to be counted in the metrics.
#[derive(Debug, Clone, Copy, PartialEq, Eq, Structural)]
pub enum RequestObservation {
    /// The candidate was not run.
    Nothing,
    /// The candidate was run in shadow of the active engine.
    Shadow { success: bool },
    /// The candidate was run to answer the request.
    Migration { success: bool },
}

/// The draw falls in the share of `percentage` basis points.
pub open spec fn selects(draw: u64, percentage: u32) -> bool {
    draw % (FULL_SCALE as u64) < percentage
}

/// The routing of a request with the given draw in the given state.
///
/// In shadow mode the active engine answers, and the candidate is run too for
/// the share of draws that the state gives. In gradual migration the
/// candidate answers for that share of draws and the active engine for the
/// rest. In every other state the active engine answers alone.
pub open spec fn routing(state: MigrationState, draw: u64) -> RoutingDecision {
    match state {
        MigrationState::ShadowMode { percentage } => RoutingDecision {
            primary: Primary::Active,
            shadow_candidate_too: selects(draw, percentage),
        },
        MigrationState::GradualMigration { percentage } => RoutingDecision {
            primary: if selects(draw, percentage) {
                Primary::Candidate
            } else {
                Primary::Active
            },
            shadow_candidate_too: false,
        },
        _ => RoutingDecision { primary: Primary::Active, shadow_candidate_too: false },
    }
}

/// What a request asks of the candidate.
#[derive(Debug, Clone, Copy, PartialEq, Eq, Structural)]
pub enum CandidateRole {
    /// The candidate is not run.
    NotRun,
    /// The candidate is run for measurement; the active engine answers.
    Shadow,
    /// The candidate is run to answer; the active engine answers if it fails.
    Primary,
}

/// The role of the candidate in a request that is routed by `decision`,
/// given whether a candidate is staged.
pub open spec fn role_of(decision: RoutingDecision, staged: bool) -> CandidateRole {
    if !staged {
        CandidateRole::NotRun
    } else if decision.shadow_candidate_too {
        CandidateRole::Shadow
    } else if decision.primary == Primary::Candidate {
        CandidateRole::Primary
    } else {
        CandidateRole::NotRun
    }
}

/// What is counted of a request in which the candidate had the given role
/// and, where it was run, hashed with the given success.
pub open spec fn observation_of(role: CandidateRole, candidate_success: bool)
    -> RequestObservation {
    match role {
        CandidateRole::NotRun => RequestObservation::Nothing,
        CandidateRole::Shadow => RequestObservation::Shadow { success: candidate_success },
        CandidateRole::Primary => RequestObservation::Migration { success: candidate_success },
    }
}

/// The candidate's answer goes to the caller: it was run to answer and its
/// hash succeeded.
pub open spec fn candidate_answers(role: CandidateRole, candidate_success: bool) -> bool {
    role is Primary && candidate_success
}

/// Tells whether the draw falls in the share of `percentage` basis points.
pub fn should_use_staged_algorithm(draw: u64, percentage: u32) -> (r: bool)
    ensures
        r == selects(draw, percentage),
{
    draw % (FULL_SCALE as u64) < (percentage as u64)
}

/// Routes one request.
pub fn route(state: MigrationState, draw: u64) -> (decision: RoutingDecision)
    ensures
        decision == routing(state, draw),
{
    match state {
        MigrationState::ShadowMode { percentage } => RoutingDecision {
            primary: Primary::Active,
            shadow_candidate_too: should_use_staged_algorithm(draw, percentage),
        },
        MigrationState::GradualMigration { percentage } => {
            if should_use_staged_algorithm(draw, percentage) {
                RoutingDecision { primary: Primary::Candidate, shadow_candidate_too: false }
            } else {
                RoutingDecision { primary: Primary::Active, shadow_candidate_too: false }
            }
        },
        _ => RoutingDecision { primary: Primary::Active, shadow_candidate_too: false },
    }
}

/// Tells the role of the candidate in a request that is routed by
/// `decision`.
pub fn candidate_role(decision: RoutingDecision, staged: bool) -> (role: CandidateRole)
    ensures
        role == role_of(decision, staged),
{
    if !staged {
        CandidateRole::NotRun
    } else if decision.shadow_candidate_too {
        CandidateRole::Shadow
    } else if decision.primary == Primary::Candidate {
        CandidateRole::Primary
    } else {
        CandidateRole::NotRun
    }
}

/// Settles a request in which the candidate was run and returned `candidate`:
/// tells what is to be counted, and hands the candidate's answer on if it
/// goes to the caller. Where it hands on nothing, the active engine is to
/// answer: in shadow mode always, and in gradual migration where the
/// candidate failed, so that no caller sees a failure of the candidate alone.
pub fn settle(role: CandidateRole, candidate: AlgorithmResult<Vec<u8>>) -> (r: (
    Option<AlgorithmResult<Vec<u8>>>,
    RequestObservation,
))
    ensures
        r.1 == observation_of(role, candidate.success),
        r.0 == if candidate_answers(role, candidate.success) {
            Some(candidate)
        } else {
            None
        },
{
    match role {
        CandidateRole::NotRun => (None, RequestObservation::Nothing),
        CandidateRole::Shadow => (None, RequestObservation::Shadow { success: candidate.success }),
        CandidateRole::Primary => {
            let observation = RequestObservation::Migration { success: candidate.success };
            if candidate.success {
                (Some(candidate), observation)
            } else {
                (None, observation)
            }
        },
    }
}

/// Outside a migration the candidate gets no request; a share of nothing
/// selects no draw, and a share of the whole selects every draw.
pub proof fn lemma_routing_extremes(state: MigrationState, draw: u64)
    ensures
        !state.is_migrating() ==> routing(state, draw) == (RoutingDecision {
            primary: Primary::Active,
            shadow_candidate_too: false,
        }),
        !selects(draw, 0),
        selects(draw, FULL_SCALE),
        state is ShadowMode ==> routing(state, draw).primary == Primary::Active,
        forall|staged: bool|
            !state.is_migrating() ==> #[trigger] role_of(routing(state, draw), staged)
                is NotRun,
        forall|staged: bool|
            state is ShadowMode ==> !(#[trigger] role_of(routing(state, draw), staged)
                is Primary),
{
}

/// A larger share selects every draw that a smaller share selects.
pub proof fn lemma_selects_monotone(draw: u64, smaller: u32, larger: u32)
    requires
        smaller <= larger,
        selects(draw, smaller),
    ensures
        selects(draw, larger),
{
}

/// Of the draws `0` to `FULL_SCALE - 1`, a share of `percentage` basis points
/// selects exactly `percentage`: over evenly spread draws the candidate gets
/// the configured share of requests.
pub proof fn lemma_share_of_draws(percentage: u32)
    requires
        percentage <= FULL_SCALE,
    ensures
        Set::new(|d: int| 0 <= d < FULL_SCALE && selects(d as u64, percentage)).len()
            == percentage,
{
    let chosen = Set::new(|d: int| 0 <= d < FULL_SCALE && selects(d as u64, percentage));
    let below = Set::new(|d: int| 0 <= d < percentage);
    assert forall|d: int| chosen.contains(d) <==> below.contains(d) by {
        if 0 <= d < FULL_SCALE {
            vstd::arithmetic::div_mod::lemma_small_mod(d as nat, FULL_SCALE as nat);
            assert((d as u64) % (FULL_SCALE as u64) == d);
        }
    }
    assert(chosen =~= below);
    vstd::set_lib::lemma_int_range(0, percentage as int);
    assert(below =~= vstd::set_lib::set_int_range(0, percentage as int));
}

} // verus!
