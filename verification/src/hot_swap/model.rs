//! The mathematical content of a controller, and the transitions that its
//! operations make.

use super::config::{next_step, MigrationConfigView};
use super::metrics::MigrationMetricsView;
use super::router::{
    candidate_answers, observation_of, role_of, routing, CandidateRole, RequestObservation,
};
use super::state::{MigrationState, StagingStatus, FULL_SCALE};
use super::validation::{validation_report, ProbeOutcomes, ValidationResultsView};
use crate::engine::{hash_answers, MiningAlgorithm};
use crate::result::{error_view, success_view, AlgorithmResult, AlgorithmResultView};
use vstd::prelude::*;

verus! {

/// The mathematical content of a controller.
pub struct ControllerView<E> {
    pub active: E,
    pub staged: Option<E>,
    pub staging_status: StagingStatus,
    pub migration_state: MigrationState,
    pub validation_results: Option<ValidationResultsView>,
    pub config: MigrationConfigView,
    pub metrics: MigrationMetricsView,
}

impl<E> ControllerView<E> {
    /// What holds of a controller between any two operations.
    ///
    /// A candidate is present exactly while the staging status is not
    /// `NotStaged`. Requests reach the candidate only while it is staged and
    /// has passed validation. A passed or failed validation has its report.
    /// The transient states `Finalizing` and `RollingBack` are never left
    /// standing. The share of gradual migration is a step of the ramp.
    pub open spec fn wf(self) -> bool {
        &&& self.config.wf()
        &&& self.metrics.wf()
        &&& self.staged.is_some() <==> !(self.staging_status is NotStaged)
        &&& self.migration_state.is_migrating() ==> self.staging_status.ready_for_migration()
        &&& self.staging_status.ready_for_migration() ==> !self.migration_state.is_terminal()
        &&& !(self.migration_state is Finalizing) && !(self.migration_state is RollingBack)
        &&& self.staging_status is ValidationPassed ==> self.validation_results.is_some()
            && self.validation_results.unwrap().is_successful()
        &&& self.staging_status is ValidationFailed ==> self.validation_results.is_some()
            && !self.validation_results.unwrap().is_successful()
        &&& match self.migration_state {
            MigrationState::ShadowMode { percentage } => percentage <= FULL_SCALE,
            MigrationState::GradualMigration { percentage } => self.config.gradual_percentages.contains(
                percentage,
            ),
            _ => true,
        }
    }

    /// The controller after a candidate was handed in for staging: where
    /// staging is blocked, as before; else with the candidate in place, in
    /// place of a candidate that failed validation if there was one, and its
    /// validation in progress.
    pub open spec fn begin_staging(self, candidate: E) -> Self {
        if self.staging_status.blocks_staging() {
            self
        } else {
            ControllerView {
                staged: Some(candidate),
                staging_status: StagingStatus::ValidationInProgress,
                ..self
            }
        }
    }

    /// A validation is in progress on a candidate.
    pub open spec fn awaits_validation(self) -> bool {
        self.staging_status is ValidationInProgress && self.staged.is_some()
    }

    /// The controller after the probes of the candidate came back: where no
    /// validation was in progress, as before; else with the report stored
    /// and the status set by it. A passed validation leads from an ended
    /// migration back to `Idle`.
    pub open spec fn complete_staging(self, outcomes: ProbeOutcomes) -> Self {
        if !self.awaits_validation() {
            self
        } else if validation_report(outcomes).is_successful() {
            ControllerView {
                staging_status: StagingStatus::ValidationPassed,
                validation_results: Some(validation_report(outcomes)),
                migration_state: if self.migration_state.is_terminal() {
                    MigrationState::Idle
                } else {
                    self.migration_state
                },
                ..self
            }
        } else {
            ControllerView {
                staging_status: StagingStatus::ValidationFailed,
                validation_results: Some(validation_report(outcomes)),
                ..self
            }
        }
    }

    /// The controller after a candidate was staged and validated in one go.
    pub open spec fn stage(self, candidate: E, outcomes: ProbeOutcomes) -> Self {
        if self.staging_status.blocks_staging() {
            self
        } else {
            self.begin_staging(candidate).complete_staging(outcomes)
        }
    }

    /// Staging a candidate with these probe outcomes succeeds: staging is not
    /// blocked and the report passes.
    pub open spec fn stage_succeeds(self, outcomes: ProbeOutcomes) -> bool {
        !self.staging_status.blocks_staging() && validation_report(outcomes).is_successful()
    }

    /// Why a migration cannot start now, if it cannot: no candidate has
    /// passed validation, or the controller is not idle.
    pub open spec fn start_refusal(self) -> Option<AlgorithmResultView<Seq<char>>> {
        if !self.staging_status.ready_for_migration() {
            Some(
                error_view(
                    "NOT_READY_FOR_MIGRATION"@,
                    "No validated algorithm available for migration"@,
                ),
            )
        } else if !(self.migration_state is Idle) {
            Some(error_view("MIGRATION_IN_PROGRESS"@, "Migration is already in progress"@))
        } else {
            None
        }
    }

    /// The controller after a migration was asked to start: where it is
    /// refused, as before; else in shadow mode, every request shadowed, with
    /// the counters at zero.
    pub open spec fn start(self) -> Self {
        if self.start_refusal().is_some() {
            self
        } else {
            ControllerView {
                migration_state: MigrationState::ShadowMode { percentage: FULL_SCALE },
                metrics: MigrationMetricsView::zero(),
                ..self
            }
        }
    }

    /// What a request with the given draw asks of the candidate.
    pub open spec fn candidate_role(self, draw: u64) -> CandidateRole {
        role_of(routing(self.migration_state, draw), self.staged.is_some())
    }

    /// The controller after an observation was counted.
    pub open spec fn record(self, observation: RequestObservation) -> Self {
        match observation {
            RequestObservation::Nothing => self,
            RequestObservation::Shadow { success } => ControllerView {
                metrics: self.metrics.with_shadow(success),
                ..self
            },
            RequestObservation::Migration { success } => ControllerView {
                metrics: self.metrics.with_migration(success),
                ..self
            },
        }
    }

    /// The controller after a finalization: with a candidate, the candidate
    /// active, no candidate staged and the migration complete; without one,
    /// failed.
    pub open spec fn finalize(self) -> Self {
        match self.staged {
            Some(candidate) => ControllerView {
                active: candidate,
                staged: None,
                staging_status: StagingStatus::NotStaged,
                migration_state: MigrationState::Complete,
                ..self
            },
            None => ControllerView { migration_state: MigrationState::Failed, ..self },
        }
    }

    /// What a finalization returns.
    pub open spec fn finalize_result(self) -> AlgorithmResultView<MigrationState> {
        if self.staged.is_some() {
            success_view(MigrationState::Complete)
        } else {
            error_view("NO_STAGED_ALGORITHM"@, "No staged algorithm available for finalization"@)
        }
    }

    /// The controller after a rollback: no candidate, no report, nothing
    /// staged, the migration rolled back; the active engine, the counters and
    /// the configuration as before.
    pub open spec fn rollback(self) -> Self {
        ControllerView {
            staged: None,
            staging_status: StagingStatus::NotStaged,
            validation_results: None,
            migration_state: MigrationState::RollbackComplete,
            ..self
        }
    }

    /// The candidate stayed within the error budget in shadow mode.
    pub open spec fn shadow_passed(self) -> bool {
        self.metrics.shadow_within(self.config.max_error_rate)
    }

    /// Shadow mode has counted as many samples as the configuration asks for.
    pub open spec fn shadow_sampled(self) -> bool {
        self.metrics.shadow_samples() >= self.config.shadow_sample_threshold
    }

    /// The candidate stays within the error budget in gradual migration.
    pub open spec fn migration_passes(self) -> bool {
        self.metrics.migration_within(self.config.max_error_rate)
    }

    /// The step of gradual migration after `percentage`: the next share of
    /// the ramp below the whole, or nothing where the next step is the whole
    /// or there is none, and the migration is to be finalized.
    pub open spec fn ramp_after(self, percentage: u32) -> Option<u32> {
        match next_step(self.config.gradual_percentages, percentage) {
            Some(next) => if next < FULL_SCALE {
                Some(next)
            } else {
                None
            },
            None => None,
        }
    }

    /// The controller after it was asked to advance.
    ///
    /// Shadow mode is left once it has its samples: for the first step of the
    /// ramp where the candidate stayed within the error budget, by rollback
    /// where it did not. Gradual migration goes on to the next step of the
    /// ramp, or is finalized where that step is the whole, while the
    /// candidate stays within the error budget, and is rolled back once it
    /// does not. In every other case nothing changes.
    pub open spec fn advance(self) -> Self {
        match self.migration_state {
            MigrationState::ShadowMode { percentage } => {
                if !self.shadow_sampled() {
                    self
                } else if self.shadow_passed() {
                    ControllerView {
                        migration_state: MigrationState::GradualMigration {
                            percentage: self.config.first_step(),
                        },
                        ..self
                    }
                } else {
                    self.rollback()
                }
            },
            MigrationState::GradualMigration { percentage } => {
                if !self.migration_passes() {
                    self.rollback()
                } else {
                    match self.ramp_after(percentage) {
                        Some(next) => ControllerView {
                            migration_state: MigrationState::GradualMigration { percentage: next },
                            ..self
                        },
                        None => self.finalize(),
                    }
                }
            },
            _ => self,
        }
    }

    /// What asking to advance returns: the state reached, or the failure
    /// `INVALID_MIGRATION_STATE` outside a migration.
    pub open spec fn advance_result(self) -> AlgorithmResultView<MigrationState> {
        if !self.migration_state.is_migrating() {
            error_view("INVALID_MIGRATION_STATE"@, "Cannot advance migration from current state"@)
        } else if self.advance().migration_state is Failed {
            self.finalize_result()
        } else {
            success_view(self.advance().migration_state)
        }
    }
}

impl<E: MiningAlgorithm> ControllerView<E> {
    /// `answer` and `observation` are what a request for `input` with the
    /// given draw yields, where the candidate, if the request runs it,
    /// returns `candidate`.
    ///
    /// The routing and the presence of a candidate fix the role of the
    /// candidate. A candidate with a role is asked, and what is counted is
    /// whether it succeeded. The caller gets the candidate's answer where the
    /// candidate was to answer and succeeded; in every other case the caller
    /// gets an answer of the active engine.
    pub open spec fn serves(
        self,
        input: &[u8],
        draw: u64,
        candidate: AlgorithmResult<Vec<u8>>,
        answer: AlgorithmResult<Vec<u8>>,
        observation: RequestObservation,
    ) -> bool {
        let role = self.candidate_role(draw);
        &&& !(role is NotRun) ==> hash_answers(&self.staged.unwrap(), input, candidate)
        &&& observation == observation_of(role, candidate.success)
        &&& if candidate_answers(role, candidate.success) {
            answer == candidate
        } else {
            hash_answers(&self.active, input, answer)
        }
    }
}

} // verus!
