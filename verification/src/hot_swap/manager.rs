//! The migration controller: the state machine that stages a candidate, runs
//! it in shadow of the active engine, hands it a growing share of requests,
//! and ends by making it the active engine or by discarding it.

use super::config::MigrationConfig;
use super::metrics::{MigrationMetrics, MigrationMetricsView};
use super::migration_id::{is_migration_id, new_migration_id};
use super::model::ControllerView;
use super::router::{candidate_role, route, settle, CandidateRole, RequestObservation};
use super::slot::EngineSlot;
use super::state::{MigrationState, StagingStatus, FULL_SCALE};
use super::validation::{
    is_validation_successful, validate, validation_report, ProbeOutcomes, ValidationResults,
};
use crate::engine::{named, versioned, MiningAlgorithm};
use crate::result::{error_view, success_view, AlgorithmResult, AlgorithmResultView};
use vstd::prelude::*;
use vstd::string::StringExecFns;

verus! {

/// The identity of an engine of the given name and version: the two, joined
/// by an underscore.
pub open spec fn identity_text(name: Seq<char>, version: Seq<char>) -> Seq<char> {
    name + seq!['_'] + version
}

/// The result is a success that carries the identity of `engine`: a name and
/// a version that the engine gives itself, joined by an underscore.
pub open spec fn identifies<E: MiningAlgorithm>(r: AlgorithmResultView<Seq<char>>, engine: &E)
    -> bool {
    exists|name: Seq<char>, version: Seq<char>|
        named(engine, name) && versioned(engine, version) && r == success_view(
            #[trigger] identity_text(name, version),
        )
}

/// The failure of a staging that is blocked.
pub open spec fn staging_in_progress() -> AlgorithmResultView<Seq<char>> {
    error_view(
        "STAGING_IN_PROGRESS"@,
        "Another algorithm is currently being staged or already staged"@,
    )
}

/// The failure of a staging whose candidate did not pass validation.
pub open spec fn validation_failed() -> AlgorithmResultView<Seq<char>> {
    error_view("VALIDATION_FAILED"@, "Algorithm validation failed"@)
}

/// The failure of a validation without a candidate that awaits it.
pub open spec fn validation_error() -> AlgorithmResultView<Seq<char>> {
    error_view("VALIDATION_ERROR"@, "Validation error: No algorithm staged"@)
}

/// The identity of an engine of the given name and version.
pub fn algorithm_identity(name: &str, version: &str) -> (identity: String)
    ensures
        identity@ == identity_text(name@, version@),
{
    let mut identity = name.to_string();
    proof {
        reveal_strlit("_");
    }
    identity.append("_");
    identity.append(version);
    assert(identity@ =~= identity_text(name@, version@));
    identity
}

/// A snapshot of a controller for observers.
#[derive(Debug)]
pub struct HotSwapStatus {
    pub active_algorithm: String,
    pub staged_algorithm: Option<String>,
    pub staging_status: StagingStatus,
    pub migration_state: MigrationState,
    pub validation_results: Option<ValidationResults>,
}

/// The snapshot that is made of a controller, given the names that the active
/// engine and the candidate gave themselves.
pub fn build_status(
    active_name: &str,
    staged_name: Option<&str>,
    staging_status: StagingStatus,
    migration_state: MigrationState,
    validation_results: Option<&ValidationResults>,
) -> (status: HotSwapStatus)
    ensures
        status.active_algorithm@ == active_name@,
        status.staged_algorithm.is_some() == staged_name.is_some(),
        staged_name.is_some() ==> status.staged_algorithm.unwrap()@ == staged_name.unwrap()@,
        status.staging_status == staging_status,
        status.migration_state == migration_state,
        status.validation_results.is_some() == validation_results.is_some(),
        validation_results.is_some() ==> status.validation_results.unwrap()@
            == validation_results.unwrap()@,
{
    HotSwapStatus {
        active_algorithm: active_name.to_string(),
        staged_algorithm: match staged_name {
            Some(name) => Some(name.to_string()),
            None => None,
        },
        staging_status,
        migration_state,
        validation_results: match validation_results {
            Some(results) => Some(results.clone()),
            None => None,
        },
    }
}

/// The migration controller of one service: the active engine, at most one
/// staged candidate, and the state of staging and migration.
pub struct AlgorithmHotSwapManager<E: MiningAlgorithm> {
    slot: EngineSlot<E>,
    staging_status: StagingStatus,
    migration_state: MigrationState,
    validation_results: Option<ValidationResults>,
    migration_config: MigrationConfig,
    migration_metrics: MigrationMetrics,
}

impl<E: MiningAlgorithm> View for AlgorithmHotSwapManager<E> {
    type V = ControllerView<E>;

    closed spec fn view(&self) -> ControllerView<E> {
        ControllerView {
            active: self.slot.active(),
            staged: self.slot.candidate(),
            staging_status: self.staging_status,
            migration_state: self.migration_state,
            validation_results: match self.validation_results {
                Some(report) => Some(report@),
                None => None,
            },
            config: self.migration_config@,
            metrics: self.migration_metrics@,
        }
    }
}

impl<E: MiningAlgorithm> AlgorithmHotSwapManager<E> {
    /// A controller with `initial_algorithm` active, nothing staged, no
    /// migration under way and the default configuration.
    pub fn new(initial_algorithm: E) -> (manager: Self)
        ensures
            manager@.wf(),
            manager@ == (ControllerView {
                active: initial_algorithm,
                staged: None,
                staging_status: StagingStatus::NotStaged,
                migration_state: MigrationState::Idle,
                validation_results: None,
                config: super::config::default_config(),
                metrics: MigrationMetricsView::zero(),
            }),
    {
        AlgorithmHotSwapManager {
            slot: EngineSlot::new(initial_algorithm),
            staging_status: StagingStatus::NotStaged,
            migration_state: MigrationState::Idle,
            validation_results: None,
            migration_config: MigrationConfig::default(),
            migration_metrics: MigrationMetrics::new(),
        }
    }

    /// A controller like a new one, with the given configuration.
    pub fn with_config(initial_algorithm: E, config: MigrationConfig) -> (manager: Self)
        requires
            config@.wf(),
        ensures
            manager@.wf(),
            manager@ == (ControllerView {
                active: initial_algorithm,
                staged: None,
                staging_status: StagingStatus::NotStaged,
                migration_state: MigrationState::Idle,
                validation_results: None,
                config: config@,
                metrics: MigrationMetricsView::zero(),
            }),
    {
        AlgorithmHotSwapManager {
            slot: EngineSlot::new(initial_algorithm),
            staging_status: StagingStatus::NotStaged,
            migration_state: MigrationState::Idle,
            validation_results: None,
            migration_config: config,
            migration_metrics: MigrationMetrics::new(),
        }
    }

    /// Hands in a candidate for staging. Where another staging is outstanding
    /// or has passed, the candidate is refused with `STAGING_IN_PROGRESS` and
    /// nothing changes. Else the candidate takes the candidate's place and
    /// awaits validation, and the call returns the identity that the
    /// candidate gives itself.
    pub fn begin_staging(&mut self, algorithm: E) -> (r: AlgorithmResult<String>)
        requires
            old(self)@.wf(),
        ensures
            final(self)@.wf(),
            final(self)@ == old(self)@.begin_staging(algorithm),
            old(self)@.staging_status.blocks_staging() ==> r@ == staging_in_progress(),
            !old(self)@.staging_status.blocks_staging() ==> identifies(r@, &algorithm),
    {
        if self.staging_status.is_blocking() {
            return AlgorithmResult::error(
                "STAGING_IN_PROGRESS",
                "Another algorithm is currently being staged or already staged",
            );
        }
        let identity = algorithm_identity(algorithm.name(), algorithm.version());
        self.slot.clear_candidate();
        match self.slot.stage(algorithm) {
            Ok(()) => {
                self.staging_status = StagingStatus::ValidationInProgress;
                AlgorithmResult::success(identity)
            },
            Err(_) => AlgorithmResult::error(
                "STAGING_IN_PROGRESS",
                "Another algorithm is currently being staged or already staged",
            ),
        }
    }

    /// Takes the outcomes of the probes of the candidate that awaits
    /// validation, stores the report and sets the staging status by it.
    /// Returns the candidate's identity where it passed and the failure
    /// `VALIDATION_FAILED` where it did not; a candidate that fails stays
    /// staged, for its report to be read. Where no candidate awaits
    /// validation the call fails with `VALIDATION_ERROR` and nothing changes.
    pub fn complete_staging(&mut self, outcomes: &ProbeOutcomes) -> (r: AlgorithmResult<String>)
        requires
            old(self)@.wf(),
        ensures
            final(self)@.wf(),
            final(self)@ == old(self)@.complete_staging(*outcomes),
            !old(self)@.awaits_validation() ==> r@ == validation_error(),
            old(self)@.awaits_validation() && !validation_report(*outcomes).is_successful() ==> r@
                == validation_failed(),
            old(self)@.awaits_validation() && validation_report(*outcomes).is_successful()
                ==> identifies(r@, &old(self)@.staged.unwrap()),
    {
        if !(self.staging_status == StagingStatus::ValidationInProgress) {
            return AlgorithmResult::error(
                "VALIDATION_ERROR",
                "Validation error: No algorithm staged",
            );
        }
        let identity = match self.slot.read_candidate() {
            Some(candidate) => algorithm_identity(candidate.name(), candidate.version()),
            None => {
                return AlgorithmResult::error(
                    "VALIDATION_ERROR",
                    "Validation error: No algorithm staged",
                );
            },
        };
        let report = validate(outcomes);
        let passed = is_validation_successful(&report);
        self.validation_results = Some(report);
        if passed {
            self.staging_status = StagingStatus::ValidationPassed;
            if self.migration_state.has_ended() {
                self.migration_state = MigrationState::Idle;
            }
            AlgorithmResult::success(identity)
        } else {
            self.staging_status = StagingStatus::ValidationFailed;
            AlgorithmResult::error("VALIDATION_FAILED", "Algorithm validation failed")
        }
    }

    /// Stages a candidate and validates it by the given outcomes of its
    /// probes, in one go.
    pub fn stage_algorithm(&mut self, algorithm: E, outcomes: &ProbeOutcomes) -> (r:
        AlgorithmResult<String>)
        requires
            old(self)@.wf(),
        ensures
            final(self)@.wf(),
            final(self)@ == old(self)@.stage(algorithm, *outcomes),
            old(self)@.staging_status.blocks_staging() ==> r@ == staging_in_progress(),
            !old(self)@.staging_status.blocks_staging() && !validation_report(
                *outcomes,
            ).is_successful() ==> r@ == validation_failed(),
            old(self)@.stage_succeeds(*outcomes) ==> identifies(r@, &algorithm),
    {
        let begun = self.begin_staging(algorithm);
        if !begun.success {
            return begun;
        }
        self.complete_staging(outcomes)
    }

    /// Starts the migration to the staged candidate: shadow mode, with every
    /// request shadowed and the counters at zero. Returns a fresh identifier
    /// of the migration. Refused, with nothing changed, where no candidate
    /// has passed validation or the controller is not idle.
    pub fn start_migration(&mut self) -> (r: AlgorithmResult<String>)
        requires
            old(self)@.wf(),
        ensures
            final(self)@.wf(),
            final(self)@ == old(self)@.start(),
            match old(self)@.start_refusal() {
                Some(refusal) => r@ == refusal,
                None => r.success && r.error.is_none() && r.data.is_some() && is_migration_id(
                    r.data.unwrap()@,
                ),
            },
    {
        if !self.staging_status.is_ready() {
            return AlgorithmResult::error(
                "NOT_READY_FOR_MIGRATION",
                "No validated algorithm available for migration",
            );
        }
        if !(self.migration_state == MigrationState::Idle) {
            return AlgorithmResult::error(
                "MIGRATION_IN_PROGRESS",
                "Migration is already in progress",
            );
        }
        self.migration_metrics.reset();
        self.migration_state = MigrationState::ShadowMode { percentage: FULL_SCALE };
        AlgorithmResult::success(new_migration_id())
    }

    /// Answers a request without counting it: returns the answer and what the
    /// request showed of the candidate.
    pub fn answer_request(&self, input: &[u8], draw: u64) -> (r: (
        AlgorithmResult<Vec<u8>>,
        RequestObservation,
    ))
        ensures
            exists|candidate: AlgorithmResult<Vec<u8>>|
                #[trigger] self@.serves(input, draw, candidate, r.0, r.1),
    {
        let decision = route(self.migration_state, draw);
        let role = candidate_role(decision, self.slot.has_candidate());
        let ghost mut returned: Option<AlgorithmResult<Vec<u8>>> = None;
        let settled = match self.slot.read_candidate() {
            Some(candidate) => {
                if role == CandidateRole::NotRun {
                    (None, RequestObservation::Nothing)
                } else {
                    let tried = candidate.hash(input);
                    proof {
                        returned = Some(tried);
                    }
                    settle(role, tried)
                }
            },
            None => (None, RequestObservation::Nothing),
        };
        let r = match settled.0 {
            Some(answer) => (answer, settled.1),
            None => (self.slot.read_active().hash(input), settled.1),
        };
        proof {
            let witness = match returned {
                Some(tried) => tried,
                None => r.0,
            };
            assert(self@.serves(input, draw, witness, r.0, r.1));
        }
        r
    }

    /// Counts what a request showed of the candidate.
    pub fn record_observation(&mut self, observation: RequestObservation)
        requires
            old(self)@.wf(),
            old(self)@.metrics.has_room(),
        ensures
            final(self)@.wf(),
            final(self)@ == old(self)@.record(observation),
    {
        match observation {
            RequestObservation::Nothing => {},
            RequestObservation::Shadow { success } => {
                self.migration_metrics.record_shadow(success);
            },
            RequestObservation::Migration { success } => {
                self.migration_metrics.record_migration(success);
            },
        }
    }

    /// Answers a request and counts what it showed of the candidate.
    pub fn process_hash_request(&mut self, input: &[u8], draw: u64) -> (r: AlgorithmResult<
        Vec<u8>,
    >)
        requires
            old(self)@.wf(),
            old(self)@.metrics.has_room(),
        ensures
            final(self)@.wf(),
            exists|candidate: AlgorithmResult<Vec<u8>>, observation: RequestObservation|
                #[trigger] old(self)@.serves(input, draw, candidate, r, observation)
                    && final(self)@ == old(self)@.record(observation),
    {
        let (answer, observation) = self.answer_request(input, draw);
        self.record_observation(observation);
        answer
    }

    /// Makes the candidate the active engine and ends the migration. Without
    /// a candidate the controller fails.
    fn finalize_migration(&mut self) -> (r: AlgorithmResult<MigrationState>)
        ensures
            final(self)@ == old(self)@.finalize(),
            r@ == old(self)@.finalize_result(),
    {
        self.migration_state = MigrationState::Finalizing;
        match self.slot.finalize() {
            Ok(()) => {
                self.migration_state = MigrationState::Complete;
                self.staging_status = StagingStatus::NotStaged;
                AlgorithmResult::success(MigrationState::Complete)
            },
            Err(_) => {
                self.migration_state = MigrationState::Failed;
                AlgorithmResult::error(
                    "NO_STAGED_ALGORITHM",
                    "No staged algorithm available for finalization",
                )
            },
        }
    }

    /// Discards the candidate, its report and the staging status, and ends
    /// the migration as rolled back. The active engine stays. Succeeds in
    /// every state.
    pub fn rollback_migration(&mut self) -> (r: AlgorithmResult<MigrationState>)
        requires
            old(self)@.wf(),
        ensures
            final(self)@.wf(),
            final(self)@ == old(self)@.rollback(),
            r@ == success_view(MigrationState::RollbackComplete),
    {
        self.migration_state = MigrationState::RollingBack;
        self.slot.clear_candidate();
        self.staging_status = StagingStatus::NotStaged;
        self.validation_results = None;
        self.migration_state = MigrationState::RollbackComplete;
        AlgorithmResult::success(MigrationState::RollbackComplete)
    }

    /// Tells whether shadow mode has counted its samples.
    fn shadow_has_samples(&self) -> (r: bool)
        requires
            self@.wf(),
        ensures
            r == self@.shadow_sampled(),
    {
        self.migration_metrics.shadow_sample_count() >= self.migration_config.shadow_sample_threshold
    }

    /// Tells whether the candidate stayed within the error budget in shadow
    /// mode.
    fn should_proceed_from_shadow_mode(&self) -> (r: bool)
        requires
            self@.wf(),
        ensures
            r == self@.shadow_passed(),
    {
        self.migration_metrics.shadow_within_budget(self.migration_config.max_error_rate)
    }

    /// Tells whether the candidate stays within the error budget in gradual
    /// migration.
    fn should_advance_migration_phase(&self) -> (r: bool)
        requires
            self@.wf(),
        ensures
            r == self@.migration_passes(),
    {
        self.migration_metrics.migration_within_budget(self.migration_config.max_error_rate)
    }

    /// Moves the migration on, if the counters allow it.
    ///
    /// In shadow mode: nothing changes before the configured number of
    /// samples; after it the migration enters the first step of the ramp if
    /// the shadow error rate is within the budget, and is rolled back if not.
    /// In gradual migration: within the budget the migration takes the next
    /// step of the ramp, or is finalized where that step is the whole; over
    /// the budget it is rolled back. Outside a migration the call fails and
    /// nothing changes.
    pub fn advance_migration(&mut self) -> (r: AlgorithmResult<MigrationState>)
        requires
            old(self)@.wf(),
        ensures
            final(self)@.wf(),
            final(self)@ == old(self)@.advance(),
            r@ == old(self)@.advance_result(),
    {
        match self.migration_state {
            MigrationState::ShadowMode { percentage } => {
                if !self.shadow_has_samples() {
                    AlgorithmResult::success(self.migration_state)
                } else if self.should_proceed_from_shadow_mode() {
                    let first = self.migration_config.first_percentage();
                    let reached = MigrationState::GradualMigration { percentage: first };
                    self.migration_state = reached;
                    AlgorithmResult::success(reached)
                } else {
                    self.rollback_migration()
                }
            },
            MigrationState::GradualMigration { percentage } => {
                if !self.should_advance_migration_phase() {
                    self.rollback_migration()
                } else {
                    let next = self.migration_config.get_next_migration_percentage(percentage);
                    proof {
                        if next.is_some() {
                            super::config::lemma_next_step_moves_on(
                                self@.config.gradual_percentages,
                                percentage,
                            );
                        }
                    }
                    match next {
                        Some(share) => {
                            if share >= FULL_SCALE {
                                self.finalize_migration()
                            } else {
                                let reached = MigrationState::GradualMigration {
                                    percentage: share,
                                };
                                self.migration_state = reached;
                                AlgorithmResult::success(reached)
                            }
                        },
                        None => self.finalize_migration(),
                    }
                }
            },
            _ => AlgorithmResult::error(
                "INVALID_MIGRATION_STATE",
                "Cannot advance migration from current state",
            ),
        }
    }

    /// A snapshot of the controller: the names that the active engine and the
    /// candidate give themselves, the two states, and a copy of the
    /// validation report.
    pub fn get_status(&self) -> (status: HotSwapStatus)
        ensures
            named(&self@.active, status.active_algorithm@),
            status.staged_algorithm.is_some() == self@.staged.is_some(),
            self@.staged.is_some() ==> named(
                &self@.staged.unwrap(),
                status.staged_algorithm.unwrap()@,
            ),
            status.staging_status == self@.staging_status,
            status.migration_state == self@.migration_state,
            status.validation_results.is_some() == self@.validation_results.is_some(),
            status.validation_results.is_some() ==> status.validation_results.unwrap()@
                == self@.validation_results.unwrap(),
    {
        let staged_name = match self.slot.read_candidate() {
            Some(candidate) => Some(candidate.name()),
            None => None,
        };
        build_status(
            self.slot.read_active().name(),
            staged_name,
            self.staging_status,
            self.migration_state,
            self.validation_results.as_ref(),
        )
    }

    /// The active engine.
    pub fn active_algorithm(&self) -> (engine: &E)
        ensures
            *engine == self@.active,
    {
        self.slot.read_active()
    }

    /// The staged candidate, if there is one.
    pub fn staged_algorithm(&self) -> (engine: Option<&E>)
        ensures
            engine.is_some() == self@.staged.is_some(),
            engine.is_some() ==> *engine.unwrap() == self@.staged.unwrap(),
    {
        self.slot.read_candidate()
    }

    /// The counters of the current migration.
    pub fn metrics(&self) -> (metrics: MigrationMetrics)
        ensures
            metrics@ == self@.metrics,
    {
        self.migration_metrics
    }

    /// The configuration.
    pub fn config(&self) -> (config: &MigrationConfig)
        ensures
            config@ == self@.config,
    {
        &self.migration_config
    }
}

} // verus!
