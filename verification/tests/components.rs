//! The parts of the engine crate one by one: the difficulty test, the
//! engines, the registry, the validation pipeline, the metrics, the router
//! and the slot.

use algorithm_engine::algorithms::{floor_log2, ScryptParams};
use algorithm_engine::engine::{nonce_input, verify_hashed};
use algorithm_engine::hot_swap::{
    is_validation_successful, route, settle, validate, CandidateRole, EngineSlot,
    MigrationConfig, MigrationMetrics, MigrationState, Primary, ProbeOutcomes,
    RequestObservation, RoutingDecision, SlotError, StagingStatus,
};
use algorithm_engine::target::{check_target, is_all_ones, is_lex_less};
use algorithm_engine::{
    AlgorithmRegistry, AlgorithmResult, Blake2SAlgorithm, MiningAlgorithm, ScryptAlgorithm,
    Sha256dAlgorithm,
};

fn hex(bytes: &[u8]) -> String {
    bytes.iter().map(|b| format!("{:02x}", b)).collect()
}

#[test]
fn target_empty_is_never_met() {
    assert!(!check_target(&[0; 32], &[]));
    assert!(!check_target(&[], &[]));
}

#[test]
fn target_of_ones_is_always_met() {
    assert!(check_target(&[0xFF; 32], &[0xFF; 32]));
    assert!(check_target(&[0xFF; 32], &[0xFF]));
    assert!(check_target(&[], &[0xFF, 0xFF]));
    assert!(is_all_ones(&[]));
    assert!(!is_all_ones(&[0xFF, 0xFE]));
}

#[test]
fn target_is_compared_lexicographically_at_equal_length() {
    assert!(check_target(&[0, 1, 9], &[0, 2, 0]));
    assert!(!check_target(&[0, 2, 0], &[0, 2, 0]));
    assert!(!check_target(&[0, 2, 1], &[0, 2, 0]));
    assert!(!check_target(&[1, 0, 0], &[0, 0xFF, 0xFF]));
    // A digest of another length does not meet a target that is not all ones
    assert!(!check_target(&[0, 0], &[0, 2, 0]));
    assert!(!check_target(&[0, 0, 0, 0], &[0, 2, 0]));
}

#[test]
fn lexicographic_order_of_byte_strings() {
    assert!(is_lex_less(&[1, 2], &[1, 3]));
    assert!(is_lex_less(&[1, 2], &[1, 2, 0]));
    assert!(is_lex_less(&[], &[0]));
    assert!(!is_lex_less(&[1, 2], &[1, 2]));
    assert!(!is_lex_less(&[1, 2, 0], &[1, 2]));
    assert!(!is_lex_less(&[2], &[1, 9, 9]));
    assert!(!is_lex_less(&[], &[]));
}

#[test]
fn nonce_is_appended_least_significant_byte_first() {
    assert_eq!(
        nonce_input(&[0xAA, 0xBB], 0x0102030405060708),
        vec![0xAA, 0xBB, 8, 7, 6, 5, 4, 3, 2, 1]
    );
    assert_eq!(nonce_input(&[], 1), vec![1, 0, 0, 0, 0, 0, 0, 0]);
}

#[test]
fn verify_is_the_target_test_of_the_nonce_extended_hash() {
    let engine = Blake2SAlgorithm::new();
    let digest = engine.hash(&nonce_input(b"header", 42)).data.unwrap();
    // A target just above the digest is met, the digest itself is not
    let mut above = digest.clone();
    let last = above.iter().rposition(|b| *b != 0xFF).unwrap();
    above[last] += 1;
    assert_eq!(engine.verify(b"header", &above, 42).data, Some(true));
    assert_eq!(engine.verify(b"header", &digest, 42).data, Some(false));
    assert_eq!(engine.verify(b"header", &[], 42).data, Some(false));
    assert_eq!(engine.verify(b"header", &[0xFF; 3], 42).data, Some(true));
    // Another nonce is another digest
    assert_ne!(engine.hash(&nonce_input(b"header", 43)).data.unwrap(), digest);
}

#[test]
fn verify_of_a_failed_hash_is_hash_failed() {
    let failed: AlgorithmResult<Vec<u8>> = AlgorithmResult::error("X", "y");
    let result = verify_hashed(&failed, &[0xFF; 32]);
    assert!(!result.success);
    assert!(result.data.is_none());
    let error = result.error.unwrap();
    assert_eq!(error.code, "HASH_FAILED");
    assert_eq!(error.message, "Failed to hash input for verification");

    // Success without data is no digest either
    let hollow = AlgorithmResult::<Vec<u8>> { success: true, data: None, error: None };
    assert_eq!(verify_hashed(&hollow, &[0xFF]).error.unwrap().code, "HASH_FAILED");

    // An engine whose parameters are refused cannot verify
    let engine = ScryptAlgorithm::with_params(ScryptParams { n: 1024, r: 1, p: 1, key_len: 5 });
    assert_eq!(engine.verify(b"x", &[0xFF; 32], 1).error.unwrap().code, "HASH_FAILED");
}

#[test]
fn sha256d_of_hello() {
    let digest = Sha256dAlgorithm::new().hash(b"hello").data.unwrap();
    assert_eq!(hex(&digest), "9595c9df90075148eb06860365df33584b75bff782a510c6cd4883a419833d50");
}

#[test]
fn blake2s_of_abc_differs_from_its_input() {
    let digest = Blake2SAlgorithm::new().hash(b"abc").data.unwrap();
    assert_eq!(hex(&digest), "508c5e8c327c14e2e1a72ba34eeb452f37458b209ed63a294d999b4c86675982");
}

#[test]
fn scrypt_of_the_empty_input() {
    // The key of the empty password and salt with cost 16, block size 1 and
    // parallelism 1
    let engine = ScryptAlgorithm::with_params(ScryptParams { n: 16, r: 1, p: 1, key_len: 64 });
    let key = engine.hash(b"").data.unwrap();
    assert_eq!(
        hex(&key),
        "77d6576238657b203b19ca42c18a0497f16b4844e3074ae8dfdffa3fede21442\
         fcd0069ded0948f8326a753a0fc81f17e8d3e0fb2e0d3628cf35e20c38d18906"
    );
    // A cost between two powers of two counts as the lower one
    let rounded = ScryptAlgorithm::with_params(ScryptParams { n: 31, r: 1, p: 1, key_len: 64 });
    assert_eq!(rounded.hash(b"").data.unwrap(), key);
}

#[test]
fn scrypt_refuses_bad_parameters() {
    for params in [
        ScryptParams { n: 1024, r: 1, p: 1, key_len: 9 },
        ScryptParams { n: 1024, r: 1, p: 1, key_len: 65 },
        ScryptParams { n: 1024, r: 0, p: 1, key_len: 32 },
        ScryptParams { n: 1024, r: 1, p: 0, key_len: 32 },
        // The cost must stay below 2^(16 r)
        ScryptParams { n: 1 << 16, r: 1, p: 1, key_len: 32 },
        // r p must stay below 2^30
        ScryptParams { n: 2, r: 1 << 15, p: 1 << 15, key_len: 32 },
        // More working memory than one allocation may hold
        ScryptParams { n: 1 << 31, r: 1 << 25, p: 1, key_len: 32 },
    ] {
        let result = ScryptAlgorithm::with_params(params).hash(b"input");
        assert!(!result.success, "{:?}", params);
        assert!(result.data.is_none());
        let error = result.error.unwrap();
        assert_eq!(error.code, "INVALID_PARAMS");
        assert_eq!(error.message, "Invalid scrypt params: invalid scrypt parameters");
    }
    // The bounds themselves are accepted
    for key_len in [10, 64] {
        let engine =
            ScryptAlgorithm::with_params(ScryptParams { n: 2, r: 1, p: 1, key_len });
        assert_eq!(engine.hash(b"input").data.unwrap().len(), key_len);
    }
    let engine = ScryptAlgorithm::with_params(ScryptParams { n: 1 << 15, r: 1, p: 1, key_len: 32 });
    assert!(engine.hash(b"input").success);
}

#[test]
fn scrypt_defaults_are_those_of_litecoin() {
    let params = ScryptParams::default();
    assert_eq!((params.n, params.r, params.p, params.key_len), (1024, 1, 1, 32));
    let engine = ScryptAlgorithm::default();
    assert_eq!(engine.params.n, 1024);
    assert_eq!(engine.hash(b"x").data, ScryptAlgorithm::litecoin().hash(b"x").data);
}

#[test]
fn whole_binary_logarithm() {
    assert_eq!(floor_log2(0), 0);
    assert_eq!(floor_log2(1), 0);
    assert_eq!(floor_log2(2), 1);
    assert_eq!(floor_log2(3), 1);
    assert_eq!(floor_log2(1023), 9);
    assert_eq!(floor_log2(1024), 10);
    assert_eq!(floor_log2(u32::MAX), 31);
}

#[test]
fn registry_finds_engines_by_name() {
    let registry = AlgorithmRegistry::new();
    assert_eq!(registry.list(), vec!["blake2s", "scrypt", "sha256d"]);
    assert_eq!(registry.get("scrypt").unwrap().name(), "scrypt");
    assert_eq!(registry.get("sha256d").unwrap().version(), "1.0.0");
    assert!(registry.get("sha256").is_none());
    assert!(registry.get("").is_none());
    assert_eq!(
        registry.hash("blake2s", b"abc").data,
        Blake2SAlgorithm::new().hash(b"abc").data
    );
    assert_eq!(
        registry.hash("sha256d", b"abc").data,
        Sha256dAlgorithm::new().hash(b"abc").data
    );
    assert_eq!(registry.verify("blake2s", b"abc", &[0xFF; 32], 7).data, Some(true));
    assert_eq!(registry.verify("scrypt", b"abc", &[], 7).data, Some(false));
}

#[test]
fn registry_reports_unknown_names() {
    let registry = AlgorithmRegistry::new();
    let result = registry.hash("unknown_algo", b"test");
    let error = result.error.unwrap();
    assert_eq!(error.code, "ALGO_NOT_FOUND");
    assert_eq!(error.message, "Algorithm not found: unknown_algo");
    assert!(error.details.is_empty());
    let result = registry.verify("nope", b"test", &[0xFF], 1);
    assert!(!result.success);
    assert_eq!(result.error.unwrap().message, "Algorithm not found: nope");
}

#[test]
fn registry_replaces_an_engine_of_the_same_name() {
    let mut registry: AlgorithmRegistry<ScryptAlgorithm> = AlgorithmRegistry::empty();
    assert!(registry.list().is_empty());
    registry.register(ScryptAlgorithm::litecoin());
    registry.register_as("light".to_string(), ScryptAlgorithm::with_params(ScryptParams {
        n: 2,
        r: 1,
        p: 1,
        key_len: 16,
    }));
    assert_eq!(registry.list(), vec!["scrypt", "light"]);
    assert_eq!(registry.hash("scrypt", b"x").data.unwrap().len(), 32);
    registry.register(ScryptAlgorithm::with_params(ScryptParams {
        n: 2,
        r: 1,
        p: 1,
        key_len: 20,
    }));
    // The name keeps its place and gets the new engine
    assert_eq!(registry.list(), vec!["scrypt", "light"]);
    assert_eq!(registry.get("scrypt").unwrap().params.key_len, 20);
    assert_eq!(registry.hash("scrypt", b"x").data.unwrap().len(), 20);
    assert_eq!(registry.hash("light", b"x").data.unwrap().len(), 16);
}

#[test]
fn validation_notes_each_failed_check_in_order() {
    let report = validate(&ProbeOutcomes {
        compatibility: false,
        performance: 7_999,
        security: false,
        test_vectors: false,
        memory: false,
    });
    assert_eq!(
        report.errors,
        vec!["Compatibility check failed", "Security validation failed", "Test vectors failed"]
    );
    assert_eq!(
        report.warnings,
        vec!["Performance below expected threshold", "High memory usage detected"]
    );
    assert!(!report.compatibility_check);
    assert_eq!(report.performance_benchmark, 7_999);
    assert!(!is_validation_successful(&report));
}

#[test]
fn advisory_checks_do_not_block() {
    let report = validate(&ProbeOutcomes {
        compatibility: true,
        performance: 0,
        security: true,
        test_vectors: true,
        memory: false,
    });
    assert!(report.errors.is_empty());
    assert_eq!(report.warnings.len(), 2);
    assert!(is_validation_successful(&report));

    // The threshold itself draws no warning
    let report = validate(&ProbeOutcomes {
        compatibility: true,
        performance: 8_000,
        security: true,
        test_vectors: true,
        memory: true,
    });
    assert!(report.warnings.is_empty());
    let copy = report.clone();
    assert_eq!(copy.performance_benchmark, 8_000);
    assert!(copy.memory_requirements_met && copy.warnings.is_empty());
}

#[test]
fn each_blocking_check_blocks() {
    let sound = ProbeOutcomes {
        compatibility: true,
        performance: 10_000,
        security: true,
        test_vectors: true,
        memory: true,
    };
    assert!(is_validation_successful(&validate(&sound)));
    assert!(!is_validation_successful(&validate(&ProbeOutcomes { compatibility: false, ..sound })));
    assert!(!is_validation_successful(&validate(&ProbeOutcomes { security: false, ..sound })));
    assert!(!is_validation_successful(&validate(&ProbeOutcomes { test_vectors: false, ..sound })));
    // An error that was noted blocks even where the flags hold
    let mut report = validate(&sound);
    report.errors.push("late finding".to_string());
    assert!(!is_validation_successful(&report));
}

#[test]
fn default_configuration() {
    let config = MigrationConfig::default();
    assert_eq!(config.shadow_duration_secs, 300);
    assert_eq!(config.phase_duration_secs, 600);
    assert!(config.rollback_on_error);
    assert_eq!(config.max_error_rate, 500);
    assert_eq!(config.gradual_percentages, vec![100, 500, 1_000, 2_500, 5_000, 7_500, 10_000]);
    assert_eq!(config.shadow_sample_threshold, 50);
    assert!(config.is_well_formed());
    assert_eq!(config.first_percentage(), 100);
    let copy = config.clone();
    assert_eq!(copy.gradual_percentages, config.gradual_percentages);
    assert_eq!(copy.max_error_rate, 500);
}

#[test]
fn next_step_of_the_ramp() {
    let config = MigrationConfig::default();
    assert_eq!(config.get_next_migration_percentage(0), Some(100));
    assert_eq!(config.get_next_migration_percentage(100), Some(500));
    assert_eq!(config.get_next_migration_percentage(600), Some(1_000));
    assert_eq!(config.get_next_migration_percentage(7_500), Some(10_000));
    assert_eq!(config.get_next_migration_percentage(10_000), None);
    assert_eq!(config.get_next_migration_percentage(u32::MAX), None);
}

#[test]
fn malformed_configurations_are_told_apart() {
    let sound = MigrationConfig::default();
    let with_ramp = |ramp: Vec<u32>| MigrationConfig { gradual_percentages: ramp, ..sound.clone() };
    assert!(!with_ramp(vec![]).is_well_formed());
    assert!(!with_ramp(vec![100, 5_000]).is_well_formed());
    assert!(!with_ramp(vec![5_000, 100, 10_000]).is_well_formed());
    assert!(!with_ramp(vec![100, 10_000, 20_000]).is_well_formed());
    assert!(with_ramp(vec![10_000]).is_well_formed());
    assert!(with_ramp(vec![0, 100, 100, 10_000]).is_well_formed());
    assert!(!MigrationConfig { max_error_rate: 10_001, ..sound.clone() }.is_well_formed());
    assert!(MigrationConfig { max_error_rate: 10_000, ..sound.clone() }.is_well_formed());
}

#[test]
fn metrics_count_and_derive_rates() {
    let mut metrics = MigrationMetrics::new();
    assert_eq!(metrics.shadow_sample_count(), 0);
    assert_eq!(metrics.shadow_error_rate(), 0);
    assert_eq!(metrics.migration_error_rate(), 0);
    assert!(metrics.shadow_within_budget(0));
    assert!(metrics.migration_within_budget(0));

    for _ in 0..7 {
        metrics.record_shadow(true);
    }
    for _ in 0..3 {
        metrics.record_shadow(false);
    }
    metrics.record_migration(false);
    metrics.record_migration(true);
    metrics.record_migration(true);
    assert_eq!(metrics.shadow_mode_successes, 7);
    assert_eq!(metrics.shadow_mode_errors, 3);
    assert_eq!(metrics.shadow_sample_count(), 10);
    assert_eq!(metrics.migration_sample_count(), 3);
    assert_eq!(metrics.shadow_error_rate(), 3_000);
    // A third, rounded down
    assert_eq!(metrics.migration_error_rate(), 3_333);
    assert!(metrics.shadow_within_budget(3_000));
    assert!(!metrics.shadow_within_budget(2_999));
    // The comparison is exact: a third is above 33.33%
    assert!(!metrics.migration_within_budget(3_333));
    assert!(metrics.migration_within_budget(3_334));

    metrics.reset();
    assert_eq!(metrics, MigrationMetrics::default());
    assert_eq!(metrics.migration_sample_count(), 0);
}

#[test]
fn metrics_know_their_limits() {
    let mut metrics = MigrationMetrics::new();
    assert!(metrics.is_well_formed());
    assert!(metrics.can_record());
    metrics.shadow_mode_successes = u64::MAX - 1;
    assert!(metrics.can_record());
    metrics.record_shadow(false);
    assert!(metrics.is_well_formed());
    assert!(!metrics.can_record());
    assert_eq!(metrics.shadow_sample_count(), u64::MAX);
    assert_eq!(metrics.shadow_error_rate(), 0);
    assert!(metrics.shadow_within_budget(1));
    metrics.shadow_mode_errors = 2;
    assert!(!metrics.is_well_formed());
}

#[test]
fn routing_by_state_and_draw() {
    let active_alone = RoutingDecision { primary: Primary::Active, shadow_candidate_too: false };
    for state in [
        MigrationState::Idle,
        MigrationState::Finalizing,
        MigrationState::Complete,
        MigrationState::RollingBack,
        MigrationState::RollbackComplete,
        MigrationState::Failed,
    ] {
        assert_eq!(route(state, 0), active_alone);
        assert_eq!(route(state, 9_999), active_alone);
    }
    let shadowed = RoutingDecision { primary: Primary::Active, shadow_candidate_too: true };
    assert_eq!(route(MigrationState::ShadowMode { percentage: 10_000 }, 9_999), shadowed);
    assert_eq!(route(MigrationState::ShadowMode { percentage: 2_500 }, 2_499), shadowed);
    assert_eq!(route(MigrationState::ShadowMode { percentage: 2_500 }, 2_500), active_alone);
    assert_eq!(route(MigrationState::ShadowMode { percentage: 0 }, 0), active_alone);
    let candidate = RoutingDecision { primary: Primary::Candidate, shadow_candidate_too: false };
    assert_eq!(route(MigrationState::GradualMigration { percentage: 2_500 }, 2_499), candidate);
    assert_eq!(route(MigrationState::GradualMigration { percentage: 2_500 }, 12_499), candidate);
    assert_eq!(route(MigrationState::GradualMigration { percentage: 2_500 }, 2_500), active_alone);
    assert_eq!(route(MigrationState::GradualMigration { percentage: 10_000 }, u64::MAX), candidate);
}

#[test]
fn routing_gives_the_candidate_its_share() {
    for percentage in [0u32, 1, 100, 2_500, 9_999, 10_000] {
        let state = MigrationState::GradualMigration { percentage };
        let chosen =
            (0..10_000u64).filter(|d| route(state, *d).primary == Primary::Candidate).count();
        assert_eq!(chosen as u32, percentage);
    }
}

#[test]
fn settling_a_request() {
    let digest = || AlgorithmResult::success(vec![1u8, 2, 3]);
    let failure = || AlgorithmResult::<Vec<u8>>::error("E", "m");

    let (answer, observation) = settle(CandidateRole::Shadow, digest());
    assert!(answer.is_none());
    assert_eq!(observation, RequestObservation::Shadow { success: true });
    let (answer, observation) = settle(CandidateRole::Shadow, failure());
    assert!(answer.is_none());
    assert_eq!(observation, RequestObservation::Shadow { success: false });

    let (answer, observation) = settle(CandidateRole::Primary, digest());
    assert_eq!(answer.unwrap().data, Some(vec![1, 2, 3]));
    assert_eq!(observation, RequestObservation::Migration { success: true });
    let (answer, observation) = settle(CandidateRole::Primary, failure());
    assert!(answer.is_none());
    assert_eq!(observation, RequestObservation::Migration { success: false });

    let (answer, observation) = settle(CandidateRole::NotRun, digest());
    assert!(answer.is_none());
    assert_eq!(observation, RequestObservation::Nothing);
}

#[test]
fn slot_holds_one_candidate() {
    let mut slot = EngineSlot::new(ScryptAlgorithm::litecoin());
    assert!(!slot.has_candidate());
    assert!(slot.read_candidate().is_none());
    assert_eq!(slot.finalize(), Err(SlotError::NoCandidate));
    assert_eq!(slot.read_active().params.key_len, 32);

    let candidate = |key_len| {
        ScryptAlgorithm::with_params(ScryptParams { n: 2, r: 1, p: 1, key_len })
    };
    assert_eq!(slot.stage(candidate(16)), Ok(()));
    assert_eq!(slot.stage(candidate(20)), Err(SlotError::AlreadyStaged));
    assert_eq!(slot.read_candidate().unwrap().params.key_len, 16);
    assert_eq!(slot.read_active().params.key_len, 32);

    assert_eq!(slot.finalize(), Ok(()));
    assert_eq!(slot.read_active().params.key_len, 16);
    assert!(slot.read_candidate().is_none());

    assert_eq!(slot.stage(candidate(20)), Ok(()));
    slot.clear_candidate();
    assert!(!slot.has_candidate());
    assert_eq!(slot.read_active().params.key_len, 16);
    slot.clear_candidate();
    assert!(!slot.has_candidate());
}

#[test]
fn staging_status_predicates() {
    let blocking = [
        StagingStatus::Staging,
        StagingStatus::ValidationInProgress,
        StagingStatus::ValidationPassed,
        StagingStatus::Ready,
    ];
    for status in blocking {
        assert!(status.is_blocking());
    }
    assert!(!StagingStatus::NotStaged.is_blocking());
    assert!(!StagingStatus::ValidationFailed.is_blocking());
    assert!(StagingStatus::ValidationPassed.is_ready());
    assert!(StagingStatus::Ready.is_ready());
    assert!(!StagingStatus::ValidationInProgress.is_ready());
    assert!(!StagingStatus::NotStaged.is_ready());
    assert!(MigrationState::Complete.has_ended());
    assert!(MigrationState::RollbackComplete.has_ended());
    assert!(MigrationState::Failed.has_ended());
    assert!(!MigrationState::Idle.has_ended());
    assert!(!MigrationState::ShadowMode { percentage: 1 }.has_ended());
}
