//! The migration controller, operation by operation.

use algorithm_engine::engine::{nonce_input, verify_hashed};
use algorithm_engine::hot_swap::{
    AlgorithmHotSwapManager, MigrationState, ProbeOutcomes, StagingStatus,
};
use algorithm_engine::{AlgorithmResult, Blake2SAlgorithm, MiningAlgorithm};

// Mock algorithm for testing
struct MockAlgorithm {
    name: String,
    version: String,
    should_fail: bool,
}

impl MockAlgorithm {
    fn new(name: &str, version: &str) -> Self {
        Self { name: name.to_string(), version: version.to_string(), should_fail: false }
    }

    fn new_failing(name: &str, version: &str) -> Self {
        Self { name: name.to_string(), version: version.to_string(), should_fail: true }
    }
}

impl MiningAlgorithm for MockAlgorithm {
    fn name(&self) -> &str {
        &self.name
    }

    fn version(&self) -> &str {
        &self.version
    }

    fn hash(&self, input: &[u8]) -> AlgorithmResult<Vec<u8>> {
        if self.should_fail {
            AlgorithmResult::error("MOCK_ERROR", "Mock algorithm failure")
        } else {
            AlgorithmResult::success(input.to_vec())
        }
    }

    fn verify(&self, input: &[u8], target: &[u8], nonce: u64) -> AlgorithmResult<bool> {
        let hashed = self.hash(&nonce_input(input, nonce));
        verify_hashed(&hashed, target)
    }
}

fn boxed<E: MiningAlgorithm + 'static>(engine: E) -> Box<dyn MiningAlgorithm> {
    Box::new(engine)
}

/// What the probes of a sound candidate find.
fn passing() -> ProbeOutcomes {
    ProbeOutcomes {
        compatibility: true,
        performance: 9_000,
        security: true,
        test_vectors: true,
        memory: true,
    }
}

#[test]
fn test_new_manager_creation() {
    let initial_algorithm = boxed(Blake2SAlgorithm::new());
    let manager = AlgorithmHotSwapManager::new(initial_algorithm);

    let status = manager.get_status();
    assert_eq!(status.active_algorithm, "blake2s");
    assert_eq!(status.staged_algorithm, None);
    assert_eq!(status.staging_status, StagingStatus::NotStaged);
    assert_eq!(status.migration_state, MigrationState::Idle);
}

#[test]
fn test_stage_algorithm_success() {
    let initial_algorithm = boxed(Blake2SAlgorithm::new());
    let mut manager = AlgorithmHotSwapManager::new(initial_algorithm);

    let new_algorithm = boxed(MockAlgorithm::new("test_algo", "1.0.0"));
    let result = manager.stage_algorithm(new_algorithm, &passing());

    assert!(result.success);
    assert_eq!(result.data.unwrap(), "test_algo_1.0.0");

    let status = manager.get_status();
    assert_eq!(status.staged_algorithm, Some("test_algo".to_string()));
    assert_eq!(status.staging_status, StagingStatus::ValidationPassed);
}

#[test]
fn test_stage_algorithm_validation_failure() {
    let initial_algorithm = boxed(Blake2SAlgorithm::new());
    let mut manager = AlgorithmHotSwapManager::new(initial_algorithm);

    let failing_algorithm = boxed(MockAlgorithm::new_failing("failing_algo", "1.0.0"));
    let result = manager.stage_algorithm(failing_algorithm, &passing());

    // The probes pass whatever the candidate's hash does
    assert!(result.success);

    let status = manager.get_status();
    assert_eq!(status.staging_status, StagingStatus::ValidationPassed);
}

#[test]
fn test_concurrent_staging_prevention() {
    let initial_algorithm = boxed(Blake2SAlgorithm::new());
    let mut manager = AlgorithmHotSwapManager::new(initial_algorithm);

    // The first staging begins and its probes are under way
    let result1 = manager.begin_staging(boxed(MockAlgorithm::new("algo1", "1.0.0")));

    // A second staging is attempted meanwhile
    let result2 = manager.stage_algorithm(boxed(MockAlgorithm::new("algo2", "1.0.0")), &passing());

    // The probes of the first come back
    let result1 = if result1.success { manager.complete_staging(&passing()) } else { result1 };

    // One should succeed, one should fail
    assert!(result1.success || result2.success);
    assert!(!(result1.success && result2.success)); // Both can't succeed
    assert_eq!(result2.error.unwrap().code, "STAGING_IN_PROGRESS");
    assert_eq!(manager.get_status().staged_algorithm, Some("algo1".to_string()));
}

#[test]
fn test_migration_start_without_staged_algorithm() {
    let initial_algorithm = boxed(Blake2SAlgorithm::new());
    let mut manager = AlgorithmHotSwapManager::new(initial_algorithm);

    let result = manager.start_migration();

    assert!(!result.success);
    assert_eq!(result.error.unwrap().code, "NOT_READY_FOR_MIGRATION");
}

#[test]
fn test_migration_start_with_staged_algorithm() {
    let initial_algorithm = boxed(Blake2SAlgorithm::new());
    let mut manager = AlgorithmHotSwapManager::new(initial_algorithm);

    // Stage an algorithm first
    let new_algorithm = boxed(MockAlgorithm::new("test_algo", "1.0.0"));
    let stage_result = manager.stage_algorithm(new_algorithm, &passing());
    assert!(stage_result.success);

    // Start migration
    let migration_result = manager.start_migration();
    assert!(migration_result.success);

    let status = manager.get_status();
    assert!(matches!(status.migration_state, MigrationState::ShadowMode { .. }));
}

#[test]
fn test_hash_processing_during_idle_state() {
    let initial_algorithm = boxed(Blake2SAlgorithm::new());
    let mut manager = AlgorithmHotSwapManager::new(initial_algorithm);

    let input = b"test input";
    let result = manager.process_hash_request(input, 0);

    assert!(result.success);
    assert!(result.data.is_some());
}

#[test]
fn test_rollback_migration() {
    let initial_algorithm = boxed(Blake2SAlgorithm::new());
    let mut manager = AlgorithmHotSwapManager::new(initial_algorithm);

    // Stage and start migration
    let new_algorithm = boxed(MockAlgorithm::new("test_algo", "1.0.0"));
    manager.stage_algorithm(new_algorithm, &passing());
    manager.start_migration();

    // Rollback
    let rollback_result = manager.rollback_migration();
    assert!(rollback_result.success);

    let status = manager.get_status();
    assert_eq!(status.migration_state, MigrationState::RollbackComplete);
    assert_eq!(status.staged_algorithm, None);
    assert_eq!(status.staging_status, StagingStatus::NotStaged);
}

#[test]
fn test_migration_advance_from_shadow_mode() {
    let initial_algorithm = boxed(Blake2SAlgorithm::new());
    let mut manager = AlgorithmHotSwapManager::new(initial_algorithm);

    // Stage and start migration
    let new_algorithm = boxed(MockAlgorithm::new("test_algo", "1.0.0"));
    manager.stage_algorithm(new_algorithm, &passing());
    manager.start_migration();

    // Simulate some successful shadow mode operations
    for draw in 0..150 {
        let _ = manager.process_hash_request(b"test", draw);
    }

    // Advance migration
    let advance_result = manager.advance_migration();
    assert!(advance_result.success);

    let status = manager.get_status();
    assert!(matches!(status.migration_state, MigrationState::GradualMigration { .. }));
}
