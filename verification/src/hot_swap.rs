//! Replacing the active engine without stopping traffic: staging and
//! validation of a candidate, shadow traffic, a ramped rollout, and rollback.

pub mod config;
pub mod laws;
pub mod manager;
pub mod metrics;
pub mod migration_id;
pub mod model;
pub mod router;
pub mod slot;
pub mod state;
pub mod validation;

pub use state::{MigrationState, StagingStatus, FULL_SCALE};
pub use validation::{is_validation_successful, validate, ProbeOutcomes, ValidationResults};
pub use config::MigrationConfig;
pub use metrics::MigrationMetrics;
pub use router::{route, settle, CandidateRole, Primary, RequestObservation, RoutingDecision};
pub use slot::{EngineSlot, SlotError};
pub use manager::{AlgorithmHotSwapManager, HotSwapStatus};
