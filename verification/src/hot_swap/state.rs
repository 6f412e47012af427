//! The two state variables of a hot swap: how far staging has come, and how
//! far the migration has come.

use vstd::prelude::*;

verus! {

/// The whole, in basis points: every fraction in this module is a number of
/// ten-thousandths.
pub const FULL_SCALE: u32 = 10_000;

/// Progress of the staging of a candidate.
#[derive(Debug, Clone, Copy, PartialEq, Eq, Structural)]
pub enum StagingStatus {
    NotStaged,
    Staging,
    ValidationInProgress,
    ValidationPassed,
    ValidationFailed,
    Ready,
}

impl StagingStatus {
    /// A staging attempt is outstanding or has passed: no other candidate may
    /// be staged.
    pub open spec fn blocks_staging(self) -> bool {
        self is Staging || self is ValidationInProgress || self is ValidationPassed
            || self is Ready
    }

    /// The candidate has passed validation and may be migrated to.
    pub open spec fn ready_for_migration(self) -> bool {
        self is ValidationPassed || self is Ready
    }

    /// Tells whether no other candidate may be staged now.
    pub fn is_blocking(&self) -> (r: bool)
        ensures
            r == self.blocks_staging(),
    {
        match self {
            StagingStatus::Staging
            | StagingStatus::ValidationInProgress
            | StagingStatus::ValidationPassed
            | StagingStatus::Ready => true,
            _ => false,
        }
    }

    /// Tells whether the candidate may be migrated to.
    pub fn is_ready(&self) -> (r: bool)
        ensures
            r == self.ready_for_migration(),
    {
        match self {
            StagingStatus::ValidationPassed | StagingStatus::Ready => true,
            _ => false,
        }
    }
}

/// Progress of a migration. A percentage is a share of requests in basis
/// points.
#[derive(Debug, Clone, Copy, PartialEq, Eq, Structural)]
pub enum MigrationState {
    Idle,
    ShadowMode { percentage: u32 },
    GradualMigration { percentage: u32 },
    Finalizing,
    Complete,
    RollingBack,
    RollbackComplete,
    Failed,
}

impl MigrationState {
    /// Requests reach the candidate: for measurement in shadow mode, for real
    /// in gradual migration.
    pub open spec fn is_migrating(self) -> bool {
        self is ShadowMode || self is GradualMigration
    }

    /// A migration has ended; only a fresh staging leads on.
    pub open spec fn is_terminal(self) -> bool {
        self is Complete || self is RollbackComplete || self is Failed
    }

    /// Tells whether a migration has ended.
    pub fn has_ended(&self) -> (r: bool)
        ensures
            r == self.is_terminal(),
    {
        match self {
            MigrationState::Complete | MigrationState::RollbackComplete | MigrationState::Failed => true,
            _ => false,
        }
    }
}

impl View for MigrationState {
    type V = MigrationState;

    open spec fn view(&self) -> MigrationState {
        *self
    }
}

} // verus!
