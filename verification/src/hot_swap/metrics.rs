//! Counters of what the candidate did with the requests it was given, and the
//! error rates that follow from them.

use super::state::FULL_SCALE;
use vstd::prelude::*;

verus! {

/// Counts of the candidate's successes and errors, in shadow mode and in
/// gradual migration.
#[derive(Debug, Clone, Copy, PartialEq, Eq, Structural)]
pub struct MigrationMetrics {
    pub shadow_mode_errors: u64,
    pub shadow_mode_successes: u64,
    pub migration_errors: u64,
    pub migration_successes: u64,
}

/// The counts as natural numbers.
pub struct MigrationMetricsView {
    pub shadow_mode_errors: nat,
    pub shadow_mode_successes: nat,
    pub migration_errors: nat,
    pub migration_successes: nat,
}

impl View for MigrationMetrics {
    type V = MigrationMetricsView;

    open spec fn view(&self) -> MigrationMetricsView {
        MigrationMetricsView {
            shadow_mode_errors: self.shadow_mode_errors as nat,
            shadow_mode_successes: self.shadow_mode_successes as nat,
            migration_errors: self.migration_errors as nat,
            migration_successes: self.migration_successes as nat,
        }
    }
}

/// The error rate in basis points, rounded down: `errors` out of `total`, and
/// zero where nothing was counted.
pub open spec fn error_rate_of(errors: nat, total: nat) -> nat {
    if total == 0 {
        0
    } else {
        errors * (FULL_SCALE as nat) / total
    }
}

/// The rate of `errors` out of `total` is no higher than `max` basis points:
/// compared exactly, without rounding.
pub open spec fn rate_within(errors: nat, total: nat, max: nat) -> bool {
    errors * FULL_SCALE <= max * total
}

impl MigrationMetricsView {
    /// No request counted yet.
    pub open spec fn zero() -> MigrationMetricsView {
        MigrationMetricsView {
            shadow_mode_errors: 0,
            shadow_mode_successes: 0,
            migration_errors: 0,
            migration_successes: 0,
        }
    }

    /// The number of shadow requests counted.
    pub open spec fn shadow_samples(self) -> nat {
        self.shadow_mode_successes + self.shadow_mode_errors
    }

    /// The number of gradual-migration requests counted.
    pub open spec fn migration_samples(self) -> nat {
        self.migration_successes + self.migration_errors
    }

    /// The counts after one more shadow request.
    pub open spec fn with_shadow(self, success: bool) -> MigrationMetricsView {
        if success {
            MigrationMetricsView { shadow_mode_successes: self.shadow_mode_successes + 1, ..self }
        } else {
            MigrationMetricsView { shadow_mode_errors: self.shadow_mode_errors + 1, ..self }
        }
    }

    /// The counts after one more gradual-migration request.
    pub open spec fn with_migration(self, success: bool) -> MigrationMetricsView {
        if success {
            MigrationMetricsView { migration_successes: self.migration_successes + 1, ..self }
        } else {
            MigrationMetricsView { migration_errors: self.migration_errors + 1, ..self }
        }
    }

    /// The shadow error rate is no higher than `max` basis points.
    pub open spec fn shadow_within(self, max: u32) -> bool {
        rate_within(self.shadow_mode_errors, self.shadow_samples(), max as nat)
    }

    /// The gradual-migration error rate is no higher than `max` basis points.
    pub open spec fn migration_within(self, max: u32) -> bool {
        rate_within(self.migration_errors, self.migration_samples(), max as nat)
    }

    /// Both sample counts fit the counters.
    pub open spec fn wf(self) -> bool {
        self.shadow_samples() <= u64::MAX && self.migration_samples() <= u64::MAX
    }

    /// Both sample counts leave room for one more request.
    pub open spec fn has_room(self) -> bool {
        self.shadow_samples() < u64::MAX && self.migration_samples() < u64::MAX
    }
}

/// The error rate in basis points, rounded down.
fn error_rate(errors: u64, total: u64) -> (rate: u32)
    requires
        errors <= total,
    ensures
        rate == error_rate_of(errors as nat, total as nat),
        rate <= FULL_SCALE,
{
    if total == 0 {
        0
    } else {
        assert(errors * FULL_SCALE <= u128::MAX) by (nonlinear_arith)
            requires
                errors <= u64::MAX,
                FULL_SCALE == 10_000,
        ;
        let scaled: u128 = (errors as u128) * (FULL_SCALE as u128);
        let rate: u128 = scaled / (total as u128);
        assert(rate <= FULL_SCALE) by (nonlinear_arith)
            requires
                rate == scaled / (total as u128),
                scaled == errors * FULL_SCALE,
                errors <= total,
                total > 0,
        ;
        rate as u32
    }
}

/// Tells whether the rate of `errors` out of `total` is no higher than `max`.
fn is_rate_within(errors: u64, total: u64, max: u32) -> (r: bool)
    ensures
        r == rate_within(errors as nat, total as nat, max as nat),
{
    assert(errors * FULL_SCALE <= u128::MAX && max * total <= u128::MAX) by (nonlinear_arith)
        requires
            errors <= u64::MAX,
            total <= u64::MAX,
            max <= u32::MAX,
            FULL_SCALE == 10_000,
    ;
    (errors as u128) * (FULL_SCALE as u128) <= (max as u128) * (total as u128)
}

impl MigrationMetrics {
    /// Counters at zero.
    pub fn new() -> (metrics: Self)
        ensures
            metrics@ == MigrationMetricsView::zero(),
    {
        MigrationMetrics {
            shadow_mode_errors: 0,
            shadow_mode_successes: 0,
            migration_errors: 0,
            migration_successes: 0,
        }
    }

    /// Sets every counter to zero.
    pub fn reset(&mut self)
        ensures
            final(self)@ == MigrationMetricsView::zero(),
    {
        self.shadow_mode_errors = 0;
        self.shadow_mode_successes = 0;
        self.migration_errors = 0;
        self.migration_successes = 0;
    }

    /// Tells whether the counters are well formed.
    pub fn is_well_formed(&self) -> (r: bool)
        ensures
            r == self@.wf(),
    {
        self.shadow_mode_successes <= u64::MAX - self.shadow_mode_errors
            && self.migration_successes <= u64::MAX - self.migration_errors
    }

    /// Tells whether one more request can be counted.
    pub fn can_record(&self) -> (r: bool)
        ensures
            r == self@.has_room(),
    {
        self.shadow_mode_successes < u64::MAX - self.shadow_mode_errors
            && self.migration_successes < u64::MAX - self.migration_errors
    }

    /// Counts one shadow request: a success or an error of the candidate.
    pub fn record_shadow(&mut self, success: bool)
        requires
            old(self)@.has_room(),
        ensures
            final(self)@ == old(self)@.with_shadow(success),
    {
        if success {
            self.shadow_mode_successes += 1;
        } else {
            self.shadow_mode_errors += 1;
        }
    }

    /// Counts one gradual-migration request: a success or an error of the
    /// candidate.
    pub fn record_migration(&mut self, success: bool)
        requires
            old(self)@.has_room(),
        ensures
            final(self)@ == old(self)@.with_migration(success),
    {
        if success {
            self.migration_successes += 1;
        } else {
            self.migration_errors += 1;
        }
    }

    /// The number of shadow requests counted.
    pub fn shadow_sample_count(&self) -> (n: u64)
        requires
            self@.wf(),
        ensures
            n == self@.shadow_samples(),
    {
        self.shadow_mode_successes + self.shadow_mode_errors
    }

    /// The number of gradual-migration requests counted.
    pub fn migration_sample_count(&self) -> (n: u64)
        requires
            self@.wf(),
        ensures
            n == self@.migration_samples(),
    {
        self.migration_successes + self.migration_errors
    }

    /// The shadow error rate in basis points, rounded down; zero before the
    /// first shadow request.
    pub fn shadow_error_rate(&self) -> (rate: u32)
        requires
            self@.wf(),
        ensures
            rate == error_rate_of(self@.shadow_mode_errors, self@.shadow_samples()),
            rate <= FULL_SCALE,
    {
        error_rate(self.shadow_mode_errors, self.shadow_mode_successes + self.shadow_mode_errors)
    }

    /// The gradual-migration error rate in basis points, rounded down; zero
    /// before the first such request.
    pub fn migration_error_rate(&self) -> (rate: u32)
        requires
            self@.wf(),
        ensures
            rate == error_rate_of(self@.migration_errors, self@.migration_samples()),
            rate <= FULL_SCALE,
    {
        error_rate(self.migration_errors, self.migration_successes + self.migration_errors)
    }

    /// Tells whether the shadow error rate is no higher than `max` basis
    /// points.
    pub fn shadow_within_budget(&self, max: u32) -> (r: bool)
        requires
            self@.wf(),
        ensures
            r == self@.shadow_within(max),
    {
        is_rate_within(
            self.shadow_mode_errors,
            self.shadow_mode_successes + self.shadow_mode_errors,
            max,
        )
    }

    /// Tells whether the gradual-migration error rate is no higher than `max`
    /// basis points.
    pub fn migration_within_budget(&self, max: u32) -> (r: bool)
        requires
            self@.wf(),
        ensures
            r == self@.migration_within(max),
    {
        is_rate_within(
            self.migration_errors,
            self.migration_successes + self.migration_errors,
            max,
        )
    }
}

impl Default for MigrationMetrics {
    fn default() -> (metrics: Self)
        ensures
            metrics@ == MigrationMetricsView::zero(),
    {
        MigrationMetrics::new()
    }
}

/// Counters never decrease: after a request each count is what it was or one
/// more, and the sample count of its kind has grown by one.
pub proof fn lemma_counters_grow(m: MigrationMetricsView, success: bool)
    ensures
        m.with_shadow(success).shadow_samples() == m.shadow_samples() + 1,
        m.with_shadow(success).shadow_mode_errors >= m.shadow_mode_errors,
        m.with_shadow(success).shadow_mode_successes >= m.shadow_mode_successes,
        m.with_shadow(success).migration_samples() == m.migration_samples(),
        m.with_migration(success).migration_samples() == m.migration_samples() + 1,
        m.with_migration(success).migration_errors >= m.migration_errors,
        m.with_migration(success).migration_successes >= m.migration_successes,
        m.with_migration(success).shadow_samples() == m.shadow_samples(),
{
}

/// The rounded rate never exceeds a bound that the exact rate keeps.
pub proof fn lemma_rate_within_bounds_rounded(errors: nat, total: nat, max: nat)
    requires
        rate_within(errors, total, max),
    ensures
        error_rate_of(errors, total) <= max,
{
    if total > 0 {
        assert(errors * (FULL_SCALE as nat) / total <= max) by (nonlinear_arith)
            requires
                errors * (FULL_SCALE as nat) <= max * total,
                total > 0,
        ;
    }
}

} // verus!
