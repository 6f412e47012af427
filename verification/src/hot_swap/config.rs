//! The configuration of a migration: how many shadow samples it waits for,
//! the error rate it tolerates, and the ramp of traffic shares it climbs.

use super::state::FULL_SCALE;
use vstd::prelude::*;

verus! {

/// Configuration of a migration. Rates and percentages are in basis points.
#[derive(Debug)]
pub struct MigrationConfig {
    pub shadow_duration_secs: u64,
    pub phase_duration_secs: u64,
    pub rollback_on_error: bool,
    /// The highest error rate under which a migration goes on.
    pub max_error_rate: u32,
    /// The shares of traffic that gradual migration climbs, in ascending
    /// order, the last of them the whole.
    pub gradual_percentages: Vec<u32>,
    /// The number of shadow samples after which shadow mode can be left.
    pub shadow_sample_threshold: u64,
}

/// The mathematical content of a [`MigrationConfig`].
pub struct MigrationConfigView {
    pub shadow_duration_secs: u64,
    pub phase_duration_secs: u64,
    pub rollback_on_error: bool,
    pub max_error_rate: u32,
    pub gradual_percentages: Seq<u32>,
    pub shadow_sample_threshold: u64,
}

impl View for MigrationConfig {
    type V = MigrationConfigView;

    open spec fn view(&self) -> MigrationConfigView {
        MigrationConfigView {
            shadow_duration_secs: self.shadow_duration_secs,
            phase_duration_secs: self.phase_duration_secs,
            rollback_on_error: self.rollback_on_error,
            max_error_rate: self.max_error_rate,
            gradual_percentages: self.gradual_percentages@,
            shadow_sample_threshold: self.shadow_sample_threshold,
        }
    }
}

/// `ramp` is in ascending order.
pub open spec fn ascending(ramp: Seq<u32>) -> bool {
    forall|i: int, j: int| 0 <= i <= j < ramp.len() ==> ramp[i] <= ramp[j]
}

/// The place of the first step of `ramp` above `current`, or the length of
/// `ramp` where no step is above it.
pub open spec fn first_above(ramp: Seq<u32>, current: u32) -> nat
    decreases ramp.len(),
{
    if ramp.len() == 0 {
        0
    } else if ramp[0] > current {
        0
    } else {
        1 + first_above(ramp.drop_first(), current)
    }
}

/// The first step of `ramp` above `current`, if there is one.
pub open spec fn next_step(ramp: Seq<u32>, current: u32) -> Option<u32> {
    let i = first_above(ramp, current);
    if i < ramp.len() {
        Some(ramp[i as int])
    } else {
        None
    }
}

impl MigrationConfigView {
    /// The tolerated error rate is a fraction, and the ramp is not empty,
    /// ascends and ends at the whole.
    pub open spec fn wf(self) -> bool {
        &&& self.max_error_rate <= FULL_SCALE
        &&& self.gradual_percentages.len() > 0
        &&& ascending(self.gradual_percentages)
        &&& self.gradual_percentages.last() == FULL_SCALE
    }

    /// The share of traffic with which gradual migration begins.
    pub open spec fn first_step(self) -> u32
        recommends
            self.gradual_percentages.len() > 0,
    {
        self.gradual_percentages[0]
    }
}

impl MigrationConfig {
    /// Tells whether the configuration is well formed.
    pub fn is_well_formed(&self) -> (r: bool)
        ensures
            r == self@.wf(),
    {
        let n = self.gradual_percentages.len();
        if self.max_error_rate > FULL_SCALE || n == 0 {
            return false;
        }
        let mut i: usize = 1;
        while i < n
            invariant
                1 <= i <= n,
                n == self.gradual_percentages@.len(),
                forall|a: int, b: int| 0 <= a <= b < i ==> self.gradual_percentages@[a] <= self.gradual_percentages@[b],
            decreases n - i,
        {
            if self.gradual_percentages[i - 1] > self.gradual_percentages[i] {
                return false;
            }
            i += 1;
        }
        self.gradual_percentages[n - 1] == FULL_SCALE
    }

    /// The share of traffic with which gradual migration begins.
    pub fn first_percentage(&self) -> (p: u32)
        requires
            self@.wf(),
        ensures
            p == self@.first_step(),
    {
        self.gradual_percentages[0]
    }

    /// The first step of the ramp above `current`, if there is one.
    pub fn get_next_migration_percentage(&self, current: u32) -> (next: Option<u32>)
        ensures
            next == next_step(self@.gradual_percentages, current),
    {
        let mut i: usize = 0;
        proof {
            lemma_first_above(self@.gradual_percentages, current);
        }
        while i < self.gradual_percentages.len()
            invariant
                i <= self.gradual_percentages@.len(),
                i <= first_above(self@.gradual_percentages, current),
                first_above(self@.gradual_percentages, current) <= self.gradual_percentages@.len(),
                forall|j: int|
                    0 <= j < first_above(self@.gradual_percentages, current)
                        ==> self.gradual_percentages@[j] <= current,
                first_above(self@.gradual_percentages, current) < self.gradual_percentages@.len()
                    ==> self.gradual_percentages@[first_above(
                    self@.gradual_percentages,
                    current,
                ) as int] > current,
            decreases self.gradual_percentages.len() - i,
        {
            let p = self.gradual_percentages[i];
            if p > current {
                return Some(p);
            }
            i += 1;
        }
        None
    }
}

impl Default for MigrationConfig {
    /// Five minutes of shadow mode, ten minutes a phase, rollback on error, a
    /// tolerated error rate of 5%, fifty shadow samples, and the ramp 1%, 5%,
    /// 10%, 25%, 50%, 75%, 100%.
    fn default() -> (config: Self)
        ensures
            config@ == default_config(),
            config@.wf(),
    {
        let mut ramp: Vec<u32> = Vec::new();
        ramp.push(100);
        ramp.push(500);
        ramp.push(1_000);
        ramp.push(2_500);
        ramp.push(5_000);
        ramp.push(7_500);
        ramp.push(10_000);
        assert(ramp@ =~= default_config().gradual_percentages);
        MigrationConfig {
            shadow_duration_secs: 300,
            phase_duration_secs: 600,
            rollback_on_error: true,
            max_error_rate: 500,
            gradual_percentages: ramp,
            shadow_sample_threshold: 50,
        }
    }
}

/// The configuration that a controller has unless it is given another.
pub open spec fn default_config() -> MigrationConfigView {
    MigrationConfigView {
        shadow_duration_secs: 300,
        phase_duration_secs: 600,
        rollback_on_error: true,
        max_error_rate: 500,
        gradual_percentages: seq![100u32, 500u32, 1_000u32, 2_500u32, 5_000u32, 7_500u32, 10_000u32],
        shadow_sample_threshold: 50,
    }
}

impl Clone for MigrationConfig {
    fn clone(&self) -> (copy: Self)
        ensures
            copy@ == self@,
    {
        let mut ramp: Vec<u32> = Vec::new();
        let mut i: usize = 0;
        while i < self.gradual_percentages.len()
            invariant
                i <= self.gradual_percentages@.len(),
                ramp@ == self.gradual_percentages@.take(i as int),
            decreases self.gradual_percentages.len() - i,
        {
            ramp.push(self.gradual_percentages[i]);
            assert(ramp@ =~= self.gradual_percentages@.take(i + 1));
            i += 1;
        }
        assert(ramp@ =~= self.gradual_percentages@);
        MigrationConfig {
            shadow_duration_secs: self.shadow_duration_secs,
            phase_duration_secs: self.phase_duration_secs,
            rollback_on_error: self.rollback_on_error,
            max_error_rate: self.max_error_rate,
            gradual_percentages: ramp,
            shadow_sample_threshold: self.shadow_sample_threshold,
        }
    }
}

/// `first_above` is a place in `ramp` or its length; every step before it is
/// at most `current`, and the step at it, if there is one, is above `current`.
pub proof fn lemma_first_above(ramp: Seq<u32>, current: u32)
    ensures
        first_above(ramp, current) <= ramp.len(),
        forall|j: int| 0 <= j < first_above(ramp, current) ==> ramp[j] <= current,
        first_above(ramp, current) < ramp.len() ==> ramp[first_above(ramp, current) as int]
            > current,
    decreases ramp.len(),
{
    if ramp.len() > 0 && ramp[0] <= current {
        let rest = ramp.drop_first();
        lemma_first_above(rest, current);
        assert forall|j: int| 0 <= j < first_above(ramp, current) implies ramp[j] <= current by {
            if j > 0 {
                assert(rest[j - 1] == ramp[j]);
            }
        }
        if first_above(ramp, current) < ramp.len() {
            assert(rest[first_above(rest, current) as int] == ramp[first_above(ramp, current) as int]);
        }
    }
}

/// The step that follows a step lies further along the ramp: taking the next
/// step again and again comes to the end of the ramp.
pub proof fn lemma_next_step_moves_on(ramp: Seq<u32>, current: u32)
    requires
        next_step(ramp, current).is_some(),
    ensures
        first_above(ramp, next_step(ramp, current).unwrap()) > first_above(ramp, current),
        next_step(ramp, current).unwrap() > current,
        ramp.contains(next_step(ramp, current).unwrap()),
{
    let next = next_step(ramp, current).unwrap();
    lemma_first_above(ramp, current);
    lemma_first_above(ramp, next);
    let i = first_above(ramp, current);
    let k = first_above(ramp, next);
    if k <= i {
        if k < i {
            assert(ramp[k as int] <= current);
        }
        assert(false);
    }
}

/// In an ascending ramp, the first step above one of its steps does not come
/// first.
pub proof fn lemma_step_has_place(ramp: Seq<u32>, step: u32)
    requires
        ascending(ramp),
        ramp.contains(step),
    ensures
        first_above(ramp, step) >= 1,
{
    let i = choose|i: int| 0 <= i < ramp.len() && ramp[i] == step;
    assert(ramp[0] <= ramp[i]);
}

} // verus!
