//! Laws of the engine that relate several operations, stated and proved
//! over the same spec functions the operations' contracts use.

use crate::pet::decay_periods_of;
use crate::pet::decay_spec;
use crate::pet::grant_xp_spec;
use crate::pet::next_level_xp_spec;
use crate::pet::resolve_leveling_spec;
use crate::pet::Pet;
use crate::pet::DECAY_PERIOD;
use vstd::prelude::*;

verus! {

/// Within the record's current decay period — in particular, whenever
/// time has not advanced — the decay calculator leaves the record
/// exactly as it is.
pub proof fn lemma_decay_within_period(pet: Pet, now: u64)
    requires
        now < pet.last_updated + DECAY_PERIOD,
    ensures
        decay_spec(pet, now) == pet,
{
    assert(decay_periods_of(pet, now) == 0);
}

/// Decay is idempotent: running the decay calculator twice against the
/// same clock reading changes nothing the second time.
pub proof fn lemma_decay_idempotent(pet: Pet, now: u64)
    ensures
        decay_spec(decay_spec(pet, now), now) == decay_spec(pet, now),
{
    let d = decay_spec(pet, now);
    if pet.is_alive && decay_periods_of(pet, now) != 0 {
        assert(d.last_updated == now);
        assert(decay_periods_of(d, now) == 0);
    }
}

/// The experience the leveling resolver consumes to climb from `level`
/// through the next `k` levels: the sum of the `k` thresholds.
pub open spec fn thresholds_total(level: u32, k: u32) -> int
    decreases k,
{
    if k == 0 {
        0
    } else {
        next_level_xp_spec(level) + thresholds_total((level + 1) as u32, (k - 1) as u32)
    }
}

/// Each threshold is positive, so the sum is nonnegative and grows with
/// every level it covers.
pub proof fn lemma_thresholds_total_nonneg(level: u32, k: u32)
    ensures
        thresholds_total(level, k) >= 0,
    decreases k,
{
    if k != 0 {
        lemma_thresholds_total_nonneg((level + 1) as u32, (k - 1) as u32);
    }
}

/// Leveling-loop correctness: experience worth exactly `k` full
/// thresholds, granted in one call, raises the level by exactly `k` and
/// leaves the experience at zero.
pub proof fn lemma_leveling_k_thresholds(level: u32, k: u32)
    requires
        1 <= level,
        level + k <= u32::MAX,
        thresholds_total(level, k) <= u64::MAX,
    ensures
        resolve_leveling_spec(level, thresholds_total(level, k) as u64) == (
        ((level + k) as u32, 0u64)),
    decreases k,
{
    lemma_thresholds_total_nonneg(level, k);
    if k != 0 {
        lemma_thresholds_total_nonneg((level + 1) as u32, (k - 1) as u32);
        lemma_leveling_k_thresholds((level + 1) as u32, (k - 1) as u32);
        assert(thresholds_total(level, k) as u64 >= next_level_xp_spec(level));
    }
}

/// The same law at the record level: a record with no surplus experience
/// that is granted exactly `k` full thresholds' worth in one call comes
/// out exactly `k` levels higher with its experience back at zero.
pub proof fn lemma_grant_k_thresholds(pet: Pet, k: u32)
    requires
        pet.wf(),
        pet.xp == 0,
        pet.level + k <= u32::MAX,
        thresholds_total(pet.level, k) <= u64::MAX,
    ensures
        grant_xp_spec(pet, thresholds_total(pet.level, k) as u64).level == pet.level + k,
        grant_xp_spec(pet, thresholds_total(pet.level, k) as u64).xp == 0,
{
    lemma_thresholds_total_nonneg(pet.level, k);
    lemma_leveling_k_thresholds(pet.level, k);
}

} // verus!
