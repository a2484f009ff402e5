//! The pet record, its well-formedness invariant, and the two pure
//! algorithms that every action shares: the decay calculator and the
//! leveling resolver.

use vstd::prelude::*;

verus! {

/// Upper bound of `hunger`, `happiness` and `energy`.
pub const MAX_STAT: u32 = 100;

/// Experience needed to complete level 1; level `l` needs `BASE_XP_REQUIRED * l`.
pub const BASE_XP_REQUIRED: u64 = 100;

/// Length of one decay period, in time units.
pub const DECAY_PERIOD: u64 = 60;

/// Number of species a new pet can be assigned.
pub const SPECIES_COUNT: u64 = 3;

pub const XP_PER_FEED: u64 = 20;

pub const XP_PER_PLAY: u64 = 30;

pub const XP_PER_WORK: u64 = 25;

pub const XP_PER_SLEEP: u64 = 15;

pub const XP_PER_EXERCISE: u64 = 35;

/// Bit of the accessories bitset that stands for the glasses cosmetic.
pub const ACCESSORY_GLASSES: u32 = 0b0001;

/// Price of the glasses cosmetic, in coins.
pub const COINS_FOR_GLASSES: i128 = 50;

/// One pet record, keyed in the store by its owner's identity.
#[derive(Debug)]
pub struct Pet {
    pub owner: u64,
    pub name: String,
    pub birthdate: u64,
    pub last_updated: u64,
    pub is_alive: bool,
    pub hunger: u32,
    pub happiness: u32,
    pub energy: u32,
    pub level: u32,
    pub xp: u64,
    pub next_level_xp: u64,
    pub species_id: u32,
    pub accessories: u32,
}

/// Everything that can go wrong; every error aborts the call.
#[derive(Clone, Copy, Debug, PartialEq, Eq)]
pub enum PetError {
    /// The caller is not the owner.
    Unauthorized,
    /// Creation was attempted while a live pet exists for the owner.
    AlreadyExists,
    /// No record exists for the owner.
    NotFound,
    /// An action was attempted on a dead record.
    DeadPet,
    /// The action's energy precondition is not met.
    InsufficientEnergy,
    /// The purchase was attempted without enough balance.
    InsufficientCoins,
    /// The purchase was attempted for an already-owned cosmetic.
    AlreadyOwned,
}

/// Experience needed to complete the given level: `BASE_XP_REQUIRED * level`,
/// clamped to `u64::MAX` (the product in fact always fits).
pub open spec fn next_level_xp_spec(level: u32) -> u64 {
    if BASE_XP_REQUIRED * level > u64::MAX {
        u64::MAX
    } else {
        (BASE_XP_REQUIRED * level) as u64
    }
}

impl Pet {
    /// The record invariant: stats bounded, leveling fields consistent.
    /// It holds of every record the engine ever stores.
    pub open spec fn wf(self) -> bool {
        &&& self.hunger <= MAX_STAT
        &&& self.happiness <= MAX_STAT
        &&& self.energy <= MAX_STAT
        &&& 1 <= self.level
        &&& self.xp < self.next_level_xp
        &&& self.next_level_xp == next_level_xp_spec(self.level)
    }
}

/// Number of whole decay periods between the record's last update and
/// `now`; zero when the clock has gone backwards.
pub open spec fn decay_periods_of(pet: Pet, now: u64) -> int {
    if now >= pet.last_updated {
        (now - pet.last_updated) / (DECAY_PERIOD as int)
    } else {
        0
    }
}

/// Percentage of the normal decay rate that still applies: 1% less per
/// level above 1, floored at 80% from level 21 on.
pub open spec fn decay_discount(level: u32) -> int {
    let reduction: int = if level < 1 {
        0
    } else if level - 1 > 20 {
        20
    } else {
        level - 1
    };
    100 - reduction
}

/// How much a stat with the given per-period rate loses over `periods`
/// periods, never less than 1 once a period has elapsed.
pub open spec fn decay_loss(periods: int, rate: int, level: u32) -> int {
    let raw = periods * rate * decay_discount(level) / 100;
    if raw < 1 {
        1
    } else {
        raw
    }
}

/// A stat reduced by `loss`, saturating at 0.
pub open spec fn stat_sub(stat: u32, loss: int) -> u32 {
    if loss >= stat {
        0
    } else {
        (stat - loss) as u32
    }
}

/// A stat raised by `gain`, capped at `MAX_STAT`.
pub open spec fn stat_add_capped(stat: u32, gain: u32) -> u32 {
    if stat + gain > MAX_STAT {
        MAX_STAT
    } else {
        (stat + gain) as u32
    }
}

/// The decay calculator.  A dead record, or one within its current decay
/// period, is left unchanged; otherwise hunger and happiness drop by the
/// elapsed periods' losses, the record moves to `now`, and a record whose
/// hunger or happiness reached 0 dies.
pub open spec fn decay_spec(pet: Pet, now: u64) -> Pet {
    let periods = decay_periods_of(pet, now);
    if !pet.is_alive || periods == 0 {
        pet
    } else {
        let hunger = stat_sub(pet.hunger, decay_loss(periods, 2, pet.level));
        let happiness = stat_sub(pet.happiness, decay_loss(periods, 1, pet.level));
        Pet {
            hunger,
            happiness,
            last_updated: now,
            is_alive: hunger > 0 && happiness > 0,
            ..pet
        }
    }
}

/// Experience after a reward, clamped to `u64::MAX`.
pub open spec fn xp_add(xp: u64, reward: u64) -> u64 {
    if xp + reward > u64::MAX {
        u64::MAX
    } else {
        (xp + reward) as u64
    }
}

/// The leveling resolver: while the accumulated experience covers the
/// current threshold, spend it and move one level up (the level saturates
/// at `u32::MAX`).  Returns the final level and the experience left over.
pub open spec fn resolve_leveling_spec(level: u32, xp: u64) -> (u32, u64)
    decreases xp,
{
    if 1 <= level && xp >= next_level_xp_spec(level) {
        let up = if level == u32::MAX {
            u32::MAX
        } else {
            (level + 1) as u32
        };
        resolve_leveling_spec(up, (xp - next_level_xp_spec(level)) as u64)
    } else {
        (level, xp)
    }
}

/// A record after an action's experience reward: the reward is added and
/// leveling is resolved; no other field moves.
pub open spec fn grant_xp_spec(pet: Pet, reward: u64) -> Pet {
    let resolved = resolve_leveling_spec(pet.level, xp_add(pet.xp, reward));
    Pet {
        level: resolved.0,
        xp: resolved.1,
        next_level_xp: next_level_xp_spec(resolved.0),
        ..pet
    }
}

impl Clone for Pet {
    fn clone(&self) -> (r: Pet)
        ensures
            r == *self,
    {
        Pet { name: self.name.clone(), ..*self }
    }
}

/// Basic facts about the decay calculator: it preserves the invariant and
/// every field but hunger, happiness, `last_updated` and `is_alive`; stats
/// only drop, time only advances, and a dead record stays put.
pub proof fn lemma_decay_props(pet: Pet, now: u64)
    requires
        pet.wf(),
    ensures
        decay_spec(pet, now).wf(),
        decay_spec(pet, now).owner == pet.owner,
        decay_spec(pet, now).name == pet.name,
        decay_spec(pet, now).birthdate == pet.birthdate,
        decay_spec(pet, now).species_id == pet.species_id,
        decay_spec(pet, now).accessories == pet.accessories,
        decay_spec(pet, now).energy == pet.energy,
        decay_spec(pet, now).level == pet.level,
        decay_spec(pet, now).xp == pet.xp,
        decay_spec(pet, now).next_level_xp == pet.next_level_xp,
        decay_spec(pet, now).hunger <= pet.hunger,
        decay_spec(pet, now).happiness <= pet.happiness,
        decay_spec(pet, now).last_updated >= pet.last_updated,
        decay_spec(pet, now).is_alive ==> pet.is_alive,
        !pet.is_alive ==> decay_spec(pet, now) == pet,
{
    let periods = decay_periods_of(pet, now);
    if pet.is_alive && periods != 0 {
        assert(now - pet.last_updated >= DECAY_PERIOD) by {
            assert(periods >= 1);
        }
    }
}

/// A record that did not move to a new timestamp did not change at all.
pub proof fn lemma_decay_still_means_unchanged(pet: Pet, now: u64)
    requires
        decay_spec(pet, now).last_updated == pet.last_updated,
    ensures
        decay_spec(pet, now) == pet,
{
    let periods = decay_periods_of(pet, now);
    if pet.is_alive && periods != 0 {
        assert(now - pet.last_updated >= DECAY_PERIOD) by {
            assert(periods >= 1);
        }
    }
}

/// Basic facts about the leveling resolver: the level never drops, and
/// the leftover experience sits strictly under the final threshold.
pub proof fn lemma_resolve_leveling_props(level: u32, xp: u64)
    requires
        1 <= level,
    ensures
        resolve_leveling_spec(level, xp).0 >= level,
        resolve_leveling_spec(level, xp).1 < next_level_xp_spec(resolve_leveling_spec(level, xp).0),
    decreases xp,
{
    if xp >= next_level_xp_spec(level) {
        let up = if level == u32::MAX {
            u32::MAX
        } else {
            (level + 1) as u32
        };
        lemma_resolve_leveling_props(up, (xp - next_level_xp_spec(level)) as u64);
    }
}

/// Executable decay calculator; it returns exactly what `decay_spec` says.
///
/// Once more than 200 periods have elapsed both losses exceed `MAX_STAT`,
/// so the elapsed periods can be clamped before the loss arithmetic
/// without changing the saturated result.
pub fn apply_decay(pet: &Pet, now: u64) -> (r: Pet)
    requires
        pet.hunger <= MAX_STAT,
        pet.happiness <= MAX_STAT,
    ensures
        r == decay_spec(*pet, now),
{
    let mut r = Pet { name: pet.name.clone(), ..*pet };
    if !r.is_alive {
        return r;
    }
    let elapsed: u64 = now.saturating_sub(r.last_updated);
    let periods: u64 = elapsed / DECAY_PERIOD;
    if periods == 0 {
        return r;
    }
    let ghost true_periods: int = decay_periods_of(*pet, now);
    assert(true_periods == periods);
    let reduction: u32 = if r.level < 1 {
        0
    } else if r.level - 1 > 20 {
        20
    } else {
        r.level - 1
    };
    let discount: u64 = (100 - reduction) as u64;
    assert(discount == decay_discount(r.level));
    let clamped: u64 = if periods > 200 {
        200
    } else {
        periods
    };
    proof {
        assert(clamped * 2 * discount <= 40000 && clamped * discount <= 20000) by (nonlinear_arith)
            requires
                clamped <= 200,
                discount <= 100,
        ;
    }
    let hunger_raw: u64 = clamped * 2 * discount / 100;
    let hunger_loss: u64 = if hunger_raw < 1 {
        1
    } else {
        hunger_raw
    };
    let happiness_raw: u64 = clamped * discount / 100;
    let happiness_loss: u64 = if happiness_raw < 1 {
        1
    } else {
        happiness_raw
    };
    proof {
        if periods > 200 {
            assert(true_periods * 2 * (discount as int) >= 32160 && true_periods * (discount as int)
                >= 16080 && (clamped as int) * 2 * (discount as int) >= 32000 && (clamped as int)
                * (discount as int) >= 16000) by (nonlinear_arith)
                requires
                    true_periods >= 201,
                    clamped == 200,
                    discount >= 80,
            ;
            let sh = true_periods * 2 * (discount as int);
            let sp = true_periods * (discount as int);
            let ch = (clamped as int) * 2 * (discount as int);
            let cp = (clamped as int) * (discount as int);
            vstd::arithmetic::div_mod::lemma_div_is_ordered(32160, sh, 100);
            vstd::arithmetic::div_mod::lemma_div_is_ordered(16080, sp, 100);
            vstd::arithmetic::div_mod::lemma_div_is_ordered(32000, ch, 100);
            vstd::arithmetic::div_mod::lemma_div_is_ordered(16000, cp, 100);
            assert(hunger_raw == ch / 100 && happiness_raw == cp / 100);
            assert(hunger_loss > MAX_STAT && decay_loss(true_periods, 2, pet.level) > MAX_STAT);
            assert(happiness_loss > MAX_STAT && decay_loss(true_periods, 1, pet.level) > MAX_STAT);
        } else {
            assert(hunger_loss == decay_loss(true_periods, 2, pet.level));
            assert(happiness_loss == decay_loss(true_periods, 1, pet.level));
        }
    }
    r.hunger = if hunger_loss >= r.hunger as u64 {
        0
    } else {
        r.hunger - hunger_loss as u32
    };
    r.happiness = if happiness_loss >= r.happiness as u64 {
        0
    } else {
        r.happiness - happiness_loss as u32
    };
    r.last_updated = now;
    if r.hunger == 0 || r.happiness == 0 {
        r.is_alive = false;
    }
    r
}

/// A stat raised by `gain`, capped at `MAX_STAT`.
pub fn add_stat(stat: u32, gain: u32) -> (r: u32)
    requires
        stat <= MAX_STAT,
        gain <= MAX_STAT,
    ensures
        r == stat_add_capped(stat, gain),
{
    let s = stat + gain;
    if s > MAX_STAT {
        MAX_STAT
    } else {
        s
    }
}

/// A stat reduced by `loss`, saturating at 0.
pub fn sub_stat(stat: u32, loss: u32) -> (r: u32)
    ensures
        r == stat_sub(stat, loss as int),
{
    stat.saturating_sub(loss)
}

/// Experience after a reward, clamped to `u64::MAX`.
pub fn add_xp(xp: u64, reward: u64) -> (r: u64)
    ensures
        r == xp_add(xp, reward),
{
    xp.saturating_add(reward)
}

} // verus!
