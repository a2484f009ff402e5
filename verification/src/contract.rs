//! The action processor: every public operation of the engine.  Each
//! mutating action follows one shape — authorize, decay, liveness check,
//! resource check, effect, experience grant, leveling, persist — and its
//! contract pins the stored state and the returned record exactly.

use crate::pet::add_stat;
use crate::pet::add_xp;
use crate::pet::apply_decay;
use crate::pet::decay_spec;
use crate::pet::grant_xp_spec;
use crate::pet::lemma_decay_props;
use crate::pet::lemma_decay_still_means_unchanged;
use crate::pet::lemma_resolve_leveling_props;
use crate::pet::next_level_xp_spec;
use crate::pet::resolve_leveling_spec;
use crate::pet::stat_add_capped;
use crate::pet::stat_sub;
use crate::pet::sub_stat;
use crate::pet::Pet;
use crate::pet::PetError;
use crate::pet::ACCESSORY_GLASSES;
use crate::pet::BASE_XP_REQUIRED;
use crate::pet::COINS_FOR_GLASSES;
use crate::pet::MAX_STAT;
use crate::pet::SPECIES_COUNT;
use crate::pet::XP_PER_EXERCISE;
use crate::pet::XP_PER_FEED;
use crate::pet::XP_PER_PLAY;
use crate::pet::XP_PER_SLEEP;
use crate::pet::XP_PER_WORK;
use crate::store::coins_of;
use crate::store::has_pet;
use crate::store::pet_of;
use crate::store::DataKey;
use crate::store::Store;
use vstd::prelude::*;

verus! {

pub const FEED_HUNGER_GAIN: u32 = 30;

pub const PLAY_HAPPINESS_GAIN: u32 = 20;

pub const PLAY_ENERGY_COST: u32 = 15;

pub const SLEEP_ENERGY_GAIN: u32 = 40;

pub const WORK_ENERGY_COST: u32 = 20;

pub const WORK_HAPPINESS_COST: u32 = 10;

pub const WORK_COIN_REWARD: i128 = 25;

pub const EXERCISE_ENERGY_COST: u32 = 25;

pub const EXERCISE_HAPPINESS_GAIN: u32 = 25;

pub const EXERCISE_COIN_REWARD: i128 = 10;

/// A coin balance after a credit, clamped to the largest representable
/// value.
pub open spec fn coin_credit(balance: i128, reward: i128) -> i128 {
    if balance + reward > i128::MAX {
        i128::MAX
    } else {
        (balance + reward) as i128
    }
}

/// The record `feed` returns on success.
pub open spec fn feed_spec(pet: Pet, now: u64) -> Pet {
    let d = decay_spec(pet, now);
    (Pet {
        hunger: stat_add_capped(d.hunger, FEED_HUNGER_GAIN),
        last_updated: now,
        ..grant_xp_spec(d, XP_PER_FEED)
    })
}

/// The record `play` returns on success.
pub open spec fn play_spec(pet: Pet, now: u64) -> Pet {
    let d = decay_spec(pet, now);
    (Pet {
        happiness: stat_add_capped(d.happiness, PLAY_HAPPINESS_GAIN),
        energy: stat_sub(d.energy, PLAY_ENERGY_COST as int),
        last_updated: now,
        ..grant_xp_spec(d, XP_PER_PLAY)
    })
}

/// The record `sleep` returns on success.
pub open spec fn sleep_spec(pet: Pet, now: u64) -> Pet {
    let d = decay_spec(pet, now);
    (Pet {
        energy: stat_add_capped(d.energy, SLEEP_ENERGY_GAIN),
        last_updated: now,
        ..grant_xp_spec(d, XP_PER_SLEEP)
    })
}

/// The record `work` returns on success.
pub open spec fn work_spec(pet: Pet, now: u64) -> Pet {
    let d = decay_spec(pet, now);
    (Pet {
        energy: stat_sub(d.energy, WORK_ENERGY_COST as int),
        happiness: stat_sub(d.happiness, WORK_HAPPINESS_COST as int),
        last_updated: now,
        ..grant_xp_spec(d, XP_PER_WORK)
    })
}

/// The record `exercise` returns on success.
pub open spec fn exercise_spec(pet: Pet, now: u64) -> Pet {
    let d = decay_spec(pet, now);
    (Pet {
        energy: stat_sub(d.energy, EXERCISE_ENERGY_COST as int),
        happiness: stat_add_capped(d.happiness, EXERCISE_HAPPINESS_GAIN),
        last_updated: now,
        ..grant_xp_spec(d, XP_PER_EXERCISE)
    })
}

/// The record `mint_glasses` returns on success: the glasses bit is set
/// and nothing else of the decayed record moves.
pub open spec fn mint_spec(pet: Pet, now: u64) -> Pet {
    let d = decay_spec(pet, now);
    (Pet { accessories: d.accessories | ACCESSORY_GLASSES, last_updated: now, ..d })
}

/// The record `create` stores: fresh stats, level 1, a species derived
/// from the creation time, no accessories.
pub open spec fn new_pet_spec(owner: u64, name: String, now: u64) -> Pet {
    Pet {
        owner,
        name,
        birthdate: now,
        last_updated: now,
        is_alive: true,
        hunger: MAX_STAT,
        happiness: MAX_STAT,
        energy: MAX_STAT,
        level: 1,
        xp: 0,
        next_level_xp: next_level_xp_spec(1),
        species_id: (now % SPECIES_COUNT) as u32,
        accessories: 0,
    }
}

/// What every action guarantees about the store and its result.
///
/// `can` is the action's resource precondition on the decayed record and
/// `lack` the error it fails with; `effect` is the successful new record;
/// `coin_reward` is credited to the owner's balance on success.  On any
/// failure past authorization and lookup, the decayed record — and
/// nothing else — has been persisted.
pub open spec fn action_ensures(
    pre: Store,
    post: Store,
    caller: u64,
    owner: u64,
    now: u64,
    r: Result<Pet, PetError>,
    can: spec_fn(Pet) -> bool,
    lack: PetError,
    effect: spec_fn(Pet, u64) -> Pet,
    coin_reward: i128,
) -> bool {
    let present = has_pet(pre, owner);
    let stored = pet_of(pre, owner);
    let decayed = decay_spec(stored, now);
    &&& ((r is Ok) <==> (caller == owner && present && decayed.is_alive && can(decayed)))
    &&& (match r {
        Ok(p) => {
            &&& p == effect(stored, now)
            &&& post.pets@ == pre.pets@.insert(owner, p)
            &&& post.coins@ == (if coin_reward == 0 {
                pre.coins@
            } else {
                pre.coins@.insert(owner, coin_credit(coins_of(pre, owner), coin_reward))
            })
        },
        Err(e) => {
            &&& ((e == PetError::Unauthorized) <==> (caller != owner))
            &&& ((e == PetError::NotFound) <==> (caller == owner && !present))
            &&& ((e == PetError::DeadPet) <==> (caller == owner && present && !decayed.is_alive))
            &&& ((e == lack) <==> (caller == owner && present && decayed.is_alive && !can(
                decayed,
            )))
            &&& post.pets@ == (if caller == owner && present {
                pre.pets@.insert(owner, decayed)
            } else {
                pre.pets@
            })
            &&& post.coins@ == pre.coins@
        },
    })
}

/// What the cosmetic purchase guarantees: it succeeds exactly when the
/// caller is the owner, a live (post-decay) record exists, the glasses
/// are not yet owned and the balance covers the price; then the price is
/// debited and the bit set.  On any failure past authorization and
/// lookup, the decayed record — and nothing else — has been persisted.
pub open spec fn mint_ensures(
    pre: Store,
    post: Store,
    caller: u64,
    owner: u64,
    now: u64,
    r: Result<Pet, PetError>,
) -> bool {
    let present = has_pet(pre, owner);
    let stored = pet_of(pre, owner);
    let decayed = decay_spec(stored, now);
    let owned = decayed.accessories & ACCESSORY_GLASSES != 0;
    let balance = coins_of(pre, owner);
    &&& ((r is Ok) <==> (caller == owner && present && decayed.is_alive && !owned && balance
        >= COINS_FOR_GLASSES))
    &&& (match r {
        Ok(p) => {
            &&& p == mint_spec(stored, now)
            &&& post.pets@ == pre.pets@.insert(owner, p)
            &&& post.coins@ == pre.coins@.insert(owner, (balance - COINS_FOR_GLASSES) as i128)
        },
        Err(e) => {
            &&& ((e == PetError::Unauthorized) <==> (caller != owner))
            &&& ((e == PetError::NotFound) <==> (caller == owner && !present))
            &&& ((e == PetError::DeadPet) <==> (caller == owner && present && !decayed.is_alive))
            &&& ((e == PetError::AlreadyOwned) <==> (caller == owner && present
                && decayed.is_alive && owned))
            &&& ((e == PetError::InsufficientCoins) <==> (caller == owner && present
                && decayed.is_alive && !owned && balance < COINS_FOR_GLASSES))
            &&& post.pets@ == (if caller == owner && present {
                pre.pets@.insert(owner, decayed)
            } else {
                pre.pets@
            })
            &&& post.coins@ == pre.coins@
        },
    })
}

/// What creation guarantees: it succeeds exactly when the caller is the
/// owner and no live record exists, storing a fresh record and a zero
/// balance; it fails without touching the store.
pub open spec fn create_ensures(
    pre: Store,
    post: Store,
    caller: u64,
    owner: u64,
    name: String,
    now: u64,
    r: Result<Pet, PetError>,
) -> bool {
    let blocked = has_pet(pre, owner) && pet_of(pre, owner).is_alive;
    &&& ((r is Ok) <==> (caller == owner && !blocked))
    &&& (match r {
        Ok(p) => {
            &&& p == new_pet_spec(owner, name, now)
            &&& post.pets@ == pre.pets@.insert(owner, p)
            &&& post.coins@ == pre.coins@.insert(owner, 0)
        },
        Err(e) => {
            &&& ((e == PetError::Unauthorized) <==> (caller != owner))
            &&& ((e == PetError::AlreadyExists) <==> (caller == owner && blocked))
            &&& post.pets@ == pre.pets@
            &&& post.coins@ == pre.coins@
        },
    })
}

/// What every action preserves of the stored record: the level never
/// drops, time never runs backwards (as long as the clock does not),
/// death is never undone, the identity fields never change, and
/// accessory bits are only ever set.
pub open spec fn action_frame(pre: Store, post: Store, owner: u64, now: u64) -> bool {
    (has_pet(pre, owner) && has_pet(post, owner)) ==> {
        let before = pet_of(pre, owner);
        let after = pet_of(post, owner);
        &&& after.level >= before.level
        &&& (before.last_updated <= now ==> after.last_updated >= before.last_updated)
        &&& (after.is_alive ==> before.is_alive)
        &&& after.owner == before.owner
        &&& after.name == before.name
        &&& after.birthdate == before.birthdate
        &&& after.species_id == before.species_id
        &&& (after.accessories & before.accessories) == before.accessories
    }
}

/// `x` keeps all of its own bits.
pub proof fn lemma_bit_and_self(x: u32)
    ensures
        (x & x) == x,
{
    assert((x & x) == x) by (bit_vector);
}

/// Setting bits never clears one.
pub proof fn lemma_bit_or_keeps(x: u32, y: u32)
    ensures
        ((x | y) & x) == x,
{
    assert(((x | y) & x) == x) by (bit_vector);
}

/// Runs the decay calculator against the store: reads the owner's
/// record, applies decay, and persists the result exactly when the
/// record moved to a new timestamp (a dead or still-fresh record is
/// returned as stored).
pub fn try_decay_stats(store: &mut Store, owner: u64, now: u64) -> (r: Result<Pet, PetError>)
    requires
        old(store).wf(),
    ensures
        final(store).wf(),
        final(store).coins@ == old(store).coins@,
        (r is Ok) <==> has_pet(*old(store), owner),
        (match r {
            Ok(p) => p == decay_spec(pet_of(*old(store), owner), now) && final(store).pets@
                == old(store).pets@.insert(owner, p),
            Err(e) => e == PetError::NotFound && final(store).pets@ == old(store).pets@,
        }),
{
    let stored = match store.get_pet(owner) {
        Some(p) => p.clone(),
        None => { return Err(PetError::NotFound) },
    };
    if !stored.is_alive {
        proof {
            lemma_decay_props(stored, now);
            assert(store.pets@ =~= old(store).pets@.insert(owner, stored));
        }
        return Ok(stored);
    }
    let updated = apply_decay(&stored, now);
    if updated.last_updated != stored.last_updated {
        proof {
            lemma_decay_props(stored, now);
        }
        store.set_pet(owner, updated.clone());
        proof {
            assert forall|o: u64| #[trigger]
                store.pets@.contains_key(o) implies store.pets@[o].wf() && store.pets@[o].owner
                == o by {
                if o != owner {
                    assert(old(store).pets@.contains_key(o));
                }
            }
        }
        Ok(updated)
    } else {
        proof {
            lemma_decay_still_means_unchanged(stored, now);
            assert(store.pets@ =~= old(store).pets@.insert(owner, updated));
        }
        Ok(updated)
    }
}

/// Runs the leveling resolver on a record whose experience may exceed
/// its threshold; only the leveling fields move.
fn resolve_leveling(pet: Pet) -> (r: Pet)
    requires
        1 <= pet.level,
        pet.next_level_xp == next_level_xp_spec(pet.level),
    ensures
        (r == Pet {
            level: resolve_leveling_spec(pet.level, pet.xp).0,
            xp: resolve_leveling_spec(pet.level, pet.xp).1,
            next_level_xp: next_level_xp_spec(resolve_leveling_spec(pet.level, pet.xp).0),
            ..pet
        }),
{
    let ghost orig = pet;
    let mut p = pet;
    while p.xp >= p.next_level_xp
        invariant
            1 <= p.level,
            p.next_level_xp == next_level_xp_spec(p.level),
            resolve_leveling_spec(p.level, p.xp) == resolve_leveling_spec(orig.level, orig.xp),
            (p == Pet { level: p.level, xp: p.xp, next_level_xp: p.next_level_xp, ..orig }),
        decreases p.xp,
    {
        p.xp = p.xp - p.next_level_xp;
        p.level = if p.level == u32::MAX {
            u32::MAX
        } else {
            p.level + 1
        };
        p.next_level_xp = TamagotchiContract::calculate_next_level_xp(p.level);
    }
    p
}

/// The pet state engine: all public operations, each a single atomic
/// step against the injected store.  The caller's identity and the
/// current time are explicit arguments.
pub struct TamagotchiContract {}

impl TamagotchiContract {
    /// Experience needed to complete the given level, clamped to
    /// `u64::MAX` on overflow (the product in fact always fits).
    pub fn calculate_next_level_xp(level: u32) -> (r: u64)
        ensures
            r == next_level_xp_spec(level),
    {
        BASE_XP_REQUIRED.checked_mul(level as u64).unwrap_or(u64::MAX)
    }

    /// Feeds the pet: hunger rises by `FEED_HUNGER_GAIN` (capped), and
    /// the pet earns `XP_PER_FEED` experience.
    pub fn feed(store: &mut Store, caller: u64, owner: u64, now: u64) -> (r: Result<
        Pet,
        PetError,
    >)
        requires
            old(store).wf(),
        ensures
            final(store).wf(),
            action_ensures(
                *old(store),
                *final(store),
                caller,
                owner,
                now,
                r,
                (|p: Pet| true),
                PetError::InsufficientEnergy,
                (|p: Pet, t: u64| feed_spec(p, t)),
                0,
            ),
            action_frame(*old(store), *final(store), owner, now),
            (caller == owner && has_pet(*old(store), owner) && !pet_of(
                *old(store),
                owner,
            ).is_alive) ==> r == Err::<Pet, PetError>(PetError::DeadPet) && final(store).pets@
                == old(store).pets@,
    {
        proof {
            lemma_bit_and_self(pet_of(*old(store), owner).accessories);
        }
        if caller != owner {
            return Err(PetError::Unauthorized);
        }
        let decayed = match try_decay_stats(store, owner, now) {
            Ok(p) => p,
            Err(e) => { return Err(e) },
        };
        proof {
            lemma_decay_props(pet_of(*old(store), owner), now);
        }
        if !decayed.is_alive {
            proof {
                if !pet_of(*old(store), owner).is_alive {
                    assert(store.pets@ =~= old(store).pets@);
                }
            }
            return Err(PetError::DeadPet);
        }
        let mut pet = decayed;
        pet.hunger = add_stat(pet.hunger, FEED_HUNGER_GAIN);
        pet.xp = add_xp(pet.xp, XP_PER_FEED);
        let ghost mid = pet;
        let mut pet = resolve_leveling(pet);
        pet.last_updated = now;
        proof {
            lemma_resolve_leveling_props(mid.level, mid.xp);
            assert(pet == feed_spec(pet_of(*old(store), owner), now));
        }
        store.set_pet(owner, pet.clone());
        proof {
            assert forall|o: u64| #[trigger]
                store.pets@.contains_key(o) implies store.pets@[o].wf() && store.pets@[o].owner
                == o by {
                if o != owner {
                    assert(old(store).pets@.contains_key(o));
                }
            }
            assert(store.pets@ =~= old(store).pets@.insert(owner, pet));
        }
        Ok(pet)
    }

    /// Plays with the pet: costs `PLAY_ENERGY_COST` energy, raises
    /// happiness by `PLAY_HAPPINESS_GAIN` (capped), earns `XP_PER_PLAY`.
    pub fn play(store: &mut Store, caller: u64, owner: u64, now: u64) -> (r: Result<
        Pet,
        PetError,
    >)
        requires
            old(store).wf(),
        ensures
            final(store).wf(),
            action_ensures(
                *old(store),
                *final(store),
                caller,
                owner,
                now,
                r,
                (|p: Pet| p.energy >= PLAY_ENERGY_COST),
                PetError::InsufficientEnergy,
                (|p: Pet, t: u64| play_spec(p, t)),
                0,
            ),
            action_frame(*old(store), *final(store), owner, now),
            (caller == owner && has_pet(*old(store), owner) && !pet_of(
                *old(store),
                owner,
            ).is_alive) ==> r == Err::<Pet, PetError>(PetError::DeadPet) && final(store).pets@
                == old(store).pets@,
    {
        proof {
            lemma_bit_and_self(pet_of(*old(store), owner).accessories);
        }
        if caller != owner {
            return Err(PetError::Unauthorized);
        }
        let decayed = match try_decay_stats(store, owner, now) {
            Ok(p) => p,
            Err(e) => { return Err(e) },
        };
        proof {
            lemma_decay_props(pet_of(*old(store), owner), now);
        }
        if !decayed.is_alive {
            proof {
                if !pet_of(*old(store), owner).is_alive {
                    assert(store.pets@ =~= old(store).pets@);
                }
            }
            return Err(PetError::DeadPet);
        }
        if decayed.energy < PLAY_ENERGY_COST {
            return Err(PetError::InsufficientEnergy);
        }
        let mut pet = decayed;
        pet.happiness = add_stat(pet.happiness, PLAY_HAPPINESS_GAIN);
        pet.energy = sub_stat(pet.energy, PLAY_ENERGY_COST);
        pet.xp = add_xp(pet.xp, XP_PER_PLAY);
        let ghost mid = pet;
        let mut pet = resolve_leveling(pet);
        pet.last_updated = now;
        proof {
            lemma_resolve_leveling_props(mid.level, mid.xp);
            assert(pet == play_spec(pet_of(*old(store), owner), now));
        }
        store.set_pet(owner, pet.clone());
        proof {
            assert forall|o: u64| #[trigger]
                store.pets@.contains_key(o) implies store.pets@[o].wf() && store.pets@[o].owner
                == o by {
                if o != owner {
                    assert(old(store).pets@.contains_key(o));
                }
            }
            assert(store.pets@ =~= old(store).pets@.insert(owner, pet));
        }
        Ok(pet)
    }

    /// Puts the pet to sleep: energy rises by `SLEEP_ENERGY_GAIN`
    /// (capped), and the pet earns `XP_PER_SLEEP` experience.
    pub fn sleep(store: &mut Store, caller: u64, owner: u64, now: u64) -> (r: Result<
        Pet,
        PetError,
    >)
        requires
            old(store).wf(),
        ensures
            final(store).wf(),
            action_ensures(
                *old(store),
                *final(store),
                caller,
                owner,
                now,
                r,
                (|p: Pet| true),
                PetError::InsufficientEnergy,
                (|p: Pet, t: u64| sleep_spec(p, t)),
                0,
            ),
            action_frame(*old(store), *final(store), owner, now),
            (caller == owner && has_pet(*old(store), owner) && !pet_of(
                *old(store),
                owner,
            ).is_alive) ==> r == Err::<Pet, PetError>(PetError::DeadPet) && final(store).pets@
                == old(store).pets@,
    {
        proof {
            lemma_bit_and_self(pet_of(*old(store), owner).accessories);
        }
        if caller != owner {
            return Err(PetError::Unauthorized);
        }
        let decayed = match try_decay_stats(store, owner, now) {
            Ok(p) => p,
            Err(e) => { return Err(e) },
        };
        proof {
            lemma_decay_props(pet_of(*old(store), owner), now);
        }
        if !decayed.is_alive {
            proof {
                if !pet_of(*old(store), owner).is_alive {
                    assert(store.pets@ =~= old(store).pets@);
                }
            }
            return Err(PetError::DeadPet);
        }
        let mut pet = decayed;
        pet.energy = add_stat(pet.energy, SLEEP_ENERGY_GAIN);
        pet.xp = add_xp(pet.xp, XP_PER_SLEEP);
        let ghost mid = pet;
        let mut pet = resolve_leveling(pet);
        pet.last_updated = now;
        proof {
            lemma_resolve_leveling_props(mid.level, mid.xp);
            assert(pet == sleep_spec(pet_of(*old(store), owner), now));
        }
        store.set_pet(owner, pet.clone());
        proof {
            assert forall|o: u64| #[trigger]
                store.pets@.contains_key(o) implies store.pets@[o].wf() && store.pets@[o].owner
                == o by {
                if o != owner {
                    assert(old(store).pets@.contains_key(o));
                }
            }
            assert(store.pets@ =~= old(store).pets@.insert(owner, pet));
        }
        Ok(pet)
    }

    /// Sends the pet to work: costs `WORK_ENERGY_COST` energy and
    /// `WORK_HAPPINESS_COST` happiness, credits `WORK_COIN_REWARD` coins
    /// and earns `XP_PER_WORK` experience.
    pub fn work(store: &mut Store, caller: u64, owner: u64, now: u64) -> (r: Result<
        Pet,
        PetError,
    >)
        requires
            old(store).wf(),
        ensures
            final(store).wf(),
            action_ensures(
                *old(store),
                *final(store),
                caller,
                owner,
                now,
                r,
                (|p: Pet| p.energy >= WORK_ENERGY_COST),
                PetError::InsufficientEnergy,
                (|p: Pet, t: u64| work_spec(p, t)),
                WORK_COIN_REWARD,
            ),
            action_frame(*old(store), *final(store), owner, now),
            (caller == owner && has_pet(*old(store), owner) && !pet_of(
                *old(store),
                owner,
            ).is_alive) ==> r == Err::<Pet, PetError>(PetError::DeadPet) && final(store).pets@
                == old(store).pets@,
    {
        proof {
            lemma_bit_and_self(pet_of(*old(store), owner).accessories);
        }
        if caller != owner {
            return Err(PetError::Unauthorized);
        }
        let decayed = match try_decay_stats(store, owner, now) {
            Ok(p) => p,
            Err(e) => { return Err(e) },
        };
        proof {
            lemma_decay_props(pet_of(*old(store), owner), now);
        }
        if !decayed.is_alive {
            proof {
                if !pet_of(*old(store), owner).is_alive {
                    assert(store.pets@ =~= old(store).pets@);
                }
            }
            return Err(PetError::DeadPet);
        }
        if decayed.energy < WORK_ENERGY_COST {
            return Err(PetError::InsufficientEnergy);
        }
        let mut pet = decayed;
        pet.energy = sub_stat(pet.energy, WORK_ENERGY_COST);
        pet.happiness = sub_stat(pet.happiness, WORK_HAPPINESS_COST);
        pet.xp = add_xp(pet.xp, XP_PER_WORK);
        let current_coins = match store.get_coins(owner) {
            Some(c) => c,
            None => 0,
        };
        let new_coins = current_coins.checked_add(WORK_COIN_REWARD).unwrap_or(i128::MAX);
        store.set_coins(owner, new_coins);
        let ghost mid = pet;
        let mut pet = resolve_leveling(pet);
        pet.last_updated = now;
        proof {
            lemma_resolve_leveling_props(mid.level, mid.xp);
            assert(pet == work_spec(pet_of(*old(store), owner), now));
        }
        store.set_pet(owner, pet.clone());
        proof {
            assert forall|o: u64| #[trigger]
                store.pets@.contains_key(o) implies store.pets@[o].wf() && store.pets@[o].owner
                == o by {
                if o != owner {
                    assert(old(store).pets@.contains_key(o));
                }
            }
            assert forall|o: u64| #[trigger] store.coins@.contains_key(o) implies store.coins@[o]
                >= 0 by {
                if o != owner {
                    assert(old(store).coins@.contains_key(o));
                }
            }
            assert(store.pets@ =~= old(store).pets@.insert(owner, pet));
        }
        Ok(pet)
    }

    /// Exercises the pet: costs `EXERCISE_ENERGY_COST` energy, raises
    /// happiness by `EXERCISE_HAPPINESS_GAIN` (capped), credits
    /// `EXERCISE_COIN_REWARD` coins and earns `XP_PER_EXERCISE`.
    pub fn exercise(store: &mut Store, caller: u64, owner: u64, now: u64) -> (r: Result<
        Pet,
        PetError,
    >)
        requires
            old(store).wf(),
        ensures
            final(store).wf(),
            action_ensures(
                *old(store),
                *final(store),
                caller,
                owner,
                now,
                r,
                (|p: Pet| p.energy >= EXERCISE_ENERGY_COST),
                PetError::InsufficientEnergy,
                (|p: Pet, t: u64| exercise_spec(p, t)),
                EXERCISE_COIN_REWARD,
            ),
            action_frame(*old(store), *final(store), owner, now),
            (caller == owner && has_pet(*old(store), owner) && !pet_of(
                *old(store),
                owner,
            ).is_alive) ==> r == Err::<Pet, PetError>(PetError::DeadPet) && final(store).pets@
                == old(store).pets@,
    {
        proof {
            lemma_bit_and_self(pet_of(*old(store), owner).accessories);
        }
        if caller != owner {
            return Err(PetError::Unauthorized);
        }
        let decayed = match try_decay_stats(store, owner, now) {
            Ok(p) => p,
            Err(e) => { return Err(e) },
        };
        proof {
            lemma_decay_props(pet_of(*old(store), owner), now);
        }
        if !decayed.is_alive {
            proof {
                if !pet_of(*old(store), owner).is_alive {
                    assert(store.pets@ =~= old(store).pets@);
                }
            }
            return Err(PetError::DeadPet);
        }
        if decayed.energy < EXERCISE_ENERGY_COST {
            return Err(PetError::InsufficientEnergy);
        }
        let mut pet = decayed;
        pet.energy = sub_stat(pet.energy, EXERCISE_ENERGY_COST);
        pet.happiness = add_stat(pet.happiness, EXERCISE_HAPPINESS_GAIN);
        let current_coins = match store.get_coins(owner) {
            Some(c) => c,
            None => 0,
        };
        let new_coins = current_coins.checked_add(EXERCISE_COIN_REWARD).unwrap_or(i128::MAX);
        store.set_coins(owner, new_coins);
        pet.xp = add_xp(pet.xp, XP_PER_EXERCISE);
        let ghost mid = pet;
        let mut pet = resolve_leveling(pet);
        pet.last_updated = now;
        proof {
            lemma_resolve_leveling_props(mid.level, mid.xp);
            assert(pet == exercise_spec(pet_of(*old(store), owner), now));
        }
        store.set_pet(owner, pet.clone());
        proof {
            assert forall|o: u64| #[trigger]
                store.pets@.contains_key(o) implies store.pets@[o].wf() && store.pets@[o].owner
                == o by {
                if o != owner {
                    assert(old(store).pets@.contains_key(o));
                }
            }
            assert forall|o: u64| #[trigger] store.coins@.contains_key(o) implies store.coins@[o]
                >= 0 by {
                if o != owner {
                    assert(old(store).coins@.contains_key(o));
                }
            }
            assert(store.pets@ =~= old(store).pets@.insert(owner, pet));
        }
        Ok(pet)
    }

    /// Buys the glasses cosmetic: a one-off purchase that debits
    /// `COINS_FOR_GLASSES` and sets the glasses bit of the accessories.
    pub fn mint_glasses(store: &mut Store, caller: u64, owner: u64, now: u64) -> (r: Result<
        Pet,
        PetError,
    >)
        requires
            old(store).wf(),
        ensures
            final(store).wf(),
            mint_ensures(*old(store), *final(store), caller, owner, now, r),
            action_frame(*old(store), *final(store), owner, now),
            (caller == owner && has_pet(*old(store), owner) && !pet_of(
                *old(store),
                owner,
            ).is_alive) ==> r == Err::<Pet, PetError>(PetError::DeadPet) && final(store).pets@
                == old(store).pets@,
    {
        proof {
            lemma_bit_and_self(pet_of(*old(store), owner).accessories);
            lemma_bit_or_keeps(pet_of(*old(store), owner).accessories, ACCESSORY_GLASSES);
        }
        if caller != owner {
            return Err(PetError::Unauthorized);
        }
        let decayed = match try_decay_stats(store, owner, now) {
            Ok(p) => p,
            Err(e) => { return Err(e) },
        };
        proof {
            lemma_decay_props(pet_of(*old(store), owner), now);
        }
        if !decayed.is_alive {
            proof {
                if !pet_of(*old(store), owner).is_alive {
                    assert(store.pets@ =~= old(store).pets@);
                }
            }
            return Err(PetError::DeadPet);
        }
        if decayed.accessories & ACCESSORY_GLASSES != 0 {
            return Err(PetError::AlreadyOwned);
        }
        let balance = match store.get_coins(owner) {
            Some(c) => c,
            None => 0,
        };
        if balance < COINS_FOR_GLASSES {
            return Err(PetError::InsufficientCoins);
        }
        let new_balance = balance - COINS_FOR_GLASSES;
        let mut pet = decayed;
        pet.accessories = pet.accessories | ACCESSORY_GLASSES;
        let mut pet = resolve_leveling(pet);
        pet.last_updated = now;
        proof {
            assert(pet == mint_spec(pet_of(*old(store), owner), now));
        }
        store.set_pet(owner, pet.clone());
        store.set_coins(owner, new_balance);
        proof {
            assert forall|o: u64| #[trigger]
                store.pets@.contains_key(o) implies store.pets@[o].wf() && store.pets@[o].owner
                == o by {
                if o != owner {
                    assert(old(store).pets@.contains_key(o));
                }
            }
            assert forall|o: u64| #[trigger] store.coins@.contains_key(o) implies store.coins@[o]
                >= 0 by {
                if o != owner {
                    assert(old(store).coins@.contains_key(o));
                }
            }
            assert(store.pets@ =~= old(store).pets@.insert(owner, pet));
        }
        Ok(pet)
    }

    /// Creates a fresh pet (and a zero coin balance) for the owner.
    /// Allowed only when no record exists or the existing record is dead.
    pub fn create(store: &mut Store, caller: u64, owner: u64, name: String, now: u64) -> (r:
        Result<Pet, PetError>)
        requires
            old(store).wf(),
        ensures
            final(store).wf(),
            create_ensures(*old(store), *final(store), caller, owner, name, now, r),
    {
        if caller != owner {
            return Err(PetError::Unauthorized);
        }
        if store.has(&DataKey::Pet(owner)) {
            let existing = store.get_pet(owner);
            match existing {
                Some(p) => {
                    if p.is_alive {
                        return Err(PetError::AlreadyExists);
                    }
                },
                // `has` just found the record, so this arm cannot run.
                None => {},
            }
        }
        let pet = Pet {
            owner,
            name,
            birthdate: now,
            last_updated: now,
            is_alive: true,
            hunger: MAX_STAT,
            happiness: MAX_STAT,
            energy: MAX_STAT,
            level: 1,
            xp: 0,
            next_level_xp: Self::calculate_next_level_xp(1),
            species_id: (now % SPECIES_COUNT) as u32,
            accessories: 0,
        };
        store.set_pet(owner, pet.clone());
        store.set_coins(owner, 0);
        proof {
            assert forall|o: u64| #[trigger]
                store.pets@.contains_key(o) implies store.pets@[o].wf() && store.pets@[o].owner
                == o by {
                if o != owner {
                    assert(old(store).pets@.contains_key(o));
                }
            }
            assert forall|o: u64| #[trigger] store.coins@.contains_key(o) implies store.coins@[o]
                >= 0 by {
                if o != owner {
                    assert(old(store).coins@.contains_key(o));
                }
            }
        }
        Ok(pet)
    }

    /// The stored record, as stored: a plain read does not run the decay
    /// calculator, so the stats may predate the current time.
    pub fn get_pet(store: &Store, owner: u64) -> (r: Result<Pet, PetError>)
        ensures
            (r is Ok) <==> has_pet(*store, owner),
            (match r {
                Ok(p) => p == pet_of(*store, owner),
                Err(e) => e == PetError::NotFound,
            }),
    {
        match store.get_pet(owner) {
            Some(p) => Ok(p.clone()),
            None => Err(PetError::NotFound),
        }
    }

    /// The stored coin balance; zero when none was ever stored.
    pub fn get_coins(store: &Store, owner: u64) -> (balance: i128)
        ensures
            balance == coins_of(*store, owner),
    {
        match store.get_coins(owner) {
            Some(c) => c,
            None => 0,
        }
    }
}

} // verus!
