use tamagotchi::contract::try_decay_stats;
use tamagotchi::contract::TamagotchiContract;
use tamagotchi::pet::Pet;
use tamagotchi::pet::PetError;
use tamagotchi::store::Store;

const OWNER: u64 = 1;

fn fresh(now: u64) -> Store {
    let mut store = Store::new();
    let created = TamagotchiContract::create(&mut store, OWNER, OWNER, String::from("Rex"), now);
    assert!(created.is_ok());
    store
}

fn must(r: Result<Pet, PetError>) -> Pet {
    match r {
        Ok(p) => p,
        Err(e) => panic!("unexpected error: {:?}", e),
    }
}

#[test]
fn create_new_pet() {
    let mut store = Store::new();
    let pet = must(TamagotchiContract::create(
        &mut store,
        OWNER,
        OWNER,
        String::from("Rex"),
        7,
    ));
    assert_eq!(pet.owner, OWNER);
    assert_eq!(pet.name, "Rex");
    assert_eq!(pet.birthdate, 7);
    assert_eq!(pet.last_updated, 7);
    assert!(pet.is_alive);
    assert_eq!(pet.hunger, 100);
    assert_eq!(pet.happiness, 100);
    assert_eq!(pet.energy, 100);
    assert_eq!(pet.level, 1);
    assert_eq!(pet.xp, 0);
    assert_eq!(pet.next_level_xp, 100);
    assert_eq!(pet.species_id, 1);
    assert_eq!(pet.accessories, 0);
    assert_eq!(TamagotchiContract::get_coins(&store, OWNER), 0);
    let read = must(TamagotchiContract::get_pet(&store, OWNER));
    assert_eq!(read.hunger, 100);
    assert_eq!(read.level, 1);
}

#[test]
fn species_follows_creation_time() {
    let mut store = Store::new();
    let pet = must(TamagotchiContract::create(
        &mut store,
        OWNER,
        OWNER,
        String::from("Rex"),
        8,
    ));
    assert_eq!(pet.species_id, 2);
}

#[test]
fn create_unauthorized() {
    let mut store = Store::new();
    let r = TamagotchiContract::create(&mut store, 2, OWNER, String::from("Rex"), 0);
    assert_eq!(r.unwrap_err(), PetError::Unauthorized);
}

#[test]
fn create_already_exists_while_alive() {
    let mut store = fresh(0);
    let r = TamagotchiContract::create(&mut store, OWNER, OWNER, String::from("Rex"), 5);
    assert_eq!(r.unwrap_err(), PetError::AlreadyExists);
}

#[test]
fn create_again_after_death() {
    let mut store = fresh(0);
    // 6000 periods of decay kill the pet inside the action's decay step.
    let r = TamagotchiContract::feed(&mut store, OWNER, OWNER, 360_000);
    assert_eq!(r.unwrap_err(), PetError::DeadPet);
    let reborn = must(TamagotchiContract::create(
        &mut store,
        OWNER,
        OWNER,
        String::from("Rex"),
        360_000,
    ));
    assert!(reborn.is_alive);
    assert_eq!(reborn.hunger, 100);
}

#[test]
fn feed_five_times_levels_up() {
    let mut store = fresh(0);
    for expected_xp in [20u64, 40, 60, 80] {
        let pet = must(TamagotchiContract::feed(&mut store, OWNER, OWNER, 0));
        assert_eq!(pet.xp, expected_xp);
        assert_eq!(pet.level, 1);
        assert_eq!(pet.next_level_xp, 100);
        assert_eq!(pet.hunger, 100);
    }
    let pet = must(TamagotchiContract::feed(&mut store, OWNER, OWNER, 0));
    assert_eq!(pet.level, 2);
    assert_eq!(pet.xp, 0);
    assert_eq!(pet.next_level_xp, 200);
}

#[test]
fn play_low_energy_fails_without_changes() {
    let mut store = fresh(0);
    let mut last = must(TamagotchiContract::get_pet(&store, OWNER));
    for _ in 0..6 {
        last = must(TamagotchiContract::play(&mut store, OWNER, OWNER, 0));
    }
    assert_eq!(last.energy, 10);
    let r = TamagotchiContract::play(&mut store, OWNER, OWNER, 0);
    assert_eq!(r.unwrap_err(), PetError::InsufficientEnergy);
    let after = must(TamagotchiContract::get_pet(&store, OWNER));
    assert_eq!(after.energy, last.energy);
    assert_eq!(after.happiness, last.happiness);
    assert_eq!(after.hunger, last.hunger);
    assert_eq!(after.xp, last.xp);
    assert_eq!(after.level, last.level);
}

#[test]
fn play_costs_energy_and_caps_happiness() {
    let mut store = fresh(0);
    let pet = must(TamagotchiContract::play(&mut store, OWNER, OWNER, 0));
    assert_eq!(pet.energy, 85);
    assert_eq!(pet.happiness, 100);
    assert_eq!(pet.xp, 30);
}

#[test]
fn sleep_restores_energy() {
    let mut store = fresh(0);
    for _ in 0..4 {
        must(TamagotchiContract::play(&mut store, OWNER, OWNER, 0));
    }
    let tired = must(TamagotchiContract::get_pet(&store, OWNER));
    assert_eq!(tired.energy, 40);
    let pet = must(TamagotchiContract::sleep(&mut store, OWNER, OWNER, 0));
    assert_eq!(pet.energy, 80);
    let pet = must(TamagotchiContract::sleep(&mut store, OWNER, OWNER, 0));
    assert_eq!(pet.energy, 100);
}

#[test]
fn work_accumulates_coins_and_xp() {
    let mut store = fresh(0);
    for (round, expected_xp) in [(1u32, 25u64), (2, 50), (3, 75)] {
        let pet = must(TamagotchiContract::work(&mut store, OWNER, OWNER, 0));
        assert_eq!(pet.xp, expected_xp);
        assert_eq!(pet.level, 1);
        assert_eq!(pet.energy, 100 - 20 * round);
        assert_eq!(pet.happiness, 100 - 10 * round);
        assert_eq!(
            TamagotchiContract::get_coins(&store, OWNER),
            25 * i128::from(round)
        );
    }
    let pet = must(TamagotchiContract::work(&mut store, OWNER, OWNER, 0));
    assert_eq!(pet.level, 2);
    assert_eq!(pet.xp, 0);
    assert_eq!(TamagotchiContract::get_coins(&store, OWNER), 100);
    // Another shift after ten decay periods: the rewards do not depend
    // on the decay timing.
    let pet = must(TamagotchiContract::work(&mut store, OWNER, OWNER, 600));
    assert_eq!(pet.xp, 25);
    assert_eq!(TamagotchiContract::get_coins(&store, OWNER), 125);
}

#[test]
fn work_low_energy_fails() {
    let mut store = fresh(0);
    for _ in 0..5 {
        must(TamagotchiContract::work(&mut store, OWNER, OWNER, 0));
    }
    let drained = must(TamagotchiContract::get_pet(&store, OWNER));
    assert_eq!(drained.energy, 0);
    let r = TamagotchiContract::work(&mut store, OWNER, OWNER, 0);
    assert_eq!(r.unwrap_err(), PetError::InsufficientEnergy);
    assert_eq!(TamagotchiContract::get_coins(&store, OWNER), 125);
}

#[test]
fn exercise_trades_energy_for_happiness_and_coins() {
    let mut store = fresh(0);
    must(TamagotchiContract::work(&mut store, OWNER, OWNER, 0));
    let pet = must(TamagotchiContract::exercise(&mut store, OWNER, OWNER, 0));
    assert_eq!(pet.energy, 55);
    assert_eq!(pet.happiness, 100);
    assert_eq!(pet.xp, 60);
    assert_eq!(TamagotchiContract::get_coins(&store, OWNER), 35);
}

#[test]
fn exercise_low_energy_fails() {
    let mut store = fresh(0);
    for _ in 0..4 {
        must(TamagotchiContract::play(&mut store, OWNER, OWNER, 0));
    }
    must(TamagotchiContract::play(&mut store, OWNER, OWNER, 0));
    let pet = must(TamagotchiContract::get_pet(&store, OWNER));
    assert_eq!(pet.energy, 25);
    must(TamagotchiContract::exercise(&mut store, OWNER, OWNER, 0));
    let r = TamagotchiContract::exercise(&mut store, OWNER, OWNER, 0);
    assert_eq!(r.unwrap_err(), PetError::InsufficientEnergy);
}

#[test]
fn mint_without_coins_fails_and_changes_nothing() {
    let mut store = fresh(0);
    let r = TamagotchiContract::mint_glasses(&mut store, OWNER, OWNER, 0);
    assert_eq!(r.unwrap_err(), PetError::InsufficientCoins);
    assert_eq!(TamagotchiContract::get_coins(&store, OWNER), 0);
    let pet = must(TamagotchiContract::get_pet(&store, OWNER));
    assert_eq!(pet.accessories, 0);
}

#[test]
fn mint_once_then_already_owned() {
    let mut store = fresh(0);
    must(TamagotchiContract::work(&mut store, OWNER, OWNER, 0));
    must(TamagotchiContract::work(&mut store, OWNER, OWNER, 0));
    assert_eq!(TamagotchiContract::get_coins(&store, OWNER), 50);
    let pet = must(TamagotchiContract::mint_glasses(&mut store, OWNER, OWNER, 0));
    assert_eq!(pet.accessories, 0b0001);
    assert_eq!(TamagotchiContract::get_coins(&store, OWNER), 0);
    let r = TamagotchiContract::mint_glasses(&mut store, OWNER, OWNER, 0);
    assert_eq!(r.unwrap_err(), PetError::AlreadyOwned);
}

#[test]
fn decay_ten_periods_at_level_one() {
    let mut store = fresh(0);
    let pet = must(try_decay_stats(&mut store, OWNER, 600));
    assert_eq!(pet.hunger, 80);
    assert_eq!(pet.happiness, 90);
    assert_eq!(pet.last_updated, 600);
    assert!(pet.is_alive);
}

#[test]
fn decay_discount_at_level_two() {
    let mut store = fresh(0);
    for _ in 0..5 {
        must(TamagotchiContract::feed(&mut store, OWNER, OWNER, 0));
    }
    // Level 2 keeps 99% of the decay rate; one period still costs at
    // least one point of each stat.
    let pet = must(try_decay_stats(&mut store, OWNER, 60));
    assert_eq!(pet.level, 2);
    assert_eq!(pet.hunger, 99);
    assert_eq!(pet.happiness, 99);
}

#[test]
fn decay_within_period_changes_nothing() {
    let mut store = fresh(0);
    let pet = must(try_decay_stats(&mut store, OWNER, 59));
    assert_eq!(pet.hunger, 100);
    assert_eq!(pet.happiness, 100);
    assert_eq!(pet.last_updated, 0);
    let again = must(try_decay_stats(&mut store, OWNER, 59));
    assert_eq!(again.hunger, 100);
    assert_eq!(again.last_updated, 0);
}

#[test]
fn reads_are_stale_and_repeatable() {
    let store = fresh(0);
    let first = must(TamagotchiContract::get_pet(&store, OWNER));
    let second = must(TamagotchiContract::get_pet(&store, OWNER));
    assert_eq!(first.hunger, second.hunger);
    assert_eq!(first.happiness, second.happiness);
    assert_eq!(first.last_updated, second.last_updated);
}

#[test]
fn death_is_sticky_for_every_action() {
    let mut store = fresh(0);
    let dead = must(try_decay_stats(&mut store, OWNER, 360_000));
    assert!(!dead.is_alive);
    assert_eq!(dead.hunger, 0);
    let t = 720_000;
    assert_eq!(
        TamagotchiContract::feed(&mut store, OWNER, OWNER, t).unwrap_err(),
        PetError::DeadPet
    );
    assert_eq!(
        TamagotchiContract::play(&mut store, OWNER, OWNER, t).unwrap_err(),
        PetError::DeadPet
    );
    assert_eq!(
        TamagotchiContract::sleep(&mut store, OWNER, OWNER, t).unwrap_err(),
        PetError::DeadPet
    );
    assert_eq!(
        TamagotchiContract::work(&mut store, OWNER, OWNER, t).unwrap_err(),
        PetError::DeadPet
    );
    assert_eq!(
        TamagotchiContract::exercise(&mut store, OWNER, OWNER, t).unwrap_err(),
        PetError::DeadPet
    );
    assert_eq!(
        TamagotchiContract::mint_glasses(&mut store, OWNER, OWNER, t).unwrap_err(),
        PetError::DeadPet
    );
    // A dead record no longer decays: it is returned exactly as stored.
    let still = must(try_decay_stats(&mut store, OWNER, t));
    assert!(!still.is_alive);
    assert_eq!(still.last_updated, 360_000);
}

#[test]
fn actions_fail_without_a_record() {
    let mut store = Store::new();
    assert_eq!(
        TamagotchiContract::feed(&mut store, OWNER, OWNER, 0).unwrap_err(),
        PetError::NotFound
    );
    assert_eq!(
        TamagotchiContract::get_pet(&store, OWNER).unwrap_err(),
        PetError::NotFound
    );
    assert_eq!(TamagotchiContract::get_coins(&store, OWNER), 0);
}

#[test]
fn actions_reject_other_callers() {
    let mut store = fresh(0);
    assert_eq!(
        TamagotchiContract::feed(&mut store, 9, OWNER, 0).unwrap_err(),
        PetError::Unauthorized
    );
    assert_eq!(
        TamagotchiContract::mint_glasses(&mut store, 9, OWNER, 0).unwrap_err(),
        PetError::Unauthorized
    );
}

#[test]
fn next_level_xp_is_linear_in_level() {
    assert_eq!(TamagotchiContract::calculate_next_level_xp(1), 100);
    assert_eq!(TamagotchiContract::calculate_next_level_xp(5), 500);
    assert_eq!(
        TamagotchiContract::calculate_next_level_xp(u32::MAX),
        100 * u64::from(u32::MAX)
    );
}

#[test]
fn feed_raises_hunger_after_decay() {
    let mut store = fresh(0);
    must(try_decay_stats(&mut store, OWNER, 600));
    // Twenty periods in all: hunger 60, happiness 80 before the meal.
    let pet = must(TamagotchiContract::feed(&mut store, OWNER, OWNER, 1200));
    assert_eq!(pet.hunger, 90);
    assert_eq!(pet.happiness, 80);
    assert_eq!(pet.xp, 20);
    assert_eq!(pet.last_updated, 1200);
}

#[test]
fn decay_is_durable_even_when_the_action_fails() {
    let mut store = fresh(0);
    for _ in 0..6 {
        must(TamagotchiContract::play(&mut store, OWNER, OWNER, 0));
    }
    // The failed play still persists the decay that preceded the check:
    // ten periods at level 2 (99% rate) cost 19 hunger.
    let r = TamagotchiContract::play(&mut store, OWNER, OWNER, 600);
    assert_eq!(r.unwrap_err(), PetError::InsufficientEnergy);
    let pet = must(TamagotchiContract::get_pet(&store, OWNER));
    assert_eq!(pet.level, 2);
    assert_eq!(pet.last_updated, 600);
    assert_eq!(pet.hunger, 81);
}
