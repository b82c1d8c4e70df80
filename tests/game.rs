use angler::config::{ConfigError, MultiplierData};
use angler::engine::{cast, plan_cast, resolve, spawn_catch, FishCatch, Outcome};
use angler::fish::{Fish, FishData, FishSpecies};
use angler::ledger::{CastError, UserValues};
use angler::rarity::Rarity;
use angler::rods::{CatalogError, Rod, RodData, RodPart, RodStats};
use angler::shop::{price_of, BuyError, RestockError, Shop, SHOP_SIZE};

fn part(name: &str, cost: u32, rate: u32, chance: u32, depth: u32, limit: u32) -> RodPart {
    RodPart {
        name: name.to_string(),
        cost,
        catch_rate: rate,
        catch_chance: chance,
        depth,
        weight_limit: limit,
        description: String::new(),
        shop_rarity: Rarity::Common,
    }
}

fn rod_data() -> RodData {
    RodData {
        rod_types: vec![part("Stick with String", 0, 10, 500, 5, 10), part("Pole", 50, 8, 600, 20, 30)],
        rod_materials: vec![part("Oak", 10, 1, 50, 2, 5), part("Carbon", 200, 0, 150, 30, 60)],
    }
}

fn carp() -> FishSpecies {
    FishSpecies { name: "Carp".to_string(), min_weight: 200, max_weight: 800, avg_weight: 500, depth: 5, rarity: Rarity::Common }
}

fn fish_data() -> FishData {
    FishData { fish: vec![carp()] }
}

fn config() -> MultiplierData {
    MultiplierData { value: 100, cast_time_divisor: 100, catch_chance: 0, rarity_boost: false, shop_discount: 0 }
}

fn casting_user() -> UserValues {
    let mut u = UserValues::default();
    u.cast = true;
    u
}

fn carp_catch(weight: u32, will_catch: bool, override_special: bool, user_file: UserValues) -> FishCatch {
    FishCatch { fish: Fish { fish_type: carp(), rarity: Rarity::Common, weight }, user_file, will_catch, override_special }
}

fn shop() -> Shop {
    let mut rods = Vec::new();
    for _ in 0..SHOP_SIZE {
        rods.push(Rod::new("Pole".to_string(), "Carbon".to_string()));
    }
    rods[0] = Rod::new("Pole".to_string(), "Oak".to_string());
    Shop { rods, restock_at: 1000 }
}

#[test]
fn new_user_defaults() {
    let u = UserValues::default();
    assert_eq!(u.money, 0);
    assert_eq!(u.fish_caught, 0);
    assert_eq!(u.rod_name, "Stick with String");
    assert_eq!(u.rod_modifier, None);
    assert!(!u.cast);
    assert!(u.has_seen.is_empty());
    assert_eq!(u.get_rod().get_name(), "Stick with String");
}

#[test]
fn cast_refused_while_casting() {
    let mut u = casting_user();
    u.money = 42;
    assert_eq!(u.start_cast(), Err(CastError::AlreadyCasting));
    assert_eq!(u.money, 42);
    assert!(u.cast);
    let r = cast(&mut u, &rod_data(), &fish_data(), &config());
    assert!(matches!(r, Err(CastError::AlreadyCasting)));
    assert_eq!(u.money, 42);
}

#[test]
fn cast_sets_flag_and_samples_fish() {
    let mut u = UserValues::default();
    let p = cast(&mut u, &rod_data(), &fish_data(), &config()).ok().unwrap();
    assert!(u.cast);
    assert!(p.catch.user_file.cast);
    assert!(!p.catch.override_special);
    assert_eq!(p.weight_limit, 10);
    assert_eq!(p.catch.fish.fish_type.name, "Carp");
    assert!(200 <= p.catch.fish.weight && p.catch.fish.weight <= 800);
    assert!(matches!(u.start_cast(), Err(CastError::AlreadyCasting)));
    u.clear_cast();
    assert!(!u.cast);
    u.clear_cast();
    assert!(!u.cast);
}

#[test]
fn cast_with_unknown_rod() {
    let mut u = UserValues::default();
    u.rod_name = "Harpoon".to_string();
    let r = cast(&mut u, &rod_data(), &fish_data(), &config());
    assert!(matches!(r, Err(CastError::UnknownComponent)));
    assert!(!u.cast);
}

#[test]
fn starter_catches_forced_carp() {
    let u = UserValues::default();
    let c = carp_catch(500, true, false, u.duplicate());
    let value = c.fish.get_value(100);
    assert_eq!(value, 5);
    let limit = rod_data().compose(&"Stick with String".to_string(), &None).unwrap().weight_limit;
    let (after, outcome) = resolve(c, limit, 0, 100);
    assert_eq!(outcome, Outcome::Caught(5));
    assert_eq!(after.fish_caught, 1);
    assert_eq!(after.money, 5);
    assert!(!after.cast);
    assert_eq!(after.has_seen, vec!["Carp".to_string()]);
}

#[test]
fn heavy_fish_breaks_line() {
    let mut u = casting_user();
    u.money = 17;
    u.fish_caught = 3;
    let (after, outcome) = resolve(carp_catch(1001, true, false, u), 10, 0, 100);
    assert_eq!(outcome, Outcome::LineBreak);
    assert_eq!(after.money, 17);
    assert_eq!(after.fish_caught, 3);
    assert!(!after.cast);
}

#[test]
fn weight_at_limit_does_not_break() {
    let (_, outcome) = resolve(carp_catch(1000, true, false, casting_user()), 10, 0, 100);
    assert_eq!(outcome, Outcome::Caught(10));
}

#[test]
fn failed_roll_escapes() {
    let (after, outcome) = resolve(carp_catch(500, false, false, casting_user()), 10, 0, 100);
    assert_eq!(outcome, Outcome::Escaped);
    assert_eq!(after.money, 0);
    assert!(!after.cast);
}

#[test]
fn turtle_steals_on_high_roll() {
    let (after, outcome) = resolve(carp_catch(500, true, false, casting_user()), 10, 98, 100);
    assert_eq!(outcome, Outcome::Stolen);
    assert_eq!(after.money, 0);
    assert_eq!(after.fish_caught, 0);
    let (_, kept) = resolve(carp_catch(500, true, false, casting_user()), 10, 97, 100);
    assert_eq!(kept, Outcome::Caught(5));
}

#[test]
fn override_forces_catch() {
    let (after, outcome) = resolve(carp_catch(5000, false, true, casting_user()), 10, 99, 100);
    assert_eq!(outcome, Outcome::Caught(50));
    assert_eq!(after.money, 50);
    assert_eq!(after.fish_caught, 1);
}

#[test]
fn seen_species_not_repeated() {
    let mut u = casting_user();
    u.has_seen = vec!["Pike".to_string(), "Carp".to_string()];
    let (after, _) = resolve(carp_catch(500, true, false, u), 10, 0, 100);
    assert_eq!(after.has_seen, vec!["Pike".to_string(), "Carp".to_string()]);
}

#[test]
fn value_has_floor_of_one_and_scales() {
    let tiny = Fish { fish_type: carp(), rarity: Rarity::Common, weight: 1 };
    assert_eq!(tiny.get_value(100), 1);
    let big = Fish { fish_type: carp(), rarity: Rarity::Legendary, weight: 500 };
    assert_eq!(big.get_value(100), 80);
    assert_eq!(big.get_value(250), 200);
}

#[test]
fn plan_cast_delay_and_roll() {
    let stats = RodStats { cost: 0, catch_rate: 10, catch_chance: 500, depth: 5, weight_limit: 10 };
    let heavy = Fish { fish_type: carp(), rarity: Rarity::Common, weight: 700 };
    let p = plan_cast(&stats, &heavy, &config(), 500, 100);
    assert!(p.will_catch);
    assert_eq!(p.delay_ms, 10_100);
    let light = Fish { fish_type: carp(), rarity: Rarity::Common, weight: 300 };
    let mut fast = config();
    fast.cast_time_divisor = 200;
    fast.catch_chance = 10;
    let q = plan_cast(&stats, &light, &fast, 511, 80);
    assert!(!q.will_catch);
    assert_eq!(q.delay_ms, (8000 - 100) / 2);
}

#[test]
fn config_with_zero_divisor_rejected() {
    let mut c = config();
    assert_eq!(c.validated(), Ok(c));
    c.cast_time_divisor = 0;
    assert_eq!(c.validated(), Err(ConfigError::ZeroCastTimeDivisor));
}

#[test]
fn spawn_catch_looks_up_species() {
    let c = spawn_catch(&fish_data(), &"Carp".to_string(), Rarity::Epic, 650, UserValues::default()).ok().unwrap();
    assert!(c.will_catch && c.override_special);
    assert_eq!(c.fish.weight, 650);
    assert_eq!(c.fish.rarity, Rarity::Epic);
    let missing = spawn_catch(&fish_data(), &"Shark".to_string(), Rarity::Epic, 650, UserValues::default());
    assert!(matches!(missing, Err(CatalogError::UnknownComponent)));
}

#[test]
fn buy_index_out_of_range() {
    let s = shop();
    let mut u = UserValues::default();
    u.money = 1000;
    assert_eq!(s.sell_rod(7, &mut u, &rod_data(), 0), Err(BuyError::InvalidRod));
    assert_eq!(s.sell_rod(0, &mut u, &rod_data(), 0), Err(BuyError::InvalidRod));
    assert_eq!(u.money, 1000);
    assert_eq!(u.rod_name, "Stick with String");
}

#[test]
fn buy_pays_and_equips() {
    let s = shop();
    let mut u = UserValues::default();
    u.money = 100;
    assert_eq!(s.sell_rod(2, &mut u, &rod_data(), 0), Err(BuyError::NoMoney));
    assert_eq!(u.money, 100);
    assert_eq!(s.sell_rod(1, &mut u, &rod_data(), 50), Ok(30));
    assert_eq!(u.money, 70);
    assert_eq!(u.rod_name, "Pole");
    assert_eq!(u.rod_modifier, Some("Oak".to_string()));
    u.cast = true;
    assert_eq!(s.sell_rod(1, &mut u, &rod_data(), 0), Err(BuyError::Casting));
    let mut odd = shop();
    odd.rods[3] = Rod::new("Raft".to_string(), "Oak".to_string());
    let mut v = UserValues::default();
    assert_eq!(odd.sell_rod(4, &mut v, &rod_data(), 0), Err(BuyError::UnknownComponent));
}

#[test]
fn discounted_prices() {
    assert_eq!(price_of(250, 0), 250);
    assert_eq!(price_of(250, 10), 225);
    assert_eq!(price_of(99, 50), 49);
    assert_eq!(price_of(250, 100), 0);
    assert_eq!(price_of(250, 150), 0);
}

#[test]
fn restock_before_time_keeps_listing() {
    let mut s = shop();
    let before: Vec<String> = s.rods.iter().map(|r| r.get_name()).collect();
    assert_eq!(s.get_listing(500, 3600, &rod_data()), Ok(false));
    assert_eq!(s.get_listing(999, 3600, &rod_data()), Ok(false));
    let after: Vec<String> = s.rods.iter().map(|r| r.get_name()).collect();
    assert_eq!(before, after);
    assert_eq!(s.restock_at, 1000);
}

#[test]
fn restock_when_due() {
    let mut s = shop();
    assert!(s.needs_restock(1000));
    assert_eq!(s.get_listing(1000, 3600, &rod_data()), Ok(true));
    assert_eq!(s.restock_at, 4600);
    assert_eq!(s.rods.len(), SHOP_SIZE);
    let first: Vec<String> = s.rods.iter().map(|r| r.get_name()).collect();
    assert_eq!(s.get_listing(1000, 3600, &rod_data()), Ok(false));
    let second: Vec<String> = s.rods.iter().map(|r| r.get_name()).collect();
    assert_eq!(first, second);
}

#[test]
fn restock_replaces_listing_only_when_due() {
    let mut s = shop();
    let fresh: Vec<Rod> = (0..SHOP_SIZE).map(|_| Rod::new("Stick with String".to_string(), "Oak".to_string())).collect();
    assert!(!s.restock(999, 60, fresh));
    assert_eq!(s.rods[0].get_name(), "Oak Pole");
    assert_eq!(s.restock_at, 1000);
    let fresh: Vec<Rod> = (0..SHOP_SIZE).map(|_| Rod::new("Stick with String".to_string(), "Oak".to_string())).collect();
    assert!(s.restock(1000, 60, fresh));
    assert_eq!(s.restock_at, 1060);
    assert!(s.rods.iter().all(|r| r.get_name() == "Oak Stick with String"));
    let again: Vec<Rod> = (0..SHOP_SIZE).map(|_| Rod::new("Pole".to_string(), "Carbon".to_string())).collect();
    assert!(!s.restock(1000, 60, again));
    assert!(s.rods.iter().all(|r| r.get_name() == "Oak Stick with String"));
}

#[test]
fn catch_time_within_random_factor() {
    let rod = Rod::new("Pole".to_string(), "Oak".to_string());
    for _ in 0..100 {
        let ms = rod.random_catch_time(&rod_data(), &config()).unwrap();
        assert!((7200..=10710).contains(&ms));
        assert_eq!(ms % 90, 0);
    }
    let mut fast = config();
    fast.cast_time_divisor = 300;
    let ms = rod.random_catch_time(&rod_data(), &fast).unwrap();
    assert!((2400..=3570).contains(&ms));
    let lost = Rod::unmodified("Raft".to_string());
    assert_eq!(lost.random_catch_time(&rod_data(), &config()), Err(CatalogError::UnknownComponent));
}

#[test]
fn equipped_rod_with_material() {
    let mut u = UserValues::default();
    u.rod_name = "Pole".to_string();
    u.rod_modifier = Some("Carbon".to_string());
    let rod = u.get_rod();
    assert_eq!(rod.get_name(), "Carbon Pole");
    assert_eq!(rod.get_rod_weight_limit(&rod_data()), Ok(90));
}

#[test]
fn random_catch_resolves_against_ledger() {
    let mut u = casting_user();
    u.money = 3;
    let (after, outcome) = angler::engine::catch(carp_catch(500, true, false, u), 10, 100);
    assert!(!after.cast);
    match outcome {
        Outcome::Caught(v) => {
            assert_eq!(v, 5);
            assert_eq!(after.money, 8);
        },
        Outcome::Stolen => assert_eq!(after.money, 3),
        other => panic!("unexpected outcome {:?}", other),
    }
}

#[test]
fn restock_time_out_of_range_keeps_listing() {
    let mut s = shop();
    assert_eq!(s.get_listing(u64::MAX, 10, &rod_data()), Err(RestockError::ClockOutOfRange));
    assert_eq!(s.restock_at, 1000);
    assert_eq!(s.rods[0].get_name(), "Oak Pole");
    let fresh: Vec<Rod> = (0..SHOP_SIZE).map(|_| Rod::new("Pole".to_string(), "Carbon".to_string())).collect();
    assert!(!s.restock(u64::MAX - 5, 10, fresh));
    assert_eq!(s.rods[0].get_name(), "Oak Pole");
    let broken = RodData { rod_types: vec![], rod_materials: vec![] };
    assert_eq!(s.get_listing(2000, 10, &broken), Err(RestockError::UnknownComponent));
    assert_eq!(s.restock_at, 1000);
}

#[test]
fn counters_hold_at_the_top() {
    let mut u = casting_user();
    u.money = u64::MAX - 2;
    u.fish_caught = u64::MAX;
    let (after, outcome) = resolve(carp_catch(500, true, false, u), 10, 0, 100);
    assert_eq!(outcome, Outcome::Caught(5));
    assert_eq!(after.money, u64::MAX);
    assert_eq!(after.fish_caught, u64::MAX);
    let (_, heavy) = resolve(carp_catch(u32::MAX, true, false, casting_user()), u64::MAX, 0, 100);
    assert_eq!(heavy, Outcome::Caught(u32::MAX as u64 / 100));
}
