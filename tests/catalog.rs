use angler::fish::{FishData, FishSpecies};
use angler::rarity::Rarity;
use angler::rods::{pick_from_draws, CatalogError, Rod, RodData, RodPart, RodStats};

fn part(name: &str, cost: u32, rate: u32, chance: u32, depth: u32, limit: u32, rarity: Rarity) -> RodPart {
    RodPart {
        name: name.to_string(),
        cost,
        catch_rate: rate,
        catch_chance: chance,
        depth,
        weight_limit: limit,
        description: String::new(),
        shop_rarity: rarity,
    }
}

fn rod_data() -> RodData {
    RodData {
        rod_types: vec![
            part("Stick with String", 0, 10, 500, 5, 10, Rarity::Common),
            part("Pole", 50, 8, 600, 20, 30, Rarity::Uncommon),
            part("Jigstick", 5, 12, 300, 3, 5, Rarity::Common),
        ],
        rod_materials: vec![
            part("Oak", 10, 1, 50, 2, 5, Rarity::Common),
            part("Chinesium", 1, 2, 10, 1, 1, Rarity::Common),
            part("Carbon", 200, 0, 150, 30, 60, Rarity::Rare),
        ],
    }
}

fn species(name: &str, min: u32, max: u32, avg: u32, depth: u32, rarity: Rarity) -> FishSpecies {
    FishSpecies { name: name.to_string(), min_weight: min, max_weight: max, avg_weight: avg, depth, rarity }
}

#[test]
fn rarity_bands_follow_weights() {
    assert_eq!(Rarity::from_roll(0, false), Rarity::Common);
    assert_eq!(Rarity::from_roll(49, false), Rarity::Common);
    assert_eq!(Rarity::from_roll(50, false), Rarity::Uncommon);
    assert_eq!(Rarity::from_roll(89, false), Rarity::Rare);
    assert_eq!(Rarity::from_roll(96, false), Rarity::Epic);
    assert_eq!(Rarity::from_roll(97, false), Rarity::Legendary);
    assert_eq!(Rarity::from_roll(34, true), Rarity::Common);
    assert_eq!(Rarity::from_roll(35, true), Rarity::Uncommon);
    assert_eq!(Rarity::from_roll(99, true), Rarity::Legendary);
}

#[test]
fn rarity_names_and_ranks() {
    assert_eq!(Rarity::from_string(&"Epic".to_string()), Some(Rarity::Epic));
    assert_eq!(Rarity::from_string(&"epic".to_string()), None);
    assert_eq!(Rarity::Common.ident(), 1);
    assert_eq!(Rarity::Legendary.ident(), 5);
    assert!(Rarity::Epic.is_notable());
    assert!(!Rarity::Rare.is_notable());
}

#[test]
fn compose_sums_part_stats() {
    let data = rod_data();
    let r = data.compose(&"Pole".to_string(), &Some("Carbon".to_string()));
    assert_eq!(r, Ok(RodStats { cost: 250, catch_rate: 8, catch_chance: 750, depth: 50, weight_limit: 90 }));
    let plain = data.compose(&"Pole".to_string(), &None);
    assert_eq!(plain, Ok(RodStats { cost: 50, catch_rate: 8, catch_chance: 600, depth: 20, weight_limit: 30 }));
}

#[test]
fn compose_unknown_component() {
    let data = rod_data();
    assert_eq!(data.compose(&"Harpoon".to_string(), &None), Err(CatalogError::UnknownComponent));
    assert_eq!(data.compose(&"Pole".to_string(), &Some("Gold".to_string())), Err(CatalogError::UnknownComponent));
}

#[test]
fn rod_getters_read_catalog() {
    let data = rod_data();
    let rod = Rod::new("Pole".to_string(), "Oak".to_string());
    assert_eq!(rod.get_name(), "Oak Pole");
    assert_eq!(rod.get_cost(&data), Ok(60));
    assert_eq!(rod.get_catch_rate(&data), Ok(9));
    assert_eq!(rod.get_catch_chance(&data), Ok(650));
    assert_eq!(rod.get_casting_depth(&data), Ok(22));
    assert_eq!(rod.get_rod_weight_limit(&data), Ok(35));
    assert_eq!(rod.get_rod_type(&data), Some(1));
    assert_eq!(rod.get_rod_material(&data), Some(0));
    let starter = Rod::unmodified("Stick with String".to_string());
    assert_eq!(starter.get_name(), "Stick with String");
    assert_eq!(starter.get_rod_material(&data), None);
    let lost = Rod::new("Raft".to_string(), "Oak".to_string());
    assert_eq!(lost.get_cost(&data), Err(CatalogError::UnknownComponent));
}

#[test]
fn lookups_by_name() {
    let data = rod_data();
    assert_eq!(data.type_from_string(&"Jigstick".to_string()), Some(2));
    assert_eq!(data.mat_from_string(&"Carbon".to_string()), Some(2));
    assert_eq!(data.mat_from_string(&"Pole".to_string()), None);
    let i = data.random_type();
    assert!(i < 3);
    let j = data.random_mat();
    assert!(j < 3);
}

#[test]
fn generated_rods_respect_reserved_pairing() {
    let data = rod_data();
    for _ in 0..300 {
        let rod = Rod::generate(&data).unwrap();
        let mat = rod.material.clone().unwrap();
        assert_eq!(rod.rod_type == "Jigstick", mat == "Chinesium");
        assert!(data.type_from_string(&rod.rod_type).is_some());
        assert!(data.mat_from_string(&mat).is_some());
    }
}

#[test]
fn generate_refuses_incomplete_catalog() {
    let only_reserved = RodData {
        rod_types: vec![part("Pole", 1, 1, 1, 1, 1, Rarity::Common)],
        rod_materials: vec![part("Chinesium", 1, 1, 1, 1, 1, Rarity::Common)],
    };
    assert!(Rod::generate(&only_reserved).is_err());
    let no_reserved_material = RodData {
        rod_types: vec![part("Jigstick", 1, 1, 1, 1, 1, Rarity::Common)],
        rod_materials: vec![part("Oak", 1, 1, 1, 1, 1, Rarity::Common)],
    };
    assert_eq!(Rod::generate(&no_reserved_material).err(), Some(CatalogError::UnknownComponent));
    let jig_only = RodData {
        rod_types: vec![part("Jigstick", 1, 1, 1, 1, 1, Rarity::Common)],
        rod_materials: vec![
            part("Oak", 1, 1, 1, 1, 1, Rarity::Common),
            part("Chinesium", 1, 1, 1, 1, 1, Rarity::Common),
        ],
    };
    let rod = Rod::generate(&jig_only).unwrap();
    assert_eq!(rod.get_name(), "Chinesium Jigstick");
}

#[test]
fn sample_weight_stays_in_range() {
    let carp = species("Carp", 200, 800, 500, 5, Rarity::Common);
    assert_eq!(carp.sample_weight(0), 200);
    assert_eq!(carp.sample_weight(600), 800);
    assert_eq!(carp.sample_weight(601), 200);
    assert_eq!(carp.sample_weight(1234), 200 + 1234 % 601);
    let fixed = species("Pebblefish", 7, 7, 7, 0, Rarity::Common);
    assert_eq!(fixed.sample_weight(u64::MAX), 7);
}

#[test]
fn species_selection_prefers_reachable_depth() {
    let data = FishData {
        fish: vec![
            species("Carp", 200, 800, 500, 5, Rarity::Common),
            species("Deep Cod", 300, 900, 600, 50, Rarity::Common),
            species("Trout", 100, 400, 250, 3, Rarity::Common),
            species("Marlin", 5000, 9000, 7000, 80, Rarity::Legendary),
        ],
    };
    assert_eq!(data.eligible_pool(Rarity::Common, 10), (0, 2));
    assert_eq!(data.select_species(Rarity::Common, 10, 0), 0);
    assert_eq!(data.select_species(Rarity::Common, 10, 1), 2);
    assert_eq!(data.select_species(Rarity::Common, 10, 2), 0);
    // nothing legendary within reach: depth is relaxed
    assert_eq!(data.eligible_pool(Rarity::Legendary, 10), (1, 1));
    assert_eq!(data.select_species(Rarity::Legendary, 10, 5), 3);
    // no epic species at all: any species will do
    assert_eq!(data.eligible_pool(Rarity::Epic, 10), (2, 4));
    assert_eq!(data.select_species(Rarity::Epic, 10, 6), 2);
    assert_eq!(data.fish_type_by_name(&"Trout".to_string()), Some(2));
    assert_eq!(data.fish_type_by_name(&"Shark".to_string()), None);
}

#[test]
fn random_fish_weight_in_species_range() {
    let data = FishData {
        fish: vec![
            species("Carp", 200, 800, 500, 5, Rarity::Common),
            species("Pike", 300, 1200, 700, 8, Rarity::Uncommon),
            species("Eel", 100, 300, 200, 20, Rarity::Rare),
        ],
    };
    for _ in 0..200 {
        let f = data.random_fish(10, true);
        assert!(f.fish_type.min_weight <= f.weight && f.weight <= f.fish_type.max_weight);
        assert!(data.fish_type_by_name(&f.fish_type.name).is_some());
    }
}

#[test]
fn pick_by_tier_or_first() {
    let data = rod_data();
    for _ in 0..50 {
        assert_eq!(data.random_mat_of(Rarity::Rare), 2);
        assert_eq!(data.random_type_of(Rarity::Uncommon), 1);
        // no legendary part: the fallback is the first entry
        assert_eq!(data.random_type_of(Rarity::Legendary), 0);
        let t = data.random_type_of(Rarity::Common);
        assert!(t == 0 || t == 2);
    }
}

#[test]
fn pick_from_draws_takes_first_match() {
    let data = rod_data();
    let mats = &data.rod_materials;
    // Oak (Common), Chinesium (Common), Carbon (Rare)
    assert_eq!(pick_from_draws(mats, Rarity::Rare, &vec![0, 1, 2, 0]), 2);
    assert_eq!(pick_from_draws(mats, Rarity::Common, &vec![2, 1, 0]), 1);
    assert_eq!(pick_from_draws(mats, Rarity::Common, &vec![2, 2, 0, 1]), 0);
    // no draw of the tier: the first entry
    assert_eq!(pick_from_draws(mats, Rarity::Epic, &vec![2, 1, 2]), 0);
    assert_eq!(pick_from_draws(mats, Rarity::Rare, &vec![]), 0);
}

#[test]
fn generated_rod_parts_share_a_tier() {
    let data = RodData {
        rod_types: vec![
            part("Stick with String", 0, 10, 500, 5, 10, Rarity::Common),
            part("Pole", 50, 8, 600, 20, 30, Rarity::Rare),
        ],
        rod_materials: vec![
            part("Oak", 10, 1, 50, 2, 5, Rarity::Common),
            part("Carbon", 200, 0, 150, 30, 60, Rarity::Rare),
        ],
    };
    for _ in 0..200 {
        let rod = Rod::generate(&data).unwrap();
        // a rare type is only drawn for the rare tier, whose material is Carbon
        if rod.rod_type == "Pole" {
            assert_eq!(rod.material, Some("Carbon".to_string()));
        }
    }
}
