//! A cast from start to resolution: the exclusivity check, the eager
//! sampling of the fish, the delay, and the outcome with its ledger update.

use vstd::prelude::*;
use crate::config::MultiplierData;
use crate::draw::draw_below;
use crate::fish::{Fish, FishData, eligible, fish_value, select_level};
use crate::rarity::{Rarity, value_factor};
use crate::ledger::{CastError, UserValues, contains_name, seen_contains};
use crate::rods::{CatalogError, RodData, RodStats, TIME_FACTOR_MIN, TIME_FACTOR_SPAN, compose_spec, opt_view};

verus! {

/// Catch rolls are drawn from `0..CATCH_ROLL_SPAN`.
pub const CATCH_ROLL_SPAN: u64 = 1000;

/// Theft rolls are drawn from `0..THEFT_ROLL_SPAN`.
pub const THEFT_ROLL_SPAN: u64 = 100;

/// A theft roll at or above this steals the fish: a 2% chance.
pub const THEFT_THRESHOLD: u64 = 98;

/// A pending cast: the fish sampled when it started, the user's ledger as it
/// was then, whether the catch roll succeeded, and whether the catch is forced.
pub struct FishCatch {
    pub fish: Fish,
    pub user_file: UserValues,
    pub will_catch: bool,
    pub override_special: bool,
}

/// How a cast ended.
#[derive(Clone, Copy, Debug, PartialEq, Eq, Structural)]
pub enum Outcome {
    /// The fish was heavier than the rod could hold.
    LineBreak,
    /// The catch roll failed.
    Escaped,
    /// A turtle took the fish.
    Stolen,
    /// The fish was landed; it was worth the given value.
    Caught(u64),
}

/// What the start of a cast decided.
pub struct CastPlan {
    pub will_catch: bool,
    /// Time until resolution, in milliseconds.
    pub delay_ms: u64,
}

/// A started cast: the catch to resolve after `delay_ms`, and the rod's
/// weight limit (in pounds) captured when it started.
pub struct PendingCast {
    pub catch: FishCatch,
    pub delay_ms: u64,
    pub weight_limit: u64,
}

/// The catch roll succeeds when it does not exceed the rod's catch chance
/// plus the configured bonus.
pub open spec fn catch_succeeds(roll: nat, rod_chance: nat, bonus: nat) -> bool {
    roll <= rod_chance + bonus
}

/// Milliseconds that the deviation of a fish's weight from its species'
/// average adds to a cast (50 ms per pound, weights in hundredths, truncated
/// toward zero), added to the rod's scaled catch time and floored at zero.
pub open spec fn raw_delay_ms(catch_rate: nat, time_percent: nat, weight: nat, avg: nat) -> nat {
    let base = catch_rate * 10 * time_percent;
    if weight >= avg {
        base + (weight - avg) as nat / 2
    } else if base >= (avg - weight) as nat / 2 {
        (base - (avg - weight) as nat / 2) as nat
    } else {
        0
    }
}

/// The delay of a cast: the raw delay divided by the configured divisor
/// (a percentage).
pub open spec fn delay_ms_spec(catch_rate: nat, time_percent: nat, weight: nat, avg: nat, divisor: nat) -> nat {
    raw_delay_ms(catch_rate, time_percent, weight, avg) * 100 / divisor
}

/// The outcome of a catch whose fish weighs `weight` against a rod holding
/// `weight_limit` pounds, in priority order.
pub open spec fn outcome_spec(c: FishCatch, weight_limit: nat, theft_roll: nat, value_percent: nat) -> Outcome {
    if !c.override_special && c.fish.weight > weight_limit * 100 {
        Outcome::LineBreak
    } else if !c.override_special && !c.will_catch {
        Outcome::Escaped
    } else if !c.override_special && theft_roll >= THEFT_THRESHOLD {
        Outcome::Stolen
    } else {
        Outcome::Caught(fish_value(c.fish.weight as nat, c.fish.rarity, value_percent) as u64)
    }
}

/// `a + b`, held at the largest 64-bit value.
pub open spec fn sat_add(a: nat, b: nat) -> nat {
    if a + b > u64::MAX {
        u64::MAX as nat
    } else {
        a + b
    }
}

/// The ledger after a cast with `outcome` on the fish named `name`: the cast
/// flag is cleared; a catch also adds its value to the money, counts the
/// fish (both held at the largest 64-bit value), and records the species if
/// it is new.
pub open spec fn ledger_after(old: UserValues, new: UserValues, name: String, outcome: Outcome) -> bool {
    &&& !new.cast
    &&& new.rod_name == old.rod_name
    &&& new.rod_modifier == old.rod_modifier
    &&& match outcome {
        Outcome::Caught(value) => {
            &&& new.money == sat_add(old.money as nat, value as nat)
            &&& new.fish_caught == sat_add(old.fish_caught as nat, 1)
            &&& new.has_seen@ == if seen_contains(old.has_seen@, name@) {
                old.has_seen@
            } else {
                old.has_seen@.push(name)
            }
        },
        _ => {
            &&& new.money == old.money
            &&& new.fish_caught == old.fish_caught
            &&& new.has_seen@ == old.has_seen@
        },
    }
}

/// A catch forced by an operator: the species named `name` at tier `rarity`
/// and weight `weight`, landed whatever the rod; fails when the catalog has
/// no such species.
pub fn spawn_catch(data: &FishData, name: &String, rarity: Rarity, weight: u32, user_file: UserValues) -> (r: Result<FishCatch, CatalogError>)
    ensures
        !data.has_species(name@) ==> r == Err::<FishCatch, CatalogError>(CatalogError::UnknownComponent),
        data.has_species(name@) ==> (r matches Ok(c) && c.fish.fish_type.name@ == name@
            && (exists|i: int| 0 <= i < data.fish@.len() && c.fish.fish_type == data.fish@[i])
            && c.fish.rarity == rarity && c.fish.weight == weight && c.user_file == user_file
            && c.will_catch && c.override_special),
{
    match data.fish_type_by_name(name) {
        None => Err(CatalogError::UnknownComponent),
        Some(i) => {
            let fish_type = data.fish[i].duplicate();
            Ok(FishCatch { fish: Fish { fish_type, rarity, weight }, user_file, will_catch: true, override_special: true })
        },
    }
}

/// Decides whether the catch roll succeeds and how long the cast takes.
pub fn plan_cast(stats: &RodStats, fish: &Fish, config: &MultiplierData, catch_roll: u64, time_percent: u8) -> (r: CastPlan)
    requires
        config.wf(),
        stats.catch_rate <= 2 * 0xffff_ffff,
        stats.catch_chance <= 2 * 0xffff_ffff,
    ensures
        r.will_catch == catch_succeeds(catch_roll as nat, stats.catch_chance as nat, config.catch_chance as nat),
        r.delay_ms == delay_ms_spec(
            stats.catch_rate as nat,
            time_percent as nat,
            fish.weight as nat,
            fish.fish_type.avg_weight as nat,
            config.cast_time_divisor as nat,
        ),
{
    let will_catch = catch_roll <= stats.catch_chance + config.catch_chance as u64;
    assert(stats.catch_rate * 10 * (time_percent as u64) <= 2 * 0xffff_ffff * 10 * 255) by (nonlinear_arith)
        requires
            stats.catch_rate <= 2 * 0xffff_ffff,
            time_percent <= 255,
    ;
    let base: u64 = stats.catch_rate * 10 * time_percent as u64;
    let weight = fish.weight as u64;
    let avg = fish.fish_type.avg_weight as u64;
    let raw: u64 = if weight >= avg {
        base + (weight - avg) / 2
    } else if base >= (avg - weight) / 2 {
        base - (avg - weight) / 2
    } else {
        0
    };
    let delay_ms = raw * 100 / config.cast_time_divisor as u64;
    CastPlan { will_catch, delay_ms }
}

/// Resolves a catch for a rod holding `weight_limit` pounds, given the
/// theft roll: the ledger the catch carried, updated for the outcome.
pub fn resolve(catch: FishCatch, weight_limit: u64, theft_roll: u64, value_percent: u32) -> (r: (UserValues, Outcome))
    ensures
        r.1 == outcome_spec(catch, weight_limit as nat, theft_roll as nat, value_percent as nat),
        ledger_after(catch.user_file, r.0, catch.fish.fish_type.name, r.1),
{
    let FishCatch { fish, user_file, will_catch, override_special } = catch;
    let mut user_file = user_file;
    user_file.cast = false;
    if fish.weight as u128 > weight_limit as u128 * 100 && !override_special {
        return (user_file, Outcome::LineBreak);
    }
    if !will_catch && !override_special {
        return (user_file, Outcome::Escaped);
    }
    if theft_roll >= THEFT_THRESHOLD && !override_special {
        return (user_file, Outcome::Stolen);
    }
    let value = fish.get_value(value_percent);
    if !contains_name(&user_file.has_seen, &fish.fish_type.name) {
        user_file.has_seen.push(fish.fish_type.name.clone());
    }
    user_file.money = user_file.money.saturating_add(value);
    user_file.fish_caught = user_file.fish_caught.saturating_add(1);
    (user_file, Outcome::Caught(value))
}

/// Resolves a catch with a theft roll drawn at random.
pub fn catch(landed: FishCatch, weight_limit: u64, value_percent: u32) -> (r: (UserValues, Outcome))
    ensures
        exists|roll: nat| roll < THEFT_ROLL_SPAN
            && r.1 == outcome_spec(landed, weight_limit as nat, roll, value_percent as nat),
        ledger_after(landed.user_file, r.0, landed.fish.fish_type.name, r.1),
{
    let roll = draw_below(THEFT_ROLL_SPAN);
    let r = resolve(landed, weight_limit, roll, value_percent);
    assert(roll < THEFT_ROLL_SPAN && r.1 == outcome_spec(landed, weight_limit as nat, roll as nat, value_percent as nat));
    r
}


/// Starts a cast for the user with ledger `ledger`: refused while a cast is
/// pending or when the equipped rod is not in the catalog, in which cases the
/// ledger is left as it was. Otherwise the cast flag is set, the fish is
/// sampled now, the catch roll and the random time factor are drawn, and the
/// catch to resolve is returned with its delay.
pub fn cast(ledger: &mut UserValues, rods: &RodData, fish: &FishData, config: &MultiplierData) -> (r: Result<PendingCast, CastError>)
    requires
        fish.wf(),
        config.wf(),
    ensures
        old(ledger).cast ==> r == Err::<PendingCast, CastError>(CastError::AlreadyCasting)
            && *final(ledger) == *old(ledger),
        !old(ledger).cast && compose_spec(*rods, old(ledger).rod_name@, opt_view(old(ledger).rod_modifier)) is Err
            ==> r == Err::<PendingCast, CastError>(CastError::UnknownComponent) && *final(ledger) == *old(ledger),
        !old(ledger).cast && compose_spec(*rods, old(ledger).rod_name@, opt_view(old(ledger).rod_modifier)) is Ok
            ==> r is Ok && *final(ledger) == old(ledger).with_cast(true),
        r matches Ok(p) ==> started_cast(*rods, *fish, *config, *final(ledger), p),
{
    if ledger.cast {
        return Err(CastError::AlreadyCasting);
    }
    let stats = match rods.compose(&ledger.rod_name, &ledger.rod_modifier) {
        Ok(s) => s,
        Err(_) => {
            return Err(CastError::UnknownComponent);
        },
    };
    proof {
        crate::rods::lemma_sum_bounded(*rods, ledger.rod_name@, opt_view(ledger.rod_modifier));
    }
    let _ = ledger.start_cast();
    let sampled = fish.random_fish(stats.depth, config.rarity_boost);
    let catch_roll = draw_below(CATCH_ROLL_SPAN);
    let time_percent = (TIME_FACTOR_MIN + draw_below(TIME_FACTOR_SPAN)) as u8;
    let plan = plan_cast(&stats, &sampled, config, catch_roll, time_percent);
    let user_file = ledger.duplicate();
    assert(catch_roll < CATCH_ROLL_SPAN && TIME_FACTOR_MIN <= time_percent < TIME_FACTOR_MIN + TIME_FACTOR_SPAN);
    Ok(PendingCast {
        catch: FishCatch { fish: sampled, user_file, will_catch: plan.will_catch, override_special: false },
        delay_ms: plan.delay_ms,
        weight_limit: stats.weight_limit,
    })
}

/// What holds of every cast that `cast` starts: the catch carries the
/// ledger as the cast left it, a species of the catalog eligible for the
/// rod's depth with a weight in its range, and a catch decision and delay
/// that some catch roll and time factor in range give.
pub open spec fn started_cast(rods: RodData, fish: FishData, config: MultiplierData, ledger: UserValues, p: PendingCast) -> bool {
    let stats = compose_spec(rods, ledger.rod_name@, opt_view(ledger.rod_modifier))->Ok_0;
    &&& p.catch.user_file.fish_caught == ledger.fish_caught
    &&& p.catch.user_file.money == ledger.money
    &&& p.catch.user_file.rod_name == ledger.rod_name
    &&& p.catch.user_file.rod_modifier == ledger.rod_modifier
    &&& p.catch.user_file.cast == ledger.cast
    &&& p.catch.user_file.has_seen@ == ledger.has_seen@
    &&& !p.catch.override_special
    &&& p.weight_limit == stats.weight_limit
    &&& exists|i: int|
        0 <= i < fish.fish@.len() && p.catch.fish.fish_type == fish.fish@[i] && eligible(
            fish.fish@[i],
            p.catch.fish.rarity,
            stats.depth as nat,
            select_level(fish.fish@, p.catch.fish.rarity, stats.depth as nat),
        )
    &&& p.catch.fish.fish_type.min_weight <= p.catch.fish.weight <= p.catch.fish.fish_type.max_weight
    &&& exists|roll: nat, tp: nat|
        roll < CATCH_ROLL_SPAN && TIME_FACTOR_MIN <= tp < TIME_FACTOR_MIN + TIME_FACTOR_SPAN
            && p.catch.will_catch == catch_succeeds(roll, stats.catch_chance as nat, config.catch_chance as nat)
            && p.delay_ms == delay_ms_spec(
            stats.catch_rate as nat,
            tp,
            p.catch.fish.weight as nat,
            p.catch.fish.fish_type.avg_weight as nat,
            config.cast_time_divisor as nat,
        )
}

/// The value of a fish of any weight, at any value multiplier, fits in 64 bits.
proof fn lemma_value_fits(weight: u32, rarity: Rarity, value_percent: u32)
    ensures
        1 <= fish_value(weight as nat, rarity, value_percent as nat) <= u64::MAX,
{
    let f = value_factor(rarity);
    assert(f <= 16);
    assert(weight as nat * f * value_percent as nat <= 0xffff_ffffnat * 16 * 0xffff_ffffnat) by (nonlinear_arith)
        requires
            weight <= 0xffff_ffff,
            f <= 16,
            value_percent <= 0xffff_ffff,
    ;
}

/// Over a cast cycle money never decreases: a catch adds exactly its value,
/// which is at least 1, wherever the sum fits in 64 bits, and every other
/// outcome leaves money as it was.
pub proof fn lemma_money_never_decreases(c: FishCatch, weight_limit: nat, theft_roll: nat, value_percent: u32, new: UserValues)
    requires
        ledger_after(
            c.user_file,
            new,
            c.fish.fish_type.name,
            outcome_spec(c, weight_limit, theft_roll, value_percent as nat),
        ),
    ensures
        new.money >= c.user_file.money,
        match outcome_spec(c, weight_limit, theft_roll, value_percent as nat) {
            Outcome::Caught(v) => v >= 1 && (c.user_file.money + v <= u64::MAX ==> new.money == c.user_file.money + v),
            _ => new.money == c.user_file.money,
        },
{
    lemma_value_fits(c.fish.weight, c.fish.rarity, value_percent);
}

/// The species a user has seen only grow: every name seen before a
/// resolution is still there, in place, after it. When the catalog held every
/// name seen before and the caught species, it holds every name seen after.
pub proof fn lemma_seen_species_grow(old: UserValues, new: UserValues, caught: Fish, outcome: Outcome, catalog: FishData)
    requires
        ledger_after(old, new, caught.fish_type.name, outcome),
    ensures
        new.has_seen@.len() >= old.has_seen@.len(),
        forall|j: int| 0 <= j < old.has_seen@.len() ==> new.has_seen@[j] == old.has_seen@[j],
        (forall|j: int| 0 <= j < old.has_seen@.len() ==> catalog.has_species(#[trigger] old.has_seen@[j]@))
            && catalog.has_species(caught.fish_type.name@) ==> forall|j: int|
            0 <= j < new.has_seen@.len() ==> catalog.has_species(#[trigger] new.has_seen@[j]@),
{
}

} // verus!
