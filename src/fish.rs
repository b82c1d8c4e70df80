//! Fish catalog: species, the value of a catch, and random sampling.

use vstd::prelude::*;
use crate::draw::draw_below;
use crate::rarity::{Rarity, rank, value_factor};

verus! {

/// A species of fish. Weights are in hundredths of a pound.
pub struct FishSpecies {
    pub name: String,
    pub min_weight: u32,
    pub max_weight: u32,
    pub avg_weight: u32,
    /// Depth the species lives at; a rod reaches it when its depth is at least this.
    pub depth: u32,
    pub rarity: Rarity,
}

/// The catalog of species.
pub struct FishData {
    pub fish: Vec<FishSpecies>,
}

/// A fish on the line: its species, the tier it was drawn in, and its weight
/// in hundredths of a pound.
pub struct Fish {
    pub fish_type: FishSpecies,
    pub rarity: Rarity,
    pub weight: u32,
}

/// How far species selection relaxes its constraints: tier and depth, then
/// tier only, then any species.
pub open spec fn eligible(s: FishSpecies, tier: Rarity, depth: nat, level: nat) -> bool {
    if level == 0 {
        s.rarity == tier && s.depth <= depth
    } else if level == 1 {
        s.rarity == tier
    } else {
        true
    }
}

/// Number of species among the first `n` that are eligible.
pub open spec fn count_eligible(fish: Seq<FishSpecies>, n: int, tier: Rarity, depth: nat, level: nat) -> nat
    decreases n,
{
    if n <= 0 {
        0
    } else {
        count_eligible(fish, n - 1, tier, depth, level) + if eligible(fish[n - 1], tier, depth, level) {
            1nat
        } else {
            0nat
        }
    }
}

/// The strictest level at which some species is eligible.
pub open spec fn select_level(fish: Seq<FishSpecies>, tier: Rarity, depth: nat) -> nat {
    if count_eligible(fish, fish.len() as int, tier, depth, 0) > 0 {
        0
    } else if count_eligible(fish, fish.len() as int, tier, depth, 1) > 0 {
        1
    } else {
        2
    }
}

/// Value of a fish: weight times the tier's factor times the value multiplier
/// (a percentage), in whole units of money, and never below 1.
pub open spec fn fish_value(weight: nat, rarity: Rarity, value_percent: nat) -> nat {
    let raw = weight * value_factor(rarity) * value_percent / 10000;
    if raw < 1 {
        1
    } else {
        raw
    }
}

/// The weight that a draw selects in a species' range.
pub open spec fn weight_of_draw(s: FishSpecies, draw: nat) -> nat {
    (s.min_weight + draw % ((s.max_weight - s.min_weight + 1) as nat)) as nat
}

impl FishSpecies {
    pub open spec fn wf(&self) -> bool {
        self.min_weight <= self.max_weight
    }

    /// A copy of this species.
    pub fn duplicate(&self) -> (r: FishSpecies)
        ensures
            r == *self,
    {
        FishSpecies {
            name: self.name.clone(),
            min_weight: self.min_weight,
            max_weight: self.max_weight,
            avg_weight: self.avg_weight,
            depth: self.depth,
            rarity: self.rarity,
        }
    }

    /// The weight in the species' range that `draw` selects.
    pub fn sample_weight(&self, draw: u64) -> (r: u32)
        requires
            self.wf(),
        ensures
            r == weight_of_draw(*self, draw as nat),
            self.min_weight <= r <= self.max_weight,
    {
        let span: u64 = (self.max_weight - self.min_weight) as u64 + 1;
        let off: u64 = draw % span;
        (self.min_weight as u64 + off) as u32
    }
}

impl FishData {
    /// A catalog is well formed when it is not empty and every species has
    /// an ordered weight range.
    pub open spec fn wf(&self) -> bool {
        &&& self.fish@.len() > 0
        &&& forall|i: int| 0 <= i < self.fish@.len() ==> (#[trigger] self.fish@[i]).wf()
    }

    /// Whether the catalog holds a species named `name`.
    pub open spec fn has_species(&self, name: Seq<char>) -> bool {
        exists|i: int| 0 <= i < self.fish@.len() && self.fish@[i].name@ == name
    }

    /// Index of the first species named `name`, if the catalog has one.
    pub fn fish_type_by_name(&self, name: &String) -> (r: Option<usize>)
        ensures
            r matches Some(i) ==> i < self.fish@.len() && self.fish@[i as int].name@ == name@,
            r matches Some(i) ==> forall|j: int| 0 <= j < i ==> self.fish@[j].name@ != name@,
            r is None <==> !self.has_species(name@),
    {
        let mut i: usize = 0;
        while i < self.fish.len()
            invariant
                i <= self.fish@.len(),
                forall|j: int| 0 <= j < i ==> self.fish@[j].name@ != name@,
            decreases self.fish.len() - i,
        {
            if self.fish[i].name == *name {
                return Some(i);
            }
            i = i + 1;
        }
        None
    }

    /// Number of species eligible at `level`.
    pub fn count_eligible(&self, tier: Rarity, depth: u64, level: u8) -> (r: u64)
        ensures
            r == count_eligible(self.fish@, self.fish@.len() as int, tier, depth as nat, level as nat),
    {
        let mut i: usize = 0;
        let mut c: u64 = 0;
        while i < self.fish.len()
            invariant
                i <= self.fish@.len(),
                c == count_eligible(self.fish@, i as int, tier, depth as nat, level as nat),
                c <= i,
            decreases self.fish.len() - i,
        {
            if is_eligible(&self.fish[i], tier, depth, level) {
                c = c + 1;
            }
            i = i + 1;
        }
        c
    }

    /// The strictest relaxation level that leaves a species to pick, and how
    /// many species it leaves.
    pub fn eligible_pool(&self, tier: Rarity, depth: u64) -> (r: (u8, u64))
        requires
            self.fish@.len() > 0,
        ensures
            r.0 == select_level(self.fish@, tier, depth as nat),
            r.1 == count_eligible(self.fish@, self.fish@.len() as int, tier, depth as nat, r.0 as nat),
            r.1 > 0,
    {
        let c0 = self.count_eligible(tier, depth, 0);
        if c0 > 0 {
            return (0, c0);
        }
        let c1 = self.count_eligible(tier, depth, 1);
        if c1 > 0 {
            return (1, c1);
        }
        let c2 = self.count_eligible(tier, depth, 2);
        proof {
            lemma_count_all(self.fish@, self.fish@.len() as int, tier, depth as nat);
        }
        (2, c2)
    }

    /// Index of the species that `pick` selects among those eligible for
    /// `tier` at a rod depth of `depth`: the eligible species are taken in
    /// catalog order at the strictest level that has any, and `pick` counts
    /// among them, wrapping around.
    pub fn select_species(&self, tier: Rarity, depth: u64, pick: u64) -> (r: usize)
        requires
            self.fish@.len() > 0,
        ensures
            r < self.fish@.len(),
            eligible(self.fish@[r as int], tier, depth as nat, select_level(self.fish@, tier, depth as nat)),
            count_eligible(self.fish@, r as int, tier, depth as nat, select_level(self.fish@, tier, depth as nat))
                == pick as nat % count_eligible(
                self.fish@,
                self.fish@.len() as int,
                tier,
                depth as nat,
                select_level(self.fish@, tier, depth as nat),
            ),
    {
        let (level, count) = self.eligible_pool(tier, depth);
        let k = pick % count;
        let mut i: usize = 0;
        let mut seen: u64 = 0;
        while i < self.fish.len()
            invariant
                i <= self.fish@.len(),
                seen == count_eligible(self.fish@, i as int, tier, depth as nat, level as nat),
                seen <= k,
                k < count,
                level as nat == select_level(self.fish@, tier, depth as nat),
                k == pick % count,
                count == count_eligible(self.fish@, self.fish@.len() as int, tier, depth as nat, level as nat),
            decreases self.fish.len() - i,
        {
            if is_eligible(&self.fish[i], tier, depth, level) {
                if seen == k {
                    return i;
                }
                seen = seen + 1;
            }
            i = i + 1;
        }
        0
    }

    /// Draws a fish for a rod reaching `depth`: a tier by weighted roll
    /// (boosted on request), a species eligible for it, and a weight in the
    /// species' range.
    pub fn random_fish(&self, depth: u64, boost: bool) -> (r: Fish)
        requires
            self.wf(),
        ensures
            exists|i: int|
                0 <= i < self.fish@.len() && r.fish_type == self.fish@[i] && eligible(
                    self.fish@[i],
                    r.rarity,
                    depth as nat,
                    select_level(self.fish@, r.rarity, depth as nat),
                ),
            r.fish_type.min_weight <= r.weight <= r.fish_type.max_weight,
    {
        let tier = Rarity::random(boost);
        let (_level, count) = self.eligible_pool(tier, depth);
        let pick = draw_below(count);
        let i = self.select_species(tier, depth, pick);
        let species = self.fish[i].duplicate();
        let span: u64 = (species.max_weight - species.min_weight) as u64 + 1;
        let draw = draw_below(span);
        let weight = species.sample_weight(draw);
        Fish { fish_type: species, rarity: tier, weight }
    }
}

fn is_eligible(s: &FishSpecies, tier: Rarity, depth: u64, level: u8) -> (r: bool)
    ensures
        r == eligible(*s, tier, depth as nat, level as nat),
{
    if level == 0 {
        s.rarity == tier && s.depth as u64 <= depth
    } else if level == 1 {
        s.rarity == tier
    } else {
        true
    }
}

proof fn lemma_count_all(fish: Seq<FishSpecies>, n: int, tier: Rarity, depth: nat)
    requires
        0 <= n,
    ensures
        count_eligible(fish, n, tier, depth, 2) == n,
    decreases n,
{
    if n > 0 {
        lemma_count_all(fish, n - 1, tier, depth);
    }
}

impl Fish {
    /// The value of this fish with the value multiplier `value_percent`.
    pub fn get_value(&self, value_percent: u32) -> (r: u64)
        ensures
            r == fish_value(self.weight as nat, self.rarity, value_percent as nat),
            r >= 1,
    {
        let f = self.rarity.factor();
        let w = self.weight as u128;
        let p = value_percent as u128;
        assert(w * (f as u128) <= 0xffff_ffffu128 * 16) by (nonlinear_arith)
            requires
                w <= 0xffff_ffffu128,
                f <= 16,
        ;
        assert(w * (f as u128) * p <= 0xffff_ffffu128 * 16 * 0xffff_ffffu128) by (nonlinear_arith)
            requires
                w * (f as u128) <= 0xffff_ffffu128 * 16,
                p <= 0xffff_ffffu128,
        ;
        let raw = w * (f as u128) * p / 10000;
        if raw < 1 {
            1
        } else {
            raw as u64
        }
    }
}

/// A heavier fish, or one of a rarer tier, is worth at least as much.
pub proof fn lemma_value_monotonic(w1: nat, w2: nat, r1: Rarity, r2: Rarity, value_percent: nat)
    requires
        w1 <= w2,
        rank(r1) <= rank(r2),
    ensures
        fish_value(w1, r1, value_percent) <= fish_value(w2, r2, value_percent),
{
    let f1 = value_factor(r1);
    let f2 = value_factor(r2);
    assert(f1 <= f2);
    assert(w1 * f1 * value_percent <= w2 * f2 * value_percent) by (nonlinear_arith)
        requires
            w1 <= w2,
            f1 <= f2,
    ;
    vstd::arithmetic::div_mod::lemma_div_is_ordered(
        (w1 * f1 * value_percent) as int,
        (w2 * f2 * value_percent) as int,
        10000,
    );
}

} // verus!
