//! Rod catalog: rod types and materials, and the rods composed of them.

use vstd::prelude::*;
use crate::draw::draw_below;
use crate::config::MultiplierData;
use crate::rarity::Rarity;

verus! {

/// One component of a rod, a type or a material, with the stats it adds.
pub struct RodPart {
    pub name: String,
    pub cost: u32,
    /// Average time to a bite, in seconds.
    pub catch_rate: u32,
    /// Chance of landing a hooked fish, in thousandths.
    pub catch_chance: u32,
    pub depth: u32,
    /// Heaviest fish the part can hold, in pounds.
    pub weight_limit: u32,
    pub description: String,
    pub shop_rarity: Rarity,
}

/// The kind of rod (a stick, a pole, ...).
pub type RodType = RodPart;

/// What a rod is made of.
pub type RodMaterial = RodPart;

/// The catalog of rod types and materials.
pub struct RodData {
    pub rod_types: Vec<RodType>,
    pub rod_materials: Vec<RodMaterial>,
}

/// Aggregated stats of a composed rod: each is the sum of its parts' stats.
#[derive(Clone, Copy, Debug, PartialEq, Eq, Structural)]
pub struct RodStats {
    pub cost: u64,
    pub catch_rate: u64,
    pub catch_chance: u64,
    pub depth: u64,
    pub weight_limit: u64,
}

/// A rod as a user holds it: names of its type and, optionally, its material.
pub struct Rod {
    pub rod_type: String,
    pub material: Option<String>,
}

/// Failures of a catalog lookup.
#[derive(Clone, Copy, Debug, PartialEq, Eq, Structural)]
pub enum CatalogError {
    /// A named type, material or species is not in the catalog.
    UnknownComponent,
}

/// How many draws a rarity-constrained pick makes before it falls back.
pub const PICK_ATTEMPTS: u64 = 100;

/// Bounds of the random factor on a rod's catch time, in percent: it is
/// drawn from `TIME_FACTOR_MIN..TIME_FACTOR_MIN + TIME_FACTOR_SPAN`.
pub const TIME_FACTOR_MIN: u64 = 80;
pub const TIME_FACTOR_SPAN: u64 = 40;

/// The one type that the reserved material is bound to.
pub open spec fn reserved_type_name() -> Seq<char> {
    "Jigstick"@
}

/// The low-tier material usable only with the reserved type.
pub open spec fn reserved_material_name() -> Seq<char> {
    "Chinesium"@
}

/// A type and a material may form a rod when the reserved material goes
/// with the reserved type and with no other.
pub open spec fn valid_pair(rod_type: Seq<char>, material: Seq<char>) -> bool {
    (rod_type == reserved_type_name()) <==> (material == reserved_material_name())
}

/// Index of the first part at or after `i` whose name is `name`.
pub open spec fn first_named_from(parts: Seq<RodPart>, name: Seq<char>, i: int) -> Option<int>
    decreases parts.len() - i,
{
    if i < 0 || i >= parts.len() {
        None
    } else if parts[i].name@ == name {
        Some(i)
    } else {
        first_named_from(parts, name, i + 1)
    }
}

/// Index of the first part whose name is `name`.
pub open spec fn first_named(parts: Seq<RodPart>, name: Seq<char>) -> Option<int> {
    first_named_from(parts, name, 0)
}

pub open spec fn has_part(parts: Seq<RodPart>, name: Seq<char>) -> bool {
    exists|i: int| 0 <= i < parts.len() && parts[i].name@ == name
}

/// The stats of a type with an optional material, added pointwise.
pub open spec fn sum_stats(t: RodPart, m: Option<RodPart>) -> RodStats {
    match m {
        Some(m) => RodStats {
            cost: (t.cost + m.cost) as u64,
            catch_rate: (t.catch_rate + m.catch_rate) as u64,
            catch_chance: (t.catch_chance + m.catch_chance) as u64,
            depth: (t.depth + m.depth) as u64,
            weight_limit: (t.weight_limit + m.weight_limit) as u64,
        },
        None => RodStats {
            cost: t.cost as u64,
            catch_rate: t.catch_rate as u64,
            catch_chance: t.catch_chance as u64,
            depth: t.depth as u64,
            weight_limit: t.weight_limit as u64,
        },
    }
}

/// The stats of the rod with type `t` and material `m`, if the catalog holds
/// each of the named parts (the first entry of each name counts).
pub open spec fn compose_spec(data: RodData, t: Seq<char>, m: Option<Seq<char>>) -> Result<RodStats, CatalogError> {
    match first_named(data.rod_types@, t) {
        None => Err(CatalogError::UnknownComponent),
        Some(ti) => match m {
            None => Ok(sum_stats(data.rod_types@[ti], None)),
            Some(mn) => match first_named(data.rod_materials@, mn) {
                None => Err(CatalogError::UnknownComponent),
                Some(mi) => Ok(sum_stats(data.rod_types@[ti], Some(data.rod_materials@[mi]))),
            },
        },
    }
}

/// Rod generation succeeds on a catalog that has a type, a material other
/// than the reserved one, and the reserved material wherever it holds the
/// reserved type.
pub open spec fn can_generate(data: RodData) -> bool {
    &&& data.rod_types@.len() > 0
    &&& exists|i: int| 0 <= i < data.rod_materials@.len()
        && data.rod_materials@[i].name@ != reserved_material_name()
    &&& has_part(data.rod_types@, reserved_type_name()) ==> has_part(
        data.rod_materials@,
        reserved_material_name(),
    )
}

/// A rod that generation may return: a type and a material of the catalog
/// that form a valid pair.
pub open spec fn generated_rod(data: RodData, rod: Rod) -> bool {
    &&& has_part(data.rod_types@, rod.rod_type@)
    &&& rod.material_name() matches Some(m) && has_part(data.rod_materials@, m)
        && valid_pair(rod.rod_type@, m)
}

/// The catalog holds a part named `name` that is of tier `t`, or is the
/// first part (the fallback of a rarity pick).
pub open spec fn fits_tier(parts: Seq<RodPart>, name: Seq<char>, t: Rarity) -> bool {
    exists|i: int| 0 <= i < parts.len() && parts[i].name@ == name && (i == 0 || parts[i].shop_rarity == t)
}

/// `name` is the name of the first material other than the reserved one.
pub open spec fn first_unreserved(parts: Seq<RodPart>, name: Seq<char>) -> bool {
    exists|i: int|
        0 <= i < parts.len() && parts[i].name@ == name && parts[i].name@ != reserved_material_name()
            && forall|j: int| 0 <= j < i ==> parts[j].name@ == reserved_material_name()
}

/// A generated rod drew both its parts for the one tier `t`: the type fits
/// the tier, and so does the material, unless the type is the reserved one
/// (whose material is fixed) or every re-draw hit the reserved material and
/// the first other material was taken.
pub open spec fn rod_of_tier(data: RodData, rod: Rod, t: Rarity) -> bool {
    &&& fits_tier(data.rod_types@, rod.rod_type@, t)
    &&& rod.material_name() matches Some(m) && (rod.rod_type@ == reserved_type_name()
        || fits_tier(data.rod_materials@, m, t) || first_unreserved(data.rod_materials@, m))
}

/// Index of the first part not named `name`, if any.
fn first_other(parts: &Vec<RodPart>, name: &String) -> (r: Option<usize>)
    ensures
        r matches Some(i) ==> i < parts@.len() && parts@[i as int].name@ != name@
            && forall|j: int| 0 <= j < i ==> parts@[j].name@ == name@,
        r is None ==> forall|j: int| 0 <= j < parts@.len() ==> parts@[j].name@ == name@,
{
    let mut i: usize = 0;
    while i < parts.len()
        invariant
            i <= parts@.len(),
            forall|j: int| 0 <= j < i ==> parts@[j].name@ == name@,
        decreases parts.len() - i,
    {
        if parts[i].name != *name {
            return Some(i);
        }
        i = i + 1;
    }
    None
}

proof fn lemma_first_named_from(parts: Seq<RodPart>, name: Seq<char>, i: int)
    requires
        0 <= i <= parts.len(),
    ensures
        match first_named_from(parts, name, i) {
            Some(k) => i <= k < parts.len() && parts[k].name@ == name && forall|j: int|
                i <= j < k ==> parts[j].name@ != name,
            None => forall|j: int| i <= j < parts.len() ==> parts[j].name@ != name,
        },
    decreases parts.len() - i,
{
    if i < parts.len() {
        lemma_first_named_from(parts, name, i + 1);
    }
}

/// Index of the first part named `name`, if any.
fn find_part(parts: &Vec<RodPart>, name: &String) -> (r: Option<usize>)
    ensures
        r matches Some(i) ==> first_named(parts@, name@) == Some(i as int),
        r is None ==> first_named(parts@, name@) is None,
        r matches Some(i) ==> i < parts@.len() && parts@[i as int].name@ == name@,
        r is None <==> !has_part(parts@, name@),
{
    proof {
        lemma_first_named_from(parts@, name@, 0);
    }
    let mut i: usize = 0;
    while i < parts.len()
        invariant
            i <= parts@.len(),
            first_named(parts@, name@) == first_named_from(parts@, name@, i as int),
            forall|j: int| 0 <= j < i ==> parts@[j].name@ != name@,
        decreases parts.len() - i,
    {
        if parts[i].name == *name {
            return Some(i);
        }
        i = i + 1;
    }
    None
}

/// The part that a sequence of drawn indices selects for tier `target`, from
/// position `k` on: the first drawn part of that tier, or the first part of
/// the catalog when no drawn part has it.
pub open spec fn first_match_from(parts: Seq<RodPart>, target: Rarity, draws: Seq<u64>, k: int) -> int
    decreases draws.len() - k,
{
    if k < 0 || k >= draws.len() {
        0
    } else if parts[draws[k] as int].shop_rarity == target {
        draws[k] as int
    } else {
        first_match_from(parts, target, draws, k + 1)
    }
}

/// The first drawn part of tier `target`, or the first part of the catalog
/// when none of the draws has it (a fallback that favours that part).
pub open spec fn first_match(parts: Seq<RodPart>, target: Rarity, draws: Seq<u64>) -> int {
    first_match_from(parts, target, draws, 0)
}

/// Every draw indexes a part.
pub open spec fn draws_in_range(parts: Seq<RodPart>, draws: Seq<u64>) -> bool {
    forall|k: int| 0 <= k < draws.len() ==> draws[k] < parts.len()
}

proof fn lemma_first_match_from(parts: Seq<RodPart>, target: Rarity, draws: Seq<u64>, k: int)
    requires
        parts.len() > 0,
        draws_in_range(parts, draws),
        0 <= k,
    ensures
        0 <= first_match_from(parts, target, draws, k) < parts.len(),
        first_match_from(parts, target, draws, k) == 0
            || parts[first_match_from(parts, target, draws, k)].shop_rarity == target,
    decreases draws.len() - k,
{
    if k < draws.len() {
        lemma_first_match_from(parts, target, draws, k + 1);
    }
}

/// The part that the drawn indices `draws` select for tier `target`.
pub fn pick_from_draws(parts: &Vec<RodPart>, target: Rarity, draws: &Vec<u64>) -> (r: usize)
    requires
        parts@.len() > 0,
        draws_in_range(parts@, draws@),
    ensures
        r == first_match(parts@, target, draws@),
        r < parts@.len(),
        r == 0 || parts@[r as int].shop_rarity == target,
{
    proof {
        lemma_first_match_from(parts@, target, draws@, 0);
    }
    let n: usize = parts.len();
    let mut k: usize = 0;
    while k < draws.len()
        invariant
            k <= draws@.len(),
            n == parts@.len(),
            parts@.len() > 0,
            draws_in_range(parts@, draws@),
            first_match(parts@, target, draws@) == first_match_from(parts@, target, draws@, k as int),
        decreases draws.len() - k,
    {
        assert(draws@[k as int] < n);
        let d = draws[k] as usize;
        if parts[d].shop_rarity == target {
            return d;
        }
        k = k + 1;
    }
    0
}

/// Draws `PICK_ATTEMPTS` indices into `parts` and picks by them for tier
/// `target`.
fn pick_with_rarity(parts: &Vec<RodPart>, target: Rarity) -> (r: usize)
    requires
        parts@.len() > 0,
    ensures
        exists|d: Seq<u64>|
            d.len() == PICK_ATTEMPTS && draws_in_range(parts@, d) && r == first_match(parts@, target, d),
        r < parts@.len(),
        r == 0 || parts@[r as int].shop_rarity == target,
{
    let n = parts.len() as u64;
    let mut draws: Vec<u64> = Vec::new();
    while (draws.len() as u64) < PICK_ATTEMPTS
        invariant
            n == parts@.len(),
            n > 0,
            draws@.len() <= PICK_ATTEMPTS,
            draws_in_range(parts@, draws@),
        decreases PICK_ATTEMPTS - draws@.len(),
    {
        draws.push(draw_below(n));
    }
    let r = pick_from_draws(parts, target, &draws);
    assert(draws@.len() == PICK_ATTEMPTS && draws_in_range(parts@, draws@) && r == first_match(parts@, target, draws@));
    r
}

impl RodData {
    /// Index of the material named `material`, if the catalog has one.
    pub fn mat_from_string(&self, material: &String) -> (r: Option<usize>)
        ensures
            r matches Some(i) ==> i < self.rod_materials@.len()
                && self.rod_materials@[i as int].name@ == material@,
            r is None <==> !has_part(self.rod_materials@, material@),
            r matches Some(i) ==> first_named(self.rod_materials@, material@) == Some(i as int),
            r is None ==> first_named(self.rod_materials@, material@) is None,
    {
        find_part(&self.rod_materials, material)
    }

    /// Index of the rod type named `rod_type`, if the catalog has one.
    pub fn type_from_string(&self, rod_type: &String) -> (r: Option<usize>)
        ensures
            r matches Some(i) ==> i < self.rod_types@.len()
                && self.rod_types@[i as int].name@ == rod_type@,
            r is None <==> !has_part(self.rod_types@, rod_type@),
            r matches Some(i) ==> first_named(self.rod_types@, rod_type@) == Some(i as int),
            r is None ==> first_named(self.rod_types@, rod_type@) is None,
    {
        find_part(&self.rod_types, rod_type)
    }

    /// Index of a material of tier `target` drawn at random, or of the first
    /// material when `PICK_ATTEMPTS` draws found none of that tier.
    pub fn random_mat_of(&self, target: Rarity) -> (r: usize)
        requires
            self.rod_materials@.len() > 0,
        ensures
            exists|d: Seq<u64>|
                d.len() == PICK_ATTEMPTS && draws_in_range(self.rod_materials@, d) && r == first_match(self.rod_materials@, target, d),
            r < self.rod_materials@.len(),
            r == 0 || self.rod_materials@[r as int].shop_rarity == target,
    {
        pick_with_rarity(&self.rod_materials, target)
    }

    /// Index of a rod type of tier `target` drawn at random, or of the first
    /// type when `PICK_ATTEMPTS` draws found none of that tier.
    pub fn random_type_of(&self, target: Rarity) -> (r: usize)
        requires
            self.rod_types@.len() > 0,
        ensures
            exists|d: Seq<u64>|
                d.len() == PICK_ATTEMPTS && draws_in_range(self.rod_types@, d) && r == first_match(self.rod_types@, target, d),
            r < self.rod_types@.len(),
            r == 0 || self.rod_types@[r as int].shop_rarity == target,
    {
        pick_with_rarity(&self.rod_types, target)
    }

    /// Index of a material drawn for a randomly drawn tier; the first material
    /// when no draw matched the tier.
    pub fn random_mat(&self) -> (r: usize)
        requires
            self.rod_materials@.len() > 0,
        ensures
            r < self.rod_materials@.len(),
            exists|t: Rarity, d: Seq<u64>|
                d.len() == PICK_ATTEMPTS && draws_in_range(self.rod_materials@, d) && r == first_match(self.rod_materials@, t, d),
    {
        let target = Rarity::random(false);
        self.random_mat_of(target)
    }

    /// Index of a rod type drawn for a randomly drawn tier; the first type
    /// when no draw matched the tier.
    pub fn random_type(&self) -> (r: usize)
        requires
            self.rod_types@.len() > 0,
        ensures
            r < self.rod_types@.len(),
            exists|t: Rarity, d: Seq<u64>|
                d.len() == PICK_ATTEMPTS && draws_in_range(self.rod_types@, d) && r == first_match(self.rod_types@, t, d),
    {
        let target = Rarity::random(false);
        self.random_type_of(target)
    }

    /// Composes the stats of the rod with type `rod_type` and optional
    /// material `material`: the pointwise sum of the parts' stats.
    pub fn compose(&self, rod_type: &String, material: &Option<String>) -> (r: Result<RodStats, CatalogError>)
        ensures
            r == compose_spec(*self, rod_type@, opt_view(*material)),
    {
        match self.type_from_string(rod_type) {
            None => Err(CatalogError::UnknownComponent),
            Some(ti) => {
                let t = &self.rod_types[ti];
                match material {
                    None => Ok(RodStats {
                        cost: t.cost as u64,
                        catch_rate: t.catch_rate as u64,
                        catch_chance: t.catch_chance as u64,
                        depth: t.depth as u64,
                        weight_limit: t.weight_limit as u64,
                    }),
                    Some(mn) => match self.mat_from_string(mn) {
                        None => Err(CatalogError::UnknownComponent),
                        Some(mi) => {
                            let m = &self.rod_materials[mi];
                            Ok(RodStats {
                                cost: t.cost as u64 + m.cost as u64,
                                catch_rate: t.catch_rate as u64 + m.catch_rate as u64,
                                catch_chance: t.catch_chance as u64 + m.catch_chance as u64,
                                depth: t.depth as u64 + m.depth as u64,
                                weight_limit: t.weight_limit as u64 + m.weight_limit as u64,
                            })
                        },
                    },
                }
            },
        }
    }
}

/// A catch time in milliseconds: `catch_rate` seconds scaled by
/// `time_percent` percent and divided by `divisor` percent.
pub open spec fn catch_time_ms(catch_rate: nat, time_percent: nat, divisor: nat) -> nat {
    catch_rate * 10 * time_percent * 100 / divisor
}

/// Each stat of a composed rod is the sum of at most two 32-bit values.
pub(crate) proof fn lemma_sum_bounded(data: RodData, t: Seq<char>, m: Option<Seq<char>>)
    requires
        compose_spec(data, t, m) is Ok,
    ensures
        compose_spec(data, t, m)->Ok_0.catch_rate <= 2 * 0xffff_ffff,
        compose_spec(data, t, m)->Ok_0.catch_chance <= 2 * 0xffff_ffff,
        compose_spec(data, t, m)->Ok_0.weight_limit <= 2 * 0xffff_ffff,
{
}

/// One stat out of a composition, or its error.
pub open spec fn stat_of(r: Result<RodStats, CatalogError>, f: spec_fn(RodStats) -> u64) -> Result<u64, CatalogError> {
    match r {
        Ok(s) => Ok(f(s)),
        Err(e) => Err(e),
    }
}

/// The view of an optional name.
pub open spec fn opt_view(o: Option<String>) -> Option<Seq<char>> {
    match o {
        Some(s) => Some(s@),
        None => None,
    }
}

impl Rod {
    pub open spec fn material_name(&self) -> Option<Seq<char>> {
        opt_view(self.material)
    }

    /// A rod of type `rod_type` made of `material`.
    pub fn new(rod_type: String, material: String) -> (r: Rod)
        ensures
            r.rod_type@ == rod_type@,
            r.material_name() == Some(material@),
    {
        Rod { rod_type, material: Some(material) }
    }

    /// A rod of type `rod_type` with no material.
    pub fn unmodified(rod_type: String) -> (r: Rod)
        ensures
            r.rod_type@ == rod_type@,
            r.material_name() is None,
    {
        Rod { rod_type, material: None }
    }

    /// The rod's display name: the material, a space and the type, or the
    /// type alone when the rod has no material.
    pub fn get_name(&self) -> (r: String)
        ensures
            r@ == match self.material_name() {
                Some(m) => m + " "@ + self.rod_type@,
                None => self.rod_type@,
            },
    {
        match &self.material {
            Some(m) => {
                let mut name = m.clone();
                name.append(" ");
                name.append(self.rod_type.as_str());
                proof {
                    reveal_strlit(" ");
                }
                name
            },
            None => self.rod_type.clone(),
        }
    }

    /// The rod's stats, looked up in `data`.
    pub fn stats(&self, data: &RodData) -> (r: Result<RodStats, CatalogError>)
        ensures
            r == compose_spec(*data, self.rod_type@, self.material_name()),
    {
        data.compose(&self.rod_type, &self.material)
    }

    /// The rod's cost: its type's cost plus its material's.
    pub fn get_cost(&self, data: &RodData) -> (r: Result<u64, CatalogError>)
        ensures
            r == stat_of(compose_spec(*data, self.rod_type@, self.material_name()), |s: RodStats| s.cost),
    {
        match self.stats(data) {
            Ok(s) => Ok(s.cost),
            Err(e) => Err(e),
        }
    }

    /// The rod's average time to a bite, in seconds.
    pub fn get_catch_rate(&self, data: &RodData) -> (r: Result<u64, CatalogError>)
        ensures
            r == stat_of(compose_spec(*data, self.rod_type@, self.material_name()), |s: RodStats| s.catch_rate),
    {
        match self.stats(data) {
            Ok(s) => Ok(s.catch_rate),
            Err(e) => Err(e),
        }
    }

    /// The rod's chance of landing a hooked fish, in thousandths.
    pub fn get_catch_chance(&self, data: &RodData) -> (r: Result<u64, CatalogError>)
        ensures
            r == stat_of(compose_spec(*data, self.rod_type@, self.material_name()), |s: RodStats| s.catch_chance),
    {
        match self.stats(data) {
            Ok(s) => Ok(s.catch_chance),
            Err(e) => Err(e),
        }
    }

    /// The depth the rod reaches.
    pub fn get_casting_depth(&self, data: &RodData) -> (r: Result<u64, CatalogError>)
        ensures
            r == stat_of(compose_spec(*data, self.rod_type@, self.material_name()), |s: RodStats| s.depth),
    {
        match self.stats(data) {
            Ok(s) => Ok(s.depth),
            Err(e) => Err(e),
        }
    }

    /// The heaviest fish the rod holds, in pounds.
    pub fn get_rod_weight_limit(&self, data: &RodData) -> (r: Result<u64, CatalogError>)
        ensures
            r == stat_of(compose_spec(*data, self.rod_type@, self.material_name()), |s: RodStats| s.weight_limit),
    {
        match self.stats(data) {
            Ok(s) => Ok(s.weight_limit),
            Err(e) => Err(e),
        }
    }

    /// Index of the rod's type in the catalog.
    pub fn get_rod_type(&self, data: &RodData) -> (r: Option<usize>)
        ensures
            r matches Some(i) ==> i < data.rod_types@.len() && data.rod_types@[i as int].name@ == self.rod_type@,
            r matches Some(i) ==> first_named(data.rod_types@, self.rod_type@) == Some(i as int),
            r is None <==> !has_part(data.rod_types@, self.rod_type@),
    {
        data.type_from_string(&self.rod_type)
    }

    /// Index of the rod's material in the catalog; `None` also for a rod
    /// without a material.
    pub fn get_rod_material(&self, data: &RodData) -> (r: Option<usize>)
        ensures
            r matches Some(i) ==> i < data.rod_materials@.len() && self.material_name() == Some(
                data.rod_materials@[i as int].name@,
            ),
            r matches Some(i) ==> first_named(data.rod_materials@, self.material_name()->Some_0) == Some(i as int),
            r is None <==> !((self.material_name() matches Some(m) && has_part(data.rod_materials@, m))),
    {
        match &self.material {
            Some(m) => data.mat_from_string(m),
            None => None,
        }
    }

    /// The rod's catch time for one cast, in milliseconds: its catch rate
    /// scaled by a random factor of `TIME_FACTOR_MIN` percent or more, below
    /// `TIME_FACTOR_MIN + TIME_FACTOR_SPAN` percent, then divided by the
    /// configured divisor (a percentage).
    pub fn random_catch_time(&self, data: &RodData, config: &MultiplierData) -> (r: Result<u64, CatalogError>)
        requires
            config.wf(),
        ensures
            compose_spec(*data, self.rod_type@, self.material_name()) matches Err(e) ==> r == Err::<u64, CatalogError>(e),
            compose_spec(*data, self.rod_type@, self.material_name()) matches Ok(s) ==> (r matches Ok(ms)
                && exists|tp: nat| TIME_FACTOR_MIN <= tp < TIME_FACTOR_MIN + TIME_FACTOR_SPAN && ms == catch_time_ms(s.catch_rate as nat, tp, config.cast_time_divisor as nat)),
    {
        let rate = match self.stats(data) {
            Ok(s) => s.catch_rate,
            Err(e) => {
                return Err(e);
            },
        };
        proof {
            lemma_sum_bounded(*data, self.rod_type@, self.material_name());
        }
        let tp = TIME_FACTOR_MIN + draw_below(TIME_FACTOR_SPAN);
        assert(rate * 10 * tp * 100 <= 2 * 0xffff_ffff * 10 * 120 * 100) by (nonlinear_arith)
            requires
                rate <= 2 * 0xffff_ffff,
                tp < 120,
        ;
        let ms = rate * 10 * tp * 100 / config.cast_time_divisor as u64;
        assert(TIME_FACTOR_MIN <= tp < TIME_FACTOR_MIN + TIME_FACTOR_SPAN && ms == catch_time_ms(rate as nat, tp as nat, config.cast_time_divisor as nat));
        Ok(ms)
    }

    /// Composes a random rod: one tier is drawn for the rod, then a type and
    /// a material are picked for that tier, respecting the reserved pairing.
    /// The reserved type always gets the reserved material; any other type re-draws its material up to
    /// `PICK_ATTEMPTS` times while it is the reserved one, and then falls back
    /// to the first material that is not.
    pub fn generate(rod_data: &RodData) -> (r: Result<Rod, CatalogError>)
        ensures
            r is Ok <==> can_generate(*rod_data),
            r is Err ==> r == Err::<Rod, CatalogError>(CatalogError::UnknownComponent),
            r matches Ok(rod) ==> generated_rod(*rod_data, rod),
            r matches Ok(rod) ==> exists|t: Rarity| rod_of_tier(*rod_data, rod, t),
    {
        let types = &rod_data.rod_types;
        let materials = &rod_data.rod_materials;
        let reserved_type = "Jigstick".to_owned();
        let reserved_material = "Chinesium".to_owned();
        if types.len() == 0 {
            return Err(CatalogError::UnknownComponent);
        }
        let fallback = match first_other(materials, &reserved_material) {
            Some(i) => i,
            None => {
                return Err(CatalogError::UnknownComponent);
            },
        };
        let reserved_mat_index = find_part(materials, &reserved_material);
        if find_part(types, &reserved_type).is_some() && reserved_mat_index.is_none() {
            return Err(CatalogError::UnknownComponent);
        }
        let target = Rarity::random(false);
        let ti = rod_data.random_type_of(target);
        let t = &types[ti];
        let mut mi: usize;
        if t.name == reserved_type {
            mi = match reserved_mat_index {
                Some(i) => i,
                None => 0,
            };
        } else {
            mi = rod_data.random_mat_of(target);
            let mut attempt: u64 = 0;
            while attempt < PICK_ATTEMPTS && materials[mi].name == reserved_material
                invariant
                    mi < materials@.len(),
                    mi == 0 || materials@[mi as int].shop_rarity == target,
                    materials == &rod_data.rod_materials,
                decreases PICK_ATTEMPTS - attempt,
            {
                mi = rod_data.random_mat_of(target);
                attempt = attempt + 1;
            }
            if materials[mi].name == reserved_material {
                mi = fallback;
            }
        }
        let rod = Rod::new(t.name.clone(), materials[mi].name.clone());
        assert(rod_of_tier(*rod_data, rod, target));
        Ok(rod)
    }
}

} // verus!
