//! Ordered rarity tiers, shared by fish and rods.

use vstd::prelude::*;
use crate::draw::draw_below;

verus! {

/// A rarity tier, from the most common to the rarest.
#[derive(Clone, Copy, Debug, PartialEq, Eq, Structural)]
pub enum Rarity {
    Common,
    Uncommon,
    Rare,
    Epic,
    Legendary,
}

/// The rolls are drawn from `0..ROLL_SPAN`.
pub const ROLL_SPAN: u64 = 100;

/// Position of a tier in the ranking, starting at 1 for `Common`.
pub open spec fn rank(r: Rarity) -> nat {
    match r {
        Rarity::Common => 1,
        Rarity::Uncommon => 2,
        Rarity::Rare => 3,
        Rarity::Epic => 4,
        Rarity::Legendary => 5,
    }
}

/// Share of the rolls (out of `ROLL_SPAN`) that lands on each tier; a boost
/// moves weight from the common tiers to the rarer ones.
pub open spec fn tier_weight(r: Rarity, boost: bool) -> nat {
    if boost {
        match r {
            Rarity::Common => 35,
            Rarity::Uncommon => 30,
            Rarity::Rare => 20,
            Rarity::Epic => 10,
            Rarity::Legendary => 5,
        }
    } else {
        match r {
            Rarity::Common => 50,
            Rarity::Uncommon => 25,
            Rarity::Rare => 15,
            Rarity::Epic => 7,
            Rarity::Legendary => 3,
        }
    }
}

/// The tier that a roll in `0..ROLL_SPAN` selects: the rolls are laid out in
/// consecutive bands, one per tier in order, each as wide as the tier's weight.
pub open spec fn tier_of_roll(roll: nat, boost: bool) -> Rarity {
    let c = tier_weight(Rarity::Common, boost);
    let u = c + tier_weight(Rarity::Uncommon, boost);
    let r = u + tier_weight(Rarity::Rare, boost);
    let e = r + tier_weight(Rarity::Epic, boost);
    if roll < c {
        Rarity::Common
    } else if roll < u {
        Rarity::Uncommon
    } else if roll < r {
        Rarity::Rare
    } else if roll < e {
        Rarity::Epic
    } else {
        Rarity::Legendary
    }
}

/// The tier a name denotes.
pub open spec fn rarity_named(name: Seq<char>) -> Option<Rarity> {
    if name == "Common"@ {
        Some(Rarity::Common)
    } else if name == "Uncommon"@ {
        Some(Rarity::Uncommon)
    } else if name == "Rare"@ {
        Some(Rarity::Rare)
    } else if name == "Epic"@ {
        Some(Rarity::Epic)
    } else if name == "Legendary"@ {
        Some(Rarity::Legendary)
    } else {
        None
    }
}

/// Multiplier that a tier applies to the value of a fish.
pub open spec fn value_factor(r: Rarity) -> nat {
    match r {
        Rarity::Common => 1,
        Rarity::Uncommon => 2,
        Rarity::Rare => 4,
        Rarity::Epic => 8,
        Rarity::Legendary => 16,
    }
}

impl Rarity {
    /// The tier's rank, 1 for `Common` up to 5 for `Legendary`.
    pub fn ident(&self) -> (r: u64)
        ensures
            r == rank(*self),
    {
        match self {
            Rarity::Common => 1,
            Rarity::Uncommon => 2,
            Rarity::Rare => 3,
            Rarity::Epic => 4,
            Rarity::Legendary => 5,
        }
    }

    /// The tier with the given name, if any.
    pub fn from_string(name: &String) -> (r: Option<Rarity>)
        ensures
            r == rarity_named(name@),
    {
        if *name == "Common".to_owned() {
            Some(Rarity::Common)
        } else if *name == "Uncommon".to_owned() {
            Some(Rarity::Uncommon)
        } else if *name == "Rare".to_owned() {
            Some(Rarity::Rare)
        } else if *name == "Epic".to_owned() {
            Some(Rarity::Epic)
        } else if *name == "Legendary".to_owned() {
            Some(Rarity::Legendary)
        } else {
            None
        }
    }

    /// Whether a catch of this tier deserves an emphasised notification.
    pub fn is_notable(&self) -> (r: bool)
        ensures
            r == (rank(*self) > 3),
    {
        self.ident() > 3
    }

    /// The value multiplier of the tier.
    pub fn factor(&self) -> (r: u64)
        ensures
            r == value_factor(*self),
    {
        match self {
            Rarity::Common => 1,
            Rarity::Uncommon => 2,
            Rarity::Rare => 4,
            Rarity::Epic => 8,
            Rarity::Legendary => 16,
        }
    }

    /// The tier selected by `roll`; rolls at or past `ROLL_SPAN` land on the
    /// rarest tier.
    pub fn from_roll(roll: u64, boost: bool) -> (r: Rarity)
        ensures
            r == tier_of_roll(roll as nat, boost),
    {
        let (c, u, ra, e): (u64, u64, u64, u64) = if boost {
            (35, 65, 85, 95)
        } else {
            (50, 75, 90, 97)
        };
        if roll < c {
            Rarity::Common
        } else if roll < u {
            Rarity::Uncommon
        } else if roll < ra {
            Rarity::Rare
        } else if roll < e {
            Rarity::Epic
        } else {
            Rarity::Legendary
        }
    }

    /// Draws a tier at random, weighted as `tier_weight` says.
    pub fn random(boost: bool) -> (r: Rarity)
        ensures
            exists|roll: nat| roll < ROLL_SPAN && r == tier_of_roll(roll, boost),
    {
        let roll = draw_below(ROLL_SPAN);
        let r = Rarity::from_roll(roll, boost);
        assert(roll < ROLL_SPAN && r == tier_of_roll(roll as nat, boost));
        r
    }
}

} // verus!
