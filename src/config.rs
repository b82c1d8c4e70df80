//! Tunable multipliers, read afresh on every use.

use vstd::prelude::*;

verus! {

/// The game's tuning knobs, all as integers.
#[derive(Clone, Copy, Debug, PartialEq, Eq, Structural)]
pub struct MultiplierData {
    /// Scale of fish values, in percent.
    pub value: u32,
    /// Divisor of cast times, in percent: 200 makes casts twice as fast.
    pub cast_time_divisor: u32,
    /// Bonus to every rod's catch chance, in thousandths.
    pub catch_chance: u32,
    /// Whether the rarer fish tiers are favoured.
    pub rarity_boost: bool,
    /// Discount on shop prices, in percent.
    pub shop_discount: u32,
}

/// A configuration that cannot be used.
#[derive(Clone, Copy, Debug, PartialEq, Eq, Structural)]
pub enum ConfigError {
    /// The cast time divisor is zero.
    ZeroCastTimeDivisor,
}

impl MultiplierData {
    pub open spec fn wf(&self) -> bool {
        self.cast_time_divisor > 0
    }

    /// The configuration itself when it can be used, else why not.
    pub fn validated(self) -> (r: Result<MultiplierData, ConfigError>)
        ensures
            self.wf() ==> r == Ok::<MultiplierData, ConfigError>(self),
            !self.wf() ==> r == Err::<MultiplierData, ConfigError>(ConfigError::ZeroCastTimeDivisor),
    {
        if self.cast_time_divisor == 0 {
            Err(ConfigError::ZeroCastTimeDivisor)
        } else {
            Ok(self)
        }
    }
}

} // verus!
