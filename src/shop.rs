//! The rotating shop: a listing of rods regenerated once its time is up,
//! prices with the configured discount, and purchases.

use vstd::prelude::*;
use crate::ledger::UserValues;
use crate::rods::{Rod, RodData, can_generate, compose_spec, generated_rod, opt_view};

verus! {

/// Number of rods on sale at a time.
pub const SHOP_SIZE: usize = 6;

/// The rods on sale and the time (in seconds) at which they are replaced.
pub struct Shop {
    pub rods: Vec<Rod>,
    pub restock_at: u64,
}

/// The shop as plain values.
pub ghost struct ShopView {
    pub rods: Seq<Rod>,
    pub restock_at: nat,
}

impl View for Shop {
    type V = ShopView;

    open spec fn view(&self) -> ShopView {
        ShopView { rods: self.rods@, restock_at: self.restock_at as nat }
    }
}

/// Reasons a restock cannot happen.
#[derive(Clone, Copy, Debug, PartialEq, Eq, Structural)]
pub enum RestockError {
    /// The catalog cannot compose rods.
    UnknownComponent,
    /// The next restock time does not fit in 64 bits.
    ClockOutOfRange,
}

/// Reasons a purchase is refused.
#[derive(Clone, Copy, Debug, PartialEq, Eq, Structural)]
pub enum BuyError {
    /// The selection is not a slot of the shop.
    InvalidRod,
    /// The user cannot pay the price.
    NoMoney,
    /// The user has a cast pending.
    Casting,
    /// The rod in the slot is not in the catalog.
    UnknownComponent,
}

/// The shop after a restock check at time `now`: a listing whose time is up
/// is replaced by `fresh`, to be replaced again `period` seconds from now;
/// any other listing stays as it is, and so does one whose next restock time
/// would not fit in 64 bits.
pub open spec fn restock_spec(s: ShopView, now: nat, period: nat, fresh: Seq<Rod>) -> ShopView {
    if now >= s.restock_at && now + period <= u64::MAX {
        ShopView { rods: fresh, restock_at: now + period }
    } else {
        s
    }
}

/// The price of a rod of cost `cost` at a discount of `discount` percent,
/// rounded down and never below zero.
pub open spec fn price_spec(cost: nat, discount: nat) -> nat {
    if discount >= 100 {
        0
    } else {
        cost * (100 - discount) as nat / 100
    }
}

/// The outcome of buying slot `item` (counted from 1) of `rods`.
pub open spec fn buy_spec(rods: Seq<Rod>, data: RodData, u: UserValues, item: nat, discount: nat) -> Result<nat, BuyError> {
    if u.cast {
        Err(BuyError::Casting)
    } else if item < 1 || item > rods.len() {
        Err(BuyError::InvalidRod)
    } else {
        let rod = rods[item - 1];
        match compose_spec(data, rod.rod_type@, rod.material_name()) {
            Err(_) => Err(BuyError::UnknownComponent),
            Ok(stats) => if u.money < price_spec(stats.cost as nat, discount) {
                Err(BuyError::NoMoney)
            } else {
                Ok(price_spec(stats.cost as nat, discount))
            },
        }
    }
}

/// The price of a rod of cost `cost` at a discount of `discount` percent.
pub fn price_of(cost: u64, discount: u32) -> (r: u64)
    ensures
        r == price_spec(cost as nat, discount as nat),
{
    if discount >= 100 {
        0
    } else {
        let keep = 100 - discount as u128;
        assert(cost as u128 * keep <= 0xffff_ffff_ffff_ffffu128 * 100) by (nonlinear_arith)
            requires
                keep <= 100,
        ;
        (cost as u128 * keep / 100) as u64
    }
}

impl Shop {
    pub open spec fn wf(&self) -> bool {
        self.rods@.len() == SHOP_SIZE
    }

    /// Whether the listing's time is up at `now`.
    pub fn needs_restock(&self, now: u64) -> (r: bool)
        ensures
            r == (now >= self.restock_at),
    {
        now >= self.restock_at
    }

    /// Replaces the listing by `fresh` if its time is up at `now`; says
    /// whether it did.
    pub fn restock(&mut self, now: u64, period: u64, fresh: Vec<Rod>) -> (r: bool)
        requires
            fresh@.len() == SHOP_SIZE,
            old(self).wf(),
        ensures
            r == (now >= old(self).restock_at && now + period <= u64::MAX),
            final(self)@ == restock_spec(old(self)@, now as nat, period as nat, fresh@),
            final(self).wf(),
    {
        if now < self.restock_at {
            return false;
        }
        match now.checked_add(period) {
            Some(next) => {
                self.rods = fresh;
                self.restock_at = next;
                true
            },
            None => false,
        }
    }

    /// Checks the listing at `now` and, when its time is up, composes
    /// `SHOP_SIZE` random rods and restocks with them. Fails, with the shop
    /// unchanged, when the next restock time would not fit in 64 bits or the
    /// catalog cannot compose rods; says whether it restocked.
    pub fn get_listing(&mut self, now: u64, period: u64, data: &RodData) -> (r: Result<bool, RestockError>)
        requires
            old(self).wf(),
        ensures
            final(self).wf(),
            now < old(self).restock_at ==> r == Ok::<bool, RestockError>(false) && *final(self) == *old(self),
            now >= old(self).restock_at && now + period > u64::MAX ==> r == Err::<bool, RestockError>(
                RestockError::ClockOutOfRange,
            ) && *final(self) == *old(self),
            now >= old(self).restock_at && now + period <= u64::MAX && !can_generate(*data) ==> r
                == Err::<bool, RestockError>(RestockError::UnknownComponent) && *final(self) == *old(self),
            now >= old(self).restock_at && now + period <= u64::MAX && can_generate(*data) ==> {
                &&& r == Ok::<bool, RestockError>(true)
                &&& final(self).restock_at == now + period
                &&& forall|i: int| 0 <= i < SHOP_SIZE ==> generated_rod(*data, #[trigger] final(self).rods@[i])
            },
    {
        if !self.needs_restock(now) {
            return Ok(false);
        }
        if now.checked_add(period).is_none() {
            return Err(RestockError::ClockOutOfRange);
        }
        let mut fresh: Vec<Rod> = Vec::new();
        let mut i: usize = 0;
        while i < SHOP_SIZE
            invariant
                i <= SHOP_SIZE,
                fresh@.len() == i,
                *self == *old(self),
                old(self).wf(),
                now >= old(self).restock_at,
                now + period <= u64::MAX,
                i > 0 ==> can_generate(*data),
                forall|j: int| 0 <= j < i ==> generated_rod(*data, #[trigger] fresh@[j]),
            decreases SHOP_SIZE - i,
        {
            match Rod::generate(data) {
                Ok(rod) => fresh.push(rod),
                Err(_) => {
                    return Err(RestockError::UnknownComponent);
                },
            }
            i = i + 1;
        }
        let _ = self.restock(now, period, fresh);
        Ok(true)
    }

    /// Sells slot `item` (counted from 1) to the user with ledger `ledger`
    /// at a discount of `discount` percent. On success the price is paid and
    /// the rod equipped, and the price is returned; on any refusal the ledger
    /// is left as it was.
    pub fn sell_rod(&self, item: u64, ledger: &mut UserValues, data: &RodData, discount: u32) -> (r: Result<u64, BuyError>)
        ensures
            buy_spec(self.rods@, *data, *old(ledger), item as nat, discount as nat) matches Ok(p) ==> {
                &&& r == Ok::<u64, BuyError>(p as u64)
                &&& final(ledger).money == old(ledger).money - p
                &&& final(ledger).rod_name@ == self.rods@[item - 1].rod_type@
                &&& opt_view(final(ledger).rod_modifier) == self.rods@[item - 1].material_name()
                &&& final(ledger).fish_caught == old(ledger).fish_caught
                &&& final(ledger).cast == old(ledger).cast
                &&& final(ledger).has_seen == old(ledger).has_seen
            },
            buy_spec(self.rods@, *data, *old(ledger), item as nat, discount as nat) matches Err(e) ==> r
                == Err::<u64, BuyError>(e) && *final(ledger) == *old(ledger),
    {
        if ledger.cast {
            return Err(BuyError::Casting);
        }
        if item < 1 || item > self.rods.len() as u64 {
            return Err(BuyError::InvalidRod);
        }
        let rod = &self.rods[(item - 1) as usize];
        let stats = match rod.stats(data) {
            Ok(s) => s,
            Err(_) => {
                return Err(BuyError::UnknownComponent);
            },
        };
        let price = price_of(stats.cost, discount);
        if ledger.money < price {
            return Err(BuyError::NoMoney);
        }
        ledger.money = ledger.money - price;
        ledger.rod_name = rod.rod_type.clone();
        ledger.rod_modifier = crate::ledger::copy_name(&rod.material);
        Ok(price)
    }
}

/// A listing is replaced exactly when its time is up (and the next restock
/// time fits in 64 bits); and a second check at
/// the same moment, right after a restock with a positive period, keeps the
/// listing that the first one set, whatever rods it is offered.
pub proof fn lemma_restock_when_due(s: ShopView, now: nat, period: nat, fresh: Seq<Rod>, fresh2: Seq<Rod>)
    ensures
        now >= s.restock_at && now + period <= u64::MAX ==> restock_spec(s, now, period, fresh) == (ShopView {
            rods: fresh,
            restock_at: now + period,
        }),
        now < s.restock_at || now + period > u64::MAX ==> restock_spec(s, now, period, fresh) == s,
        period > 0 ==> restock_spec(restock_spec(s, now, period, fresh), now, period, fresh2) == restock_spec(
            s,
            now,
            period,
            fresh,
        ),
{
}

} // verus!
