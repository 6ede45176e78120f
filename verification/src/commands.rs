//! The commands that change the economy.
//!
//! A purchase that is paid in the primary currency takes the host's word on
//! whether the player can pay; everything else is decided here.

use vstd::prelude::*;
use crate::clock::{day_index_at, day_index_of};
use crate::economy::{Economy, EconomyView, sum};
use crate::economy::{INELIGIBLE_DWELL_MICROS, PRESTIGE_SHARE, PRESTIGE_THRESHOLD};
use crate::upgrades::{fresh_upgrades, key_views, UpgradeKey};
use crate::window::{eligible, is_eligible, SLOTS};

verus! {

/// What a tick found: what the host has to apply to the production
/// multipliers.
#[derive(Debug, PartialEq, Eq)]
pub struct TickReport {
    /// For each slot, whether it is eligible.
    pub active: [bool; SLOTS],
    /// For each upgrade, in catalog order, whether its effect applies.
    pub applies: Vec<bool>,
}

impl TickReport {
    /// Whether this report is the one that a tick on the given day makes of
    /// the given state.
    pub open spec fn describes(self, state: EconomyView, day_index: int) -> bool {
        &&& forall|i: int|
            0 <= i < SLOTS ==> self.active[i] == eligible(day_index, state.day_window_width, i)
        &&& self.applies.len() == state.upgrades.len()
        &&& forall|k: int|
            0 <= k < state.upgrades.len() ==> self.applies[k] == state.effect_applies(k)
    }
}

impl Economy {
    /// A new game: nothing owned, no boosts, boost prices of 1, the window
    /// one slot wide, and every catalog upgrade at 0.
    pub fn new(catalog: &Vec<UpgradeKey>) -> (economy: Economy)
        ensures
            economy@ == EconomyView::initial(key_views(catalog@)),
    {
        let economy = Economy {
            owned: [0; SLOTS],
            dwell_micros: [0; SLOTS],
            boost_level: [0; SLOTS],
            boost_price: [1; SLOTS],
            day_window_width: 0,
            prestige_thirtieths: 0,
            prestige_unlocked: false,
            upgrades: fresh_upgrades(catalog),
        };
        assert(economy@ =~= EconomyView::initial(key_views(catalog@)));
        economy
    }

    /// Starts over: whatever the state was, it becomes that of a new game.
    pub fn reset_to_defaults(&mut self, catalog: &Vec<UpgradeKey>)
        ensures
            final(self)@ == EconomyView::initial(key_views(catalog@)),
    {
        *self = Economy::new(catalog);
    }

    /// Units owned over all slots.
    pub fn total_owned(&self) -> (total: u128)
        ensures
            total == self@.total_owned(),
    {
        let mut total: u128 = 0;
        let mut i: usize = 0;
        while i < SLOTS
            invariant
                i <= SLOTS,
                total == sum(self@.owned.take(i as int)),
                total <= i * u64::MAX,
            decreases SLOTS - i,
        {
            assert(self@.owned.take(i + 1).drop_last() =~= self@.owned.take(i as int));
            total = total + self.owned[i] as u128;
            i += 1;
        }
        assert(self@.owned.take(SLOTS as int) =~= self@.owned);
        total
    }

    /// Buys one unit of slot `i` if the host finds that the player can pay
    /// its price. Nothing changes otherwise. On a purchase the result says,
    /// for each slot, whether its price goes up because this was the first
    /// unit of slot `i` and none of that slot is owned yet.
    pub fn buy_production_unit(&mut self, i: usize, affordable: bool) -> (penalized: Option<
        [bool; SLOTS],
    >)
        requires
            i < SLOTS,
            old(self)@.owned[i as int] < u64::MAX,
        ensures
            penalized is Some <==> affordable,
            penalized matches Some(flags) ==> forall|j: int|
                0 <= j < SLOTS ==> flags[j] == old(self)@.first_mover_penalty(i as int, j),
            final(self)@ == if affordable {
                old(self)@.with_unit_bought(i as int)
            } else {
                old(self)@
            },
    {
        if !affordable {
            return None;
        }
        let first = self.owned[i] == 0;
        let mut flags = [false; SLOTS];
        let mut j: usize = 0;
        while j < SLOTS
            invariant
                j <= SLOTS,
                i < SLOTS,
                first == (self.owned[i as int] == 0),
                forall|m: int|
                    0 <= m < j ==> flags[m] == (m != i && first && self.owned[m] == 0),
            decreases SLOTS - j,
        {
            flags[j] = first && j != i && self.owned[j] == 0;
            j += 1;
        }
        self.owned[i] = self.owned[i] + 1;
        assert(self@ =~= old(self)@.with_unit_bought(i as int));
        Some(flags)
    }

    /// Whether upgrade `k` is below its cap, so that one more can be bought.
    pub fn below_cap(&self, k: usize) -> (below: bool)
        requires
            k < self@.upgrades.len(),
        ensures
            below == self@.below_cap(k as int),
    {
        self.upgrades[k].owned_count < self.upgrades[k].max_count
    }

    /// Buys one more of upgrade `k` if the host finds that the player can pay
    /// its price and the upgrade is below its cap. Nothing changes otherwise.
    pub fn buy_upgrade(&mut self, k: usize, affordable: bool) -> (bought: bool)
        requires
            k < old(self)@.upgrades.len(),
        ensures
            bought == (affordable && old(self)@.below_cap(k as int)),
            final(self)@ == if bought {
                old(self)@.with_upgrade_bought(k as int)
            } else {
                old(self)@
            },
    {
        if !affordable || !self.below_cap(k) {
            return false;
        }
        self.upgrades[k].owned_count = self.upgrades[k].owned_count + 1;
        assert(self@ =~= old(self)@.with_upgrade_bought(k as int));
        true
    }

    /// Price of the next boost of slot `i`, in units of prestige currency:
    /// the square of the slot's boost price.
    pub fn boost_cost(&self, i: usize) -> (cost: u128)
        requires
            i < SLOTS,
        ensures
            cost == self@.boost_cost(i as int),
    {
        assert(self@.boost_price[i as int] == self.boost_price[i as int]);
        let price: i128 = self.boost_price[i] as i128;
        assert(0 <= price * price <= 0x4000_0000_0000_0000_0000_0000_0000_0000) by (nonlinear_arith)
            requires
                -0x8000_0000_0000_0000 <= price <= 0x7fff_ffff_ffff_ffff,
        ;
        (price * price) as u128
    }

    /// Whether the next boost of slot `i` can be bought: boosts are unlocked
    /// and the player holds its cost in prestige currency.
    pub fn can_buy_boost(&self, i: usize) -> (possible: bool)
        requires
            i < SLOTS,
        ensures
            possible == self@.can_buy_boost(i as int),
    {
        self.prestige_unlocked && self.prestige_thirtieths / PRESTIGE_SHARE >= self.boost_cost(i)
    }

    /// Buys the next boost of slot `i` if it can be bought. Its cost is
    /// deducted from the prestige currency, and the slot's boost level and
    /// boost price each go up by one. Nothing changes otherwise.
    pub fn buy_boost(&mut self, i: usize) -> (bought: bool)
        requires
            i < SLOTS,
            old(self)@.boost_level[i as int] < i64::MAX,
            old(self)@.boost_price[i as int] < i64::MAX,
        ensures
            bought == old(self)@.can_buy_boost(i as int),
            final(self)@ == if bought {
                old(self)@.with_boost_bought(i as int)
            } else {
                old(self)@
            },
    {
        if !self.can_buy_boost(i) {
            return false;
        }
        let cost = self.boost_cost(i);
        self.prestige_thirtieths = self.prestige_thirtieths - PRESTIGE_SHARE * cost;
        self.boost_level[i] = self.boost_level[i] + 1;
        self.boost_price[i] = self.boost_price[i] + 1;
        assert(self@ =~= old(self)@.with_boost_bought(i as int));
        true
    }

    /// Whether a prestige is possible: at least 60 units are owned.
    pub fn can_prestige(&self) -> (possible: bool)
        ensures
            possible == self@.can_prestige(),
    {
        self.total_owned() >= PRESTIGE_THRESHOLD
    }

    /// Trades the units owned for prestige currency, if at least 60 are
    /// owned: pays one thirtieth of a unit of prestige currency for each
    /// unit owned beyond 30, sets every unit count to 0, takes the upgrades
    /// anew from the catalog, narrows the window to the current day, and
    /// unlocks boosts. Boost levels, boost prices and dwell times stay.
    /// Nothing changes if fewer are owned.
    pub fn prestige(&mut self, catalog: &Vec<UpgradeKey>) -> (done: bool)
        requires
            old(self)@.can_prestige() ==> old(self)@.prestige_thirtieths + old(
                self,
            )@.prestige_payout() <= u128::MAX,
        ensures
            done == old(self)@.can_prestige(),
            final(self)@ == if done {
                old(self)@.after_prestige(key_views(catalog@))
            } else {
                old(self)@
            },
    {
        let total = self.total_owned();
        if total < PRESTIGE_THRESHOLD {
            return false;
        }
        self.prestige_thirtieths = self.prestige_thirtieths + (total - PRESTIGE_SHARE);
        self.owned = [0; SLOTS];
        self.day_window_width = 0;
        self.prestige_unlocked = true;
        self.upgrades = fresh_upgrades(catalog);
        assert(self@ =~= old(self)@.after_prestige(key_views(catalog@)));
        true
    }

    /// Lets `dt_micros` microseconds pass on the day with the given index.
    /// Each slot that is eligible that day has dwelt that much longer; every
    /// other slot is marked ineligible. Nothing else changes. The report
    /// says which slots are eligible and which upgrades' effects apply.
    pub fn tick(&mut self, day_index: u32, dt_micros: u64) -> (report: TickReport)
        requires
            forall|i: int|
                0 <= i < SLOTS && eligible(day_index as int, old(self)@.day_window_width, i)
                    ==> old(self)@.dwell_micros[i] + dt_micros <= i64::MAX,
        ensures
            report.describes(old(self)@, day_index as int),
            final(self)@ == old(self)@.after_tick(day_index as int, dt_micros as int),
    {
        let mut active = [false; SLOTS];
        let mut i: usize = 0;
        while i < SLOTS
            invariant
                i <= SLOTS,
                forall|m: int|
                    0 <= m < SLOTS && eligible(day_index as int, old(self)@.day_window_width, m)
                        ==> old(self)@.dwell_micros[m] + dt_micros <= i64::MAX,
                forall|m: int|
                    0 <= m < i ==> active[m] == eligible(
                        day_index as int,
                        old(self)@.day_window_width,
                        m,
                    ),
                forall|m: int|
                    0 <= m < i ==> self.dwell_micros[m] == old(self)@.after_tick(
                        day_index as int,
                        dt_micros as int,
                    ).dwell_micros[m],
                forall|m: int| i <= m < SLOTS ==> self.dwell_micros[m] == old(self).dwell_micros[m],
                self.owned == old(self).owned,
                self.boost_level == old(self).boost_level,
                self.boost_price == old(self).boost_price,
                self.day_window_width == old(self).day_window_width,
                self.prestige_thirtieths == old(self).prestige_thirtieths,
                self.prestige_unlocked == old(self).prestige_unlocked,
                self.upgrades == old(self).upgrades,
            decreases SLOTS - i,
        {
            let inside = is_eligible(day_index, self.day_window_width, i);
            active[i] = inside;
            if inside {
                assert(old(self)@.dwell_micros[i as int] == old(self).dwell_micros[i as int]);
                let longer: i128 = self.dwell_micros[i] as i128 + dt_micros as i128;
                self.dwell_micros[i] = longer as i64;
            } else {
                self.dwell_micros[i] = INELIGIBLE_DWELL_MICROS;
            }
            i += 1;
        }
        let mut applies: Vec<bool> = Vec::new();
        let mut k: usize = 0;
        while k < self.upgrades.len()
            invariant
                k <= self.upgrades.len(),
                applies.len() == k,
                forall|m: int| 0 <= m < k ==> applies[m] == self@.effect_applies(m),
            decreases self.upgrades.len() - k,
        {
            applies.push(self.upgrades[k].owned_count > 0);
            k += 1;
        }
        assert(self@ =~= old(self)@.after_tick(day_index as int, dt_micros as int));
        TickReport { active, applies }
    }

    /// Finds the day of the month at `now_seconds` seconds after 1970-01-01
    /// 00:00:00 UTC moved by `offset_seconds`, and lets `dt_micros`
    /// microseconds pass on that day, as [`Economy::tick`] does. The result
    /// holds the index of the day and the report of the tick. Where the
    /// moved instant has no date, nothing changes and the result is `None`.
    pub fn tick_at(&mut self, now_seconds: i64, offset_seconds: i64, dt_micros: u64) -> (ticked:
        Option<(u32, TickReport)>)
        requires
            forall|i: int| 0 <= i < SLOTS ==> old(self)@.dwell_micros[i] + dt_micros <= i64::MAX,
        ensures
            match day_index_of(now_seconds + offset_seconds) {
                Some(day_index) => {
                    &&& ticked matches Some((day, report))
                    &&& day == day_index
                    &&& day < SLOTS
                    &&& report.describes(old(self)@, day_index as int)
                    &&& final(self)@ == old(self)@.after_tick(day_index as int, dt_micros as int)
                },
                None => ticked is None && final(self)@ == old(self)@,
            },
    {
        match day_index_at(now_seconds, offset_seconds) {
            Some(day_index) => {
                let report = self.tick(day_index, dt_micros);
                Some((day_index, report))
            },
            None => None,
        }
    }
}

} // verus!
