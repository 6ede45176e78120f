//! The discrete state of the economy and its mathematical model.
//!
//! Everything here is a whole number: units owned, boost levels, upgrade
//! counts, dwell time in microseconds, and the prestige currency in
//! thirtieths of a unit, which is exact because a prestige pays a whole number
//! of thirtieths and a boost costs a whole number of units.

use vstd::prelude::*;
use crate::upgrades::{UpgradeKeyView, UpgradeProgress, UpgradeProgressView};
use crate::upgrades::{clone_upgrades, fresh, progress_views, reconciled};
use crate::window::{eligible, SLOTS};

verus! {

/// Units that must be owned, over all slots, before a prestige is possible.
pub const PRESTIGE_THRESHOLD: u128 = 60;

/// Units owned per unit of prestige currency paid out; also the number of
/// parts into which a unit of prestige currency is divided here.
pub const PRESTIGE_SHARE: u128 = 30;

/// Dwell time of a slot that is not eligible, in microseconds.
pub const INELIGIBLE_DWELL_MICROS: i64 = -50_000;

/// The player's progress.
#[derive(Debug, PartialEq, Eq)]
pub struct Economy {
    /// Units owned in each slot.
    pub owned: [u64; SLOTS],
    /// Microseconds for which each slot has been eligible without a break;
    /// `INELIGIBLE_DWELL_MICROS` while it is not.
    pub dwell_micros: [i64; SLOTS],
    /// Boosts bought for each slot.
    pub boost_level: [i64; SLOTS],
    /// Price of the next boost of each slot is the square of this, in units
    /// of prestige currency.
    pub boost_price: [i64; SLOTS],
    /// How many slots after the current day's are eligible too.
    pub day_window_width: i64,
    /// Prestige currency, in thirtieths of a unit.
    pub prestige_thirtieths: u128,
    /// Whether boosts can be bought.
    pub prestige_unlocked: bool,
    /// Progress in each upgrade, in catalog order.
    pub upgrades: Vec<UpgradeProgress>,
}

/// Mathematical value of an [`Economy`], and of a [`Snapshot`] of one.
#[verifier::ext_equal]
pub struct EconomyView {
    pub owned: Seq<int>,
    pub dwell_micros: Seq<int>,
    pub boost_level: Seq<int>,
    pub boost_price: Seq<int>,
    pub day_window_width: int,
    pub prestige_thirtieths: int,
    pub prestige_unlocked: bool,
    pub upgrades: Seq<UpgradeProgressView>,
}

/// Sum of a sequence of integers.
pub open spec fn sum(values: Seq<int>) -> int
    decreases values.len(),
{
    if values.len() == 0 {
        0
    } else {
        sum(values.drop_last()) + values.last()
    }
}

impl View for Economy {
    type V = EconomyView;

    open spec fn view(&self) -> EconomyView {
        EconomyView {
            owned: Seq::new(SLOTS as nat, |i: int| self.owned[i] as int),
            dwell_micros: Seq::new(SLOTS as nat, |i: int| self.dwell_micros[i] as int),
            boost_level: Seq::new(SLOTS as nat, |i: int| self.boost_level[i] as int),
            boost_price: Seq::new(SLOTS as nat, |i: int| self.boost_price[i] as int),
            day_window_width: self.day_window_width as int,
            prestige_thirtieths: self.prestige_thirtieths as int,
            prestige_unlocked: self.prestige_unlocked,
            upgrades: progress_views(self.upgrades@),
        }
    }
}

impl Clone for Economy {
    fn clone(&self) -> (copy: Economy)
        ensures
            copy@ == self@,
    {
        let copy = Economy {
            owned: self.owned,
            dwell_micros: self.dwell_micros,
            boost_level: self.boost_level,
            boost_price: self.boost_price,
            day_window_width: self.day_window_width,
            prestige_thirtieths: self.prestige_thirtieths,
            prestige_unlocked: self.prestige_unlocked,
            upgrades: clone_upgrades(&self.upgrades),
        };
        assert(copy@ =~= self@);
        copy
    }
}

impl EconomyView {
    /// The state of a new game with the given catalog.
    pub open spec fn initial(catalog: Seq<UpgradeKeyView>) -> EconomyView {
        EconomyView {
            owned: Seq::new(SLOTS as nat, |i: int| 0int),
            dwell_micros: Seq::new(SLOTS as nat, |i: int| 0int),
            boost_level: Seq::new(SLOTS as nat, |i: int| 0int),
            boost_price: Seq::new(SLOTS as nat, |i: int| 1int),
            day_window_width: 0,
            prestige_thirtieths: 0,
            prestige_unlocked: false,
            upgrades: fresh(catalog),
        }
    }

    /// The state restored from this saved value under the given catalog:
    /// the saved upgrades are replayed onto the catalog, everything else is
    /// taken as saved.
    pub open spec fn loaded(self, catalog: Seq<UpgradeKeyView>) -> EconomyView {
        EconomyView { upgrades: reconciled(catalog, self.upgrades), ..self }
    }

    /// Units owned over all slots.
    pub open spec fn total_owned(self) -> int {
        sum(self.owned)
    }

    /// The state after one more unit of slot `i` is bought.
    pub open spec fn with_unit_bought(self, i: int) -> EconomyView {
        EconomyView { owned: self.owned.update(i, self.owned[i] + 1), ..self }
    }

    /// Whether buying a unit of slot `i` raises the price of slot `j`: it
    /// does when it is the first unit of slot `i` and slot `j` is another
    /// slot of which none is owned yet.
    pub open spec fn first_mover_penalty(self, i: int, j: int) -> bool {
        j != i && self.owned[i] == 0 && self.owned[j] == 0
    }

    /// Whether upgrade `k` is below its cap.
    pub open spec fn below_cap(self, k: int) -> bool {
        self.upgrades[k].owned_count < self.upgrades[k].max_count
    }

    /// The state after one more of upgrade `k` is bought.
    pub open spec fn with_upgrade_bought(self, k: int) -> EconomyView {
        EconomyView {
            upgrades: self.upgrades.update(
                k,
                UpgradeProgressView {
                    owned_count: self.upgrades[k].owned_count + 1,
                    ..self.upgrades[k]
                },
            ),
            ..self
        }
    }

    /// Price of the next boost of slot `i`, in units of prestige currency.
    pub open spec fn boost_cost(self, i: int) -> int {
        self.boost_price[i] * self.boost_price[i]
    }

    /// Whether the next boost of slot `i` can be bought.
    pub open spec fn can_buy_boost(self, i: int) -> bool {
        self.prestige_unlocked && self.prestige_thirtieths >= PRESTIGE_SHARE * self.boost_cost(i)
    }

    /// The state after the next boost of slot `i` is bought.
    pub open spec fn with_boost_bought(self, i: int) -> EconomyView {
        EconomyView {
            prestige_thirtieths: self.prestige_thirtieths - PRESTIGE_SHARE * self.boost_cost(i),
            boost_level: self.boost_level.update(i, self.boost_level[i] + 1),
            boost_price: self.boost_price.update(i, self.boost_price[i] + 1),
            ..self
        }
    }

    /// Whether enough units are owned for a prestige.
    pub open spec fn can_prestige(self) -> bool {
        self.total_owned() >= PRESTIGE_THRESHOLD
    }

    /// Thirtieths of prestige currency that a prestige pays: one unit for
    /// every 30 units owned, less one unit.
    pub open spec fn prestige_payout(self) -> int {
        self.total_owned() - PRESTIGE_SHARE
    }

    /// The state after a prestige: the payout is added; the units, the
    /// window width and the upgrades, taken anew from the catalog, start
    /// over; boosts are unlocked; boost levels, boost prices and dwell times
    /// stay.
    pub open spec fn after_prestige(self, catalog: Seq<UpgradeKeyView>) -> EconomyView {
        EconomyView {
            owned: Seq::new(SLOTS as nat, |i: int| 0int),
            day_window_width: 0,
            prestige_thirtieths: self.prestige_thirtieths + self.prestige_payout(),
            prestige_unlocked: true,
            upgrades: fresh(catalog),
            ..self
        }
    }

    /// Whether the effect of upgrade `k` applies: it does when at least one
    /// is owned.
    pub open spec fn effect_applies(self, k: int) -> bool {
        self.upgrades[k].owned_count > 0
    }

    /// The state after `dt_micros` microseconds pass on the given day: an
    /// eligible slot has dwelt that much longer, any other is marked
    /// ineligible.
    pub open spec fn after_tick(self, day_index: int, dt_micros: int) -> EconomyView {
        EconomyView {
            dwell_micros: Seq::new(
                SLOTS as nat,
                |i: int|
                    if eligible(day_index, self.day_window_width, i) {
                        self.dwell_micros[i] + dt_micros
                    } else {
                        INELIGIBLE_DWELL_MICROS as int
                    },
            ),
            ..self
        }
    }
}

impl EconomyView {
    /// What holds of the value of every [`Economy`]: it has 31 slots, and
    /// every count is within the range of its field.
    pub open spec fn well_formed(self) -> bool {
        &&& self.owned.len() == SLOTS
        &&& self.dwell_micros.len() == SLOTS
        &&& self.boost_level.len() == SLOTS
        &&& self.boost_price.len() == SLOTS
        &&& forall|i: int| 0 <= i < SLOTS ==> 0 <= #[trigger] self.owned[i] <= u64::MAX
        &&& forall|i: int| 0 <= i < SLOTS ==> i64::MIN <= #[trigger] self.dwell_micros[i] <= i64::MAX
        &&& forall|i: int| 0 <= i < SLOTS ==> i64::MIN <= #[trigger] self.boost_level[i] <= i64::MAX
        &&& forall|i: int| 0 <= i < SLOTS ==> i64::MIN <= #[trigger] self.boost_price[i] <= i64::MAX
        &&& i64::MIN <= self.day_window_width <= i64::MAX
        &&& 0 <= self.prestige_thirtieths <= u128::MAX
        &&& forall|k: int|
            0 <= k < self.upgrades.len() ==> i64::MIN <= (#[trigger] self.upgrades[k]).owned_count
                <= i64::MAX
        &&& forall|k: int|
            0 <= k < self.upgrades.len() ==> i64::MIN <= (#[trigger] self.upgrades[k]).max_count
                <= i64::MAX
    }

    /// What holds of every state that play can reach: no count is negative,
    /// a boost price is at least 1, and no upgrade is held beyond its cap,
    /// which is at least 1.
    pub open spec fn valid(self) -> bool {
        &&& self.owned.len() == SLOTS
        &&& self.dwell_micros.len() == SLOTS
        &&& self.boost_level.len() == SLOTS
        &&& self.boost_price.len() == SLOTS
        &&& forall|i: int| 0 <= i < SLOTS ==> 0 <= #[trigger] self.owned[i]
        &&& forall|i: int| 0 <= i < SLOTS ==> 0 <= #[trigger] self.boost_level[i]
        &&& forall|i: int| 0 <= i < SLOTS ==> 1 <= #[trigger] self.boost_price[i]
        &&& 0 <= self.day_window_width
        &&& 0 <= self.prestige_thirtieths
        &&& forall|k: int| 0 <= k < self.upgrades.len() ==> (#[trigger] self.upgrades[k]).valid()
    }
}

} // verus!
