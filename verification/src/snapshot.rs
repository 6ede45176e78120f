//! Saving and restoring the economy.

use vstd::prelude::*;
use crate::economy::{Economy, EconomyView};
use crate::upgrades::{clone_upgrades, key_views, progress_views, reconcile};
use crate::upgrades::{UpgradeKey, UpgradeProgress};
use crate::window::SLOTS;

verus! {

/// What is saved of an [`Economy`]. The upgrades are kept as they were when
/// the snapshot was taken; they need not fit the catalog of today.
#[derive(Debug, PartialEq, Eq)]
pub struct Snapshot {
    pub owned: [u64; SLOTS],
    pub dwell_micros: [i64; SLOTS],
    pub boost_level: [i64; SLOTS],
    pub boost_price: [i64; SLOTS],
    pub day_window_width: i64,
    pub prestige_thirtieths: u128,
    pub prestige_unlocked: bool,
    pub upgrades: Vec<UpgradeProgress>,
}

impl View for Snapshot {
    type V = EconomyView;

    open spec fn view(&self) -> EconomyView {
        EconomyView {
            owned: Seq::new(SLOTS as nat, |i: int| self.owned[i] as int),
            dwell_micros: Seq::new(SLOTS as nat, |i: int| self.dwell_micros[i] as int),
            boost_level: Seq::new(SLOTS as nat, |i: int| self.boost_level[i] as int),
            boost_price: Seq::new(SLOTS as nat, |i: int| self.boost_price[i] as int),
            day_window_width: self.day_window_width as int,
            prestige_thirtieths: self.prestige_thirtieths as int,
            prestige_unlocked: self.prestige_unlocked,
            upgrades: progress_views(self.upgrades@),
        }
    }
}

impl Clone for Snapshot {
    fn clone(&self) -> (copy: Snapshot)
        ensures
            copy@ == self@,
    {
        let copy = Snapshot {
            owned: self.owned,
            dwell_micros: self.dwell_micros,
            boost_level: self.boost_level,
            boost_price: self.boost_price,
            day_window_width: self.day_window_width,
            prestige_thirtieths: self.prestige_thirtieths,
            prestige_unlocked: self.prestige_unlocked,
            upgrades: clone_upgrades(&self.upgrades),
        };
        assert(copy@ =~= self@);
        copy
    }
}

impl Default for Snapshot {
    /// The snapshot of a new game, with no upgrade saved.
    fn default() -> (snapshot: Snapshot)
        ensures
            snapshot@ == EconomyView::initial(Seq::empty()),
    {
        let snapshot = Snapshot {
            owned: [0; SLOTS],
            dwell_micros: [0; SLOTS],
            boost_level: [0; SLOTS],
            boost_price: [1; SLOTS],
            day_window_width: 0,
            prestige_thirtieths: 0,
            prestige_unlocked: false,
            upgrades: Vec::new(),
        };
        assert(snapshot@ =~= EconomyView::initial(Seq::empty()));
        snapshot
    }
}

impl Economy {
    /// Restores a saved game under the current catalog. Units, boosts, dwell
    /// times, window width and prestige currency are taken as saved. The
    /// saved upgrades are replayed onto the catalog: progress goes to the
    /// catalog entry with the same name and cap, a saved upgrade that the
    /// catalog lacks is dropped, and a catalog entry that was not saved
    /// starts at 0.
    pub fn load(snapshot: &Snapshot, catalog: &Vec<UpgradeKey>) -> (economy: Economy)
        ensures
            economy@ == snapshot@.loaded(key_views(catalog@)),
    {
        let economy = Economy {
            owned: snapshot.owned,
            dwell_micros: snapshot.dwell_micros,
            boost_level: snapshot.boost_level,
            boost_price: snapshot.boost_price,
            day_window_width: snapshot.day_window_width,
            prestige_thirtieths: snapshot.prestige_thirtieths,
            prestige_unlocked: snapshot.prestige_unlocked,
            upgrades: reconcile(catalog, &snapshot.upgrades),
        };
        assert(economy@ =~= snapshot@.loaded(key_views(catalog@)));
        economy
    }

    /// Takes a snapshot: every count as it stands, and each upgrade by name,
    /// count owned and cap.
    pub fn save(&self) -> (snapshot: Snapshot)
        ensures
            snapshot@ == self@,
    {
        let snapshot = Snapshot {
            owned: self.owned,
            dwell_micros: self.dwell_micros,
            boost_level: self.boost_level,
            boost_price: self.boost_price,
            day_window_width: self.day_window_width,
            prestige_thirtieths: self.prestige_thirtieths,
            prestige_unlocked: self.prestige_unlocked,
            upgrades: clone_upgrades(&self.upgrades),
        };
        assert(snapshot@ =~= self@);
        snapshot
    }
}

} // verus!
