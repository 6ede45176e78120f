//! What holds of the economy whatever the player does.

use vstd::prelude::*;
use crate::economy::{Economy, EconomyView, sum};
use crate::upgrades::{distinct_keys, follows_catalog, lemma_reconcile_restores};
use crate::upgrades::lemma_reconciled_is_valid;
use crate::upgrades::{fresh, lemma_nothing_saved_reconciles_to_fresh, UpgradeKeyView};
use crate::window::{eligible, SLOTS};

verus! {

/// The value of an economy is well formed.
pub proof fn lemma_view_well_formed(economy: Economy)
    ensures
        economy@.well_formed(),
{
}

/// Replacing one value changes the sum by the difference.
proof fn lemma_sum_update(values: Seq<int>, i: int, value: int)
    requires
        0 <= i < values.len(),
    ensures
        sum(values.update(i, value)) == sum(values) - values[i] + value,
    decreases values.len(),
{
    let updated = values.update(i, value);
    if i == values.len() - 1 {
        assert(updated.drop_last() =~= values.drop_last());
    } else {
        assert(updated.drop_last() =~= values.drop_last().update(i, value));
        lemma_sum_update(values.drop_last(), i, value);
    }
}

/// The sum of zeros is zero.
proof fn lemma_sum_of_zeros(values: Seq<int>)
    requires
        forall|i: int| 0 <= i < values.len() ==> values[i] == 0,
    ensures
        sum(values) == 0,
    decreases values.len(),
{
    if values.len() > 0 {
        lemma_sum_of_zeros(values.drop_last());
    }
}

/// A tick changes dwell times and nothing else, so what is owned stays. A
/// tick in which no time passes leaves the dwell time of every eligible slot
/// as it was too, and a second such tick on the same day changes nothing at
/// all.
pub proof fn lemma_tick_purity(state: EconomyView, day_index: int, dt_micros: int)
    ensures
        state.after_tick(day_index, dt_micros) == (EconomyView {
            dwell_micros: state.after_tick(day_index, dt_micros).dwell_micros,
            ..state
        }),
        state.after_tick(day_index, dt_micros).total_owned() == state.total_owned(),
        forall|i: int|
            0 <= i < SLOTS && eligible(day_index, state.day_window_width, i) ==> state.after_tick(
                day_index,
                0,
            ).dwell_micros[i] == state.dwell_micros[i],
        state.after_tick(day_index, 0).after_tick(day_index, 0) == state.after_tick(day_index, 0),
{
    assert(state.after_tick(day_index, 0).after_tick(day_index, 0) =~= state.after_tick(
        day_index,
        0,
    ));
}

/// A purchase of a unit of slot `i` adds exactly one unit to that slot and
/// to the total, and leaves every other slot as it was.
pub proof fn lemma_unit_purchase_adds_one(state: EconomyView, i: int)
    requires
        state.well_formed(),
        0 <= i < SLOTS,
    ensures
        state.with_unit_bought(i).owned[i] == state.owned[i] + 1,
        forall|j: int| 0 <= j < SLOTS && j != i ==> state.with_unit_bought(i).owned[j] == state.owned[j],
        state.with_unit_bought(i).total_owned() == state.total_owned() + 1,
{
    lemma_sum_update(state.owned, i, state.owned[i] + 1);
}

/// Once a unit of slot `i` has been bought, buying another one of it raises
/// no price, and no purchase of another slot raises the price of slot `i`.
pub proof fn lemma_first_mover_penalty_once(state: EconomyView, i: int, j: int)
    requires
        state.well_formed(),
        0 <= i < SLOTS,
        0 <= j < SLOTS,
    ensures
        !state.with_unit_bought(i).first_mover_penalty(i, j),
        !state.with_unit_bought(i).first_mover_penalty(j, i),
{
}

/// A prestige pays one unit of prestige currency, which is 30 thirtieths, for
/// every 30 units owned, less one unit; so at least one unit, and exactly
/// two units for 90 owned. Afterwards nothing is owned, no upgrade is held
/// and no second prestige is possible, while boost levels, boost prices and
/// dwell times are as before.
pub proof fn lemma_prestige_effect(state: EconomyView, catalog: Seq<UpgradeKeyView>)
    requires
        state.well_formed(),
        state.can_prestige(),
    ensures
        30 * (state.after_prestige(catalog).prestige_thirtieths - state.prestige_thirtieths) == 30
            * state.total_owned() - 30 * 30,
        state.after_prestige(catalog).prestige_thirtieths >= state.prestige_thirtieths + 30,
        state.total_owned() == 90 ==> state.after_prestige(catalog).prestige_thirtieths
            == state.prestige_thirtieths + 2 * 30,
        state.after_prestige(catalog).total_owned() == 0,
        !state.after_prestige(catalog).can_prestige(),
        state.after_prestige(catalog).upgrades == fresh(catalog),
        forall|k: int|
            0 <= k < catalog.len() ==> (#[trigger] state.after_prestige(
                catalog,
            ).upgrades[k]).owned_count == 0,
        state.after_prestige(catalog).boost_level == state.boost_level,
        state.after_prestige(catalog).boost_price == state.boost_price,
        state.after_prestige(catalog).dwell_micros == state.dwell_micros,
        state.after_prestige(catalog).prestige_unlocked,
{
    lemma_sum_of_zeros(state.after_prestige(catalog).owned);
}

/// No command lowers a boost price.
pub proof fn lemma_boost_price_never_falls(
    state: EconomyView,
    catalog: Seq<UpgradeKeyView>,
    i: int,
    k: int,
    day_index: int,
    dt_micros: int,
    j: int,
)
    requires
        state.well_formed(),
        0 <= i < SLOTS,
        0 <= j < SLOTS,
    ensures
        state.with_unit_bought(i).boost_price[j] >= state.boost_price[j],
        state.with_upgrade_bought(k).boost_price[j] >= state.boost_price[j],
        state.with_boost_bought(i).boost_price[j] >= state.boost_price[j],
        state.after_prestige(catalog).boost_price[j] >= state.boost_price[j],
        state.after_tick(day_index, dt_micros).boost_price[j] >= state.boost_price[j],
{
}

/// The upgrades of the economy are those of the catalog, entry by entry, in
/// every state that play reaches: in a new game, after loading, after a
/// prestige, and after any other command or tick on a state of which it
/// holds.
pub proof fn lemma_play_follows_catalog(
    state: EconomyView,
    catalog: Seq<UpgradeKeyView>,
    saved: EconomyView,
    i: int,
    k: int,
    day_index: int,
    dt_micros: int,
)
    requires
        follows_catalog(state.upgrades, catalog),
        0 <= k < state.upgrades.len(),
    ensures
        follows_catalog(EconomyView::initial(catalog).upgrades, catalog),
        follows_catalog(saved.loaded(catalog).upgrades, catalog),
        follows_catalog(state.after_prestige(catalog).upgrades, catalog),
        follows_catalog(state.with_unit_bought(i).upgrades, catalog),
        follows_catalog(state.with_upgrade_bought(k).upgrades, catalog),
        follows_catalog(state.with_boost_bought(i).upgrades, catalog),
        follows_catalog(state.after_tick(day_index, dt_micros).upgrades, catalog),
{
    let bought = state.with_upgrade_bought(k).upgrades;
    assert forall|m: int| 0 <= m < bought.len() implies (#[trigger] bought[m]).key()
        == catalog[m] by {
        assert(state.upgrades[m].key() == catalog[m]);
    }
}

/// Saving a game and loading it under the same catalog gives back the same
/// state: where the upgrades of `state` are those of the catalog, entry by
/// entry, and no two catalog entries share a name and a cap, loading the
/// saved value of `state` yields `state`.
pub proof fn lemma_save_then_load(state: EconomyView, catalog: Seq<UpgradeKeyView>)
    requires
        follows_catalog(state.upgrades, catalog),
        distinct_keys(catalog),
    ensures
        state.loaded(catalog) == state,
{
    lemma_reconcile_restores(catalog, state.upgrades);
}

/// Loading the snapshot of a new game gives a new game, whatever the
/// catalog.
pub proof fn lemma_default_snapshot_loads_as_new(catalog: Seq<UpgradeKeyView>)
    ensures
        EconomyView::initial(Seq::empty()).loaded(catalog) == EconomyView::initial(catalog),
{
    assert(fresh(Seq::empty()) =~= Seq::empty());
    lemma_nothing_saved_reconciles_to_fresh(catalog);
}

/// Play keeps the state valid: a new game is valid, and from a valid state
/// every command that goes through, and every tick, leads to a valid state.
/// The catalog is taken to give each upgrade a cap of at least 1.
pub proof fn lemma_commands_keep_valid(
    state: EconomyView,
    catalog: Seq<UpgradeKeyView>,
    i: int,
    k: int,
    day_index: int,
    dt_micros: int,
)
    requires
        state.valid(),
        forall|m: int| 0 <= m < catalog.len() ==> 1 <= (#[trigger] catalog[m]).max_count,
        0 <= i < SLOTS,
        0 <= k < state.upgrades.len(),
    ensures
        EconomyView::initial(catalog).valid(),
        state.with_unit_bought(i).valid(),
        state.below_cap(k) ==> state.with_upgrade_bought(k).valid(),
        state.can_buy_boost(i) ==> state.with_boost_bought(i).valid(),
        state.can_prestige() ==> state.after_prestige(catalog).valid(),
        state.after_tick(day_index, dt_micros).valid(),
        state.loaded(catalog).valid(),
{
    lemma_reconciled_is_valid(catalog, state.upgrades);
    assert(state.boost_cost(i) >= 0) by (nonlinear_arith)
        requires
            state.boost_cost(i) == state.boost_price[i] * state.boost_price[i],
    ;
    if state.can_prestige() {
        assert(state.after_prestige(catalog).prestige_thirtieths >= 0);
    }
    if state.below_cap(k) {
        let bought = state.with_upgrade_bought(k);
        assert forall|m: int| 0 <= m < bought.upgrades.len() implies (
        #[trigger] bought.upgrades[m]).valid() by {
            assert(state.upgrades[m].valid());
        }
    }
}

/// In a valid state an upgrade is refused for its cap exactly when the count
/// owned equals the cap.
pub proof fn lemma_cap_is_reached_at_equality(state: EconomyView, k: int)
    requires
        state.valid(),
        0 <= k < state.upgrades.len(),
    ensures
        !state.below_cap(k) <==> state.upgrades[k].owned_count == state.upgrades[k].max_count,
{
    assert(state.upgrades[k].valid());
}

} // verus!
