use sutki::economy::Economy;
use sutki::snapshot::Snapshot;
use sutki::upgrades::{clone_upgrades, find_upgrade, fresh_upgrades, reconcile};
use sutki::upgrades::{UpgradeKey, UpgradeProgress};

fn key(name: &str, max_count: i64) -> UpgradeKey {
    UpgradeKey { name: name.to_string(), max_count }
}

fn progress(name: &str, owned_count: i64, max_count: i64) -> UpgradeProgress {
    UpgradeProgress { name: name.to_string(), owned_count, max_count }
}

fn triples(list: &[UpgradeProgress]) -> Vec<(String, i64, i64)> {
    list.iter().map(|p| (p.name.clone(), p.owned_count, p.max_count)).collect()
}

fn expect(list: &[(&str, i64, i64)]) -> Vec<(String, i64, i64)> {
    list.iter().map(|&(name, owned, max)| (name.to_string(), owned, max)).collect()
}

fn catalog() -> Vec<UpgradeKey> {
    vec![key("Longer days", 30), key("Catnip", 10), key("Laser pointer", 1)]
}

#[test]
fn fresh_upgrades_follow_the_catalog() {
    assert_eq!(
        triples(&fresh_upgrades(&catalog())),
        expect(&[("Longer days", 0, 30), ("Catnip", 0, 10), ("Laser pointer", 0, 1)])
    );
    assert!(fresh_upgrades(&Vec::new()).is_empty());
}

#[test]
fn find_upgrade_matches_name_and_cap() {
    let catalog = catalog();
    assert_eq!(find_upgrade(&catalog, &"Catnip".to_string(), 10), Some(1));
    assert_eq!(find_upgrade(&catalog, &"Catnip".to_string(), 11), None);
    assert_eq!(find_upgrade(&catalog, &"catnip".to_string(), 10), None);
    assert_eq!(find_upgrade(&catalog, &"Longer days".to_string(), 30), Some(0));
    assert_eq!(find_upgrade(&Vec::new(), &"Catnip".to_string(), 10), None);
}

#[test]
fn find_upgrade_returns_the_first_of_two_equal_entries() {
    let catalog = vec![key("A", 1), key("B", 2), key("B", 2)];
    assert_eq!(find_upgrade(&catalog, &"B".to_string(), 2), Some(1));
}

#[test]
fn reconcile_carries_progress_over_by_name_and_cap() {
    let saved = vec![progress("Catnip", 4, 10), progress("Longer days", 7, 30)];
    assert_eq!(
        triples(&reconcile(&catalog(), &saved)),
        expect(&[("Longer days", 7, 30), ("Catnip", 4, 10), ("Laser pointer", 0, 1)])
    );
}

#[test]
fn reconcile_drops_an_upgrade_that_was_renamed() {
    let saved = vec![progress("Cat nip", 4, 10), progress("Longer days", 7, 30)];
    assert_eq!(
        triples(&reconcile(&catalog(), &saved)),
        expect(&[("Longer days", 7, 30), ("Catnip", 0, 10), ("Laser pointer", 0, 1)])
    );
}

#[test]
fn reconcile_drops_an_upgrade_whose_cap_changed() {
    let saved = vec![progress("Catnip", 4, 12), progress("Laser pointer", 1, 1)];
    assert_eq!(
        triples(&reconcile(&catalog(), &saved)),
        expect(&[("Longer days", 0, 30), ("Catnip", 0, 10), ("Laser pointer", 1, 1)])
    );
}

#[test]
fn reconcile_starts_a_new_upgrade_at_zero() {
    let mut catalog = catalog();
    catalog.insert(1, key("Scratching post", 5));
    let saved = vec![
        progress("Longer days", 7, 30),
        progress("Catnip", 4, 10),
        progress("Laser pointer", 1, 1),
    ];
    assert_eq!(
        triples(&reconcile(&catalog, &saved)),
        expect(&[
            ("Longer days", 7, 30),
            ("Scratching post", 0, 5),
            ("Catnip", 4, 10),
            ("Laser pointer", 1, 1),
        ])
    );
}

#[test]
fn reconcile_of_nothing_saved_is_the_fresh_catalog() {
    assert_eq!(
        triples(&reconcile(&catalog(), &Vec::new())),
        triples(&fresh_upgrades(&catalog()))
    );
}

#[test]
fn reconcile_onto_an_empty_catalog_is_empty() {
    let saved = vec![progress("Catnip", 4, 10)];
    assert!(reconcile(&Vec::new(), &saved).is_empty());
}

#[test]
fn reconcile_lets_the_last_of_two_saved_entries_stand() {
    let saved = vec![progress("Catnip", 4, 10), progress("Catnip", 9, 10)];
    assert_eq!(
        triples(&reconcile(&catalog(), &saved)),
        expect(&[("Longer days", 0, 30), ("Catnip", 9, 10), ("Laser pointer", 0, 1)])
    );
}

#[test]
fn reconcile_gives_progress_to_the_first_of_two_equal_catalog_entries() {
    let catalog = vec![key("Catnip", 10), key("Catnip", 10), key("Catnip", 3)];
    let saved = vec![progress("Catnip", 4, 10), progress("Catnip", 2, 3)];
    assert_eq!(
        triples(&reconcile(&catalog, &saved)),
        expect(&[("Catnip", 4, 10), ("Catnip", 0, 10), ("Catnip", 2, 3)])
    );
}

#[test]
fn reconcile_copies_counts_as_saved() {
    let saved = vec![progress("Catnip", 25, 10), progress("Laser pointer", -3, 1)];
    assert_eq!(
        triples(&reconcile(&catalog(), &saved)),
        expect(&[("Longer days", 0, 30), ("Catnip", 25, 10), ("Laser pointer", -3, 1)])
    );
}

#[test]
fn default_snapshot_is_a_new_game_without_upgrades() {
    let snapshot = Snapshot::default();
    assert_eq!(snapshot.owned, [0; 31]);
    assert_eq!(snapshot.dwell_micros, [0; 31]);
    assert_eq!(snapshot.boost_level, [0; 31]);
    assert_eq!(snapshot.boost_price, [1; 31]);
    assert_eq!(snapshot.day_window_width, 0);
    assert_eq!(snapshot.prestige_thirtieths, 0);
    assert!(!snapshot.prestige_unlocked);
    assert!(snapshot.upgrades.is_empty());
}

#[test]
fn loading_the_default_snapshot_gives_a_new_game() {
    assert_eq!(Economy::load(&Snapshot::default(), &catalog()), Economy::new(&catalog()));
    assert_eq!(Economy::load(&Snapshot::default(), &Vec::new()), Economy::new(&Vec::new()));
}

fn played() -> Economy {
    let mut economy = Economy::new(&catalog());
    for slot in 0..31 {
        economy.owned[slot] = (slot as u64) * 2;
        economy.boost_level[slot] = slot as i64 % 3;
        economy.boost_price[slot] = 1 + slot as i64 % 3;
    }
    economy.tick(29, 1_234_567);
    economy.day_window_width = 3;
    economy.prestige_thirtieths = 77;
    economy.prestige_unlocked = true;
    economy.upgrades[0].owned_count = 3;
    economy.upgrades[2].owned_count = 1;
    economy
}

#[test]
fn save_records_every_count() {
    let economy = played();
    let snapshot = economy.save();
    assert_eq!(snapshot.owned, economy.owned);
    assert_eq!(snapshot.dwell_micros, economy.dwell_micros);
    assert_eq!(snapshot.boost_level, economy.boost_level);
    assert_eq!(snapshot.boost_price, economy.boost_price);
    assert_eq!(snapshot.day_window_width, 3);
    assert_eq!(snapshot.prestige_thirtieths, 77);
    assert!(snapshot.prestige_unlocked);
    assert_eq!(
        triples(&snapshot.upgrades),
        expect(&[("Longer days", 3, 30), ("Catnip", 0, 10), ("Laser pointer", 1, 1)])
    );
}

#[test]
fn load_after_save_gives_back_the_state() {
    let economy = played();
    let loaded = Economy::load(&economy.save(), &catalog());
    assert_eq!(loaded, economy);
    assert_eq!(loaded.save(), economy.save());
}

#[test]
fn load_after_save_of_a_new_game_gives_a_new_game() {
    let economy = Economy::new(&catalog());
    assert_eq!(Economy::load(&economy.save(), &catalog()), economy);
}

#[test]
fn load_under_a_changed_catalog_keeps_what_still_matches() {
    let economy = played();
    let changed = vec![key("Catnip", 10), key("Longer days", 31), key("Laser pointer", 1)];
    let loaded = Economy::load(&economy.save(), &changed);
    assert_eq!(
        triples(&loaded.upgrades),
        expect(&[("Catnip", 0, 10), ("Longer days", 0, 31), ("Laser pointer", 1, 1)])
    );
    assert_eq!(loaded.owned, economy.owned);
    assert_eq!(loaded.prestige_thirtieths, 77);
}

#[test]
fn copies_are_equal_to_what_was_copied() {
    let economy = played();
    assert_eq!(economy.clone(), economy);
    assert_eq!(economy.save().clone(), economy.save());
    assert_eq!(clone_upgrades(&economy.upgrades), economy.upgrades);
    assert!(clone_upgrades(&Vec::new()).is_empty());
    assert_eq!(key("Catnip", 10).clone(), key("Catnip", 10));
    assert_eq!(progress("Catnip", 4, 10).clone(), progress("Catnip", 4, 10));
}

#[test]
fn copy_does_not_follow_later_changes() {
    let mut economy = played();
    let copy = economy.clone();
    economy.buy_production_unit(0, true);
    economy.buy_upgrade(1, true);
    assert_eq!(copy.owned[0], 0);
    assert_eq!(economy.owned[0], 1);
    assert_eq!(copy.upgrades[1].owned_count, 0);
    assert_eq!(economy.upgrades[1].owned_count, 1);
}
