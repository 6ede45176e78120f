//! Upgrade progress and its reconciliation with the current catalog.
//!
//! A saved game records, for each upgrade, its name, how many the player owns
//! and its cap. The catalog may have changed since: progress is carried over
//! only to the catalog entry with the same name and the same cap.

use vstd::prelude::*;

verus! {

/// What identifies an upgrade across catalog versions: its name and its cap.
#[derive(Debug, PartialEq, Eq)]
pub struct UpgradeKey {
    pub name: String,
    pub max_count: i64,
}

/// Mathematical value of an [`UpgradeKey`].
pub struct UpgradeKeyView {
    pub name: Seq<char>,
    pub max_count: int,
}

impl View for UpgradeKey {
    type V = UpgradeKeyView;

    open spec fn view(&self) -> UpgradeKeyView {
        UpgradeKeyView { name: self.name@, max_count: self.max_count as int }
    }
}

impl Clone for UpgradeKey {
    fn clone(&self) -> (copy: UpgradeKey)
        ensures
            copy@ == self@,
    {
        UpgradeKey { name: self.name.clone(), max_count: self.max_count }
    }
}

/// How many of one upgrade the player owns. This is also the form in which an
/// upgrade is saved.
#[derive(Debug, PartialEq, Eq)]
pub struct UpgradeProgress {
    pub name: String,
    pub owned_count: i64,
    pub max_count: i64,
}

/// Mathematical value of an [`UpgradeProgress`].
pub struct UpgradeProgressView {
    pub name: Seq<char>,
    pub owned_count: int,
    pub max_count: int,
}

impl View for UpgradeProgress {
    type V = UpgradeProgressView;

    open spec fn view(&self) -> UpgradeProgressView {
        UpgradeProgressView {
            name: self.name@,
            owned_count: self.owned_count as int,
            max_count: self.max_count as int,
        }
    }
}

impl Clone for UpgradeProgress {
    fn clone(&self) -> (copy: UpgradeProgress)
        ensures
            copy@ == self@,
    {
        UpgradeProgress {
            name: self.name.clone(),
            owned_count: self.owned_count,
            max_count: self.max_count,
        }
    }
}

impl UpgradeProgressView {
    /// The identity under which this progress is matched.
    pub open spec fn key(self) -> UpgradeKeyView {
        UpgradeKeyView { name: self.name, max_count: self.max_count }
    }

    /// Whether the count is one that purchases can reach: at least 0 and at
    /// most the cap, which is at least 1.
    pub open spec fn valid(self) -> bool {
        0 <= self.owned_count <= self.max_count && 1 <= self.max_count
    }
}

/// The values of a list of keys.
pub open spec fn key_views(keys: Seq<UpgradeKey>) -> Seq<UpgradeKeyView> {
    Seq::new(keys.len(), |k: int| keys[k]@)
}

/// The values of a list of upgrade progress.
pub open spec fn progress_views(list: Seq<UpgradeProgress>) -> Seq<UpgradeProgressView> {
    Seq::new(list.len(), |k: int| list[k]@)
}

/// The catalog with nothing owned: one entry per catalog entry, in catalog
/// order, each with a count of 0.
pub open spec fn fresh(catalog: Seq<UpgradeKeyView>) -> Seq<UpgradeProgressView> {
    Seq::new(
        catalog.len(),
        |k: int|
            UpgradeProgressView {
                name: catalog[k].name,
                owned_count: 0,
                max_count: catalog[k].max_count,
            },
    )
}

/// The count that the last entry of `saved` with the given key records, or 0
/// if no entry has that key.
pub open spec fn last_count(saved: Seq<UpgradeProgressView>, key: UpgradeKeyView) -> int
    decreases saved.len(),
{
    if saved.len() == 0 {
        0
    } else if saved.last().key() == key {
        saved.last().owned_count
    } else {
        last_count(saved.drop_last(), key)
    }
}

/// Whether no catalog entry before position `k` has the key of entry `k`.
pub open spec fn first_with_key(catalog: Seq<UpgradeKeyView>, k: int) -> bool {
    forall|j: int| 0 <= j < k ==> catalog[j] != catalog[k]
}

/// The count that catalog entry `k` receives from `saved`. Saved entries are
/// applied in order, each to the first catalog entry with its key, so an
/// entry that repeats an earlier key receives nothing.
pub open spec fn replayed_count(
    catalog: Seq<UpgradeKeyView>,
    saved: Seq<UpgradeProgressView>,
    k: int,
) -> int {
    if first_with_key(catalog, k) {
        last_count(saved, catalog[k])
    } else {
        0
    }
}

/// The upgrade list that results from replaying `saved` onto `catalog`: one
/// entry per catalog entry, in catalog order.
pub open spec fn reconciled(
    catalog: Seq<UpgradeKeyView>,
    saved: Seq<UpgradeProgressView>,
) -> Seq<UpgradeProgressView> {
    Seq::new(
        catalog.len(),
        |k: int|
            UpgradeProgressView {
                name: catalog[k].name,
                owned_count: replayed_count(catalog, saved, k),
                max_count: catalog[k].max_count,
            },
    )
}

/// The catalog with nothing owned.
pub fn fresh_upgrades(catalog: &Vec<UpgradeKey>) -> (list: Vec<UpgradeProgress>)
    ensures
        progress_views(list@) == fresh(key_views(catalog@)),
{
    let mut list: Vec<UpgradeProgress> = Vec::new();
    let mut k: usize = 0;
    while k < catalog.len()
        invariant
            k <= catalog.len(),
            list.len() == k,
            forall|j: int| 0 <= j < k ==> list[j]@ == fresh(key_views(catalog@))[j],
        decreases catalog.len() - k,
    {
        list.push(
            UpgradeProgress {
                name: catalog[k].name.clone(),
                owned_count: 0,
                max_count: catalog[k].max_count,
            },
        );
        k += 1;
    }
    assert(progress_views(list@) =~= fresh(key_views(catalog@)));
    list
}

/// A copy of a list of upgrade progress.
pub fn clone_upgrades(list: &Vec<UpgradeProgress>) -> (copy: Vec<UpgradeProgress>)
    ensures
        progress_views(copy@) == progress_views(list@),
{
    let mut copy: Vec<UpgradeProgress> = Vec::new();
    let mut k: usize = 0;
    while k < list.len()
        invariant
            k <= list.len(),
            copy.len() == k,
            forall|j: int| 0 <= j < k ==> copy[j]@ == list[j]@,
        decreases list.len() - k,
    {
        copy.push(list[k].clone());
        k += 1;
    }
    assert(progress_views(copy@) =~= progress_views(list@));
    copy
}

/// Position of the first catalog entry with the given name and cap.
pub fn find_upgrade(catalog: &Vec<UpgradeKey>, name: &String, max_count: i64) -> (found: Option<
    usize,
>)
    ensures
        match found {
            Some(k) => k < catalog.len() && catalog[k as int]@ == (UpgradeKeyView {
                name: name@,
                max_count: max_count as int,
            }) && first_with_key(key_views(catalog@), k as int),
            None => forall|j: int|
                0 <= j < catalog.len() ==> catalog[j]@ != (UpgradeKeyView {
                    name: name@,
                    max_count: max_count as int,
                }),
        },
{
    let mut k: usize = 0;
    while k < catalog.len()
        invariant
            k <= catalog.len(),
            forall|j: int|
                0 <= j < k ==> catalog[j]@ != (UpgradeKeyView {
                    name: name@,
                    max_count: max_count as int,
                }),
        decreases catalog.len() - k,
    {
        if catalog[k].name == *name && catalog[k].max_count == max_count {
            return Some(k);
        }
        k += 1;
    }
    None
}

/// Replays saved progress onto the catalog. Each saved entry, in order, sets
/// the count of the first catalog entry with the same name and cap; an entry
/// that matches none is dropped, and a catalog entry that none matches keeps
/// a count of 0.
pub fn reconcile(catalog: &Vec<UpgradeKey>, saved: &Vec<UpgradeProgress>) -> (list: Vec<
    UpgradeProgress,
>)
    ensures
        progress_views(list@) == reconciled(key_views(catalog@), progress_views(saved@)),
{
    let mut list = fresh_upgrades(catalog);
    let ghost keys = key_views(catalog@);
    let ghost entries = progress_views(saved@);
    assert(progress_views(list@).len() == list.len());
    assert(entries.take(0) =~= Seq::empty());
    proof {
        lemma_nothing_saved_reconciles_to_fresh(keys);
    }
    let mut n: usize = 0;
    while n < saved.len()
        invariant
            n <= saved.len(),
            list.len() == catalog.len(),
            keys == key_views(catalog@),
            entries == progress_views(saved@),
            progress_views(list@) == reconciled(keys, entries.take(n as int)),
        decreases saved.len() - n,
    {
        let ghost before = progress_views(list@);
        let ghost earlier = entries.take(n as int);
        let ghost later = entries.take(n + 1);
        let ghost entry = saved[n as int]@;
        let found = find_upgrade(catalog, &saved[n].name, saved[n].max_count);
        if let Some(k) = found {
            list[k].owned_count = saved[n].owned_count;
        }
        proof {
            assert(later.drop_last() =~= earlier);
            assert(later.last() == entry);
            assert forall|j: int| 0 <= j < keys.len() implies #[trigger] progress_views(list@)[j]
                == reconciled(keys, later)[j] by {
                assert(before[j] == reconciled(keys, earlier)[j]);
                assert(keys[j] == catalog[j]@);
                if keys[j] == entry.key() {
                    let k = found->Some_0 as int;
                    assert(keys[k] == catalog[k]@);
                    if j != k {
                        assert(k < j);
                        assert(!first_with_key(keys, j));
                    }
                }
            }
            assert(progress_views(list@) =~= reconciled(keys, later));
        }
        n += 1;
    }
    assert(entries.take(n as int) =~= entries);
    list
}

/// Where nothing was saved, reconciling yields the catalog with nothing
/// owned.
pub proof fn lemma_nothing_saved_reconciles_to_fresh(catalog: Seq<UpgradeKeyView>)
    ensures
        reconciled(catalog, Seq::empty()) == fresh(catalog),
{
    assert(reconciled(catalog, Seq::empty()) =~= fresh(catalog));
}

/// Whether no two catalog entries share a name and a cap.
pub open spec fn distinct_keys(catalog: Seq<UpgradeKeyView>) -> bool {
    forall|i: int, j: int| 0 <= i < j < catalog.len() ==> catalog[i] != catalog[j]
}

/// Whether `list` holds one entry per catalog entry, in catalog order.
pub open spec fn follows_catalog(
    list: Seq<UpgradeProgressView>,
    catalog: Seq<UpgradeKeyView>,
) -> bool {
    &&& list.len() == catalog.len()
    &&& forall|k: int| 0 <= k < list.len() ==> (#[trigger] list[k]).key() == catalog[k]
}

/// Where exactly one saved entry has a key, its count is the one that is
/// replayed for that key.
proof fn lemma_last_count_of_only_match(
    saved: Seq<UpgradeProgressView>,
    key: UpgradeKeyView,
    k: int,
)
    requires
        0 <= k < saved.len(),
        saved[k].key() == key,
        forall|j: int| 0 <= j < saved.len() && j != k ==> (#[trigger] saved[j]).key() != key,
    ensures
        last_count(saved, key) == saved[k].owned_count,
    decreases saved.len(),
{
    if k != saved.len() - 1 {
        assert(saved.last() == saved[saved.len() - 1]);
        lemma_last_count_of_only_match(saved.drop_last(), key, k);
    }
}

/// A key that no saved entry has is replayed as 0.
proof fn lemma_last_count_without_match(saved: Seq<UpgradeProgressView>, key: UpgradeKeyView)
    requires
        forall|j: int| 0 <= j < saved.len() ==> (#[trigger] saved[j]).key() != key,
    ensures
        last_count(saved, key) == 0,
    decreases saved.len(),
{
    if saved.len() > 0 {
        assert(saved.last() == saved[saved.len() - 1]);
        lemma_last_count_without_match(saved.drop_last(), key);
    }
}

/// Removing a saved entry does not change what is replayed for any other
/// key.
proof fn lemma_last_count_ignores_other_keys(
    saved: Seq<UpgradeProgressView>,
    key: UpgradeKeyView,
    j: int,
)
    requires
        0 <= j < saved.len(),
        saved[j].key() != key,
    ensures
        last_count(saved.remove(j), key) == last_count(saved, key),
    decreases saved.len(),
{
    let shorter = saved.remove(j);
    if j == saved.len() - 1 {
        assert(shorter =~= saved.drop_last());
    } else {
        assert(shorter.last() == saved.last());
        assert(shorter.drop_last() =~= saved.drop_last().remove(j));
        if saved.last().key() != key {
            lemma_last_count_ignores_other_keys(saved.drop_last(), key, j);
        }
    }
}

/// Saving and reconciling against an unchanged catalog gives back the same
/// upgrade list: where the list has one entry per catalog entry, in order,
/// and no two catalog entries share a name and a cap, replaying the list
/// onto the catalog yields the list itself.
pub proof fn lemma_reconcile_restores(
    catalog: Seq<UpgradeKeyView>,
    list: Seq<UpgradeProgressView>,
)
    requires
        follows_catalog(list, catalog),
        distinct_keys(catalog),
    ensures
        reconciled(catalog, list) == list,
{
    assert forall|k: int| 0 <= k < catalog.len() implies #[trigger] reconciled(catalog, list)[k]
        == list[k] by {
        assert(list[k].key() == catalog[k]);
        assert forall|j: int| 0 <= j < list.len() && j != k implies (#[trigger] list[j]).key()
            != catalog[k] by {
            assert(list[j].key() == catalog[j]);
        }
        lemma_last_count_of_only_match(list, catalog[k], k);
    }
    assert(reconciled(catalog, list) =~= list);
}

/// A saved upgrade whose name and cap match no catalog entry is dropped: the
/// result is the same as if it had not been saved.
pub proof fn lemma_unmatched_entry_is_dropped(
    catalog: Seq<UpgradeKeyView>,
    saved: Seq<UpgradeProgressView>,
    j: int,
)
    requires
        0 <= j < saved.len(),
        forall|k: int| 0 <= k < catalog.len() ==> #[trigger] catalog[k] != saved[j].key(),
    ensures
        reconciled(catalog, saved.remove(j)) == reconciled(catalog, saved),
{
    assert forall|k: int| 0 <= k < catalog.len() implies #[trigger] reconciled(
        catalog,
        saved.remove(j),
    )[k] == reconciled(catalog, saved)[k] by {
        lemma_last_count_ignores_other_keys(saved, catalog[k], j);
    }
    assert(reconciled(catalog, saved.remove(j)) =~= reconciled(catalog, saved));
}

/// A catalog entry whose name and cap match no saved upgrade appears with
/// nothing owned.
pub proof fn lemma_new_upgrade_starts_empty(
    catalog: Seq<UpgradeKeyView>,
    saved: Seq<UpgradeProgressView>,
    k: int,
)
    requires
        0 <= k < catalog.len(),
        forall|j: int| 0 <= j < saved.len() ==> (#[trigger] saved[j]).key() != catalog[k],
    ensures
        reconciled(catalog, saved)[k] == fresh(catalog)[k],
{
    lemma_last_count_without_match(saved, catalog[k]);
}

/// What is replayed for a key is 0 or the count of a saved entry with that
/// key: where every saved count is between 0 and its cap, so is the replayed
/// one.
proof fn lemma_last_count_within_cap(saved: Seq<UpgradeProgressView>, key: UpgradeKeyView)
    requires
        forall|j: int| 0 <= j < saved.len() ==> (#[trigger] saved[j]).valid(),
        1 <= key.max_count,
    ensures
        0 <= last_count(saved, key) <= key.max_count,
    decreases saved.len(),
{
    if saved.len() > 0 {
        assert(saved.last() == saved[saved.len() - 1]);
        if saved.last().key() != key {
            lemma_last_count_within_cap(saved.drop_last(), key);
        }
    }
}

/// Reconciling saved progress in which no count is negative or beyond its
/// cap, against a catalog in which every cap is at least 1, yields progress
/// of the same kind.
pub proof fn lemma_reconciled_is_valid(
    catalog: Seq<UpgradeKeyView>,
    saved: Seq<UpgradeProgressView>,
)
    requires
        forall|j: int| 0 <= j < saved.len() ==> (#[trigger] saved[j]).valid(),
        forall|k: int| 0 <= k < catalog.len() ==> 1 <= (#[trigger] catalog[k]).max_count,
    ensures
        forall|k: int| 0 <= k < catalog.len() ==> (#[trigger] reconciled(catalog, saved)[k]).valid(),
{
    assert forall|k: int| 0 <= k < catalog.len() implies (#[trigger] reconciled(
        catalog,
        saved,
    )[k]).valid() by {
        assert(1 <= catalog[k].max_count);
        lemma_last_count_within_cap(saved, catalog[k]);
    }
}

} // verus!
