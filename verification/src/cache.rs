//! A keyed store of shared handles, with eviction of the handles that nobody
//! else holds.

use std::sync::Arc;
use vstd::prelude::*;
use vstd::seq_lib::seq_to_set_is_finite;
use crate::keys::CacheKey;

verus! {

/// `Arc::clone`: a further handle to the allocation behind `handle`, and so
/// to the same value.
#[verifier::external_body]
fn share<T>(handle: &Arc<T>) -> (shared: Arc<T>)
    ensures
        shared == *handle,
{
    Arc::clone(handle)
}

/// `Arc::strong_count`: how many strong handles to the allocation are alive
/// at the moment of the call. Other owners come and go, so nothing is
/// claimed of the number.
#[verifier::external_body]
fn strong_count<T>(handle: &Arc<T>) -> (count: usize) {
    Arc::strong_count(handle)
}

/// `Arc::weak_count`: how many weak handles to the allocation are alive at
/// the moment of the call. Nothing is claimed of the number.
#[verifier::external_body]
fn weak_count<T>(handle: &Arc<T>) -> (count: usize) {
    Arc::weak_count(handle)
}

/// What a lookup of `key` finds in `contents`.
pub open spec fn lookup<KV, T>(contents: Map<KV, T>, key: KV) -> Option<T> {
    if contents.contains_key(key) {
        Some(contents[key])
    } else {
        None
    }
}

/// The resource behind the handle that an operation handed back, if it
/// handed one back.
pub open spec fn behind<T>(handle: Option<Arc<T>>) -> Option<T> {
    match handle {
        Some(shared) => Some(*shared),
        None => None,
    }
}

/// Whether an entry whose handle has `strong_count` strong owners is held by
/// the store alone.
pub open spec fn is_unused(strong_count: usize) -> bool {
    strong_count <= 1
}

/// A store of shared handles to resources, by key.
pub trait Cache<K, T> where K: CacheKey<T> {
    /// The resources held, by the view of their keys.
    spec fn contents(&self) -> Map<K::V, T>;

    /// A further handle to the resource stored under `key`, if there is one.
    fn get(&self, key: &K) -> (found: Option<Arc<T>>)
        ensures
            behind(found) == lookup(self.contents(), key@),
    ;

    /// Stores `value` under `key` behind a fresh handle and hands back the
    /// handle that was stored there before, if any.
    fn insert(&mut self, key: K, value: T) -> (previous: Option<Arc<T>>)
        ensures
            final(self).contents() == old(self).contents().insert(key@, value),
            behind(previous) == lookup(old(self).contents(), key@),
    ;

    /// Takes the entry under `key` out of the store and hands its handle back.
    fn remove(&mut self, key: &K) -> (removed: Option<Arc<T>>)
        ensures
            final(self).contents() == old(self).contents().remove(key@),
            behind(removed) == lookup(old(self).contents(), key@),
    ;

    /// Takes every entry out of the store.
    fn clear(&mut self)
        ensures
            final(self).contents() == Map::<K::V, T>::empty(),
    ;

    /// The number of entries.
    fn size(&self) -> (count: usize)
        ensures
            self.contents().dom().finite(),
            count == self.contents().len(),
    ;

    /// Takes out the entries that only the store still holds. Which entries
    /// those are depends on the handles alive elsewhere, so the contract says
    /// what holds in any case: nothing is added and nothing is changed.
    fn drop_unused(&mut self)
        ensures
            final(self).contents().submap_of(old(self).contents()),
    ;
}

/// A value stored under a key is the value found under that key.
pub proof fn lemma_insert_then_get<KV, T>(contents: Map<KV, T>, key: KV, value: T)
    ensures
        lookup(contents.insert(key, value), key) == Some(value),
{
}

/// A second value stored under a key takes the place of the first: it is
/// the value found from then on, the first value is what the second
/// `insert` hands back, and nothing of the first is left in the store.
pub proof fn lemma_insert_overwrites<KV, T>(contents: Map<KV, T>, key: KV, first: T, second: T)
    ensures
        lookup(contents.insert(key, first), key) == Some(first),
        lookup(contents.insert(key, first).insert(key, second), key) == Some(second),
        contents.insert(key, first).insert(key, second) == contents.insert(key, second),
{
    assert(contents.insert(key, first).insert(key, second) =~= contents.insert(key, second));
}

/// What is left of `items` when the entries with the given strong counts
/// are swept: the items, in their order, that somebody else still holds.
pub open spec fn sweep<A>(items: Seq<A>, strong_counts: Seq<usize>) -> Seq<A>
    decreases items.len(),
{
    if items.len() == 0 || strong_counts.len() == 0 {
        Seq::empty()
    } else {
        let rest = sweep(items.drop_first(), strong_counts.drop_first());
        if is_unused(strong_counts.first()) {
            rest
        } else {
            seq![items.first()] + rest
        }
    }
}

/// The map that sends each key of `keys` to the value at the same position
/// of `values`.
pub open spec fn paired<KV, T>(keys: Seq<KV>, values: Seq<T>) -> Map<KV, T> {
    Map::new(|key: KV| keys.contains(key), |key: KV| values[keys.index_of(key)])
}

/// The sum of `sizes`.
pub open spec fn total_size(sizes: Seq<usize>) -> int
    decreases sizes.len(),
{
    if sizes.len() == 0 {
        0
    } else {
        total_size(sizes.drop_last()) + sizes.last()
    }
}

/// `amount` as a `usize`, held at `usize::MAX` where it does not fit.
pub open spec fn capped(amount: int) -> usize {
    if amount > usize::MAX {
        usize::MAX
    } else if amount < 0 {
        0
    } else {
        amount as usize
    }
}

/// What is known of one entry of a cache when the cache is inspected.
pub struct EntryReport<K> {
    /// The entry's key.
    pub key: K,
    /// The size of the resource, as the caller's measure gave it.
    pub size: usize,
    /// The strong handles to the resource, the cache's own among them.
    pub strong_refs: usize,
    /// The weak handles to the resource.
    pub weak_refs: usize,
}

/// The sizes of the entries of `report`, in their order.
pub open spec fn sizes_of<K>(report: Seq<EntryReport<K>>) -> Seq<usize> {
    report.map_values(|entry: EntryReport<K>| entry.size)
}

/// The sum of the sizes that `report` holds, held at `usize::MAX` where it
/// does not fit.
pub fn estimated_size<K>(report: &Vec<EntryReport<K>>) -> (sum: usize)
    ensures
        sum == capped(total_size(sizes_of(report@))),
{
    let mut sum: usize = 0;
    let mut index: usize = 0;
    while index < report.len()
        invariant
            index <= report@.len(),
            sum == capped(total_size(sizes_of(report@).take(index as int))),
        decreases report@.len() - index,
    {
        proof {
            let sizes = sizes_of(report@);
            assert(sizes.take(index + 1).drop_last() =~= sizes.take(index as int));
            lemma_total_size_nonnegative(sizes.take(index as int));
        }
        sum = sum.saturating_add(report[index].size);
        index += 1;
    }
    assert(sizes_of(report@).take(index as int) =~= sizes_of(report@));
    sum
}

proof fn lemma_total_size_nonnegative(sizes: Seq<usize>)
    ensures
        total_size(sizes) >= 0,
    decreases sizes.len(),
{
    if sizes.len() > 0 {
        lemma_total_size_nonnegative(sizes.drop_last());
    }
}

/// A `Cache` that keeps its entries in the order in which their keys first
/// came.
pub struct HashCache<K, T> where K: CacheKey<T> {
    entries: Vec<(K, Arc<T>)>,
}

spec fn keys_of<K: CacheKey<T>, T>(entries: Seq<(K, Arc<T>)>) -> Seq<K::V> {
    entries.map_values(|entry: (K, Arc<T>)| entry.0@)
}

spec fn values_of<K: CacheKey<T>, T>(entries: Seq<(K, Arc<T>)>) -> Seq<T> {
    entries.map_values(|entry: (K, Arc<T>)| *entry.1)
}

proof fn lemma_paired_at<KV, T>(keys: Seq<KV>, values: Seq<T>, i: int)
    requires
        keys.no_duplicates(),
        0 <= i < keys.len(),
    ensures
        keys.index_of(keys[i]) == i,
        paired(keys, values).contains_key(keys[i]),
        paired(keys, values)[keys[i]] == values[i],
{
}

proof fn lemma_paired_push<KV, T>(keys: Seq<KV>, values: Seq<T>, key: KV, value: T)
    requires
        keys.no_duplicates(),
        keys.len() == values.len(),
        !keys.contains(key),
    ensures
        keys.push(key).no_duplicates(),
        paired(keys.push(key), values.push(value)) == paired(keys, values).insert(key, value),
{
    let more_keys = keys.push(key);
    let more_values = values.push(value);
    assert(more_keys.no_duplicates()) by {
        assert forall|i: int, j: int|
            0 <= i < more_keys.len() && 0 <= j < more_keys.len() && i != j implies more_keys[i]
            != more_keys[j] by {
            if i < keys.len() {
                assert(keys.contains(more_keys[i]));
            }
            if j < keys.len() {
                assert(keys.contains(more_keys[j]));
            }
        }
    }
    assert forall|k: KV| more_keys.contains(k) <==> (k == key || keys.contains(k)) by {
        if k == key {
            assert(more_keys[keys.len() as int] == key);
        }
        if keys.contains(k) {
            let i = keys.index_of(k);
            assert(more_keys[i] == k);
        }
    }
    assert forall|k: KV| more_keys.contains(k) implies #[trigger] paired(more_keys, more_values)[k]
        == paired(keys, values).insert(key, value)[k] by {
        let i = more_keys.index_of(k);
        lemma_paired_at(more_keys, more_values, i);
        if i < keys.len() {
            lemma_paired_at(keys, values, i);
        }
    }
    assert(paired(more_keys, more_values) =~= paired(keys, values).insert(key, value));
}

proof fn lemma_paired_update<KV, T>(keys: Seq<KV>, values: Seq<T>, i: int, value: T)
    requires
        keys.no_duplicates(),
        keys.len() == values.len(),
        0 <= i < keys.len(),
    ensures
        paired(keys, values.update(i, value)) == paired(keys, values).insert(keys[i], value),
{
    let new_values = values.update(i, value);
    assert forall|k: KV| keys.contains(k) implies #[trigger] paired(keys, new_values)[k] == paired(
        keys,
        values,
    ).insert(keys[i], value)[k] by {
        let j = keys.index_of(k);
        lemma_paired_at(keys, values, j);
        lemma_paired_at(keys, new_values, j);
    }
    assert(paired(keys, new_values) =~= paired(keys, values).insert(keys[i], value));
}

proof fn lemma_paired_remove<KV, T>(keys: Seq<KV>, values: Seq<T>, i: int)
    requires
        keys.no_duplicates(),
        keys.len() == values.len(),
        0 <= i < keys.len(),
    ensures
        keys.remove(i).no_duplicates(),
        !keys.remove(i).contains(keys[i]),
        paired(keys.remove(i), values.remove(i)) == paired(keys, values).remove(keys[i]),
{
    let fewer_keys = keys.remove(i);
    let fewer_values = values.remove(i);
    assert forall|a: int| 0 <= a < fewer_keys.len() implies fewer_keys[a] == keys[if a < i {
        a
    } else {
        a + 1
    }] && fewer_values[a] == values[if a < i {
        a
    } else {
        a + 1
    }] by {}
    assert(fewer_keys.no_duplicates());
    assert forall|k: KV| fewer_keys.contains(k) <==> (k != keys[i] && keys.contains(k)) by {
        if fewer_keys.contains(k) {
            let a = fewer_keys.index_of(k);
            assert(keys[if a < i {
                a
            } else {
                a + 1
            }] == k);
        }
        if k != keys[i] && keys.contains(k) {
            let j = keys.index_of(k);
            assert(fewer_keys[if j < i {
                j
            } else {
                j - 1
            }] == k);
        }
    }
    assert forall|k: KV| fewer_keys.contains(k) implies #[trigger] paired(fewer_keys, fewer_values)[k]
        == paired(keys, values).remove(keys[i])[k] by {
        let a = fewer_keys.index_of(k);
        lemma_paired_at(fewer_keys, fewer_values, a);
        lemma_paired_at(keys, values, if a < i {
            a
        } else {
            a + 1
        });
    }
    assert(paired(fewer_keys, fewer_values) =~= paired(keys, values).remove(keys[i]));
}

proof fn lemma_paired_size<KV, T>(keys: Seq<KV>, values: Seq<T>)
    requires
        keys.no_duplicates(),
    ensures
        paired(keys, values).dom() == keys.to_set(),
        paired(keys, values).dom().finite(),
        paired(keys, values).len() == keys.len(),
{
    broadcast use seq_to_set_is_finite;

    assert(paired(keys, values).dom() =~= keys.to_set());
    keys.unique_seq_to_set();
}

proof fn lemma_sweep_mapped<A, B>(items: Seq<A>, strong_counts: Seq<usize>, f: spec_fn(A) -> B)
    ensures
        sweep(items.map_values(f), strong_counts) == sweep(items, strong_counts).map_values(f),
    decreases items.len(),
{
    if items.len() == 0 || strong_counts.len() == 0 {
        assert(sweep(items.map_values(f), strong_counts) =~= sweep(items, strong_counts).map_values(
            f,
        ));
    } else {
        lemma_sweep_mapped(items.drop_first(), strong_counts.drop_first(), f);
        assert(items.map_values(f).drop_first() =~= items.drop_first().map_values(f));
        assert(sweep(items.map_values(f), strong_counts) =~= sweep(items, strong_counts).map_values(
            f,
        ));
    }
}

proof fn lemma_submap_remove<KV, T>(part: Map<KV, T>, whole: Map<KV, T>, key: KV)
    requires
        part.submap_of(whole),
    ensures
        part.remove(key).submap_of(whole),
{
    assert forall|k: KV| #[trigger] part.remove(key).dom().contains(k) implies #[trigger] whole.dom().contains(
        k,
    ) && part.remove(key)[k] == whole[k] by {
        assert(part.dom().contains(k));
    }
}

proof fn lemma_sweep_step<A>(items: Seq<A>, strong_counts: Seq<usize>, i: int)
    requires
        items.len() == strong_counts.len(),
        0 <= i < items.len(),
    ensures
        sweep(items.skip(i), strong_counts.skip(i)) == if is_unused(strong_counts[i]) {
            sweep(items.skip(i + 1), strong_counts.skip(i + 1))
        } else {
            seq![items[i]] + sweep(items.skip(i + 1), strong_counts.skip(i + 1))
        },
{
    assert(items.skip(i).drop_first() =~= items.skip(i + 1));
    assert(strong_counts.skip(i).drop_first() =~= strong_counts.skip(i + 1));
}

/// A sweep takes out the entries that the store alone holds and no others:
/// among distinct keys, a key is left exactly if the strong count at its
/// position says that somebody else holds its entry.
pub proof fn lemma_sweep_keeps_shared<A>(items: Seq<A>, strong_counts: Seq<usize>, position: int)
    requires
        items.no_duplicates(),
        items.len() == strong_counts.len(),
        0 <= position < items.len(),
    ensures
        sweep(items, strong_counts).contains(items[position]) <==> !is_unused(
            strong_counts[position],
        ),
    decreases items.len(),
{
    let rest = sweep(items.drop_first(), strong_counts.drop_first());
    lemma_sweep_within(items.drop_first(), strong_counts.drop_first());
    if position == 0 {
        if is_unused(strong_counts.first()) {
            if rest.contains(items[0]) {
                let i = rest.index_of(items[0]);
                assert(items.drop_first().contains(rest[i]));
                let j = items.drop_first().index_of(rest[i]);
                assert(items[j + 1] == items[0]);
            }
        } else {
            assert(sweep(items, strong_counts)[0] == items[0]);
        }
    } else {
        lemma_sweep_keeps_shared(items.drop_first(), strong_counts.drop_first(), position - 1);
        assert(items.drop_first()[position - 1] == items[position]);
        if is_unused(strong_counts.first()) {
        } else {
            let swept = sweep(items, strong_counts);
            assert(swept =~= seq![items.first()] + rest);
            if rest.contains(items[position]) {
                let i = rest.index_of(items[position]);
                assert(swept[i + 1] == items[position]);
            }
            if swept.contains(items[position]) {
                let i = swept.index_of(items[position]);
                assert(i != 0);
                assert(rest[i - 1] == items[position]);
            }
        }
    }
}

proof fn lemma_sweep_within<A>(items: Seq<A>, strong_counts: Seq<usize>)
    ensures
        forall|i: int|
            0 <= i < sweep(items, strong_counts).len() ==> items.contains(
                #[trigger] sweep(items, strong_counts)[i],
            ),
    decreases items.len(),
{
    if items.len() == 0 || strong_counts.len() == 0 {
    } else {
        lemma_sweep_within(items.drop_first(), strong_counts.drop_first());
        let rest = sweep(items.drop_first(), strong_counts.drop_first());
        let swept = sweep(items, strong_counts);
        assert forall|i: int| 0 <= i < swept.len() implies items.contains(#[trigger] swept[i]) by {
            if is_unused(strong_counts.first()) {
                assert(items.drop_first().contains(rest[i]));
                let j = items.drop_first().index_of(rest[i]);
                assert(items[j + 1] == swept[i]);
            } else if i == 0 {
                assert(items[0] == swept[0]);
            } else {
                assert(swept[i] == rest[i - 1]);
                assert(items.drop_first().contains(rest[i - 1]));
                let j = items.drop_first().index_of(rest[i - 1]);
                assert(items[j + 1] == swept[i]);
            }
        }
    }
}

/// Where `key` stands among `entries`, if it does.
fn position<K: CacheKey<T>, T>(entries: &Vec<(K, Arc<T>)>, key: &K) -> (found: Option<usize>)
    ensures
        match found {
            Some(i) => i < entries@.len() && keys_of(entries@)[i as int] == key@,
            None => !keys_of(entries@).contains(key@),
        },
{
    let mut i: usize = 0;
    while i < entries.len()
        invariant
            i <= entries@.len(),
            forall|j: int| 0 <= j < i ==> keys_of(entries@)[j] != key@,
        decreases entries@.len() - i,
    {
        if entries[i].0.same_key(key) {
            return Some(i);
        }
        i += 1;
    }
    None
}

impl<K: CacheKey<T>, T> HashCache<K, T> {
    /// The keys held, by view, oldest first.
    pub closed spec fn keys(&self) -> Seq<K::V> {
        keys_of(self.entries@)
    }

    /// The resources held, in the order of `keys`.
    pub closed spec fn values(&self) -> Seq<T> {
        values_of(self.entries@)
    }

    /// The store's own handles to the resources, in the order of `keys`.
    pub closed spec fn handles(&self) -> Seq<Arc<T>> {
        self.entries@.map_values(|entry: (K, Arc<T>)| entry.1)
    }

    /// What the store holds, entry by entry in the order of `keys`: the
    /// key, the size that `size_closure` gives for the store's handle, and
    /// the numbers of strong and weak handles alive at this moment.
    pub fn inspect<F: Fn(&Arc<T>) -> usize>(&self, size_closure: F) -> (report: Vec<EntryReport<K>>)
        requires
            forall|handle: &Arc<T>| call_requires(size_closure, (handle,)),
        ensures
            report@.len() == self.keys().len(),
            forall|i: int|
                0 <= i < report@.len() ==> {
                    &&& (#[trigger] report@[i]).key@ == self.keys()[i]
                    &&& call_ensures(size_closure, (&self.handles()[i],), report@[i].size)
                },
    {
        let mut report: Vec<EntryReport<K>> = Vec::new();
        let mut index: usize = 0;
        while index < self.entries.len()
            invariant
                index <= self.entries@.len(),
                report@.len() == index,
                forall|handle: &Arc<T>| call_requires(size_closure, (handle,)),
                forall|i: int|
                    0 <= i < report@.len() ==> {
                        &&& (#[trigger] report@[i]).key@ == self.keys()[i]
                        &&& call_ensures(size_closure, (&self.handles()[i],), report@[i].size)
                    },
            decreases self.entries@.len() - index,
        {
            let handle = &self.entries[index].1;
            let row = EntryReport {
                key: self.entries[index].0.clone_key(),
                size: size_closure(handle),
                strong_refs: strong_count(handle),
                weak_refs: weak_count(handle),
            };
            report.push(row);
            index += 1;
        }
        report
    }

    #[verifier::type_invariant]
    spec fn distinct_keys(&self) -> bool {
        self.keys().no_duplicates()
    }

    /// The key at `index` in the order of `keys`, and the handle stored
    /// under it; `None` from the number of entries on.
    pub fn entry_at(&self, index: usize) -> (entry: Option<(&K, &Arc<T>)>)
        ensures
            match entry {
                Some((key, handle)) => {
                    &&& index < self.keys().len()
                    &&& key@ == self.keys()[index as int]
                    &&& **handle == self.values()[index as int]
                    &&& lookup(self@, key@) == Some(**handle)
                },
                None => index >= self.keys().len(),
            },
    {
        proof {
            use_type_invariant(self);
        }
        if index < self.entries.len() {
            proof {
                lemma_paired_at(self.keys(), self.values(), index as int);
            }
            Some((&self.entries[index].0, &self.entries[index].1))
        } else {
            None
        }
    }

    /// The number of strong owners of each entry's handle at this moment,
    /// the store among them, in the order of `keys`.
    pub fn strong_counts(&self) -> (counts: Vec<usize>)
        ensures
            counts@.len() == self.keys().len(),
    {
        let mut counts: Vec<usize> = Vec::new();
        let mut i: usize = 0;
        while i < self.entries.len()
            invariant
                i <= self.entries@.len(),
                counts@.len() == i,
            decreases self.entries@.len() - i,
        {
            counts.push(strong_count(&self.entries[i].1));
            i += 1;
        }
        counts
    }

    /// The number of weak handles to each entry at this moment, in the order
    /// of `keys`.
    pub fn weak_counts(&self) -> (counts: Vec<usize>)
        ensures
            counts@.len() == self.keys().len(),
    {
        let mut counts: Vec<usize> = Vec::new();
        let mut i: usize = 0;
        while i < self.entries.len()
            invariant
                i <= self.entries@.len(),
                counts@.len() == i,
            decreases self.entries@.len() - i,
        {
            counts.push(weak_count(&self.entries[i].1));
            i += 1;
        }
        counts
    }

    /// Takes out each entry whose strong count, as given at its position in
    /// `strong_counts`, says that the store alone holds it. The other
    /// entries stay as they are, in their order.
    pub fn retain_shared(&mut self, strong_counts: &Vec<usize>)
        requires
            strong_counts@.len() == old(self).keys().len(),
        ensures
            final(self).keys() == sweep(old(self).keys(), strong_counts@),
            final(self).values() == sweep(old(self).values(), strong_counts@),
            final(self).handles() == sweep(old(self).handles(), strong_counts@),
            final(self)@ == old(self)@.restrict(final(self).keys().to_set()),
    {
        proof {
            use_type_invariant(&*self);
        }
        let mut entries: Vec<(K, Arc<T>)> = Vec::new();
        core::mem::swap(&mut self.entries, &mut entries);
        let ghost before = entries@;
        let mut i: usize = entries.len();
        assert(entries@ =~= before.take(i as int) + sweep(
            before.skip(i as int),
            strong_counts@.skip(i as int),
        ));
        while i > 0
            invariant
                i <= before.len(),
                strong_counts@.len() == before.len(),
                entries@ == before.take(i as int) + sweep(
                    before.skip(i as int),
                    strong_counts@.skip(i as int),
                ),
                keys_of(entries@).no_duplicates(),
                paired(keys_of(entries@), values_of(entries@)).submap_of(
                    paired(keys_of(before), values_of(before)),
                ),
            decreases i,
        {
            i -= 1;
            let ghost prior = entries@;
            proof {
                lemma_sweep_step(before, strong_counts@, i as int);
            }
            if strong_counts[i] <= 1 {
                let swept = entries.remove(i);
                proof {
                    lemma_paired_remove(keys_of(prior), values_of(prior), i as int);
                    assert(keys_of(entries@) =~= keys_of(prior).remove(i as int));
                    assert(values_of(entries@) =~= values_of(prior).remove(i as int));
                    lemma_submap_remove(
                        paired(keys_of(prior), values_of(prior)),
                        paired(keys_of(before), values_of(before)),
                        keys_of(prior)[i as int],
                    );
                }
            }
            assert(entries@ =~= before.take(i as int) + sweep(
                before.skip(i as int),
                strong_counts@.skip(i as int),
            ));
        }
        proof {
            assert(before.skip(0) =~= before);
            assert(strong_counts@.skip(0) =~= strong_counts@);
            assert(entries@ =~= sweep(before, strong_counts@));
            lemma_sweep_mapped(before, strong_counts@, |entry: (K, Arc<T>)| entry.0@);
            lemma_sweep_mapped(before, strong_counts@, |entry: (K, Arc<T>)| *entry.1);
            lemma_sweep_mapped(before, strong_counts@, |entry: (K, Arc<T>)| entry.1);
            lemma_paired_size(keys_of(entries@), values_of(entries@));
            assert(paired(keys_of(entries@), values_of(entries@)) =~= paired(
                keys_of(before),
                values_of(before),
            ).restrict(keys_of(entries@).to_set()));
        }
        self.entries = entries;
    }

    /// A store without entries.
    pub fn new() -> (cache: Self)
        ensures
            cache@ == Map::<K::V, T>::empty(),
            cache.keys() == Seq::<K::V>::empty(),
    {
        let cache = HashCache { entries: Vec::new() };
        assert(cache@ =~= Map::<K::V, T>::empty());
        assert(cache.keys() =~= Seq::<K::V>::empty());
        cache
    }
}

impl<K: CacheKey<T>, T> Default for HashCache<K, T> {
    fn default() -> (cache: Self)
        ensures
            cache@ == Map::<K::V, T>::empty(),
            cache.keys() == Seq::<K::V>::empty(),
    {
        HashCache::new()
    }
}

impl<K: CacheKey<T>, T> View for HashCache<K, T> {
    type V = Map<K::V, T>;

    /// The resources held, by the view of their keys.
    open spec fn view(&self) -> Map<K::V, T> {
        paired(self.keys(), self.values())
    }
}

impl<K: CacheKey<T>, T> Cache<K, T> for HashCache<K, T> {
    open spec fn contents(&self) -> Map<K::V, T> {
        self@
    }

    fn get(&self, key: &K) -> (found: Option<Arc<T>>) {
        proof {
            use_type_invariant(self);
        }
        match position(&self.entries, key) {
            Some(i) => {
                proof {
                    lemma_paired_at(self.keys(), self.values(), i as int);
                }
                Some(share(&self.entries[i].1))
            },
            None => None,
        }
    }

    fn insert(&mut self, key: K, value: T) -> (previous: Option<Arc<T>>)
        ensures
            final(self).keys() == if old(self)@.contains_key(key@) {
                old(self).keys()
            } else {
                old(self).keys().push(key@)
            },
    {
        proof {
            use_type_invariant(&*self);
        }
        let mut entries: Vec<(K, Arc<T>)> = Vec::new();
        core::mem::swap(&mut self.entries, &mut entries);
        let ghost before = entries@;
        let found = position(&entries, &key);
        entries.push((key, Arc::new(value)));
        let previous = match found {
            Some(i) => {
                let replaced = entries.swap_remove(i);
                proof {
                    lemma_paired_at(keys_of(before), values_of(before), i as int);
                    lemma_paired_update(keys_of(before), values_of(before), i as int, value);
                    assert(keys_of(entries@) =~= keys_of(before));
                    assert(values_of(entries@) =~= values_of(before).update(i as int, value));
                }
                Some(replaced.1)
            },
            None => {
                proof {
                    lemma_paired_push(keys_of(before), values_of(before), key@, value);
                    assert(keys_of(entries@) =~= keys_of(before).push(key@));
                    assert(values_of(entries@) =~= values_of(before).push(value));
                }
                None
            },
        };
        self.entries = entries;
        previous
    }

    fn remove(&mut self, key: &K) -> (removed: Option<Arc<T>>) {
        proof {
            use_type_invariant(&*self);
        }
        let mut entries: Vec<(K, Arc<T>)> = Vec::new();
        core::mem::swap(&mut self.entries, &mut entries);
        let ghost before = entries@;
        let removed = match position(&entries, key) {
            Some(i) => {
                let taken = entries.remove(i);
                proof {
                    lemma_paired_at(keys_of(before), values_of(before), i as int);
                    lemma_paired_remove(keys_of(before), values_of(before), i as int);
                    assert(keys_of(entries@) =~= keys_of(before).remove(i as int));
                    assert(values_of(entries@) =~= values_of(before).remove(i as int));
                }
                Some(taken.1)
            },
            None => {
                assert(paired(keys_of(before), values_of(before)).remove(key@) =~= paired(
                    keys_of(before),
                    values_of(before),
                ));
                None
            },
        };
        self.entries = entries;
        removed
    }

    fn clear(&mut self)
        ensures
            final(self).keys() == Seq::<K::V>::empty(),
    {
        self.entries = Vec::new();
        assert(self@ =~= Map::<K::V, T>::empty());
        assert(self.keys() =~= Seq::<K::V>::empty());
    }

    fn size(&self) -> (count: usize)
        ensures
            count == self.keys().len(),
            count == self.values().len(),
            self.keys().no_duplicates(),
    {
        proof {
            use_type_invariant(self);
            lemma_paired_size(self.keys(), self.values());
        }
        self.entries.len()
    }

    fn drop_unused(&mut self)
        ensures
            exists|strong_counts: Seq<usize>|
                {
                    &&& strong_counts.len() == old(self).keys().len()
                    &&& final(self).keys() == #[trigger] sweep(old(self).keys(), strong_counts)
                    &&& final(self).values() == sweep(old(self).values(), strong_counts)
                    &&& final(self).handles() == sweep(old(self).handles(), strong_counts)
                },
            final(self)@ == old(self)@.restrict(final(self).keys().to_set()),
    {
        let strong_counts = self.strong_counts();
        self.retain_shared(&strong_counts);
    }
}

} // verus!
