//! Loading resources by key, and caches that load what they miss.

use std::sync::Arc;
use vstd::prelude::*;
use crate::cache::Cache;
use crate::keys::CacheKey;

verus! {

/// The capability to build a resource from its key.
///
/// Building may be slow and may fail; it stores nothing.
pub trait Loader<K, T> where K: CacheKey<T> {
    type Error;

    /// What `load_resource` may hand back for the key with view `key`.
    open spec fn loads(&self, key: K::V, loaded: Result<T, Self::Error>) -> bool {
        true
    }

    /// Builds the resource that `key` names, or says why it could not.
    fn load_resource(&self, key: &K) -> (loaded: Result<T, Self::Error>)
        ensures
            self.loads(key@, loaded),
    ;
}

/// What a successful `get_or_load` of `key` leaves: on a hit the store as it
/// was and the value it held, on a miss the store with `value` added.
pub open spec fn got_or_loaded<KV, V>(before: Map<KV, V>, key: KV, value: V, after: Map<KV, V>) -> bool {
    if before.contains_key(key) {
        value == before[key] && after == before
    } else {
        after == before.insert(key, value)
    }
}

/// The number of loads made once a call that found `hit` has returned, where
/// `before` were made before it: a miss makes one load and a hit none. The
/// count stops at the largest number that it can hold.
pub open spec fn counted(before: u64, hit: bool) -> u64 {
    if hit || before == u64::MAX {
        before
    } else {
        (before + 1) as u64
    }
}

/// A cache that can load what it does not hold.
pub trait LoadCache<K, V>: Loader<K, V> + Cache<K, V> where K: CacheKey<V> {
    /// Stores what a load of `key` gave and hands out a handle to it, or
    /// passes the loader's error on and leaves the store as it was.
    fn store_loaded(&mut self, key: &K, loaded: Result<V, Self::Error>) -> (result: Result<
        Arc<V>,
        Self::Error,
    >)
        ensures
            match loaded {
                Ok(value) => {
                    &&& result matches Ok(handle) && *handle == value
                    &&& final(self).contents() == old(self).contents().insert(key@, value)
                },
                Err(error) => {
                    &&& result matches Err(passed) && passed == error
                    &&& final(self).contents() == old(self).contents()
                },
            },
    {
        match loaded {
            Ok(value) => {
                let _ = self.insert(key.clone_key(), value);
                match self.get(key) {
                    Some(handle) => Ok(handle),
                    None => {
                        proof {
                            assert(false);
                        }
                        vstd::pervasive::unreached()
                    },
                }
            },
            Err(error) => Err(error),
        }
    }

    /// A handle to the resource under `key`: the one stored if there is one,
    /// else the one that the loader builds for `key`, which is then stored.
    /// An error comes from the loader alone, on a miss, and leaves the store
    /// as it was.
    fn get_or_load(&mut self, key: &K) -> (result: Result<Arc<V>, Self::Error>)
        ensures
            match result {
                Ok(handle) => {
                    &&& got_or_loaded(old(self).contents(), key@, *handle, final(self).contents())
                    &&& !old(self).contents().contains_key(key@) ==> old(self).loads(
                        key@,
                        Ok(*handle),
                    )
                },
                Err(error) => {
                    &&& !old(self).contents().contains_key(key@)
                    &&& old(self).loads(key@, Err(error))
                    &&& final(self).contents() == old(self).contents()
                },
            },
    {
        if let Some(handle) = self.get(key) {
            return Ok(handle);
        }
        let loaded = self.load_resource(key);
        self.store_loaded(key, loaded)
    }
}

/// Two calls of `get_or_load` for one key, with nothing taken out between
/// them, hand out the same value, and the second finds it stored: it is a
/// hit and makes no load, so the two calls together make one load at most.
pub proof fn lemma_get_or_load_twice<KV, V>(
    before: Map<KV, V>,
    key: KV,
    first: V,
    between: Map<KV, V>,
    second: V,
    after: Map<KV, V>,
    loads_before: u64,
)
    requires
        got_or_loaded(before, key, first, between),
        got_or_loaded(between, key, second, after),
    ensures
        between.contains_key(key),
        second == first,
        after == between,
        ({
            let loads_between = counted(loads_before, before.contains_key(key));
            let loads_after = counted(loads_between, between.contains_key(key));
            loads_after == loads_between && loads_after - loads_before <= 1
        }),
{
}

} // verus!
