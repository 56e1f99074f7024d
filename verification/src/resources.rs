//! The store of the engine's loadable assets, and their reload when a file
//! changes on disk.

use std::sync::mpsc::Receiver;
use std::sync::Arc;
use notify::DebouncedEvent;
use vstd::prelude::*;
use crate::cache::{capped, estimated_size, sizes_of, sweep, total_size, EntryReport};
pub use crate::cache::{Cache, HashCache};
pub use crate::keys::{BitmapFontKey, CacheKey, PathKey};
use crate::load::counted;
pub use crate::load::{LoadCache, Loader};

verus! {

/// `notify::DebouncedEvent`: a change that the watcher of the file system
/// reports. It is handed on unopened; `read_event` reads it.
#[verifier::external_type_specification]
#[verifier::external_body]
pub struct ExDebouncedEvent(DebouncedEvent);

/// `notify::Error`: what went wrong in the watcher. It is carried through
/// unopened.
#[verifier::external_type_specification]
#[verifier::external_body]
pub struct ExWatchError(notify::Error);

/// `std::sync::mpsc::Receiver`: the receiving end of a channel. It is held
/// unopened; `next_event` reads from it.
#[verifier::external_type_specification]
#[verifier::external_body]
#[verifier::reject_recursive_types(T)]
pub struct ExReceiver<T>(Receiver<T>);

/// Whether `suffix`, read as a path, is made of the last whole components
/// of `path`, as `std::path::Path::ends_with` decides it. Which characters
/// part the components is a matter of the system that the library is built
/// for, so this is one function within one build.
pub uninterp spec fn path_ends_with(path: Seq<char>, suffix: Seq<char>) -> bool;

/// `std::path::Path::ends_with`, on two paths given as text: whether the
/// second is a suffix of the first, whole components only.
#[verifier::external_body]
fn ends_with_path(path: &str, suffix: &str) -> (ends: bool)
    ensures
        ends == path_ends_with(path@, suffix@),
{
    std::path::Path::new(path).ends_with(suffix)
}

/// `Receiver::try_recv`: takes the oldest pending event off the channel
/// without waiting. `None` where nothing is pending or the sender is gone.
#[verifier::external_body]
fn next_event(receiver: &Receiver<DebouncedEvent>) -> (event: Option<DebouncedEvent>) {
    receiver.try_recv().ok()
}

/// A `notify::DebouncedEvent` as a value of the library: the same kind of
/// event with the same paths, each path as text. A path that is no valid
/// text is read with `Path::to_string_lossy`. Nothing is claimed of the
/// result: which event it is, the event decides.
#[verifier::external_body]
fn read_event(event: DebouncedEvent) -> (read: FileEvent) {
    let text = |path: std::path::PathBuf| path.to_string_lossy().into_owned();
    match event {
        DebouncedEvent::NoticeWrite(path) => FileEvent::NoticeWrite(text(path)),
        DebouncedEvent::NoticeRemove(path) => FileEvent::NoticeRemove(text(path)),
        DebouncedEvent::Create(path) => FileEvent::Create(text(path)),
        DebouncedEvent::Write(path) => FileEvent::Write(text(path)),
        DebouncedEvent::Chmod(path) => FileEvent::Chmod(text(path)),
        DebouncedEvent::Remove(path) => FileEvent::Remove(text(path)),
        DebouncedEvent::Rename(from, to) => FileEvent::Rename(text(from), text(to)),
        DebouncedEvent::Rescan => FileEvent::Rescan,
        DebouncedEvent::Error(error, path) => FileEvent::Error(error, path.map(text)),
    }
}

/// A change of the files under watch, as the watcher reports it.
pub enum FileEvent {
    /// A write to the file has begun.
    NoticeWrite(String),
    /// A removal of the file has begun.
    NoticeRemove(String),
    /// The file was created.
    Create(String),
    /// The file was written to and has come to rest.
    Write(String),
    /// The attributes of the file were changed.
    Chmod(String),
    /// The file was removed.
    Remove(String),
    /// The file was moved from the first path to the second.
    Rename(String, String),
    /// The watched folders have to be read anew.
    Rescan,
    /// The watcher met an error, perhaps at a path.
    Error(notify::Error, Option<String>),
}

/// The path that `event` reports as written: the path of a write that has
/// come to rest. No other kind of event reports one.
pub open spec fn written_path(event: FileEvent) -> Option<String> {
    match event {
        FileEvent::Write(path) => Some(path),
        _ => None,
    }
}

/// The path that `event` reports as written, if it is a write that has come
/// to rest. Only such an event makes the store reload.
pub fn written(event: FileEvent) -> (path: Option<String>)
    ensures
        path == written_path(event),
{
    match event {
        FileEvent::Write(path) => Some(path),
        _ => None,
    }
}

/// A cache together with the loader of what it holds. It counts how often
/// it asks the loader.
pub struct ResourceCache<K, T, L> where K: CacheKey<T>, L: Loader<K, T> {
    cache: HashCache<K, T>,
    loader: L,
    loads: u64,
}

impl<K: CacheKey<T>, T, L: Loader<K, T>> View for ResourceCache<K, T, L> {
    type V = Map<K::V, T>;

    closed spec fn view(&self) -> Map<K::V, T> {
        self.cache@
    }
}

impl<K: CacheKey<T>, T, L: Loader<K, T>> ResourceCache<K, T, L> {
    /// The keys held, by view, oldest first.
    pub closed spec fn keys(&self) -> Seq<K::V> {
        self.cache.keys()
    }

    /// How often the cache has asked its loader for a resource.
    pub closed spec fn load_count(&self) -> u64 {
        self.loads
    }

    /// The loader that the cache loads with.
    pub closed spec fn loader_held(&self) -> L {
        self.loader
    }

    /// What the cache's loader may hand back is what the loader that it
    /// holds may hand back: while the cache holds the same loader, the same
    /// loads are possible.
    pub proof fn lemma_loads_as_its_loader(&self, key: K::V, loaded: Result<T, L::Error>)
        ensures
            self.loads(key, loaded) == self.loader_held().loads(key, loaded),
    {
    }

    /// An empty cache that loads with `loader`.
    pub fn new(loader: L) -> (store: Self)
        ensures
            store@ == Map::<K::V, T>::empty(),
            store.keys() == Seq::<K::V>::empty(),
            store.load_count() == 0,
            store.loader_held() == loader,
    {
        ResourceCache { cache: HashCache::new(), loader, loads: 0 }
    }

    /// How often the cache has asked its loader for a resource.
    pub fn loads_made(&self) -> (count: u64)
        ensures
            count == self.load_count(),
    {
        self.loads
    }

    /// The loader.
    pub fn loader(&self) -> (loader: &L)
        ensures
            *loader == self.loader_held(),
            forall|key: K::V, loaded: Result<T, L::Error>|
                self.loads(key, loaded) == #[trigger] loader.loads(key, loaded),
    {
        &self.loader
    }

    /// The store's own handles to the resources, in the order of `keys`.
    pub closed spec fn handles(&self) -> Seq<Arc<T>> {
        self.cache.handles()
    }

    /// The cache, to look into.
    pub fn cache(&self) -> (cache: &HashCache<K, T>)
        ensures
            cache@ == self@,
            cache.keys() == self.keys(),
            cache.handles() == self.handles(),
    {
        &self.cache
    }

    /// What the cache holds and the memory that it stands for, where each
    /// handle's own value takes `entry_size` bytes and `measure` gives the
    /// size of the resource behind a handle.
    pub fn usage<F: Fn(&Arc<T>) -> usize>(&self, entry_size: usize, measure: F) -> (usage: CacheUsage<K>)
        requires
            forall|handle: &Arc<T>| call_requires(measure, (handle,)),
        ensures
            reports_cache(usage, self.keys(), self.handles(), entry_size as nat, measure),
    {
        let count = self.cache.size();
        let entries = self.cache.inspect(measure);
        let ram_usage = match entry_size.checked_mul(count) {
            Some(product) => product,
            None => usize::MAX,
        };
        let estimated = estimated_size(&entries);
        CacheUsage { ram_usage, estimated_size: estimated, entries }
    }
}

impl<K: CacheKey<T>, T, L: Loader<K, T>> Loader<K, T> for ResourceCache<K, T, L> {
    type Error = L::Error;

    closed spec fn loads(&self, key: K::V, loaded: Result<T, Self::Error>) -> bool {
        self.loader.loads(key, loaded)
    }

    fn load_resource(&self, key: &K) -> (loaded: Result<T, Self::Error>) {
        self.loader.load_resource(key)
    }
}

impl<K: CacheKey<T>, T, L: Loader<K, T>> Cache<K, T> for ResourceCache<K, T, L> {
    open spec fn contents(&self) -> Map<K::V, T> {
        self@
    }

    fn get(&self, key: &K) -> (found: Option<Arc<T>>) {
        self.cache.get(key)
    }

    fn insert(&mut self, key: K, value: T) -> (previous: Option<Arc<T>>)
        ensures
            final(self).keys() == if old(self)@.contains_key(key@) {
                old(self).keys()
            } else {
                old(self).keys().push(key@)
            },
            final(self).load_count() == old(self).load_count(),
            final(self).loader_held() == old(self).loader_held(),
    {
        self.cache.insert(key, value)
    }

    fn remove(&mut self, key: &K) -> (removed: Option<Arc<T>>)
        ensures
            final(self).load_count() == old(self).load_count(),
            final(self).loader_held() == old(self).loader_held(),
    {
        self.cache.remove(key)
    }

    fn clear(&mut self)
        ensures
            final(self).load_count() == old(self).load_count(),
            final(self).loader_held() == old(self).loader_held(),
    {
        self.cache.clear()
    }

    fn size(&self) -> (count: usize)
        ensures
            count == self.keys().len(),
    {
        self.cache.size()
    }

    /// What stays is what a sweep by the strong counts of the moment
    /// leaves: the entries that somebody else holds, in their order and as
    /// they were. The loader is not asked.
    fn drop_unused(&mut self)
        ensures
            exists|strong_counts: Seq<usize>|
                {
                    &&& strong_counts.len() == old(self).keys().len()
                    &&& final(self).keys() == #[trigger] sweep(old(self).keys(), strong_counts)
                    &&& final(self).handles() == sweep(old(self).handles(), strong_counts)
                },
            final(self)@ == old(self)@.restrict(final(self).keys().to_set()),
            final(self).load_count() == old(self).load_count(),
            final(self).loader_held() == old(self).loader_held(),
    {
        let ghost keys = self.cache.keys();
        let ghost values = self.cache.values();
        let ghost handles = self.cache.handles();
        self.cache.drop_unused();
        proof {
            let strong_counts = choose|strong_counts: Seq<usize>|
                {
                    &&& strong_counts.len() == keys.len()
                    &&& self.cache.keys() == #[trigger] sweep(keys, strong_counts)
                    &&& self.cache.values() == sweep(values, strong_counts)
                    &&& self.cache.handles() == sweep(handles, strong_counts)
                };
            assert(self.keys() == sweep(old(self).keys(), strong_counts));
        }
    }
}

impl<K: CacheKey<T>, T, L: Loader<K, T>> LoadCache<K, T> for ResourceCache<K, T, L> {
    /// Storing what was loaded asks nothing of the loader.
    fn store_loaded(&mut self, key: &K, loaded: Result<T, Self::Error>) -> (result: Result<
        Arc<T>,
        Self::Error,
    >)
        ensures
            final(self).load_count() == old(self).load_count(),
            final(self).loader_held() == old(self).loader_held(),
    {
        match loaded {
            Ok(value) => {
                let _ = self.insert(key.clone_key(), value);
                match self.get(key) {
                    Some(handle) => Ok(handle),
                    None => {
                        proof {
                            assert(false);
                        }
                        vstd::pervasive::unreached()
                    },
                }
            },
            Err(error) => Err(error),
        }
    }

    /// Counts the load that a miss makes: a hit leaves the count as it was.
    fn get_or_load(&mut self, key: &K) -> (result: Result<Arc<T>, Self::Error>)
        ensures
            final(self).load_count() == counted(
                old(self).load_count(),
                old(self)@.contains_key(key@),
            ),
            final(self).loader_held() == old(self).loader_held(),
    {
        if let Some(handle) = self.get(key) {
            return Ok(handle);
        }
        let loaded = self.loader.load_resource(key);
        self.loads = self.loads.saturating_add(1);
        self.store_loaded(key, loaded)
    }
}

/// The first of `keys`, oldest first, that `path` ends with.
pub open spec fn first_suffix(keys: Seq<Seq<char>>, path: Seq<char>) -> Option<Seq<char>>
    decreases keys.len(),
{
    if keys.len() == 0 {
        None
    } else if path_ends_with(path, keys.first()) {
        Some(keys.first())
    } else {
        first_suffix(keys.drop_first(), path)
    }
}

/// The view of the key that a search handed back, if it handed one back.
pub open spec fn named(key: Option<PathKey>) -> Option<Seq<char>> {
    match key {
        Some(found) => Some(found@),
        None => None,
    }
}

impl<T, L: Loader<PathKey, T>> ResourceCache<PathKey, T, L> {
    /// The key of the first entry, oldest first, that the changed file at
    /// `path` belongs to: the first key that `path` ends with.
    pub fn key_for_path(&self, path: &str) -> (found: Option<PathKey>)
        ensures
            named(found) == first_suffix(self.keys(), path@),
            found matches Some(key) ==> self@.contains_key(key@),
    {
        let count = self.cache.size();
        let mut index: usize = 0;
        assert(self.keys().skip(0) =~= self.keys());
        while index < count
            invariant
                count == self.keys().len(),
                index <= count,
                first_suffix(self.keys(), path@) == first_suffix(
                    self.keys().skip(index as int),
                    path@,
                ),
            decreases count - index,
        {
            assert(self.keys().skip(index as int).drop_first() =~= self.keys().skip(index + 1));
            match self.cache.entry_at(index) {
                Some((key, _)) => {
                    if ends_with_path(path, key.0) {
                        return Some(key.clone());
                    }
                },
                None => {},
            }
            index += 1;
        }
        None
    }

    /// Stores what a fresh load of `key` gave in place of what was stored,
    /// and says whether it did: a failed load leaves the entry as it was.
    pub fn replace_with(&mut self, key: &PathKey, loaded: Result<T, L::Error>) -> (replaced: bool)
        ensures
            match loaded {
                Ok(value) => replaced && final(self)@ == old(self)@.insert(key@, value),
                Err(_) => !replaced && final(self)@ == old(self)@,
            },
            old(self)@.contains_key(key@) ==> final(self).keys() == old(self).keys(),
            final(self).load_count() == old(self).load_count(),
            final(self).loader_held() == old(self).loader_held(),
    {
        match loaded {
            Ok(value) => {
                let _ = self.insert(key.clone(), value);
                true
            },
            Err(_) => false,
        }
    }

    /// Whether the loader may fail to load the key with view `key`.
    pub open spec fn may_fail(&self, key: Seq<char>) -> bool {
        exists|error: L::Error| #[trigger] self.loads(key, Err(error))
    }

    /// Whether `after` is what the cache holds once the entry under the key
    /// with view `key` is replaced by what the loader gives for it.
    pub open spec fn replaced_in(&self, key: Seq<char>, after: Map<Seq<char>, T>) -> bool {
        exists|value: T| #[trigger] self.loads(key, Ok(value)) && after == self@.insert(key, value)
    }

    /// Loads `key` anew and stores the result in place of what was stored.
    /// Whether the load succeeds is the loader's affair: where it fails the
    /// entry stays as it was.
    pub fn reload(&mut self, key: &PathKey) -> (reloaded: bool)
        ensures
            reloaded ==> old(self).replaced_in(key@, final(self)@),
            !reloaded ==> old(self).may_fail(key@) && final(self)@ == old(self)@,
            old(self)@.contains_key(key@) ==> final(self).keys() == old(self).keys(),
            final(self).load_count() == counted(old(self).load_count(), false),
            final(self).loader_held() == old(self).loader_held(),
    {
        let loaded = self.loader.load_resource(key);
        self.loads = self.loads.saturating_add(1);
        let ghost outcome = loaded;
        let replaced = self.replace_with(key, loaded);
        proof {
            match outcome {
                Ok(value) => {
                    assert(old(self).loads(key@, Ok(value)));
                },
                Err(error) => {
                    assert(old(self).loads(key@, Err(error)));
                },
            }
        }
        replaced
    }
}

/// The memory that one cache stands for, and its entries one by one.
pub struct CacheUsage<K> {
    /// The memory of the handles' own values: the size of one texture
    /// handle for each entry.
    pub ram_usage: usize,
    /// The sum of the sizes of the resources, as the caller's measure gave
    /// them.
    pub estimated_size: usize,
    /// The entries, oldest key first.
    pub entries: Vec<EntryReport<K>>,
}

impl<K> CacheUsage<K> {
    /// `ram_usage` and `estimated_size` together, held at `usize::MAX`
    /// where the sum does not fit.
    pub fn total(&self) -> (sum: usize)
        ensures
            sum == capped(self.ram_usage + self.estimated_size),
    {
        self.ram_usage.saturating_add(self.estimated_size)
    }
}

/// What the store of assets holds, cache by cache.
pub struct ResourcesReport {
    pub textures: CacheUsage<PathKey>,
    pub audio_buffers: CacheUsage<PathKey>,
    pub bitmap_fonts: CacheUsage<BitmapFontKey>,
}

/// Whether `usage` reports the cache with the keys `keys` and the handles
/// `handles`, with values of `entry_size` bytes each, measured by `measure`.
pub open spec fn reports_cache<K: View, T, F: Fn(&Arc<T>) -> usize>(
    usage: CacheUsage<K>,
    keys: Seq<K::V>,
    handles: Seq<Arc<T>>,
    entry_size: nat,
    measure: F,
) -> bool {
    &&& usage.entries@.len() == keys.len()
    &&& forall|i: int|
        0 <= i < usage.entries@.len() ==> {
            &&& (#[trigger] usage.entries@[i]).key@ == keys[i]
            &&& call_ensures(measure, (&handles[i],), usage.entries@[i].size)
        }
    &&& usage.ram_usage == capped((entry_size * keys.len()) as int)
    &&& usage.estimated_size == capped(total_size(sizes_of(usage.entries@)))
}

/// What a reload did.
pub struct Reload {
    /// The key of the entry that was replaced by a fresh load.
    pub reloaded: Option<PathKey>,
    /// The key of the texture whose load failed.
    pub failed_texture: Option<PathKey>,
    /// The key of the audio buffer whose load failed.
    pub failed_audio: Option<PathKey>,
}

impl Reload {
    /// Whether nothing was replaced and nothing failed.
    pub open spec fn is_nothing(self) -> bool {
        self.reloaded is None && self.failed_texture is None && self.failed_audio is None
    }
}

/// The subscription to the changes of the files under watch.
pub struct FileChanges {
    receiver: Receiver<DebouncedEvent>,
}

impl FileChanges {
    /// The receiving end of the channel on which the changes arrive.
    pub closed spec fn receiver(&self) -> Receiver<DebouncedEvent> {
        self.receiver
    }

    /// The changes that arrive on `receiver`.
    pub fn new(receiver: Receiver<DebouncedEvent>) -> (changes: FileChanges)
        ensures
            changes.receiver() == receiver,
    {
        FileChanges { receiver }
    }

    /// Takes at most one pending event, without waiting. `None` where
    /// nothing is pending.
    pub fn next(&self) -> (event: Option<FileEvent>) {
        match next_event(&self.receiver) {
            Some(event) => Some(read_event(event)),
            None => None,
        }
    }

    /// Takes at most one pending event, without waiting, and hands on the
    /// path that it reports as written. `None` where nothing is pending and
    /// for an event of any other kind.
    pub fn next_written(&self) -> (path: Option<String>) {
        match self.next() {
            Some(event) => written(event),
            None => None,
        }
    }
}

/// The engine's loadable assets: one cache for each kind of resource, each
/// with its loader, and the subscription to the changes of the files that
/// they were loaded from.
pub struct Resources<T, F, A, TL, FL, AL> where
    TL: Loader<PathKey, T>,
    FL: Loader<BitmapFontKey, F>,
    AL: Loader<PathKey, A>,
 {
    pub inspect_window: bool,
    pub texture_cache: ResourceCache<PathKey, T, TL>,
    pub bitmap_font_cache: ResourceCache<BitmapFontKey, F, FL>,
    pub audio_buffer_cache: ResourceCache<PathKey, A, AL>,
    pub file_changes: FileChanges,
}

impl<T, F, A, TL, FL, AL> Resources<T, F, A, TL, FL, AL> where
    TL: Loader<PathKey, T>,
    FL: Loader<BitmapFontKey, F>,
    AL: Loader<PathKey, A>,
 {
    /// Whether `after` has the loaders, the subscription and all else of
    /// `self` but what the texture and the audio cache hold and how often
    /// they have asked their loaders.
    pub open spec fn same_but_caches(self, after: Self) -> bool {
        &&& after.inspect_window == self.inspect_window
        &&& after.file_changes == self.file_changes
        &&& after.bitmap_font_cache == self.bitmap_font_cache
        &&& after.texture_cache.loader_held() == self.texture_cache.loader_held()
        &&& after.audio_buffer_cache.loader_held() == self.audio_buffer_cache.loader_held()
    }

    /// Whether `after` holds in its caches what `self` holds in its own, and
    /// no loader was asked between them.
    pub open spec fn same_caches(self, after: Self) -> bool {
        &&& self.same_but_caches(after)
        &&& after.texture_cache.keys() == self.texture_cache.keys()
        &&& after.texture_cache@ == self.texture_cache@
        &&& after.texture_cache.load_count() == self.texture_cache.load_count()
        &&& after.audio_buffer_cache.keys() == self.audio_buffer_cache.keys()
        &&& after.audio_buffer_cache@ == self.audio_buffer_cache@
        &&& after.audio_buffer_cache.load_count() == self.audio_buffer_cache.load_count()
    }

    /// Whether `report` and the caches of `after` are a possible outcome of
    /// reloading, in the caches of `self`, what the changed file at `path`
    /// belongs to. The texture cache comes first: its first entry that the
    /// path belongs to is loaded anew and replaced by what its loader gives.
    /// Only where there is no such texture, or its load fails, the audio
    /// cache has its turn in the same way. A failed load is reported and
    /// leaves its entry as it was. So at most one entry of one cache is
    /// replaced, no key comes or goes, and a loader is asked once for the
    /// entry that has its turn and not at all otherwise: where a texture is
    /// reloaded, the audio loader is not asked.
    pub open spec fn reloaded_by(self, path: Seq<char>, report: Reload, after: Self) -> bool {
        let texture = first_suffix(self.texture_cache.keys(), path);
        let audio = first_suffix(self.audio_buffer_cache.keys(), path);
        &&& self.same_but_caches(after)
        &&& after.texture_cache.keys() == self.texture_cache.keys()
        &&& after.audio_buffer_cache.keys() == self.audio_buffer_cache.keys()
        &&& after.texture_cache.load_count() == counted(
            self.texture_cache.load_count(),
            texture is None,
        )
        &&& if texture is Some && report.failed_texture is None {
            &&& named(report.reloaded) == texture
            &&& report.failed_audio is None
            &&& self.texture_cache.replaced_in(texture->0, after.texture_cache@)
            &&& after.audio_buffer_cache@ == self.audio_buffer_cache@
            &&& after.audio_buffer_cache.load_count() == self.audio_buffer_cache.load_count()
        } else {
            &&& named(report.failed_texture) == texture
            &&& texture is Some ==> self.texture_cache.may_fail(texture->0)
            &&& after.texture_cache@ == self.texture_cache@
            &&& after.audio_buffer_cache.load_count() == counted(
                self.audio_buffer_cache.load_count(),
                audio is None,
            )
            &&& if audio is Some && report.failed_audio is None {
                &&& named(report.reloaded) == audio
                &&& self.audio_buffer_cache.replaced_in(audio->0, after.audio_buffer_cache@)
            } else {
                &&& named(report.failed_audio) == audio
                &&& audio is Some ==> self.audio_buffer_cache.may_fail(audio->0)
                &&& report.reloaded is None
                &&& after.audio_buffer_cache@ == self.audio_buffer_cache@
            }
        }
    }

    /// Whether `report` and the caches of `after` are a possible outcome of
    /// a sync of `self` at which `event` was pending, or nothing where
    /// `event` is `None`: a write that has come to rest reloads what the
    /// written file belongs to, and nothing else does anything.
    pub open spec fn synced_by(self, event: Option<FileEvent>, report: Reload, after: Self) -> bool {
        match event {
            Some(FileEvent::Write(path)) => self.reloaded_by(path@, report, after),
            _ => report.is_nothing() && self.same_caches(after),
        }
    }

    /// A store with empty caches that listens on `receiver`.
    pub fn new(
        texture_loader: TL,
        font_loader: FL,
        audio_loader: AL,
        receiver: Receiver<DebouncedEvent>,
    ) -> (resources: Self)
        ensures
            !resources.inspect_window,
            resources.file_changes.receiver() == receiver,
            resources.texture_cache@ == Map::<Seq<char>, T>::empty(),
            resources.texture_cache.keys() == Seq::<Seq<char>>::empty(),
            resources.texture_cache.load_count() == 0,
            resources.texture_cache.loader_held() == texture_loader,
            resources.bitmap_font_cache@ == Map::<(Seq<char>, (u32, u32)), F>::empty(),
            resources.bitmap_font_cache.keys() == Seq::<(Seq<char>, (u32, u32))>::empty(),
            resources.bitmap_font_cache.load_count() == 0,
            resources.bitmap_font_cache.loader_held() == font_loader,
            resources.audio_buffer_cache@ == Map::<Seq<char>, A>::empty(),
            resources.audio_buffer_cache.keys() == Seq::<Seq<char>>::empty(),
            resources.audio_buffer_cache.load_count() == 0,
            resources.audio_buffer_cache.loader_held() == audio_loader,
    {
        Resources {
            inspect_window: false,
            texture_cache: ResourceCache::new(texture_loader),
            bitmap_font_cache: ResourceCache::new(font_loader),
            audio_buffer_cache: ResourceCache::new(audio_loader),
            file_changes: FileChanges::new(receiver),
        }
    }

    /// What the three caches hold and the memory that they stand for. The
    /// three measures give the size of the resource behind a handle. The
    /// handles themselves are counted at the size of a texture handle in
    /// each of the caches.
    pub fn inspect<MT, MA, MF>(&self, texture_size: MT, audio_size: MA, font_size: MF) -> (report:
        ResourcesReport) where
        MT: Fn(&Arc<T>) -> usize,
        MA: Fn(&Arc<A>) -> usize,
        MF: Fn(&Arc<F>) -> usize,

        requires
            forall|handle: &Arc<T>| call_requires(texture_size, (handle,)),
            forall|handle: &Arc<A>| call_requires(audio_size, (handle,)),
            forall|handle: &Arc<F>| call_requires(font_size, (handle,)),
        ensures
            reports_cache(
                report.textures,
                self.texture_cache.keys(),
                self.texture_cache.handles(),
                vstd::layout::size_of::<T>(),
                texture_size,
            ),
            reports_cache(
                report.audio_buffers,
                self.audio_buffer_cache.keys(),
                self.audio_buffer_cache.handles(),
                vstd::layout::size_of::<T>(),
                audio_size,
            ),
            reports_cache(
                report.bitmap_fonts,
                self.bitmap_font_cache.keys(),
                self.bitmap_font_cache.handles(),
                vstd::layout::size_of::<T>(),
                font_size,
            ),
    {
        let handle_size = core::mem::size_of::<T>();
        ResourcesReport {
            textures: self.texture_cache.usage(handle_size, texture_size),
            audio_buffers: self.audio_buffer_cache.usage(handle_size, audio_size),
            bitmap_fonts: self.bitmap_font_cache.usage(handle_size, font_size),
        }
    }

    /// Reloads what the changed file at `path` belongs to: the first texture
    /// whose key `path` ends with or, where there is none or its load fails,
    /// the first such audio buffer. Reports the key of the entry that was
    /// replaced and the keys of the entries whose load failed, which stay as
    /// they were.
    pub fn reload_changed(&mut self, path: &str) -> (report: Reload)
        ensures
            old(self).reloaded_by(path@, report, *final(self)),
    {
        let mut failed_texture: Option<PathKey> = None;
        if let Some(key) = self.texture_cache.key_for_path(path) {
            if self.texture_cache.reload(&key) {
                return Reload { reloaded: Some(key), failed_texture: None, failed_audio: None };
            }
            failed_texture = Some(key);
        }
        if let Some(key) = self.audio_buffer_cache.key_for_path(path) {
            if self.audio_buffer_cache.reload(&key) {
                return Reload { reloaded: Some(key), failed_texture, failed_audio: None };
            }
            return Reload { reloaded: None, failed_texture, failed_audio: Some(key) };
        }
        Reload { reloaded: None, failed_texture, failed_audio: None }
    }

    /// Takes in one event of the files under watch: a write that has come
    /// to rest reloads what the written file belongs to, and an event of any
    /// other kind does nothing. Reports what was replaced and what could not
    /// be loaded.
    pub fn apply_event(&mut self, event: FileEvent) -> (report: Reload)
        ensures
            old(self).synced_by(Some(event), report, *final(self)),
    {
        match written(event) {
            Some(path) => self.reload_changed(path.as_str()),
            None => Reload { reloaded: None, failed_texture: None, failed_audio: None },
        }
    }

    /// Takes at most one pending file event and, where it reports a write,
    /// reloads what the written file belongs to. Reports what was replaced
    /// and what could not be loaded. Which event is pending, if any, is the
    /// watcher's affair; what follows from it is what `apply_event` does.
    pub fn sync_report(&mut self) -> (report: Reload)
        ensures
            exists|event: Option<FileEvent>| old(self).synced_by(event, report, *final(self)),
    {
        match self.file_changes.next() {
            Some(event) => {
                let report = self.apply_event(event);
                assert(old(self).synced_by(Some(event), report, *self));
                report
            },
            None => {
                let report = Reload { reloaded: None, failed_texture: None, failed_audio: None };
                assert(old(self).synced_by(None, report, *self));
                report
            },
        }
    }

    /// Takes at most one pending file event and, where it reports a write,
    /// reloads what the written file belongs to. Hands back the key of the
    /// entry that was replaced, for the active scene to hear of it. A load
    /// that fails leaves its entry as it was and is passed over.
    pub fn sync_resources(&mut self) -> (reloaded: Option<PathKey>)
        ensures
            exists|event: Option<FileEvent>, report: Reload|
                report.reloaded == reloaded && #[trigger] old(self).synced_by(
                    event,
                    report,
                    *final(self),
                ),
    {
        let report = self.sync_report();
        report.reloaded
    }
}

/// A reload touches one cache at most, and in it one entry: if what the
/// texture cache holds has changed, the audio cache holds what it held, and
/// no cache has gained or lost a key. What is reported as replaced or as
/// failed is the first entry of its cache that the path belongs to, and
/// where the path belongs to no entry nothing happens and no loader is
/// asked.
pub proof fn lemma_reload_touches_one_cache<T, F, A, TL, FL, AL>(
    before: Resources<T, F, A, TL, FL, AL>,
    path: Seq<char>,
    report: Reload,
    after: Resources<T, F, A, TL, FL, AL>,
) where TL: Loader<PathKey, T>, FL: Loader<BitmapFontKey, F>, AL: Loader<PathKey, A>
    requires
        before.reloaded_by(path, report, after),
    ensures
        after.texture_cache@ == before.texture_cache@ || after.audio_buffer_cache@
            == before.audio_buffer_cache@,
        after.texture_cache.keys() == before.texture_cache.keys(),
        after.audio_buffer_cache.keys() == before.audio_buffer_cache.keys(),
        after.bitmap_font_cache == before.bitmap_font_cache,
        report.reloaded is Some ==> first_suffix(before.texture_cache.keys(), path) == named(
            report.reloaded,
        ) || first_suffix(before.audio_buffer_cache.keys(), path) == named(report.reloaded),
        report.failed_texture is Some ==> first_suffix(before.texture_cache.keys(), path) == named(
            report.failed_texture,
        ),
        report.failed_audio is Some ==> first_suffix(before.audio_buffer_cache.keys(), path)
            == named(report.failed_audio),
        first_suffix(before.texture_cache.keys(), path) is None && first_suffix(
            before.audio_buffer_cache.keys(),
            path,
        ) is None ==> report.is_nothing() && before.same_caches(after),
{
}

/// The texture cache comes first: a changed file that belongs to a texture
/// reloads that texture and nothing else, whatever the audio cache holds,
/// unless the load of the texture fails. The texture loader is asked once
/// and, where it succeeds, the audio loader is not asked: the audio cache
/// has its turn only where no texture is reloaded.
pub proof fn lemma_reload_prefers_textures<T, F, A, TL, FL, AL>(
    before: Resources<T, F, A, TL, FL, AL>,
    path: Seq<char>,
    report: Reload,
    after: Resources<T, F, A, TL, FL, AL>,
) where TL: Loader<PathKey, T>, FL: Loader<BitmapFontKey, F>, AL: Loader<PathKey, A>
    requires
        before.reloaded_by(path, report, after),
        first_suffix(before.texture_cache.keys(), path) is Some,
    ensures
        after.texture_cache.load_count() == counted(before.texture_cache.load_count(), false),
        report.failed_texture is None ==> {
            &&& named(report.reloaded) == first_suffix(before.texture_cache.keys(), path)
            &&& after.audio_buffer_cache@ == before.audio_buffer_cache@
            &&& after.audio_buffer_cache.load_count() == before.audio_buffer_cache.load_count()
        },
        !before.texture_cache.may_fail(first_suffix(before.texture_cache.keys(), path)->0)
            ==> report.failed_texture is None,
        after.audio_buffer_cache@ != before.audio_buffer_cache@ ==> report.failed_texture is Some,
        after.audio_buffer_cache.load_count() != before.audio_buffer_cache.load_count()
            ==> report.failed_texture is Some,
{
}

/// Only a write that has come to rest makes the store reload: a sync at
/// which nothing was pending, or an event of another kind, leaves the
/// caches as they were, asks no loader and reports nothing. A write whose
/// path belongs to no entry of the texture or the audio cache does the
/// same.
pub proof fn lemma_sync_without_write<T, F, A, TL, FL, AL>(
    before: Resources<T, F, A, TL, FL, AL>,
    event: Option<FileEvent>,
    report: Reload,
    after: Resources<T, F, A, TL, FL, AL>,
) where TL: Loader<PathKey, T>, FL: Loader<BitmapFontKey, F>, AL: Loader<PathKey, A>
    requires
        before.synced_by(event, report, after),
        match event {
            Some(FileEvent::Write(path)) => first_suffix(before.texture_cache.keys(), path@)
                is None && first_suffix(before.audio_buffer_cache.keys(), path@) is None,
            _ => true,
        },
    ensures
        report.is_nothing(),
        before.same_caches(after),
{
}

/// A sync at which a write is pending whose path belongs to a texture and to
/// an audio buffer reloads the texture alone, where its load succeeds: the
/// audio cache holds what it held and its loader is not asked. It takes a
/// further sync to reload the audio buffer.
pub proof fn lemma_sync_prefers_textures<T, F, A, TL, FL, AL>(
    before: Resources<T, F, A, TL, FL, AL>,
    path: String,
    report: Reload,
    after: Resources<T, F, A, TL, FL, AL>,
) where TL: Loader<PathKey, T>, FL: Loader<BitmapFontKey, F>, AL: Loader<PathKey, A>
    requires
        before.synced_by(Some(FileEvent::Write(path)), report, after),
        first_suffix(before.texture_cache.keys(), path@) is Some,
        report.failed_texture is None,
    ensures
        named(report.reloaded) == first_suffix(before.texture_cache.keys(), path@),
        after.texture_cache.load_count() == counted(before.texture_cache.load_count(), false),
        after.audio_buffer_cache@ == before.audio_buffer_cache@,
        after.audio_buffer_cache.load_count() == before.audio_buffer_cache.load_count(),
{
}

} // verus!
