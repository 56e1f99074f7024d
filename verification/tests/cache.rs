use leek::cache::{estimated_size, Cache, EntryReport, HashCache};
use leek::keys::{BitmapFontKey, PathKey};
use std::sync::Arc;

fn key(path: &'static str) -> PathKey {
    PathKey::new(path)
}

#[test]
fn insert_then_get_returns_the_value() {
    let mut cache: HashCache<PathKey, u32> = HashCache::new();
    assert!(cache.insert(key("a.png"), 7).is_none());
    let first = cache.get(&key("a.png")).unwrap();
    assert_eq!(*first, 7);
    assert_eq!(Arc::strong_count(&first), 2);
    let second = cache.get(&key("a.png")).unwrap();
    assert!(Arc::ptr_eq(&first, &second));
    assert_eq!(Arc::strong_count(&first), 3);
    assert!(cache.get(&key("b.png")).is_none());
}

#[test]
fn second_insert_hands_back_the_first_value() {
    let mut cache: HashCache<PathKey, &'static str> = HashCache::new();
    assert!(cache.insert(key("a.png"), "one").is_none());
    let held = cache.get(&key("a.png")).unwrap();
    let previous = cache.insert(key("a.png"), "two").unwrap();
    assert_eq!(*previous, "one");
    assert!(Arc::ptr_eq(&previous, &held));
    assert_eq!(*cache.get(&key("a.png")).unwrap(), "two");
    assert_eq!(cache.size(), 1);
    // The handle taken before the overwrite still reads the old value.
    assert_eq!(*held, "one");
}

#[test]
fn remove_hands_back_the_entry_and_leaves_handles_valid() {
    let mut cache: HashCache<PathKey, String> = HashCache::new();
    cache.insert(key("a.png"), "one".to_string());
    cache.insert(key("b.png"), "two".to_string());
    let held = cache.get(&key("a.png")).unwrap();
    let removed = cache.remove(&key("a.png")).unwrap();
    assert!(Arc::ptr_eq(&held, &removed));
    assert!(cache.get(&key("a.png")).is_none());
    assert!(cache.remove(&key("a.png")).is_none());
    assert_eq!(cache.size(), 1);
    assert_eq!(*held, "one");
    assert_eq!(*cache.get(&key("b.png")).unwrap(), "two");
}

#[test]
fn clear_removes_entries_that_are_still_held() {
    let mut cache: HashCache<PathKey, u8> = HashCache::new();
    cache.insert(key("a.png"), 1);
    cache.insert(key("b.png"), 2);
    let held = cache.get(&key("a.png")).unwrap();
    cache.clear();
    assert_eq!(cache.size(), 0);
    assert!(cache.get(&key("a.png")).is_none());
    assert_eq!(*held, 1);
    assert_eq!(Arc::strong_count(&held), 1);
}

#[test]
fn drop_unused_removes_what_nobody_holds() {
    let mut cache: HashCache<PathKey, u8> = HashCache::new();
    cache.insert(key("idle.png"), 1);
    cache.drop_unused();
    assert_eq!(cache.size(), 0);
    assert!(cache.get(&key("idle.png")).is_none());
}

#[test]
fn drop_unused_keeps_what_somebody_holds() {
    let mut cache: HashCache<PathKey, u8> = HashCache::new();
    cache.insert(key("idle.png"), 1);
    cache.insert(key("held.png"), 2);
    cache.insert(key("idle2.png"), 3);
    let held = cache.get(&key("held.png")).unwrap();
    cache.drop_unused();
    assert_eq!(cache.size(), 1);
    assert!(cache.get(&key("idle.png")).is_none());
    assert!(cache.get(&key("idle2.png")).is_none());
    assert!(Arc::ptr_eq(&held, &cache.get(&key("held.png")).unwrap()));
    drop(held);
    cache.drop_unused();
    assert_eq!(cache.size(), 0);
}

#[test]
fn retain_shared_goes_by_the_counts_given() {
    let mut cache: HashCache<PathKey, u8> = HashCache::new();
    cache.insert(key("a"), 1);
    cache.insert(key("b"), 2);
    cache.insert(key("c"), 3);
    cache.insert(key("d"), 4);
    assert_eq!(cache.strong_counts(), vec![1, 1, 1, 1]);
    cache.retain_shared(&vec![2, 1, 0, 5]);
    assert_eq!(cache.size(), 2);
    assert_eq!(cache.entry_at(0).unwrap().0, &key("a"));
    assert_eq!(cache.entry_at(1).unwrap().0, &key("d"));
    assert!(cache.entry_at(2).is_none());
    assert_eq!(*cache.get(&key("d")).unwrap(), 4);
    assert!(cache.get(&key("b")).is_none());
    assert!(cache.get(&key("c")).is_none());
}

#[test]
fn entries_keep_the_order_in_which_keys_came() {
    let mut cache: HashCache<PathKey, u8> = HashCache::default();
    cache.insert(key("x"), 1);
    cache.insert(key("y"), 2);
    cache.insert(key("x"), 3);
    let (first_key, first_value) = cache.entry_at(0).unwrap();
    assert_eq!(first_key.0, "x");
    assert_eq!(**first_value, 3);
    let (second_key, second_value) = cache.entry_at(1).unwrap();
    assert_eq!(second_key.0, "y");
    assert_eq!(**second_value, 2);
    assert!(cache.entry_at(2).is_none());
}

#[test]
fn inspect_reports_each_entry() {
    let mut cache: HashCache<PathKey, Vec<u8>> = HashCache::new();
    cache.insert(key("small"), vec![0; 3]);
    cache.insert(key("large"), vec![0; 300]);
    let held = cache.get(&key("large")).unwrap();
    let weak = Arc::downgrade(&held);
    let report = cache.inspect(|handle: &Arc<Vec<u8>>| handle.len());
    assert_eq!(report.len(), 2);
    assert_eq!(report[0].key, key("small"));
    assert_eq!(report[0].size, 3);
    assert_eq!(report[0].strong_refs, 1);
    assert_eq!(report[0].weak_refs, 0);
    assert_eq!(report[1].key, key("large"));
    assert_eq!(report[1].size, 300);
    assert_eq!(report[1].strong_refs, 2);
    assert_eq!(report[1].weak_refs, 1);
    assert_eq!(cache.weak_counts(), vec![0, 1]);
    assert_eq!(estimated_size(&report), 303);
    drop(weak);
}

#[test]
fn estimated_size_stops_at_the_largest_number() {
    let rows = vec![
        EntryReport { key: 1u8, size: usize::MAX - 1, strong_refs: 1, weak_refs: 0 },
        EntryReport { key: 2u8, size: 5, strong_refs: 1, weak_refs: 0 },
    ];
    assert_eq!(estimated_size(&rows), usize::MAX);
    let none: Vec<EntryReport<u8>> = Vec::new();
    assert_eq!(estimated_size(&none), 0);
}

#[test]
fn font_keys_compare_by_path_and_size() {
    let mut cache: HashCache<BitmapFontKey, u8> = HashCache::new();
    cache.insert(BitmapFontKey::new("font.png", (8, 16)), 1);
    cache.insert(BitmapFontKey::new("font.png", (8, 8)), 2);
    cache.insert(BitmapFontKey::new("other.png", (8, 8)), 3);
    assert_eq!(cache.size(), 3);
    assert_eq!(*cache.get(&BitmapFontKey::from(("font.png", (8, 8)))).unwrap(), 2);
    assert_eq!(*cache.get(&BitmapFontKey::from(("font.png", (8, 16)))).unwrap(), 1);
    assert!(cache.get(&BitmapFontKey::from(("font.png", (16, 8)))).is_none());
}

const TEX_HERO: PathKey = PathKey("assets/textures/hero.png");

#[test]
fn keys_can_be_constants() {
    let mut cache: HashCache<PathKey, u8> = HashCache::new();
    cache.insert(TEX_HERO, 1);
    assert_eq!(*cache.get(&PathKey::new("assets/textures/hero.png")).unwrap(), 1);
    assert_eq!(*cache.get(&TEX_HERO).unwrap(), 1);
}

#[test]
fn keys_are_made_from_text() {
    let made = PathKey::from("assets/textures/a.png");
    assert_eq!(made, PathKey("assets/textures/a.png"));
    assert_eq!(made.clone(), made);
    let font = BitmapFontKey::from(("f.png", (4, 6)));
    assert_eq!(font, BitmapFontKey("f.png".to_string(), (4, 6)));
    assert_eq!(font.clone(), font);
}
