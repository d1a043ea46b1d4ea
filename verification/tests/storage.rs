use trekanten::resource::CachedStorage;
use trekanten::resource::Handle;
use trekanten::resource::Storage;

#[test]
fn storage_starts_empty() {
    let s: Storage<u32> = Storage::new();
    assert_eq!(s.len(), 0);
    assert!(s.get(&Handle::new(0)).is_none());
}

#[test]
fn storage_add_then_get() {
    let mut s: Storage<u32> = Storage::new();
    let h1 = s.add(17);
    let h2 = s.add(42);
    assert_eq!(s.len(), 2);
    assert_eq!(s.get(&h1), Some(&17));
    assert_eq!(s.get(&h2), Some(&42));
}

#[test]
fn storage_get_unissued_handle() {
    let mut s: Storage<u32> = Storage::new();
    let _ = s.add(1);
    assert!(s.get(&Handle::new(5)).is_none());
}

#[test]
fn storage_replace_keeps_other_slots() {
    let mut s: Storage<u32> = Storage::new();
    let h1 = s.add(10);
    let h2 = s.add(20);
    let h3 = s.add(30);
    let previous = s.replace(&h2, 21);
    assert_eq!(previous, Some(20));
    assert_eq!(s.get(&h1), Some(&10));
    assert_eq!(s.get(&h2), Some(&21));
    assert_eq!(s.get(&h3), Some(&30));
}

#[test]
fn storage_replace_last_slot() {
    let mut s: Storage<u32> = Storage::new();
    let _ = s.add(10);
    let h2 = s.add(20);
    let previous = s.replace(&h2, 99);
    assert_eq!(previous, Some(20));
    assert_eq!(s.get(&h2), Some(&99));
}

#[test]
fn storage_replace_unissued_handle() {
    let mut s: Storage<u32> = Storage::new();
    let h = s.add(10);
    let previous = s.replace(&Handle::new(7), 99);
    assert!(previous.is_none());
    assert_eq!(s.get(&h), Some(&10));
}

#[test]
fn storage_handle_is_copied() {
    let mut s: Storage<u32> = Storage::new();
    let h = s.add(5);
    let h_copy = h;
    assert_eq!(s.get(&h), Some(&5));
    assert_eq!(s.get(&h_copy), Some(&5));
}

#[test]
fn cached_storage_misses_before_add() {
    let c: CachedStorage<u32> = CachedStorage::new();
    assert!(c.cached(&String::from("a.png")).is_none());
}

#[test]
fn cached_storage_hits_after_add() {
    let mut c: CachedStorage<u32> = CachedStorage::new();
    let h = c.add(String::from("a.png"), 7);
    let hit = c.cached(&String::from("a.png")).expect("expected a cache hit");
    assert_eq!(hit.id, h.id);
    assert_eq!(c.get(&hit), Some(&7));
}

#[test]
fn cached_storage_distinguishes_keys() {
    let mut c: CachedStorage<u32> = CachedStorage::new();
    let ha = c.add(String::from("a.png"), 1);
    let hb = c.add(String::from("b.png"), 2);
    assert_eq!(c.cached(&String::from("a.png")).map(|h| h.id), Some(ha.id));
    assert_eq!(c.cached(&String::from("b.png")).map(|h| h.id), Some(hb.id));
    assert!(c.cached(&String::from("c.png")).is_none());
    assert_eq!(c.get(&ha), Some(&1));
    assert_eq!(c.get(&hb), Some(&2));
}
