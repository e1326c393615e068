use urchin::domain::effects::Effect;
use urchin::domain::identity::resolve;
use urchin::domain::models::{Platform, Proposal};
use urchin::infra::memory::MemoryStore;

fn pending(target: &str, reason: &str) -> Proposal {
    Proposal {
        target: resolve(target, Platform::Discord),
        action: "ban".to_string(),
        reason: reason.to_string(),
        author: "Mod".to_string(),
        origin: Platform::Discord,
        channel: "42".to_string(),
        approvers: Vec::new(),
        timestamp: 1000,
    }
}

#[test]
fn a_new_store_is_empty() {
    let store = MemoryStore::new();
    assert_eq!(store.len(), 0);
    assert_eq!(store.get("BadGuy"), None);
    assert!(store.list().is_empty());
}

#[test]
fn save_then_get_returns_the_proposal() {
    let mut store = MemoryStore::new();
    store.save(pending("BadGuy", "spam"));
    assert_eq!(store.get("BadGuy"), Some(pending("BadGuy", "spam")));
    assert_eq!(store.get("Other"), None);
}

#[test]
fn save_upserts_by_key() {
    let mut store = MemoryStore::new();
    store.save(pending("BadGuy", "spam"));
    store.save(pending("Other", "noise"));
    store.save(pending("BadGuy", "worse"));
    assert_eq!(store.len(), 2);
    assert_eq!(store.get("BadGuy"), Some(pending("BadGuy", "worse")));
    assert_eq!(store.list(), vec![pending("BadGuy", "worse"), pending("Other", "noise")]);
}

#[test]
fn remove_is_idempotent() {
    let mut store = MemoryStore::new();
    store.save(pending("BadGuy", "spam"));
    store.remove("Nobody");
    assert_eq!(store.len(), 1);
    store.remove("BadGuy");
    assert_eq!(store.len(), 0);
    store.remove("BadGuy");
    assert_eq!(store.len(), 0);
}

#[test]
fn apply_carries_out_store_effects_in_order() {
    let mut store = MemoryStore::new();
    let effects = vec![
        Effect::Save(pending("A", "one")),
        Effect::Notify(pending("A", "one")),
        Effect::Save(pending("B", "two")),
        Effect::Discard(pending("A", "one"), "Expired".to_string()),
        Effect::Remove("A".to_string()),
        Effect::Execute(pending("B", "two"), "Eve".to_string()),
    ];
    store.apply(&effects);
    assert_eq!(store.list(), vec![pending("B", "two")]);
}
