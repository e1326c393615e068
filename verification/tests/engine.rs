use urchin::config::AppConfig;
use urchin::domain::effects::Effect;
use urchin::domain::engine::{Core, CoreError, Needs};
use urchin::domain::models::{Event, Identity, Platform, Proposal};
use urchin::infra::memory::MemoryStore;

fn engine_with(required: usize, expiry: u64) -> Core {
    Core::new(AppConfig::new(required, "!".to_string(), expiry))
}

fn propose(target: &str, author: &str) -> Event {
    Event::Propose {
        action: "ban".to_string(),
        target: target.to_string(),
        author: author.to_string(),
        origin: Platform::Discord,
        channel: "42".to_string(),
        reason: "spam".to_string(),
    }
}

fn approve(target: &str, approver: &str) -> Event {
    Event::Approve { target: target.to_string(), approver: approver.to_string() }
}

fn cancel(target: &str, author: &str) -> Event {
    Event::Cancel { target: target.to_string(), author: author.to_string() }
}

fn bad_guy(approvers: &[&str], timestamp: u64) -> Proposal {
    Proposal {
        target: Identity {
            raw: "BadGuy".to_string(),
            discord: Some("BadGuy".to_string()),
            stoat: None,
        },
        action: "ban".to_string(),
        reason: "spam".to_string(),
        author: "Mod".to_string(),
        origin: Platform::Discord,
        channel: "42".to_string(),
        approvers: approvers.iter().map(|a| a.to_string()).collect(),
        timestamp,
    }
}

fn executes(effects: &[Effect]) -> usize {
    effects.iter().filter(|e| matches!(e, Effect::Execute(_, _))).count()
}

#[test]
fn new_keeps_the_configuration() {
    let engine = engine_with(2, 60);
    assert_eq!(engine.config, AppConfig::new(2, "!".to_string(), 60));
}

#[test]
fn propose_saves_then_notifies() {
    let engine = engine_with(2, 60);
    let mut store = MemoryStore::new();
    let effects = engine.run(&mut store, propose("BadGuy", "Mod"), 1000).unwrap();
    assert_eq!(
        effects,
        vec![Effect::Save(bad_guy(&[], 1000)), Effect::Notify(bad_guy(&[], 1000))]
    );
    assert_eq!(store.get("BadGuy"), Some(bad_guy(&[], 1000)));
}

#[test]
fn a_second_proposal_on_the_same_target_replaces_the_first() {
    let engine = engine_with(2, 60);
    let mut store = MemoryStore::new();
    engine.run(&mut store, propose("BadGuy", "Mod"), 1000).unwrap();
    engine.run(&mut store, approve("BadGuy", "Alice"), 1001).unwrap();
    engine.run(&mut store, propose("BadGuy", "Mod"), 1002).unwrap();
    assert_eq!(store.len(), 1);
    assert_eq!(store.get("BadGuy"), Some(bad_guy(&[], 1002)));
}

#[test]
fn the_author_cannot_approve() {
    let engine = engine_with(2, 60);
    let mut store = MemoryStore::new();
    engine.run(&mut store, propose("BadGuy", "Mod"), 1000).unwrap();
    let res = engine.run(&mut store, approve("BadGuy", "Mod"), 1001);
    assert_eq!(res, Err(CoreError::SelfApproval));
    assert_eq!(store.get("BadGuy"), Some(bad_guy(&[], 1000)));
    assert_eq!(CoreError::SelfApproval.message(), "Self-approval rejected.");
}

#[test]
fn the_author_cannot_approve_even_when_no_approval_is_required() {
    let engine = engine_with(0, 60);
    let mut store = MemoryStore::new();
    engine.run(&mut store, propose("BadGuy", "Mod"), 1000).unwrap();
    let res = engine.run(&mut store, approve("BadGuy", "Mod"), 1001);
    assert_eq!(res, Err(CoreError::SelfApproval));
    assert_eq!(store.len(), 1);
}

#[test]
fn repeated_approvals_by_one_person_count_once() {
    let engine = engine_with(2, 60);
    let mut store = MemoryStore::new();
    engine.run(&mut store, propose("BadGuy", "Mod"), 1000).unwrap();
    for round in 0..5 {
        let effects = engine.run(&mut store, approve("BadGuy", "Alice"), 1001 + round).unwrap();
        assert_eq!(effects, vec![Effect::Save(bad_guy(&["Alice"], 1000))]);
        assert_eq!(store.get("BadGuy").unwrap().approvers.len(), 1);
    }
}

#[test]
fn two_distinct_approvals_execute_once_and_remove() {
    let engine = engine_with(2, 60);
    let mut store = MemoryStore::new();
    engine.run(&mut store, propose("BadGuy", "Mod"), 1000).unwrap();
    let first = engine.run(&mut store, approve("BadGuy", "Alice"), 1001).unwrap();
    assert_eq!(executes(&first), 0);
    let second = engine.run(&mut store, approve("BadGuy", "Bob"), 1002).unwrap();
    assert_eq!(
        second,
        vec![
            Effect::Execute(bad_guy(&["Alice", "Bob"], 1000), "Bob".to_string()),
            Effect::Remove("BadGuy".to_string()),
        ]
    );
    assert_eq!(executes(&second), 1);
    assert_eq!(store.get("BadGuy"), None);
    let third = engine.run(&mut store, approve("BadGuy", "Carol"), 1003).unwrap();
    assert!(third.is_empty());
    assert_eq!(store.len(), 0);
}

#[test]
fn a_quorum_of_one_executes_on_the_first_approval() {
    let engine = engine_with(1, 60);
    let mut store = MemoryStore::new();
    engine.run(&mut store, propose("BadGuy", "Mod"), 1000).unwrap();
    let effects = engine.run(&mut store, approve("BadGuy", "Alice"), 1001).unwrap();
    assert_eq!(executes(&effects), 1);
    assert_eq!(store.len(), 0);
}

#[test]
fn more_approvers_than_required_still_execute() {
    let engine = engine_with(2, 60);
    let found = Some(bad_guy(&["Alice", "Bob", "Carol"], 1000));
    let effects = engine.approve("BadGuy", found, "Bob").unwrap();
    assert_eq!(
        effects,
        vec![
            Effect::Execute(bad_guy(&["Alice", "Bob", "Carol"], 1000), "Bob".to_string()),
            Effect::Remove("BadGuy".to_string()),
        ]
    );
}

#[test]
fn approving_a_missing_target_does_nothing() {
    let engine = engine_with(2, 60);
    let mut store = MemoryStore::new();
    let effects = engine.run(&mut store, approve("Nobody", "Alice"), 1000).unwrap();
    assert!(effects.is_empty());
    assert_eq!(store.len(), 0);
}

#[test]
fn cancel_of_a_missing_target_does_nothing() {
    let engine = engine_with(2, 60);
    let mut store = MemoryStore::new();
    engine.run(&mut store, propose("BadGuy", "Mod"), 1000).unwrap();
    let effects = engine.run(&mut store, cancel("Nobody", "Mod"), 1001).unwrap();
    assert!(effects.is_empty());
    assert_eq!(store.list(), vec![bad_guy(&[], 1000)]);
}

#[test]
fn cancel_discards_with_the_canceller_named_then_removes() {
    let engine = engine_with(2, 60);
    let mut store = MemoryStore::new();
    engine.run(&mut store, propose("BadGuy", "Mod"), 1000).unwrap();
    let effects = engine.run(&mut store, cancel("BadGuy", "Alice"), 1001).unwrap();
    assert_eq!(
        effects,
        vec![
            Effect::Discard(bad_guy(&[], 1000), "Cancelled by Alice".to_string()),
            Effect::Remove("BadGuy".to_string()),
        ]
    );
    assert_eq!(store.len(), 0);
}

#[test]
fn sweep_spares_a_proposal_inside_the_window() {
    let engine = engine_with(2, 60);
    let mut store = MemoryStore::new();
    engine.run(&mut store, propose("BadGuy", "Mod"), 1000).unwrap();
    let effects = engine.run(&mut store, Event::Sweep, 1059).unwrap();
    assert!(effects.is_empty());
    assert_eq!(store.get("BadGuy"), Some(bad_guy(&[], 1000)));
}

#[test]
fn sweep_spares_a_proposal_exactly_at_the_window() {
    let engine = engine_with(2, 60);
    let mut store = MemoryStore::new();
    engine.run(&mut store, propose("BadGuy", "Mod"), 1000).unwrap();
    let effects = engine.run(&mut store, Event::Sweep, 1060).unwrap();
    assert!(effects.is_empty());
    assert_eq!(store.len(), 1);
}

#[test]
fn sweep_discards_and_removes_a_proposal_past_the_window() {
    let engine = engine_with(2, 60);
    let mut store = MemoryStore::new();
    engine.run(&mut store, propose("BadGuy", "Mod"), 1000).unwrap();
    let effects = engine.run(&mut store, Event::Sweep, 1061).unwrap();
    assert_eq!(
        effects,
        vec![
            Effect::Discard(bad_guy(&[], 1000), "Expired".to_string()),
            Effect::Remove("BadGuy".to_string()),
        ]
    );
    assert_eq!(store.get("BadGuy"), None);
}

#[test]
fn sweep_removes_only_the_expired() {
    let engine = engine_with(2, 60);
    let mut store = MemoryStore::new();
    engine.run(&mut store, propose("Old", "Mod"), 1000).unwrap();
    engine.run(&mut store, propose("New", "Mod"), 1050).unwrap();
    engine.run(&mut store, propose("Older", "Mod"), 900).unwrap();
    let effects = engine.run(&mut store, Event::Sweep, 1061).unwrap();
    assert_eq!(effects.len(), 4);
    assert_eq!(store.len(), 1);
    assert!(store.get("New").is_some());
}

#[test]
fn sweep_does_not_overflow_near_the_end_of_time() {
    let engine = engine_with(2, u64::MAX);
    let late = bad_guy(&[], u64::MAX - 1);
    assert!(!engine.is_expired(&late, u64::MAX));
    assert!(engine.sweep(vec![late], u64::MAX).is_empty());
    let engine = engine_with(2, 0);
    assert!(engine.is_expired(&bad_guy(&[], u64::MAX - 1), u64::MAX));
    assert!(!engine.is_expired(&bad_guy(&[], 5), 5));
    assert!(!engine.is_expired(&bad_guy(&[], 6), 5));
}

#[test]
fn a_clock_that_went_back_expires_nothing() {
    let engine = engine_with(2, 60);
    assert!(engine.sweep(vec![bad_guy(&[], 1000)], 10).is_empty());
}

#[test]
fn the_store_never_holds_two_proposals_for_one_key() {
    let engine = engine_with(3, 60);
    let mut store = MemoryStore::new();
    let events = vec![
        propose("A", "Mod"),
        propose("B", "Mod"),
        approve("A", "Alice"),
        propose("A", "Eve"),
        approve("B", "Alice"),
        cancel("B", "Mod"),
        propose("B", "Mod"),
        approve("A", "Bob"),
    ];
    for (tick, event) in events.into_iter().enumerate() {
        let _ = engine.run(&mut store, event, 1000 + tick as u64);
        let mut keys: Vec<String> = store.list().into_iter().map(|p| p.target.raw).collect();
        let before = keys.len();
        keys.sort();
        keys.dedup();
        assert_eq!(keys.len(), before);
    }
    assert_eq!(store.len(), 2);
}

#[test]
fn decisions_can_be_taken_without_the_memory_store() {
    let engine = engine_with(2, 60);
    let plan = engine.propose(
        "kick".to_string(),
        "<@123456789012345678>".to_string(),
        "Mod".to_string(),
        Platform::Stoat,
        "general".to_string(),
        "rude".to_string(),
        77,
    );
    let stored = match &plan[0] {
        Effect::Save(p) => p.clone(),
        other => panic!("unexpected effect {:?}", other),
    };
    assert_eq!(stored.target.raw, "<@123456789012345678>");
    assert_eq!(stored.target.discord, Some("123456789012345678".to_string()));
    assert_eq!(stored.timestamp, 77);
    assert!(stored.approvers.is_empty());
    assert_eq!(engine.cancel("x", None, "Mod"), Vec::new());
    assert_eq!(engine.approve("x", None, "Mod"), Ok(Vec::new()));
}

#[test]
fn approvers_stay_a_set_without_the_author() {
    let engine = engine_with(4, 60);
    let mut store = MemoryStore::new();
    engine.run(&mut store, propose("BadGuy", "Mod"), 1000).unwrap();
    for approver in ["Alice", "Mod", "Bob", "Alice", "Bob", "Mod", "Carol", "Alice"] {
        let _ = engine.run(&mut store, approve("BadGuy", approver), 1001);
        let pending = store.get("BadGuy").unwrap();
        let mut names = pending.approvers.clone();
        names.sort();
        names.dedup();
        assert_eq!(names.len(), pending.approvers.len());
        assert!(!pending.approvers.contains(&"Mod".to_string()));
    }
    assert_eq!(store.get("BadGuy"), Some(bad_guy(&["Alice", "Bob", "Carol"], 1000)));
}

#[test]
fn no_event_but_a_sweep_writes_twice() {
    let engine = engine_with(2, 60);
    let mut store = MemoryStore::new();
    let events = vec![
        propose("BadGuy", "Mod"),
        approve("BadGuy", "Alice"),
        approve("BadGuy", "Mod"),
        approve("BadGuy", "Bob"),
        propose("Other", "Mod"),
        cancel("Other", "Eve"),
        cancel("Other", "Eve"),
    ];
    for event in events {
        if let Ok(effects) = engine.run(&mut store, event, 1000) {
            let writes = effects
                .iter()
                .filter(|e| matches!(e, Effect::Save(_) | Effect::Remove(_)))
                .count();
            assert!(writes <= 1);
            if let Some(at) =
                effects.iter().position(|e| matches!(e, Effect::Save(_) | Effect::Remove(_)))
            {
                let mut untouched = MemoryStore::new();
                untouched.apply(&effects[..at].iter().map(copy_of).collect());
                assert_eq!(untouched.len(), 0);
            }
        }
    }
}

fn copy_of(effect: &Effect) -> Effect {
    match effect {
        Effect::Save(p) => Effect::Save(p.clone()),
        Effect::Remove(key) => Effect::Remove(key.clone()),
        Effect::Notify(p) => Effect::Notify(p.clone()),
        Effect::Execute(p, approver) => Effect::Execute(p.clone(), approver.clone()),
        Effect::Discard(p, why) => Effect::Discard(p.clone(), why.clone()),
    }
}

#[test]
fn each_event_says_what_has_to_be_read_for_it() {
    let nothing = Needs { key: None, listing: false, clock: true };
    assert_eq!(propose("BadGuy", "Mod").needs(), nothing);
    let one = Needs { key: Some("BadGuy".to_string()), listing: false, clock: false };
    assert_eq!(approve("BadGuy", "Alice").needs(), one);
    assert_eq!(cancel("BadGuy", "Mod").needs(), one);
    assert_eq!(Event::Sweep.needs(), Needs { key: None, listing: true, clock: true });
}

#[test]
fn decide_looks_only_at_what_the_event_needs() {
    let engine = engine_with(2, 60);
    let stale = vec![bad_guy(&[], 1)];
    assert_eq!(
        engine.decide(approve("BadGuy", "Alice"), Some(bad_guy(&[], 1000)), stale, 5000),
        Ok(vec![Effect::Save(bad_guy(&["Alice"], 1000))])
    );
    assert_eq!(
        engine.decide(approve("BadGuy", "Mod"), Some(bad_guy(&[], 1000)), Vec::new(), 5000),
        Err(CoreError::SelfApproval)
    );
    assert_eq!(
        engine.decide(cancel("BadGuy", "Al"), Some(bad_guy(&[], 1000)), Vec::new(), 5000),
        Ok(vec![
            Effect::Discard(bad_guy(&[], 1000), "Cancelled by Al".to_string()),
            Effect::Remove("BadGuy".to_string()),
        ])
    );
    assert_eq!(
        engine.decide(Event::Sweep, Some(bad_guy(&[], 1)), vec![bad_guy(&[], 1000)], 1061),
        Ok(vec![
            Effect::Discard(bad_guy(&[], 1000), "Expired".to_string()),
            Effect::Remove("BadGuy".to_string()),
        ])
    );
    assert_eq!(
        engine.decide(propose("BadGuy", "Mod"), Some(bad_guy(&["x"], 1)), Vec::new(), 1000),
        Ok(vec![Effect::Save(bad_guy(&[], 1000)), Effect::Notify(bad_guy(&[], 1000))])
    );
}
