use splinter_bot::{
    add_user_turn, create_chat_history, load_chat_history, desire_to_respond, prepare_regeneration,
    record_completion, set_system_prompt, start_evaluation, ConversationStore, Role, Turn,
    EVALUATOR_PROMPT,
};

fn sys(s: &str) -> Turn {
    Turn::system(s.to_string())
}

fn user(s: &str) -> Turn {
    Turn::user(s.to_string())
}

fn assistant(s: &str) -> Turn {
    Turn::assistant(s.to_string())
}

#[test]
fn respond_appends_user_and_assistant_turns() {
    let mut h = vec![sys("base")];
    add_user_turn(&mut h, "hello".to_string());
    let reply = record_completion(&mut h, Some("hi there".to_string()));
    assert_eq!(reply, Some("hi there".to_string()));
    assert_eq!(h, vec![sys("base"), user("hello"), assistant("hi there")]);
}

#[test]
fn respond_failure_keeps_only_user_turn() {
    let mut h = vec![sys("base"), user("a"), assistant("b")];
    add_user_turn(&mut h, "hello".to_string());
    let reply = record_completion(&mut h, None);
    assert_eq!(reply, None);
    assert_eq!(h, vec![sys("base"), user("a"), assistant("b"), user("hello")]);
}

#[test]
fn set_prompt_returns_old_turn() {
    let mut h = vec![sys("base")];
    let old = set_system_prompt(&mut h, "be terse");
    assert_eq!(old, sys("base"));
    assert_eq!(h, vec![sys("be terse")]);
}

#[test]
fn set_prompt_round_trip_restores_turn_zero() {
    let original = vec![sys("base"), user("x"), assistant("y")];
    let mut h = original.clone();
    let old = set_system_prompt(&mut h, "other");
    assert_eq!(h[0], sys("other"));
    assert_eq!(h[1..], original[1..]);
    set_system_prompt(&mut h, &old.content);
    assert_eq!(h, original);
}

#[test]
fn set_prompt_forces_system_role() {
    let mut h = vec![sys("base"), user("x")];
    set_system_prompt(&mut h, "new");
    assert_eq!(h[0].role, Role::System);
    assert_eq!(h[1], user("x"));
}

#[test]
fn evaluation_negative_answer_leaves_history() {
    let original = vec![sys("base")];
    let mut h = original.clone();
    let saved = start_evaluation(&mut h, "alice says: hi".to_string());
    assert_eq!(h, vec![sys(EVALUATOR_PROMPT), user("alice says: hi")]);
    let engage = desire_to_respond(&mut h, saved, Some("No, I will not.".to_string()));
    assert!(!engage);
    assert_eq!(h, original);
}

#[test]
fn evaluation_positive_answer_restores_prompt() {
    let original = vec![sys("base"), user("bob says: hey"), assistant("hello bob")];
    let mut h = original.clone();
    let saved = start_evaluation(&mut h, "alice says: anyone?".to_string());
    let engage = desire_to_respond(&mut h, saved, Some("Yes.".to_string()));
    assert!(engage);
    assert_eq!(h, original);
}

#[test]
fn evaluation_backend_failure_disengages_and_restores() {
    let original = vec![sys("base"), user("bob says: hey")];
    let mut h = original.clone();
    let saved = start_evaluation(&mut h, "alice says: anyone?".to_string());
    let engage = desire_to_respond(&mut h, saved, None);
    assert!(!engage);
    assert_eq!(h, original);
}

#[test]
fn regeneration_of_lone_system_turn_is_noop() {
    let mut h = vec![sys("base")];
    prepare_regeneration(&mut h);
    assert_eq!(h, vec![sys("base")]);
}

#[test]
fn regeneration_drops_last_answer() {
    let mut h = vec![sys("base"), user("q"), assistant("a")];
    prepare_regeneration(&mut h);
    assert_eq!(h, vec![sys("base"), user("q")]);
    prepare_regeneration(&mut h);
    assert_eq!(h, vec![sys("base"), user("q")]);
    record_completion(&mut h, Some("a2".to_string()));
    assert_eq!(h, vec![sys("base"), user("q"), assistant("a2")]);
}

#[test]
fn create_history_holds_default_prompt() {
    assert_eq!(create_chat_history("default"), vec![sys("default")]);
}

#[test]
fn get_or_create_is_idempotent() {
    let mut store = ConversationStore::new("default".to_string());
    let first = store.get_or_create(7).clone();
    let second = store.get_or_create(7).clone();
    assert_eq!(first, vec![sys("default")]);
    assert_eq!(first, second);
    assert_eq!(store.get(7), Some(&vec![sys("default")]));
}

#[test]
fn get_or_create_keeps_existing_history() {
    let mut store = ConversationStore::new("default".to_string());
    add_user_turn(store.get_or_create(3), "hi".to_string());
    let h = store.get_or_create(3).clone();
    assert_eq!(h, vec![sys("default"), user("hi")]);
    assert_eq!(store.get_or_create(3).clone(), h);
}

#[test]
fn get_missing_is_none() {
    let store = ConversationStore::new("default".to_string());
    assert_eq!(store.get(1), None);
}

#[test]
fn reset_gives_single_default_turn() {
    let mut store = ConversationStore::new("default".to_string());
    let h = store.get_or_create(5);
    set_system_prompt(h, "custom");
    add_user_turn(h, "one".to_string());
    record_completion(h, Some("two".to_string()));
    store.reset(5);
    assert_eq!(store.get(5), Some(&vec![sys("default")]));
    store.reset(6);
    assert_eq!(store.get(6), Some(&vec![sys("default")]));
}

#[test]
fn remove_forgets_and_absent_is_noop() {
    let mut store = ConversationStore::new("default".to_string());
    store.get_or_create(1);
    store.remove(1);
    assert_eq!(store.get(1), None);
    store.remove(2);
    assert_eq!(store.get(2), None);
}

#[test]
fn loaded_snapshot_keeps_turn_order() {
    let entries = vec![(42u64, vec![sys("base"), user("hello")])];
    let store = load_chat_history("default".to_string(), entries).unwrap();
    assert_eq!(store.get(42), Some(&vec![sys("base"), user("hello")]));
    assert_eq!(store.get(43), None);
    assert_eq!(store.histories().len(), 1);
}

#[test]
fn malformed_snapshot_is_refused() {
    let entries = vec![(1u64, vec![sys("base")]), (2u64, vec![user("no system turn")])];
    assert!(load_chat_history("default".to_string(), entries).is_none());
    let empty = vec![(3u64, Vec::new())];
    assert!(load_chat_history("default".to_string(), empty).is_none());
}

#[test]
fn insert_refuses_history_without_system_turn() {
    let mut store = ConversationStore::new("default".to_string());
    assert!(!store.insert(9, vec![user("x")]));
    assert_eq!(store.get(9), None);
    assert!(store.insert(9, vec![sys("s"), user("x")]));
    assert_eq!(store.get(9), Some(&vec![sys("s"), user("x")]));
}
