use mcplease::session::{SessionEntry, SessionMetadata, SessionStore, Timestamp};
use mcplease::watch::{on_fs_event, FsEventKind, ECHO_EVENTS_PER_SAVE};

#[derive(Clone, Debug, Default, PartialEq, Eq)]
struct Note {
    x: u64,
    label: String,
}

fn at(secs: u64) -> Timestamp {
    Timestamp::new(secs, 0)
}

fn metadata_of<T: Clone>(store: &SessionStore<T>, id: &str) -> SessionMetadata {
    let mut found = None;
    for (key, entry) in store.entries().iter() {
        if key == id {
            found = Some(entry.metadata);
        }
    }
    found.expect("session present")
}

#[test]
fn get_or_create_on_unknown_id_creates_default_once() {
    let mut store: SessionStore<Note> = SessionStore::new();
    assert!(store.get_or_create("new-id", at(10)));
    assert_eq!(store.get("new-id"), Some(&Note::default()));
    let meta = metadata_of(&store, "new-id");
    assert_eq!(meta.created_at, at(10));
    assert_eq!(meta.last_used, at(10));
    assert!(!store.get_or_create("new-id", at(20)));
    assert_eq!(metadata_of(&store, "new-id").last_used, at(10));
    assert_eq!(store.entries().len(), 1);
}

#[test]
fn get_never_creates() {
    let mut store: SessionStore<Note> = SessionStore::new();
    assert_eq!(store.get("nobody"), None);
    assert!(store.entries().is_empty());
    store.get_or_create("a", at(1));
    assert_eq!(store.get("b"), None);
}

#[test]
fn identity_update_is_no_change() {
    let mut store: SessionStore<Note> = SessionStore::new();
    store.get_or_create("s", at(5));
    let changed = store.update("s", |_data: &mut Note| {}, at(9));
    assert!(!changed);
    assert_eq!(metadata_of(&store, "s").last_used, at(5));
}

#[test]
fn changing_update_marks_last_used() {
    let mut store: SessionStore<Note> = SessionStore::new();
    store.get_or_create("s", at(5));
    let changed = store.update("s", |data: &mut Note| data.x = 5, at(9));
    assert!(changed);
    assert_eq!(store.get("s").map(|n| n.x), Some(5));
    let meta = metadata_of(&store, "s");
    assert_eq!(meta.created_at, at(5));
    assert_eq!(meta.last_used, at(9));
}

#[test]
fn update_on_unknown_id_creates_and_applies() {
    let mut store: SessionStore<Note> = SessionStore::new();
    let changed = store.update("fresh", |data: &mut Note| data.label.push_str("hi"), at(3));
    assert!(changed);
    assert_eq!(store.get("fresh"), Some(&Note { x: 0, label: "hi".to_string() }));
    let meta = metadata_of(&store, "fresh");
    assert_eq!(meta.created_at, at(3));
    assert_eq!(meta.last_used, at(3));
}

#[test]
fn identity_update_on_unknown_id_is_no_change() {
    let mut store: SessionStore<Note> = SessionStore::new();
    assert!(!store.update("fresh", |_data: &mut Note| {}, at(3)));
    assert_eq!(store.get("fresh"), Some(&Note::default()));
    let meta = metadata_of(&store, "fresh");
    assert_eq!(meta.created_at, at(3));
    assert_eq!(meta.last_used, at(3));
}

#[test]
fn set_of_default_on_unknown_id_is_no_change() {
    let mut store: SessionStore<u64> = SessionStore::new();
    assert!(!store.set("zero", 0, at(2)));
    assert_eq!(store.get("zero"), Some(&0));
    assert!(store.set("one", 1, at(2)));
}

#[test]
fn set_of_equal_value_is_no_change() {
    let mut store: SessionStore<Note> = SessionStore::new();
    let v = Note { x: 7, label: "seven".to_string() };
    assert!(store.set("k", v.clone(), at(1)));
    assert!(!store.set("k", v.clone(), at(2)));
    assert_eq!(metadata_of(&store, "k").last_used, at(1));
    assert!(store.set("k", Note { x: 8, label: "eight".to_string() }, at(3)));
    assert_eq!(metadata_of(&store, "k").last_used, at(3));
    assert_eq!(metadata_of(&store, "k").created_at, at(1));
    assert_eq!(store.get("k").map(|n| n.x), Some(8));
}

#[test]
fn sessions_are_independent() {
    let mut store: SessionStore<u64> = SessionStore::new();
    store.set("a", 1, at(1));
    store.set("b", 2, at(1));
    store.set("a", 3, at(2));
    assert_eq!(store.get("a"), Some(&3));
    assert_eq!(store.get("b"), Some(&2));
    assert_eq!(store.entries().len(), 2);
}

#[test]
fn load_of_blank_file_keeps_sessions() {
    let mut store: SessionStore<u64> = SessionStore::new();
    store.set("a", 1, at(1));
    let replacement = vec![("b".to_string(), SessionEntry::new(2, SessionMetadata::new(at(4))))];
    store.load("  \n\t ", Some(replacement.clone()));
    assert_eq!(store.get("a"), Some(&1));
    assert_eq!(store.get("b"), None);
    store.load("", Some(replacement));
    assert_eq!(store.get("a"), Some(&1));
}

#[test]
fn load_of_corrupt_file_keeps_last_known_state() {
    let mut store: SessionStore<u64> = SessionStore::new();
    store.load("this is not json", None);
    assert_eq!(store.get("a"), None);
    store.set("a", 1, at(1));
    store.load("{ garbage", None);
    assert_eq!(store.get("a"), Some(&1));
}

#[test]
fn load_replaces_all_sessions() {
    let mut store: SessionStore<u64> = SessionStore::new();
    store.set("a", 1, at(1));
    let parsed = vec![
        ("b".to_string(), SessionEntry::new(2, SessionMetadata::new(at(4)))),
        ("c".to_string(), SessionEntry::new(3, SessionMetadata::new(at(4)))),
    ];
    store.load("{\"b\": {}, \"c\": {}}", Some(parsed));
    assert_eq!(store.get("a"), None);
    assert_eq!(store.get("b"), Some(&2));
    assert_eq!(store.get("c"), Some(&3));
}

#[test]
fn load_keeps_the_later_of_two_equal_ids() {
    let mut store: SessionStore<u64> = SessionStore::new();
    let parsed = vec![
        ("b".to_string(), SessionEntry::new(2, SessionMetadata::new(at(4)))),
        ("b".to_string(), SessionEntry::new(9, SessionMetadata::new(at(5)))),
    ];
    store.load("{}", Some(parsed));
    assert_eq!(store.get("b"), Some(&9));
    assert_eq!(store.entries().len(), 1);
    assert!(!store.set("b", 9, at(6)));
    assert!(store.set("b", 10, at(7)));
    assert_eq!(store.get("b"), Some(&10));
}

#[test]
fn saved_entries_round_trip_into_a_fresh_store() {
    let mut store: SessionStore<Note> = SessionStore::new();
    store.set("a", Note { x: 1, label: "one".to_string() }, at(1));
    store.update("b", |n: &mut Note| n.x = 2, at(2));
    store.set("a", Note { x: 3, label: "three".to_string() }, at(3));
    store.update("b", |n: &mut Note| n.label.push('!'), at(4));
    let saved = store.entries().clone();

    let mut fresh: SessionStore<Note> = SessionStore::new();
    fresh.load("{\"a\": {}, \"b\": {}}", Some(saved));
    assert_eq!(fresh.get("a"), Some(&Note { x: 3, label: "three".to_string() }));
    assert_eq!(fresh.get("b"), Some(&Note { x: 2, label: "!".to_string() }));
}

#[derive(Clone, Debug, Default, PartialEq, Eq)]
struct Profile {
    x: u64,
}

#[test]
fn alice_scenario_across_two_stores() {

    // First store: the file is absent, so it starts empty.
    let mut first: SessionStore<Profile> = SessionStore::new();
    assert!(first.get_or_create("alice", at(100)));
    assert_eq!(first.get("alice"), Some(&Profile::default()));
    let meta = metadata_of(&first, "alice");
    assert_eq!(meta.created_at, meta.last_used);
    assert_eq!(first.entries().len(), 1);

    assert!(first.update("alice", |v: &mut Profile| v.x = 5, at(160)));
    let meta = metadata_of(&first, "alice");
    assert_eq!(meta.created_at, at(100));
    assert_eq!(meta.last_used, at(160));
    let saved = first.entries().clone();

    // Second store: opened on the file as it stood before the update.
    let mut second: SessionStore<Profile> = SessionStore::new();
    let before = vec![("alice".to_string(), SessionEntry::new(Profile::default(), SessionMetadata::new(at(100))))];
    second.load("{\"alice\": {}}", Some(before));
    assert_eq!(second.get("alice"), Some(&Profile { x: 0 }));

    // The first store's save arrives as an external change: no echoes pending.
    let step = on_fs_event(0, FsEventKind::Create);
    assert!(step.mark_reload);
    second.load("{\"alice\": {\"data\": {\"x\": 5}}}", Some(saved));
    assert_eq!(second.get("alice"), Some(&Profile { x: 5 }));

    // The first store's own save is discarded as an echo on its side.
    let own = on_fs_event(ECHO_EVENTS_PER_SAVE, FsEventKind::Create);
    assert!(!own.mark_reload);
}
