use taskbook::store::{Data, Entry, Status};
use taskbook::timestamp::Timestamp;

fn epoch() -> Timestamp {
    Timestamp { year: 2024, month: 1, day: 1, hour: 0, minute: 0, second: 0, nanosecond: 0, offset_seconds: 0 }
}

fn entry(id: &str, task: &str) -> Entry {
    Entry::new(id.to_string(), task.to_string(), 0, None)
}

fn store(ids: &[&str]) -> Data {
    let mut data = Data { entries: Vec::new(), last_updated: epoch() };
    for id in ids {
        data.add_entry(entry(id, "something"));
    }
    data
}

fn ids(data: &Data) -> Vec<&str> {
    data.entries.iter().map(|e| e.id.as_str()).collect()
}

#[test]
fn every_state_but_resolved_can_be_urgent() {
    assert!(Status::NotStarted.is_urgent());
    assert!(Status::Started.is_urgent());
    assert!(!Status::Resolved.is_urgent());
}

#[test]
fn a_new_entry_is_not_started() {
    let deadline = Some(Timestamp { day: 9, hour: 15, ..epoch() });
    let e = Entry::new("fig".to_string(), "Call home".to_string(), 4, deadline);
    assert_eq!(
        e,
        Entry {
            id: "fig".to_string(),
            task: "Call home".to_string(),
            deadline,
            status: Status::NotStarted,
            priority: 4,
        }
    );
}

#[test]
fn a_new_store_is_empty_and_begun_at_a_valid_time() {
    let data = Data::new();
    assert!(data.entries.is_empty());
    assert!(data.last_updated.is_valid());
    assert!(data.last_updated.year >= 1970);
}

#[test]
fn add_entry_appends() {
    let mut data = store(&["a", "b"]);
    data.add_entry(entry("c", "third"));
    assert_eq!(ids(&data), ["a", "b", "c"]);
    assert_eq!(data.entries[2], entry("c", "third"));
    assert_eq!(data.last_updated, epoch());
}

#[test]
fn find_gives_the_first_match() {
    let mut data = store(&["a", "b"]);
    data.add_entry(entry("b", "second b"));
    assert_eq!(data.find_index("a"), Some(0));
    assert_eq!(data.find_index("b"), Some(1));
    assert_eq!(data.find_entry("b"), Some(&entry("b", "something")));
    assert_eq!(data.find_index("c"), None);
    assert_eq!(data.find_entry("c"), None);
    assert_eq!(data.find_entry(""), None);
    assert_eq!(data.find_entry("A"), None);
}

#[test]
fn find_in_an_empty_store_gives_nothing() {
    let data = store(&[]);
    assert_eq!(data.find_index("a"), None);
    assert_eq!(data.find_entry("a"), None);
}

#[test]
fn find_entry_mut_gives_the_first_match_to_change() {
    let mut data = store(&["a", "b", "b"]);
    match data.find_entry_mut("b") {
        Some(e) => e.priority = 9,
        None => panic!("b is there"),
    }
    assert_eq!(data.entries[1].priority, 9);
    assert_eq!(data.entries[2].priority, 0);
    assert!(data.find_entry_mut("z").is_none());
}

#[test]
fn set_status_changes_the_first_match_only() {
    let mut data = store(&["a", "b", "b"]);
    assert!(data.set_status("b", Status::Started));
    assert_eq!(data.entries[0].status, Status::NotStarted);
    assert_eq!(data.entries[1].status, Status::Started);
    assert_eq!(data.entries[2].status, Status::NotStarted);
    assert!(data.set_status("b", Status::Resolved));
    assert_eq!(data.entries[1].status, Status::Resolved);
    assert_eq!(data.entries[2].status, Status::NotStarted);
    assert_eq!(ids(&data), ["a", "b", "b"]);
}

#[test]
fn set_status_on_an_unknown_name_changes_nothing() {
    let mut data = store(&["a", "b"]);
    let before = data.clone();
    assert!(!data.set_status("c", Status::Resolved));
    assert_eq!(data, before);
}

#[test]
fn remove_takes_out_every_match() {
    let mut data = store(&["a", "b", "c", "b", "d", "b"]);
    data.remove_by_id("b");
    assert_eq!(ids(&data), ["a", "c", "d"]);
    assert_eq!(data.find_entry("b"), None);
    assert_eq!(data.last_updated, epoch());
}

#[test]
fn remove_of_an_unknown_name_changes_nothing() {
    let mut data = store(&["a", "b"]);
    let before = data.clone();
    data.remove_by_id("c");
    assert_eq!(data, before);
}

#[test]
fn remove_can_empty_the_store() {
    let mut data = store(&["a", "a", "a"]);
    data.remove_by_id("a");
    assert!(data.entries.is_empty());
    let mut none = store(&[]);
    none.remove_by_id("a");
    assert!(none.entries.is_empty());
}

#[test]
fn remove_keeps_the_other_entries_as_they_were() {
    let mut data = store(&[]);
    data.add_entry(Entry::new("a".to_string(), "first".to_string(), 1, None));
    data.add_entry(Entry::new("b".to_string(), "second".to_string(), 2, Some(epoch())));
    data.add_entry(Entry::new("c".to_string(), "third".to_string(), 3, None));
    data.set_status("c", Status::Started);
    data.remove_by_id("a");
    assert_eq!(data.entries.len(), 2);
    assert_eq!(data.entries[0], Entry::new("b".to_string(), "second".to_string(), 2, Some(epoch())));
    assert_eq!(
        data.entries[1],
        Entry {
            id: "c".to_string(),
            task: "third".to_string(),
            deadline: None,
            status: Status::Started,
            priority: 3,
        }
    );
}
