use colored::control::set_override;
use taskbook::command::Command;
use taskbook::deadline::VagueTime;
use taskbook::session::{do_add, do_list, do_remove, do_set_progress, run, Failure, Outcome, PICK_ATTEMPTS};
use taskbook::store::{Data, Entry, Status};
use taskbook::timestamp::Timestamp;

fn epoch() -> Timestamp {
    Timestamp { year: 2024, month: 1, day: 1, hour: 0, minute: 0, second: 0, nanosecond: 0, offset_seconds: 0 }
}

fn store(ids: &[&str]) -> Data {
    let mut data = Data { entries: Vec::new(), last_updated: epoch() };
    for id in ids {
        data.add_entry(Entry::new(id.to_string(), "something".to_string(), 0, None));
    }
    data
}

fn words(list: &[&str]) -> Vec<String> {
    list.iter().map(|w| w.to_string()).collect()
}

#[test]
fn listing_an_empty_store_says_so_and_writes_nothing() {
    set_override(false);
    let out = do_list(&store(&[]));
    assert_eq!(
        out,
        Outcome { lines: vec!["Nothing todo, woooooo!".to_string()], save: false, failure: None }
    );
}

#[test]
fn listing_shows_every_task() {
    set_override(false);
    let out = do_list(&store(&["apple", "pear"]));
    assert_eq!(out.lines, ["Task: apple  | something | Not Started ", "Task: pear  | something | Not Started "]);
    assert!(!out.save);
    assert_eq!(out.failure, None);
}

#[test]
fn an_added_task_is_listed_as_not_started_with_its_priority() {
    set_override(false);
    let mut data = store(&["apple"]);
    let out = do_add(&mut data, &words(&["pear"]), "Buy milk".to_string(), 2, &None);
    assert_eq!(out.failure, None);
    assert!(out.save);
    assert_eq!(
        out.lines,
        [
            "Adding pear - 'Buy milk'",
            "Task: apple  | something | Not Started ",
            "Task: pear Priority: 2 | Buy milk | Not Started ",
        ]
    );
    assert_eq!(data.entries.len(), 2);
    assert_eq!(
        data.entries[1],
        Entry {
            id: "pear".to_string(),
            task: "Buy milk".to_string(),
            deadline: None,
            status: Status::NotStarted,
            priority: 2,
        }
    );
    assert_eq!(data.last_updated, epoch());
}

#[test]
fn an_added_task_with_deadline_today_is_due_at_half_past_eleven() {
    set_override(false);
    let mut data = store(&[]);
    let out = do_add(&mut data, &words(&["pear"]), "Buy milk".to_string(), 0, &Some(VagueTime::Today));
    assert_eq!(out.failure, None);
    let deadline = data.entries[0].deadline.unwrap();
    assert!(deadline.is_valid());
    assert_eq!((deadline.hour, deadline.minute, deadline.second), (23, 30, 0));
    assert_eq!(out.lines.len(), 2);
    assert_eq!(out.lines[0], "Adding pear - 'Buy milk'");
    assert!(out.lines[1].starts_with("Task: pear  | Buy milk | Not Started \n\t Deadline: "));
    assert!(out.lines[1].ends_with(" 23:30"));
}

#[test]
fn nothing_is_added_without_words() {
    set_override(false);
    let mut data = store(&["apple"]);
    let before = data.clone();
    let out = do_add(&mut data, &words(&[]), "Buy milk".to_string(), 2, &None);
    assert_eq!(out, Outcome { lines: Vec::new(), save: false, failure: Some(Failure::NoFreeName) });
    assert_eq!(data, before);
}

#[test]
fn nothing_is_added_when_every_word_is_taken() {
    set_override(false);
    let mut data = store(&["apple", "pear"]);
    let before = data.clone();
    let out = do_add(&mut data, &words(&["pear", "apple"]), "Buy milk".to_string(), 2, &None);
    assert_eq!(out, Outcome { lines: Vec::new(), save: false, failure: Some(Failure::NoFreeName) });
    assert_eq!(data, before);
}

#[test]
fn nothing_is_added_for_a_day_that_no_month_has() {
    set_override(false);
    for day in [0u8, 32, 200] {
        let mut data = store(&["apple"]);
        let before = data.clone();
        let out =
            do_add(&mut data, &words(&["pear"]), "Buy milk".to_string(), 2, &Some(VagueTime::Day(day)));
        assert_eq!(
            out,
            Outcome {
                lines: vec!["Adding pear - 'Buy milk'".to_string()],
                save: false,
                failure: Some(Failure::NoSuchDate),
            }
        );
        assert_eq!(data, before);
    }
}

#[test]
fn two_added_tasks_go_by_different_names() {
    set_override(false);
    let nouns = words(&["apple", "pear"]);
    for _ in 0..50 {
        let mut data = store(&[]);
        assert_eq!(do_add(&mut data, &nouns, "first".to_string(), 0, &None).failure, None);
        assert_eq!(do_add(&mut data, &nouns, "second".to_string(), 0, &None).failure, None);
        assert_eq!(data.entries.len(), 2);
        assert_ne!(data.entries[0].id, data.entries[1].id);
        assert_eq!(data.entries[0].task, "first");
        assert_eq!(data.entries[1].task, "second");
        let third = do_add(&mut data, &nouns, "third".to_string(), 0, &None);
        assert_eq!(third.failure, Some(Failure::NoFreeName));
        assert_eq!(data.entries.len(), 2);
    }
}

#[test]
fn many_words_are_drawn_before_giving_up() {
    assert_eq!(PICK_ATTEMPTS, 10_000);
}

#[test]
fn starting_a_task_changes_its_state_and_lists() {
    set_override(false);
    let mut data = store(&["apple", "pear"]);
    let out = do_set_progress(&mut data, "pear", Status::Started);
    assert_eq!(out.failure, None);
    assert!(out.save);
    assert_eq!(
        out.lines,
        ["Resolving 'pear'", "Task: apple  | something | Not Started ", "Task: pear  | something | Started "]
    );
    assert_eq!(data.entries[0].status, Status::NotStarted);
    assert_eq!(data.entries[1].status, Status::Started);
}

#[test]
fn resolving_a_task_changes_its_state_and_lists() {
    set_override(false);
    let mut data = store(&["apple", "pear"]);
    let out = do_set_progress(&mut data, "apple", Status::Resolved);
    assert!(out.save);
    assert_eq!(
        out.lines,
        ["Resolving 'apple'", "Task: apple  | something | Resolved ", "Task: pear  | something | Not Started "]
    );
    assert_eq!(data.entries[0].status, Status::Resolved);
}

#[test]
fn resolving_an_unknown_name_leaves_the_store_unchanged() {
    set_override(false);
    let mut data = store(&["apple", "pear"]);
    let before = data.clone();
    let out = do_set_progress(&mut data, "plum", Status::Resolved);
    assert_eq!(
        out,
        Outcome {
            lines: vec![
                "Resolving 'plum'".to_string(),
                "Could not find 'plum' to update, exiting..".to_string(),
            ],
            save: false,
            failure: None,
        }
    );
    assert_eq!(data, before);
}

#[test]
fn removing_a_task_takes_it_out_and_lists() {
    set_override(false);
    let mut data = store(&["apple", "pear", "apple"]);
    let out = do_remove(&mut data, "apple");
    assert_eq!(out.failure, None);
    assert!(out.save);
    assert_eq!(out.lines, ["Removing 'apple'", "Task: pear  | something | Not Started "]);
    assert_eq!(data.entries.len(), 1);
    assert_eq!(data.entries[0].id, "pear");
}

#[test]
fn removing_the_last_task_lists_nothing_to_do() {
    set_override(false);
    let mut data = store(&["apple"]);
    let out = do_remove(&mut data, "apple");
    assert_eq!(out.lines, ["Removing 'apple'", "Nothing todo, woooooo!"]);
    assert!(out.save);
    assert!(data.entries.is_empty());
}

#[test]
fn removing_an_unknown_name_leaves_the_store_unchanged() {
    set_override(false);
    let mut data = store(&["apple"]);
    let before = data.clone();
    let out = do_remove(&mut data, "plum");
    assert_eq!(
        out,
        Outcome {
            lines: vec![
                "Removing 'plum'".to_string(),
                "Could not find 'plum' to remove, exiting..".to_string(),
            ],
            save: false,
            failure: None,
        }
    );
    assert_eq!(data, before);
}

#[test]
fn removing_from_an_empty_store_writes_nothing() {
    set_override(false);
    let mut data = store(&[]);
    let out = do_remove(&mut data, "plum");
    assert!(!out.save);
    assert_eq!(out.lines, ["Removing 'plum'", "Could not find 'plum' to remove, exiting.."]);
    assert!(data.entries.is_empty());
}

#[test]
fn one_free_word_and_no_deadline_give_exactly_that_task() {
    set_override(false);
    let mut data = store(&[]);
    let out = do_add(&mut data, &words(&["cat"]), "milk".to_string(), 3, &None);
    assert_eq!(out.failure, None);
    assert!(out.save);
    assert_eq!(
        data.entries,
        [Entry {
            id: "cat".to_string(),
            task: "milk".to_string(),
            deadline: None,
            status: Status::NotStarted,
            priority: 3,
        }]
    );
}

#[test]
fn an_add_succeeds_where_no_word_is_taken() {
    set_override(false);
    let nouns = words(&["cat", "dog", "owl"]);
    for deadline in [None, Some(VagueTime::Today), Some(VagueTime::Evening), Some(VagueTime::Day(1)), Some(VagueTime::Day(28))] {
        for _ in 0..50 {
            let mut data = store(&["apple", "pear"]);
            let out = do_add(&mut data, &nouns, "milk".to_string(), 0, &deadline);
            assert_eq!(out.failure, None);
            assert_eq!(data.entries.len(), 3);
            assert!(nouns.contains(&data.entries[2].id));
            assert_eq!(data.entries[2].deadline.is_some(), deadline.is_some());
        }
    }
}

#[test]
fn run_carries_out_each_command() {
    set_override(false);
    let nouns = words(&["plum"]);
    let mut data = store(&["apple"]);

    let out = run(Command::List, String::new(), 0, &None, &mut data, &nouns);
    assert_eq!(out.lines, ["Task: apple  | something | Not Started "]);
    assert!(!out.save);

    let out = run(Command::Add, "Buy milk".to_string(), 5, &None, &mut data, &nouns);
    assert_eq!(out.lines[0], "Adding plum - 'Buy milk'");
    assert_eq!(out.lines[2], "Task: plum Priority: 5 | Buy milk | Not Started ");
    assert!(out.save);

    let out = run(Command::Started, "plum".to_string(), 0, &None, &mut data, &nouns);
    assert_eq!(out.lines[0], "Resolving 'plum'");
    assert_eq!(data.entries[1].status, Status::Started);

    let out = run(Command::Resolve, "plum".to_string(), 0, &None, &mut data, &nouns);
    assert_eq!(out.lines[2], "Task: plum Priority: 5 | Buy milk | Resolved ");
    assert_eq!(data.entries[1].status, Status::Resolved);

    let out = run(Command::Remove, "apple".to_string(), 0, &None, &mut data, &nouns);
    assert_eq!(out.lines, ["Removing 'apple'", "Task: plum Priority: 5 | Buy milk | Resolved "]);
    assert_eq!(data.entries.len(), 1);
}

#[test]
fn run_refuses_an_unknown_command() {
    set_override(false);
    let mut data = store(&["apple"]);
    let before = data.clone();
    let out = run(Command::Unknown, "apple".to_string(), 3, &Some(VagueTime::Today), &mut data, &words(&["plum"]));
    assert_eq!(
        out,
        Outcome {
            lines: vec!["Unrecognised argument, try todo --help".to_string()],
            save: false,
            failure: None,
        }
    );
    assert_eq!(data, before);
}
