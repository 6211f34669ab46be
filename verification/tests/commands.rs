use taskbook::command::Command;

#[test]
fn empty_verb_lists() {
    assert_eq!(Command::from_str(""), Ok(Command::List));
}

#[test]
fn list_verb_lists() {
    assert_eq!(Command::from_str("list"), Ok(Command::List));
}

#[test]
fn add_verb_adds() {
    assert_eq!(Command::from_str("add"), Ok(Command::Add));
}

#[test]
fn start_verb_starts() {
    assert_eq!(Command::from_str("start"), Ok(Command::Started));
}

#[test]
fn resolve_verb_resolves() {
    assert_eq!(Command::from_str("resolve"), Ok(Command::Resolve));
}

#[test]
fn remove_verb_removes() {
    assert_eq!(Command::from_str("remove"), Ok(Command::Remove));
}

#[test]
fn other_verbs_are_unknown() {
    for verb in ["started", "List", " list", "list ", "rm", "adds", "ad", "résoudre"] {
        assert_eq!(Command::from_str(verb), Ok(Command::Unknown), "verb {:?}", verb);
    }
}
