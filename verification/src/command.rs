use vstd::prelude::*;

verus! {

/// What the user asked the program to do.
#[derive(Clone, Copy, Debug, PartialEq, Eq, Structural)]
pub enum Command {
    List,
    Add,
    Started,
    Resolve,
    Remove,
    Unknown,
}

/// The command that a verb names: the empty verb lists, an unknown verb is no command.
pub open spec fn command_of(verb: Seq<char>) -> Command {
    if verb == ""@ || verb == "list"@ {
        Command::List
    } else if verb == "add"@ {
        Command::Add
    } else if verb == "start"@ {
        Command::Started
    } else if verb == "resolve"@ {
        Command::Resolve
    } else if verb == "remove"@ {
        Command::Remove
    } else {
        Command::Unknown
    }
}

impl Command {
    pub fn from_str(s: &str) -> (r: Result<Command, ()>)
        ensures
            r == Ok::<Command, ()>(command_of(s@)),
    {
        proof {
            reveal_strlit("");
            reveal_strlit("list");
            reveal_strlit("add");
            reveal_strlit("start");
            reveal_strlit("resolve");
            reveal_strlit("remove");
        }
        if s.eq("") || s.eq("list") {
            Ok(Command::List)
        } else if s.eq("add") {
            Ok(Command::Add)
        } else if s.eq("start") {
            Ok(Command::Started)
        } else if s.eq("resolve") {
            Ok(Command::Resolve)
        } else if s.eq("remove") {
            Ok(Command::Remove)
        } else {
            Ok(Command::Unknown)
        }
    }
}

} // verus!
