use crate::command::Command;
use crate::deadline::VagueTime;
use crate::names::{is_word, none_taken, pick_name};
use crate::render::{is_listing, line_of, shown, status_style, Style};
use crate::store::{distinct_ids, has_id, is_first_with_id, without_id, Data, Entry, Status};
use crate::timestamp::Timestamp;
use vstd::prelude::*;

verus! {

/// How many words `do_add` draws before it gives up on naming the new task.
pub const PICK_ATTEMPTS: usize = 10_000;

/// Why a command could not be carried out.
#[derive(Clone, Copy, Debug, PartialEq, Eq, Structural)]
pub enum Failure {
    /// No word was found that no task goes by yet.
    NoFreeName,
    /// The deadline names a date that does not exist.
    NoSuchDate,
}

/// What a command leaves to be done: the lines to print, in their order; whether the
/// list has changed and is to be written out; and the failure that the run then ends
/// with, if any.
#[derive(Debug, PartialEq, Eq)]
pub struct Outcome {
    pub lines: Vec<String>,
    pub save: bool,
    pub failure: Option<Failure>,
}

/// The line that announces a new task.
pub open spec fn adding_line(id: Seq<char>, task: Seq<char>) -> Seq<char> {
    "Adding "@ + id + " - '"@ + task + "'"@
}

/// The line that announces a change of state.
pub open spec fn resolving_line(id: Seq<char>) -> Seq<char> {
    "Resolving '"@ + id + "'"@
}

/// The line that says that no task goes by a name.
pub open spec fn not_found_line(id: Seq<char>) -> Seq<char> {
    "Could not find '"@ + id + "' to update, exiting.."@
}

/// The line that announces a removal.
pub open spec fn removing_line(id: Seq<char>) -> Seq<char> {
    "Removing '"@ + id + "'"@
}

/// The line that says that no task goes by a name that was to be removed.
pub open spec fn not_removed_line(id: Seq<char>) -> Seq<char> {
    "Could not find '"@ + id + "' to remove, exiting.."@
}

/// Whether `deadline` is what the wording `vague` comes to at some time that a clock
/// can show: no deadline where none was worded.
pub open spec fn meets(vague: Option<VagueTime>, deadline: Option<Timestamp>) -> bool {
    match vague {
        Some(v) => deadline is Some && exists|now: Timestamp|
            now.wf() && #[trigger] v.deadline_at(now) == deadline,
        None => deadline is None,
    }
}

/// Whether the wording `vague` comes to no date at some time that a clock can show.
pub open spec fn misses(vague: Option<VagueTime>) -> bool {
    vague matches Some(v) && exists|now: Timestamp|
        now.wf() && (#[trigger] v.deadline_at(now)) is None
}

/// No deadline, `Today`, `Evening` and the first 28 days of a month come to a date
/// whatever the clock shows; day 0 and the days after the 31st never do.
pub proof fn lemma_wordings_with_a_date()
    ensures
        !misses(None),
        !misses(Some(VagueTime::Today)),
        !misses(Some(VagueTime::Evening)),
        forall|d: u8| 1 <= d <= 28 ==> !#[trigger] misses(Some(VagueTime::Day(d))),
        forall|d: u8| d == 0 || d > 31 ==> #[trigger] misses(Some(VagueTime::Day(d))),
{
    let new_year = Timestamp {
        year: 2000,
        month: 1,
        day: 1,
        hour: 0,
        minute: 0,
        second: 0,
        nanosecond: 0,
        offset_seconds: 0,
    };
    assert(new_year.wf());
    assert forall|d: u8| d == 0 || d > 31 implies #[trigger] misses(Some(VagueTime::Day(d))) by {
        assert(VagueTime::Day(d).deadline_at(new_year) is None);
    }
}

/// What `do_list` leaves: the listing, and nothing to write.
pub open spec fn listed(data: Data, out: Outcome) -> bool {
    &&& out.failure is None
    &&& !out.save
    &&& is_listing(data.entries@, out.lines@)
}

/// Whether `entry` is a new task as `do_add` makes it from its arguments: not started,
/// under a word of `nouns` that no entry of `before` goes by.
pub open spec fn is_new_task(
    entry: Entry,
    before: Data,
    nouns: Seq<String>,
    task: String,
    priority: u8,
    deadline_vague: Option<VagueTime>,
) -> bool {
    &&& is_word(nouns, entry.id@)
    &&& !has_id(before.entries@, entry.id@)
    &&& entry.task == task
    &&& entry.priority == priority
    &&& entry.status == Status::NotStarted
    &&& meets(deadline_vague, entry.deadline)
}

/// What `do_add` leaves. Where a name and a date are found, the new task stands at the
/// end of the list, and the lines announce it and then list the tasks. Where no name is
/// found, nothing is printed; where the date does not exist, the announcement only. In
/// both cases the list is as it was.
pub open spec fn added(
    before: Data,
    after: Data,
    nouns: Seq<String>,
    task: String,
    priority: u8,
    deadline_vague: Option<VagueTime>,
    out: Outcome,
) -> bool {
    match out.failure {
        None => {
            &&& out.save
            &&& after.last_updated == before.last_updated
            &&& after.entries@.len() == before.entries@.len() + 1
            &&& after.entries@.drop_last() == before.entries@
            &&& is_new_task(after.entries@.last(), before, nouns, task, priority, deadline_vague)
            &&& out.lines@.len() >= 1
            &&& out.lines@[0]@ == adding_line(after.entries@.last().id@, task@)
            &&& is_listing(after.entries@, out.lines@.skip(1))
        },
        Some(Failure::NoFreeName) => {
            &&& !out.save
            &&& after == before
            &&& out.lines@.len() == 0
        },
        Some(Failure::NoSuchDate) => {
            &&& !out.save
            &&& after == before
            &&& misses(deadline_vague)
            &&& out.lines@.len() == 1
            &&& exists|id: Seq<char>|
                is_word(nouns, id) && !has_id(before.entries@, id) && out.lines@[0]@
                    == #[trigger] adding_line(id, task@)
        },
    }
}

/// What `do_set_progress` leaves. The first task that goes by the name `id` is in the
/// state `progress`, and the lines announce the change and then list the tasks. Where no
/// task goes by that name the list is as it was, a second line says so, and nothing is
/// to be written.
pub open spec fn progressed(
    before: Data,
    after: Data,
    id: Seq<char>,
    progress: Status,
    out: Outcome,
) -> bool {
    &&& out.failure is None
    &&& after.last_updated == before.last_updated
    &&& out.lines@.len() >= 1
    &&& out.lines@[0]@ == resolving_line(id)
    &&& if has_id(before.entries@, id) {
        &&& out.save
        &&& exists|i: int|
            is_first_with_id(before.entries@, id, i) && after.entries@
                == before.entries@.update(i, (Entry { status: progress, ..before.entries@[i] }))
        &&& is_listing(after.entries@, out.lines@.skip(1))
    } else {
        &&& !out.save
        &&& after == before
        &&& out.lines@.len() == 2
        &&& out.lines@[1]@ == not_found_line(id)
    }
}

/// What `do_remove` leaves. The tasks that went by the name `id` are gone, and the lines
/// announce the removal and then list the tasks. Where no task goes by that name the
/// list is as it was, a second line says so, and nothing is to be written.
pub open spec fn removed(before: Data, after: Data, id: Seq<char>, out: Outcome) -> bool {
    &&& out.failure is None
    &&& after.last_updated == before.last_updated
    &&& out.lines@.len() >= 1
    &&& out.lines@[0]@ == removing_line(id)
    &&& if has_id(before.entries@, id) {
        &&& out.save
        &&& after.entries@ == without_id(before.entries@, id)
        &&& is_listing(after.entries@, out.lines@.skip(1))
    } else {
        &&& !out.save
        &&& after == before
        &&& out.lines@.len() == 2
        &&& out.lines@[1]@ == not_removed_line(id)
    }
}

/// What an unknown command leaves: a hint, and the list as it was.
pub open spec fn refused(before: Data, after: Data, out: Outcome) -> bool {
    &&& out.failure is None
    &&& !out.save
    &&& after == before
    &&& out.lines@.len() == 1
    &&& out.lines@[0]@ == "Unrecognised argument, try todo --help"@
}

/// A task that `do_add` has added stands last in the list and in the listing: not
/// started, with the priority and the text that were given.
pub proof fn lemma_added_task_is_listed(
    before: Data,
    after: Data,
    nouns: Seq<String>,
    task: String,
    priority: u8,
    deadline_vague: Option<VagueTime>,
    out: Outcome,
)
    requires
        added(before, after, nouns, task, priority, deadline_vague, out),
        out.failure is None,
    ensures
        after.entries@.last().status == Status::NotStarted,
        after.entries@.last().priority == priority,
        after.entries@.last().task == task,
        out.lines@.len() == after.entries@.len() + 1,
        exists|today: Timestamp, task_painted: bool, status_painted: bool, deadline_painted: bool|
            today.wf() && out.lines@.last()@ == #[trigger] line_of(
                after.entries@.last().id@,
                after.entries@.last().priority_note(),
                shown(task@, Style::Bold, task_painted),
                shown(
                    "Not Started"@,
                    status_style(Status::NotStarted, after.entries@.last().urgent_on(today)),
                    status_painted,
                ),
                shown(
                    after.entries@.last().deadline_note(),
                    after.entries@.last().deadline_style(today),
                    deadline_painted,
                ),
            ),
{
    let entry = after.entries@.last();
    let listing = out.lines@.skip(1);
    assert(is_listing(after.entries@, listing));
    assert(listing.len() == after.entries@.len());
    let last = after.entries@.len() - 1;
    assert(after.entries@[last].shows_as(listing[last]@));
    assert(listing[last] == out.lines@.last());
    let today = choose|today: Timestamp|
        today.wf() && #[trigger] entry.shows_as_on(today, out.lines@.last()@);
    let (a, b, c) = choose|a: bool, b: bool, c: bool|
        out.lines@.last()@ == #[trigger] entry.line_text(today, a, b, c);
    assert(out.lines@.last()@ == line_of(
        entry.id@,
        entry.priority_note(),
        shown(task@, Style::Bold, a),
        shown(
            "Not Started"@,
            status_style(Status::NotStarted, entry.urgent_on(today)),
            b,
        ),
        shown(entry.deadline_note(), entry.deadline_style(today), c),
    ));
}

/// Two tasks added one after the other go by different names, and a list in which no
/// name stood twice is still such a list.
pub proof fn lemma_two_adds_differ(
    start: Data,
    between: Data,
    end: Data,
    nouns: Seq<String>,
    first_task: String,
    first_priority: u8,
    first_deadline: Option<VagueTime>,
    first_out: Outcome,
    second_task: String,
    second_priority: u8,
    second_deadline: Option<VagueTime>,
    second_out: Outcome,
)
    requires
        added(start, between, nouns, first_task, first_priority, first_deadline, first_out),
        first_out.failure is None,
        added(between, end, nouns, second_task, second_priority, second_deadline, second_out),
        second_out.failure is None,
    ensures
        end.entries@.len() == start.entries@.len() + 2,
        end.entries@[end.entries@.len() - 2] == between.entries@.last(),
        end.entries@[end.entries@.len() - 2].id@ != end.entries@.last().id@,
        distinct_ids(start.entries@) ==> distinct_ids(end.entries@),
{
    let n = start.entries@.len() as int;
    let first = between.entries@.last();
    let second = end.entries@.last();
    assert(end.entries@.drop_last()[n] == between.entries@[n]);
    assert(between.entries@[n].id@ == first.id@);
    assert forall|i: int| 0 <= i < n implies start.entries@[i] == #[trigger] end.entries@[i] by {
        assert(between.entries@.drop_last()[i] == start.entries@[i]);
        assert(end.entries@.drop_last()[i] == between.entries@[i]);
    }
    if distinct_ids(start.entries@) {
        assert forall|i: int, j: int| 0 <= i < j < end.entries@.len() implies (
        #[trigger] end.entries@[i]).id@ != (#[trigger] end.entries@[j]).id@ by {
            if i < n {
                assert(between.entries@.drop_last()[i] == start.entries@[i]);
                assert(end.entries@.drop_last()[i] == between.entries@[i]);
            }
            if j < n {
            } else if j == n {
                assert(between.entries@[i].id@ != first.id@);
            } else {
                assert(between.entries@[i].id@ != second.id@);
            }
        }
    }
}

/// The lines `head`, then `rest`.
fn headed(head: String, rest: Vec<String>) -> (lines: Vec<String>)
    ensures
        lines@.len() == rest@.len() + 1,
        lines@[0] == head,
        lines@.skip(1) == rest@,
{
    let mut lines: Vec<String> = Vec::new();
    lines.push(head);
    let mut rest = rest;
    let ghost tail = rest@;
    lines.append(&mut rest);
    assert(lines@.skip(1) =~= tail);
    lines
}

/// Lists the tasks.
pub fn do_list(data: &Data) -> (out: Outcome)
    requires
        data.wf(),
    ensures
        listed(*data, out),
{
    Outcome { lines: data.lines(), save: false, failure: None }
}

/// Adds a task under a name drawn from `nouns`, with the deadline that
/// `deadline_vague` comes to now.
pub fn do_add(
    data: &mut Data,
    nouns: &Vec<String>,
    task: String,
    priority: u8,
    deadline_vague: &Option<VagueTime>,
) -> (out: Outcome)
    requires
        old(data).wf(),
    ensures
        added(*old(data), *final(data), nouns@, task, priority, *deadline_vague, out),
        final(data).wf(),
        distinct_ids(old(data).entries@) ==> distinct_ids(final(data).entries@),
        nouns@.len() == 0 ==> out.failure == Some(Failure::NoFreeName),
        nouns@.len() > 0 && none_taken(old(data).entries@, nouns@) && !misses(*deadline_vague)
            ==> out.failure is None,
{
    let id = match pick_name(data, nouns, PICK_ATTEMPTS) {
        Some(id) => id,
        None => {
            return Outcome { lines: Vec::new(), save: false, failure: Some(Failure::NoFreeName) };
        },
    };
    let mut announcement = String::from_str("Adding ");
    announcement.append(id.as_str());
    announcement.append(" - '");
    announcement.append(task.as_str());
    announcement.append("'");
    let deadline = match deadline_vague {
        Some(vague) => match vague.concretise() {
            Some(t) => Some(t),
            None => {
                let mut lines: Vec<String> = Vec::new();
                lines.push(announcement);
                assert(lines@[0]@ == adding_line(id@, task@));
                return Outcome { lines, save: false, failure: Some(Failure::NoSuchDate) };
            },
        },
        None => None,
    };
    let new_entry = Entry::new(id, task, priority, deadline);
    data.add_entry(new_entry);
    assert(data.entries@.drop_last() =~= old(data).entries@);
    let lines = headed(announcement, data.lines());
    Outcome { lines, save: true, failure: None }
}

/// Puts the first task that goes by the name `id` into the state `progress`.
pub fn do_set_progress(data: &mut Data, id: &str, progress: Status) -> (out: Outcome)
    requires
        old(data).wf(),
    ensures
        progressed(*old(data), *final(data), id@, progress, out),
        final(data).wf(),
        distinct_ids(old(data).entries@) ==> distinct_ids(final(data).entries@),
{
    let mut announcement = String::from_str("Resolving '");
    announcement.append(id);
    announcement.append("'");
    if data.set_status(id, progress) {
        let lines = headed(announcement, data.lines());
        Outcome { lines, save: true, failure: None }
    } else {
        let mut complaint = String::from_str("Could not find '");
        complaint.append(id);
        complaint.append("' to update, exiting..");
        let mut lines: Vec<String> = Vec::new();
        lines.push(announcement);
        lines.push(complaint);
        Outcome { lines, save: false, failure: None }
    }
}

/// Removes every task that goes by the name `id`, if there is one.
pub fn do_remove(data: &mut Data, id: &str) -> (out: Outcome)
    requires
        old(data).wf(),
    ensures
        removed(*old(data), *final(data), id@, out),
        final(data).wf(),
        distinct_ids(old(data).entries@) ==> distinct_ids(final(data).entries@),
{
    let mut announcement = String::from_str("Removing '");
    announcement.append(id);
    announcement.append("'");
    if data.find_index(id).is_some() {
        data.remove_by_id(id);
        let lines = headed(announcement, data.lines());
        Outcome { lines, save: true, failure: None }
    } else {
        let mut complaint = String::from_str("Could not find '");
        complaint.append(id);
        complaint.append("' to remove, exiting..");
        let mut lines: Vec<String> = Vec::new();
        lines.push(announcement);
        lines.push(complaint);
        Outcome { lines, save: false, failure: None }
    }
}

/// Carries out a command on the list.
pub fn run(
    command: Command,
    arg: String,
    priority: u8,
    deadline: &Option<VagueTime>,
    data: &mut Data,
    nouns: &Vec<String>,
) -> (out: Outcome)
    requires
        old(data).wf(),
    ensures
        match command {
            Command::List => listed(*old(data), out) && *final(data) == *old(data),
            Command::Add => added(*old(data), *final(data), nouns@, arg, priority, *deadline, out),
            Command::Started => progressed(
                *old(data),
                *final(data),
                arg@,
                Status::Started,
                out,
            ),
            Command::Resolve => progressed(
                *old(data),
                *final(data),
                arg@,
                Status::Resolved,
                out,
            ),
            Command::Remove => removed(*old(data), *final(data), arg@, out),
            Command::Unknown => refused(*old(data), *final(data), out),
        },
        final(data).wf(),
        distinct_ids(old(data).entries@) ==> distinct_ids(final(data).entries@),
        command == Command::Add && nouns@.len() > 0 && none_taken(old(data).entries@, nouns@)
            && !misses(*deadline) ==> out.failure is None,
{
    match command {
        Command::List => do_list(data),
        Command::Add => do_add(data, nouns, arg, priority, deadline),
        Command::Started => do_set_progress(data, arg.as_str(), Status::Started),
        Command::Resolve => do_set_progress(data, arg.as_str(), Status::Resolved),
        Command::Remove => do_remove(data, arg.as_str()),
        Command::Unknown => {
            let mut lines: Vec<String> = Vec::new();
            lines.push(String::from_str("Unrecognised argument, try todo --help"));
            Outcome { lines, save: false, failure: None }
        },
    }
}

} // verus!
