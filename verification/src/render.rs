use crate::store::{Data, Entry, Status};
use crate::text::{decimal, decimal_string};
use crate::timestamp::{format_deadline, now_local, Timestamp};
use colored::Colorize;
use vstd::prelude::*;

verus! {

/// The ways in which a piece of a line can stand out on a terminal.
#[derive(Clone, Copy, Debug, PartialEq, Eq, Structural)]
pub enum Style {
    Bold,
    Dimmed,
    Red,
    Green,
    Yellow,
}

/// A piece of a line and the style it is to be shown in.
#[derive(Debug, PartialEq, Eq)]
pub struct Styled {
    pub text: String,
    pub style: Style,
}

/// The number by which a terminal knows a style.
pub open spec fn style_code(style: Style) -> Seq<char> {
    match style {
        Style::Bold => seq!['1'],
        Style::Dimmed => seq!['2'],
        Style::Red => seq!['3', '1'],
        Style::Green => seq!['3', '2'],
        Style::Yellow => seq!['3', '3'],
    }
}

/// The escape sequence that switches a style on.
pub open spec fn style_on(style: Style) -> Seq<char> {
    seq!['\x1b', '['] + style_code(style) + seq!['m']
}

/// The escape sequence that switches every style off.
pub open spec fn style_off() -> Seq<char> {
    seq!['\x1b', '[', '0', 'm']
}

/// `text`, with `on` put behind every place where `text` itself switches the styles
/// off, so that the style holds to the end of the text.
pub open spec fn resumed(text: Seq<char>, on: Seq<char>) -> Seq<char>
    decreases text.len(),
{
    if text.len() < 4 {
        text
    } else if text.take(4) == style_off() {
        style_off() + on + resumed(text.skip(4), on)
    } else {
        seq![text[0]] + resumed(text.skip(1), on)
    }
}

/// What a terminal is sent to show `text` in a style.
pub open spec fn styled(style: Style, text: Seq<char>) -> Seq<char> {
    style_on(style) + resumed(text, style_on(style)) + style_off()
}

/// `text` as it is, or as a terminal is sent it to show it in a style.
pub open spec fn shown(text: Seq<char>, style: Style, painted: bool) -> Seq<char> {
    if painted {
        styled(style, text)
    } else {
        text
    }
}

/// The words for a state.
pub open spec fn status_label(status: Status) -> Seq<char> {
    match status {
        Status::NotStarted => "Not Started"@,
        Status::Started => "Started"@,
        Status::Resolved => "Resolved"@,
    }
}

/// The style for a state: red while the task is urgent, green once it is resolved.
pub open spec fn status_style(status: Status, urgent: bool) -> Style {
    match status {
        Status::NotStarted => if urgent {
            Style::Red
        } else {
            Style::Dimmed
        },
        Status::Started => if urgent {
            Style::Red
        } else {
            Style::Yellow
        },
        Status::Resolved => Style::Green,
    }
}

/// A line of the listing, put together from its pieces.
pub open spec fn line_of(
    id: Seq<char>,
    priority: Seq<char>,
    task: Seq<char>,
    status: Seq<char>,
    deadline: Seq<char>,
) -> Seq<char> {
    "Task: "@ + id + " "@ + priority + " | "@ + task + " | "@ + status + " "@ + deadline
}

/// colored's `bold` on a `&str`, and the text that the result displays as. Where
/// colored finds that the environment wants no styles, that is `text` itself; else it is
/// what a terminal is sent to show `text` in bold, as `styled` spells it out.
#[verifier::external_body]
fn paint_bold(text: &str) -> (r: String)
    ensures
        r@ == text@ || r@ == styled(Style::Bold, text@),
{
    text.bold().to_string()
}

/// colored's `dimmed` on a `&str`, and the text that the result displays as. Where
/// colored finds that the environment wants no styles, that is `text` itself; else it is
/// what a terminal is sent to show `text` dimmed, as `styled` spells it out.
#[verifier::external_body]
fn paint_dimmed(text: &str) -> (r: String)
    ensures
        r@ == text@ || r@ == styled(Style::Dimmed, text@),
{
    text.dimmed().to_string()
}

/// colored's `red` on a `&str`, and the text that the result displays as. Where
/// colored finds that the environment wants no styles, that is `text` itself; else it is
/// what a terminal is sent to show `text` in red, as `styled` spells it out.
#[verifier::external_body]
fn paint_red(text: &str) -> (r: String)
    ensures
        r@ == text@ || r@ == styled(Style::Red, text@),
{
    text.red().to_string()
}

/// colored's `green` on a `&str`, and the text that the result displays as. Where
/// colored finds that the environment wants no styles, that is `text` itself; else it is
/// what a terminal is sent to show `text` in green, as `styled` spells it out.
#[verifier::external_body]
fn paint_green(text: &str) -> (r: String)
    ensures
        r@ == text@ || r@ == styled(Style::Green, text@),
{
    text.green().to_string()
}

/// colored's `yellow` on a `&str`, and the text that the result displays as. Where
/// colored finds that the environment wants no styles, that is `text` itself; else it is
/// what a terminal is sent to show `text` in yellow, as `styled` spells it out.
#[verifier::external_body]
fn paint_yellow(text: &str) -> (r: String)
    ensures
        r@ == text@ || r@ == styled(Style::Yellow, text@),
{
    text.yellow().to_string()
}

/// Puts a line of the listing together from its pieces.
pub fn join_line(id: &str, priority: &str, task: &str, status: &str, deadline: &str) -> (r: String)
    ensures
        r@ == line_of(id@, priority@, task@, status@, deadline@),
{
    let mut line = String::from_str("Task: ");
    line.append(id);
    line.append(" ");
    line.append(priority);
    line.append(" | ");
    line.append(task);
    line.append(" | ");
    line.append(status);
    line.append(" ");
    line.append(deadline);
    line
}

impl Styled {
    /// The text as the terminal is to be sent it.
    pub fn paint(&self) -> (r: String)
        ensures
            r@ == self.text@ || r@ == styled(self.style, self.text@),
    {
        match self.style {
            Style::Bold => paint_bold(self.text.as_str()),
            Style::Dimmed => paint_dimmed(self.text.as_str()),
            Style::Red => paint_red(self.text.as_str()),
            Style::Green => paint_green(self.text.as_str()),
            Style::Yellow => paint_yellow(self.text.as_str()),
        }
    }
}

impl Status {
    /// The words for the state, and the style to show them in.
    pub fn to_colored(&self, urgent: bool) -> (r: Styled)
        ensures
            r.text@ == status_label(*self),
            r.style == status_style(*self, urgent),
    {
        match self {
            Status::NotStarted => Styled {
                text: String::from_str("Not Started"),
                style: if urgent {
                    Style::Red
                } else {
                    Style::Dimmed
                },
            },
            Status::Started => Styled {
                text: String::from_str("Started"),
                style: if urgent {
                    Style::Red
                } else {
                    Style::Yellow
                },
            },
            Status::Resolved => Styled { text: String::from_str("Resolved"), style: Style::Green },
        }
    }
}

impl Entry {
    /// Whether the task is urgent on the date of `today`: it has a deadline on that date
    /// or an earlier one, and is not resolved.
    pub open spec fn urgent_on(&self, today: Timestamp) -> bool {
        &&& self.deadline matches Some(t)
        &&& t.date_on_or_before(&today)
        &&& self.status != Status::Resolved
    }

    /// The priority as the listing shows it: nothing for priority 0.
    pub open spec fn priority_note(&self) -> Seq<char> {
        if self.priority > 0 {
            "Priority: "@ + decimal(self.priority as nat)
        } else {
            Seq::empty()
        }
    }

    /// The deadline as the listing shows it: nothing where there is none.
    pub open spec fn deadline_note(&self) -> Seq<char> {
        match self.deadline {
            Some(t) => t.deadline_note(),
            None => Seq::empty(),
        }
    }

    /// The style of the deadline: red on an urgent task.
    pub open spec fn deadline_style(&self, today: Timestamp) -> Style {
        if self.urgent_on(today) {
            Style::Red
        } else {
            Style::Dimmed
        }
    }

    /// The line that shows the task on the date of `today`. Each of the last three
    /// arguments says whether the terminal is sent a style for that piece: the task in
    /// bold, the state, the deadline.
    pub open spec fn line_text(
        &self,
        today: Timestamp,
        task_painted: bool,
        status_painted: bool,
        deadline_painted: bool,
    ) -> Seq<char> {
        line_of(
            self.id@,
            self.priority_note(),
            shown(self.task@, Style::Bold, task_painted),
            shown(
                status_label(self.status),
                status_style(self.status, self.urgent_on(today)),
                status_painted,
            ),
            shown(self.deadline_note(), self.deadline_style(today), deadline_painted),
        )
    }

    /// Whether `line` shows the task on the date of `today`, whatever the environment
    /// makes of the styles.
    pub open spec fn shows_as_on(&self, today: Timestamp, line: Seq<char>) -> bool {
        exists|task_painted: bool, status_painted: bool, deadline_painted: bool|
            line == #[trigger] self.line_text(
                today,
                task_painted,
                status_painted,
                deadline_painted,
            )
    }

    /// Whether `line` shows the task on some date that a clock can show.
    pub open spec fn shows_as(&self, line: Seq<char>) -> bool {
        exists|today: Timestamp| today.wf() && #[trigger] self.shows_as_on(today, line)
    }

    /// Exec form of `urgent_on`.
    pub fn is_urgent_on(&self, today: &Timestamp) -> (r: bool)
        ensures
            r == self.urgent_on(*today),
    {
        let deadline_urgent = match &self.deadline {
            Some(t) => t.is_on_or_before(today),
            None => false,
        };
        deadline_urgent && self.status.is_urgent()
    }

    /// The priority as the listing shows it.
    pub fn priority_string(&self) -> (r: String)
        ensures
            r@ == self.priority_note(),
    {
        if self.priority > 0 {
            let mut note = String::from_str("Priority: ");
            note.append(decimal_string(self.priority).as_str());
            note
        } else {
            String::new()
        }
    }

    /// The deadline as the listing shows it, and the style to show it in.
    pub fn deadline_colored(&self, urgent: bool) -> (r: Styled)
        requires
            self.wf(),
        ensures
            r.text@ == self.deadline_note(),
            r.style == if urgent {
                Style::Red
            } else {
                Style::Dimmed
            },
    {
        let text = match &self.deadline {
            Some(t) => format_deadline(t, "\n\t Deadline: %d-%m %H:%M"),
            None => String::new(),
        };
        Styled {
            text,
            style: if urgent {
                Style::Red
            } else {
                Style::Dimmed
            },
        }
    }

    /// The line that shows the task on the date of `today`.
    pub fn format_on(&self, today: &Timestamp) -> (line: String)
        requires
            self.wf(),
        ensures
            self.shows_as_on(*today, line@),
    {
        let urgent = self.is_urgent_on(today);
        let deadline = self.deadline_colored(urgent);
        let deadline_str = deadline.paint();
        let priority_str = self.priority_string();
        let status = self.status.to_colored(urgent);
        let status_str = status.paint();
        let task_str = paint_bold(self.task.as_str());
        let line = join_line(
            self.id.as_str(),
            priority_str.as_str(),
            task_str.as_str(),
            status_str.as_str(),
            deadline_str.as_str(),
        );
        proof {
            let a = task_str@ != self.task@;
            let b = status_str@ != status.text@;
            let c = deadline_str@ != deadline.text@;
            assert(line@ == self.line_text(*today, a, b, c));
        }
        line
    }

    /// The line that shows the task today, by this machine's clock.
    pub fn format(&self) -> (line: String)
        requires
            self.wf(),
        ensures
            self.shows_as(line@),
    {
        let today = now_local();
        self.format_on(&today)
    }
}

/// Whether `lines` is the listing of `entries` on the date of `today`: one line for each
/// entry, in their order; for an empty list, one line that says so.
pub open spec fn is_listing_on(entries: Seq<Entry>, today: Timestamp, lines: Seq<String>) -> bool {
    if entries.len() == 0 {
        lines.len() == 1 && lines[0]@ == "Nothing todo, woooooo!"@
    } else {
        &&& lines.len() == entries.len()
        &&& forall|i: int|
            0 <= i < entries.len() ==> (#[trigger] entries[i]).shows_as_on(today, lines[i]@)
    }
}

/// Whether `lines` is the listing of `entries` on some date that a clock can show.
pub open spec fn is_listing(entries: Seq<Entry>, lines: Seq<String>) -> bool {
    exists|today: Timestamp| today.wf() && #[trigger] is_listing_on(entries, today, lines)
}

impl Data {
    /// The listing: one line for each entry, in their order, as shown on the date of
    /// `today`; for an empty list, one line that says so.
    pub fn lines_on(&self, today: &Timestamp) -> (lines: Vec<String>)
        requires
            self.wf(),
        ensures
            is_listing_on(self.entries@, *today, lines@),
    {
        let mut lines: Vec<String> = Vec::new();
        if self.entries.len() == 0 {
            lines.push(String::from_str("Nothing todo, woooooo!"));
            return lines;
        }
        let mut i: usize = 0;
        while i < self.entries.len()
            invariant
                self.wf(),
                i <= self.entries@.len(),
                lines@.len() == i,
                forall|j: int|
                    0 <= j < i ==> (#[trigger] self.entries@[j]).shows_as_on(*today, lines@[j]@),
            decreases self.entries@.len() - i,
        {
            lines.push(self.entries[i].format_on(today));
            i += 1;
        }
        lines
    }

    /// The listing as of today, by this machine's clock.
    pub fn lines(&self) -> (lines: Vec<String>)
        requires
            self.wf(),
        ensures
            is_listing(self.entries@, lines@),
    {
        let today = now_local();
        self.lines_on(&today)
    }
}

} // verus!
