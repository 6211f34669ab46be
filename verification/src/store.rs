use crate::timestamp::{now_local, Timestamp};
use vstd::prelude::*;

verus! {

/// How far a task has come.
#[derive(Clone, Copy, Debug, PartialEq, Eq, Structural)]
pub enum Status {
    NotStarted,
    Started,
    Resolved,
}

impl Status {
    /// Whether a task in this state can still be urgent: any but a resolved one.
    pub fn is_urgent(&self) -> (r: bool)
        ensures
            r == (*self != Status::Resolved),
    {
        match self {
            Status::NotStarted => true,
            Status::Started => true,
            Status::Resolved => false,
        }
    }
}

/// One task.
#[derive(Clone, Debug, PartialEq, Eq)]
pub struct Entry {
    /// The name by which the user refers to the task.
    pub id: String,
    pub task: String,
    pub deadline: Option<Timestamp>,
    pub status: Status,
    pub priority: u8,
}

impl Entry {
    /// The deadline, if there is one, is a moment that exists.
    pub open spec fn wf(&self) -> bool {
        self.deadline matches Some(t) ==> t.wf()
    }

    /// A task that has not been started.
    pub fn new(id: String, task: String, priority: u8, mb_deadline: Option<Timestamp>) -> (r: Entry)
        ensures
            r == (Entry { id, task, deadline: mb_deadline, status: Status::NotStarted, priority }),
    {
        Entry { id, task, deadline: mb_deadline, priority, status: Status::NotStarted }
    }
}

/// Whether some entry goes by the name `id`.
pub open spec fn has_id(entries: Seq<Entry>, id: Seq<char>) -> bool {
    exists|i: int| 0 <= i < entries.len() && (#[trigger] entries[i]).id@ == id
}

/// Whether `i` is the place of the first entry that goes by the name `id`.
pub open spec fn is_first_with_id(entries: Seq<Entry>, id: Seq<char>, i: int) -> bool {
    &&& 0 <= i < entries.len()
    &&& entries[i].id@ == id
    &&& forall|j: int| 0 <= j < i ==> (#[trigger] entries[j]).id@ != id
}

/// Whether no two entries go by the same name.
pub open spec fn distinct_ids(entries: Seq<Entry>) -> bool {
    forall|i: int, j: int|
        0 <= i < j < entries.len() ==> (#[trigger] entries[i]).id@ != (#[trigger] entries[j]).id@
}

/// The entries that do not go by the name `id`, in their order.
pub open spec fn without_id(entries: Seq<Entry>, id: Seq<char>) -> Seq<Entry> {
    entries.filter(|e: Entry| e.id@ != id)
}

/// What is left without the name `id` holds entries of the list only, none of them by
/// that name, and no name twice if the list held none twice; a list that lacks the name
/// is left as it is.
pub proof fn lemma_without_id(entries: Seq<Entry>, id: Seq<char>)
    ensures
        !has_id(without_id(entries, id), id),
        forall|i: int|
            0 <= i < without_id(entries, id).len() ==> entries.contains(
                #[trigger] without_id(entries, id)[i],
            ),
        distinct_ids(entries) ==> distinct_ids(without_id(entries, id)),
        !has_id(entries, id) ==> without_id(entries, id) == entries,
    decreases entries.len(),
{
    reveal(Seq::filter);
    let kept = without_id(entries, id);
    if entries.len() > 0 {
        let rest = entries.drop_last();
        let last = entries.last();
        let kept_rest = without_id(rest, id);
        lemma_without_id(rest, id);
        assert forall|i: int| 0 <= i < kept.len() implies entries.contains(#[trigger] kept[i]) by {
            if i < kept_rest.len() {
                assert(rest.contains(kept_rest[i]));
                let k = choose|k: int| 0 <= k < rest.len() && rest[k] == kept_rest[i];
                assert(entries[k] == kept[i]);
            } else {
                assert(entries[entries.len() - 1] == kept[i]);
            }
        }
        if distinct_ids(entries) {
            assert forall|i: int, j: int| 0 <= i < j < rest.len() implies (#[trigger] rest[i]).id@
                != (#[trigger] rest[j]).id@ by {
                assert(rest[i] == entries[i] && rest[j] == entries[j]);
            }
            assert forall|i: int, j: int| 0 <= i < j < kept.len() implies (#[trigger] kept[i]).id@
                != (#[trigger] kept[j]).id@ by {
                if j == kept_rest.len() {
                    assert(rest.contains(kept_rest[i]));
                    let k = choose|k: int| 0 <= k < rest.len() && rest[k] == kept_rest[i];
                    assert(entries[k] == kept[i]);
                    assert(entries[entries.len() - 1] == kept[j]);
                } else {
                    assert(kept_rest[i] == kept[i] && kept_rest[j] == kept[j]);
                }
            }
        }
        if !has_id(entries, id) {
            assert(last == entries[entries.len() - 1]);
            assert forall|i: int| 0 <= i < rest.len() implies (#[trigger] rest[i]).id@ != id by {
                assert(rest[i] == entries[i]);
            }
            assert(kept =~= entries);
        }
        if has_id(kept, id) {
            let i = choose|i: int| 0 <= i < kept.len() && (#[trigger] kept[i]).id@ == id;
            if i < kept_rest.len() {
                assert(kept_rest[i] == kept[i]);
            }
        }
    }
}

/// The task list: the entries in the order in which they were added, and the time at
/// which the list was begun.
#[derive(Clone, Debug, PartialEq, Eq)]
pub struct Data {
    pub entries: Vec<Entry>,
    pub last_updated: Timestamp,
}

impl Data {
    /// Every entry is well formed, and so is the time stamp.
    pub open spec fn wf(&self) -> bool {
        &&& self.last_updated.wf()
        &&& forall|i: int| 0 <= i < self.entries@.len() ==> (#[trigger] self.entries@[i]).wf()
    }

    /// An empty list, begun now.
    pub fn new() -> (r: Data)
        ensures
            r.entries@.len() == 0,
            r.wf(),
    {
        Data { entries: Vec::new(), last_updated: now_local() }
    }

    /// Puts `entry` at the end of the list.
    pub fn add_entry(&mut self, entry: Entry)
        ensures
            final(self).entries@ == old(self).entries@.push(entry),
            final(self).last_updated == old(self).last_updated,
            old(self).wf() && entry.wf() ==> final(self).wf(),
            distinct_ids(old(self).entries@) && !has_id(old(self).entries@, entry.id@)
                ==> distinct_ids(final(self).entries@),
    {
        self.entries.push(entry);
    }

    /// The place of the first entry that goes by the name `id`.
    pub fn find_index(&self, id: &str) -> (r: Option<usize>)
        ensures
            match r {
                Some(i) => is_first_with_id(self.entries@, id@, i as int),
                None => !has_id(self.entries@, id@),
            },
    {
        let mut i: usize = 0;
        while i < self.entries.len()
            invariant
                i <= self.entries@.len(),
                forall|j: int| 0 <= j < i ==> (#[trigger] self.entries@[j]).id@ != id@,
            decreases self.entries@.len() - i,
        {
            if self.entries[i].id.as_str().eq(id) {
                return Some(i);
            }
            i += 1;
        }
        None
    }

    /// The first entry that goes by the name `id`.
    pub fn find_entry(&self, id: &str) -> (r: Option<&Entry>)
        ensures
            match r {
                Some(e) => exists|i: int|
                    is_first_with_id(self.entries@, id@, i) && *e == self.entries@[i],
                None => !has_id(self.entries@, id@),
            },
    {
        match self.find_index(id) {
            Some(i) => Some(&self.entries[i]),
            None => None,
        }
    }

    /// The first entry that goes by the name `id`, to be changed in place.
    pub fn find_entry_mut(&mut self, id: &str) -> (r: Option<&mut Entry>)
        ensures
            match r {
                Some(e) => exists|i: int|
                    is_first_with_id(old(self).entries@, id@, i) && *e == old(self).entries@[i]
                        && final(self).entries@ == old(self).entries@.update(i, *final(e)),
                None => !has_id(old(self).entries@, id@) && *final(self) == *old(self),
            },
            final(self).last_updated == old(self).last_updated,
    {
        match self.find_index(id) {
            Some(i) => Some(&mut self.entries[i]),
            None => None,
        }
    }

    /// Gives the first entry that goes by the name `id` the state `status`, and says
    /// whether there was such an entry.
    pub fn set_status(&mut self, id: &str, status: Status) -> (found: bool)
        ensures
            found == has_id(old(self).entries@, id@),
            found ==> exists|i: int|
                is_first_with_id(old(self).entries@, id@, i) && final(self).entries@ == old(
                    self,
                ).entries@.update(i, (Entry { status, ..old(self).entries@[i] })),
            !found ==> *final(self) == *old(self),
            final(self).last_updated == old(self).last_updated,
            old(self).wf() ==> final(self).wf(),
            distinct_ids(old(self).entries@) ==> distinct_ids(final(self).entries@),
    {
        match self.find_entry_mut(id) {
            Some(entry) => {
                entry.status = status;
                true
            },
            None => false,
        }
    }

    /// Takes out every entry that goes by the name `id`.
    pub fn remove_by_id(&mut self, id: &str)
        ensures
            final(self).entries@ == without_id(old(self).entries@, id@),
            final(self).last_updated == old(self).last_updated,
            !has_id(final(self).entries@, id@),
            old(self).wf() ==> final(self).wf(),
            distinct_ids(old(self).entries@) ==> distinct_ids(final(self).entries@),
    {
        proof {
            lemma_without_id(old(self).entries@, id@);
        }
        let mut i: usize = 0;
        // `seen` counts the entries of the old list that have been looked at.
        let ghost mut seen: int = 0;
        while i < self.entries.len()
            invariant
                0 <= i <= self.entries@.len(),
                0 <= seen <= old(self).entries@.len(),
                self.last_updated == old(self).last_updated,
                self.entries@.len() - i == old(self).entries@.len() - seen,
                self.entries@.take(i as int) == without_id(old(self).entries@.take(seen), id@),
                self.entries@.skip(i as int) == old(self).entries@.skip(seen),
            decreases self.entries@.len() - i,
        {
            proof {
                let before = old(self).entries@;
                assert(before.take(seen + 1).drop_last() =~= before.take(seen));
                assert(before.take(seen + 1).last() == before[seen]);
                assert(self.entries@[i as int] == self.entries@.skip(i as int)[0]);
                reveal(Seq::filter);
            }
            if self.entries[i].id.as_str().eq(id) {
                let ghost shown = self.entries@;
                self.entries.remove(i);
                proof {
                    assert(self.entries@.take(i as int) =~= shown.take(i as int));
                    assert(self.entries@.skip(i as int) =~= shown.skip(i as int).skip(1));
                    assert(old(self).entries@.skip(seen).skip(1) =~= old(self).entries@.skip(
                        seen + 1,
                    ));
                }
            } else {
                proof {
                    assert(self.entries@.take(i + 1) =~= self.entries@.take(i as int).push(
                        self.entries@[i as int],
                    ));
                    assert(self.entries@.skip(i as int).skip(1) =~= self.entries@.skip(i + 1));
                    assert(old(self).entries@.skip(seen).skip(1) =~= old(self).entries@.skip(
                        seen + 1,
                    ));
                }
                i += 1;
            }
            proof {
                seen = seen + 1;
            }
        }
        proof {
            assert(self.entries@.take(i as int) =~= self.entries@);
            assert(old(self).entries@.take(seen) =~= old(self).entries@);
        }
    }
}

} // verus!
