use vstd::prelude::*;

use crate::task::{Task, TaskView};
use crate::text::str_eq;

verus! {

/// Some registered task carries this id.
pub open spec fn contains_task_id(tasks: Seq<TaskView>, id: Seq<char>) -> bool {
    exists|i: int| 0 <= i < tasks.len() && tasks[i].id == id
}

/// No two registered tasks share an id.
pub open spec fn distinct_ids(tasks: Seq<TaskView>) -> bool {
    forall|i: int, j: int| 0 <= i < j < tasks.len() ==> tasks[i].id != tasks[j].id
}

/// The collection of currently running tasks.
///
/// A task is inserted when it is dispatched and removed — by id,
/// unconditionally — when its run reaches a terminal state; in between,
/// snapshots serve the display.  Insertion order carries no meaning.  The
/// registry itself is single-threaded; callers that share one across
/// threads guard it with a lock and keep the critical sections free of I/O.
pub struct Registry {
    tasks: Vec<Task>,
}

impl View for Registry {
    type V = Seq<TaskView>;

    closed spec fn view(&self) -> Seq<TaskView> {
        self.tasks@.map_values(|t: Task| t@)
    }
}

impl Registry {
    /// The registry invariant: ids are unique, so removal by id is
    /// unambiguous.
    pub open spec fn inv(&self) -> bool {
        distinct_ids(self@)
    }

    pub fn new() -> (r: Registry)
        ensures
            r@ == Seq::<TaskView>::empty(),
            r.inv(),
    {
        let r = Registry { tasks: Vec::new() };
        proof {
            assert(r@ =~= Seq::<TaskView>::empty());
        }
        r
    }

    pub fn len(&self) -> (n: usize)
        ensures
            n == self@.len(),
    {
        self.tasks.len()
    }

    /// Whether a task with this id is currently registered.
    pub fn contains(&self, id: &str) -> (b: bool)
        ensures
            b == contains_task_id(self@, id@),
    {
        let mut i: usize = 0;
        while i < self.tasks.len()
            invariant
                i <= self.tasks.len(),
                forall|m: int| 0 <= m < i ==> self@[m].id != id@,
            decreases self.tasks.len() - i,
        {
            if str_eq(self.tasks[i].id.as_str(), id) {
                proof {
                    assert(self@[i as int].id == id@);
                }
                return true;
            }
            i = i + 1;
        }
        false
    }

    /// Registers a task.  A fresh id is appended; an id already present is
    /// refused and the registry is left untouched, so no id ever appears
    /// twice.
    pub fn insert(&mut self, t: Task) -> (ok: bool)
        requires
            old(self).inv(),
        ensures
            final(self).inv(),
            !contains_task_id(old(self)@, t@.id) ==> ok && final(self)@ == old(self)@.push(t@),
            contains_task_id(old(self)@, t@.id) ==> !ok && final(self)@ == old(self)@,
    {
        if self.contains(t.id.as_str()) {
            false
        } else {
            let ghost pre = self@;
            let ghost entry = t@;
            self.tasks.push(t);
            proof {
                assert(self@ =~= pre.push(entry));
                assert forall|i: int, j: int| 0 <= i < j < self@.len() implies self@[i].id
                    != self@[j].id by {
                    if j < pre.len() {
                    } else {
                        assert(self@[j] == entry);
                    }
                }
            }
            true
        }
    }

    /// Unregisters the task with this id, if any.  With the invariant, at
    /// most one entry can match, so afterwards the id is gone entirely;
    /// every other task is kept.  An id that is not present (the defensive
    /// case at the end of a run) changes nothing and returns false.
    pub fn remove_by_id(&mut self, id: &str) -> (found: bool)
        requires
            old(self).inv(),
        ensures
            final(self).inv(),
            !contains_task_id(old(self)@, id@) ==> !found && final(self)@ == old(self)@,
            contains_task_id(old(self)@, id@) ==> found && (exists|i: int|
                0 <= i < old(self)@.len() && old(self)@[i].id == id@ && final(self)@ == old(
                    self,
                )@.remove(i)),
            !contains_task_id(final(self)@, id@),
            forall|other: Seq<char>| #![auto]
                other != id@ ==> contains_task_id(final(self)@, other) == contains_task_id(
                    old(self)@,
                    other,
                ),
    {
        let ghost pre = self@;
        let mut i: usize = 0;
        while i < self.tasks.len()
            invariant
                self@ == pre,
                old(self)@ == pre,
                distinct_ids(pre),
                i <= self.tasks.len(),
                forall|m: int| 0 <= m < i ==> self@[m].id != id@,
            decreases self.tasks.len() - i,
        {
            if str_eq(self.tasks[i].id.as_str(), id) {
                let ghost hit = i as int;
                proof {
                    assert(pre[hit].id == id@);
                    assert(contains_task_id(pre, id@));
                }
                self.tasks.remove(i);
                proof {
                    assert(self@ =~= pre.remove(hit));
                    lemma_remove_keeps_distinct(pre, hit);
                    lemma_remove_id_gone(pre, hit, id@);
                    lemma_remove_keeps_others(pre, hit, id@);
                }
                return true;
            }
            i = i + 1;
        }
        false
    }

    /// A point-in-time copy of every registered task, for display.
    pub fn snapshot(&self) -> (v: Vec<Task>)
        ensures
            v@.map_values(|t: Task| t@) == self@,
    {
        let mut v: Vec<Task> = Vec::new();
        let mut i: usize = 0;
        while i < self.tasks.len()
            invariant
                i <= self.tasks.len(),
                v@.map_values(|t: Task| t@) =~= self@.take(i as int),
            decreases self.tasks.len() - i,
        {
            let ghost pre = v@.map_values(|t: Task| t@);
            v.push(self.tasks[i].clone());
            proof {
                assert(v@.map_values(|t: Task| t@) =~= pre.push(self@[i as int]));
                assert(self@.take(i + 1 as int) =~= self@.take(i as int).push(self@[i as int]));
            }
            i = i + 1;
        }
        proof {
            assert(self@.take(self@.len() as int) =~= self@);
        }
        v
    }
}

/// Round trip: a freshly registered task is found by its id until — and
/// only until — it is removed again; removing exactly its entry restores
/// the registry to what it was, so after every run completes nothing of the
/// task remains in any later snapshot.
pub proof fn lemma_insert_then_remove(tasks: Seq<TaskView>, t: TaskView, i: int)
    requires
        distinct_ids(tasks),
        !contains_task_id(tasks, t.id),
        0 <= i < tasks.push(t).len(),
        tasks.push(t)[i].id == t.id,
    ensures
        contains_task_id(tasks.push(t), t.id),
        i == tasks.len(),
        tasks.push(t).remove(i) == tasks,
{
    assert(tasks.push(t)[tasks.len() as int] == t);
    if i < tasks.len() {
        assert(tasks[i].id == t.id);
        assert(contains_task_id(tasks, t.id));
    }
    assert(tasks.push(t).remove(tasks.len() as int) =~= tasks);
}

/// Concurrent runs cannot collide in the filesystem: tasks with distinct
/// ids whose log files are named after their ids write to pairwise
/// distinct log files.
pub proof fn lemma_distinct_log_files(tasks: Seq<TaskView>, log_dir: Seq<char>)
    requires
        distinct_ids(tasks),
        forall|i: int|
            0 <= i < tasks.len() ==> tasks[i].log_file_path == crate::paths::log_path_model(
                log_dir,
                tasks[i].id,
            ),
    ensures
        forall|i: int, j: int|
            0 <= i < j < tasks.len() ==> tasks[i].log_file_path != tasks[j].log_file_path,
{
    assert forall|i: int, j: int| 0 <= i < j < tasks.len() implies tasks[i].log_file_path
        != tasks[j].log_file_path by {
        crate::paths::lemma_log_path_injective(log_dir, tasks[i].id, tasks[j].id);
    }
}

/// Removing an entry keeps the remaining ids distinct.
proof fn lemma_remove_keeps_distinct(tasks: Seq<TaskView>, i: int)
    requires
        distinct_ids(tasks),
        0 <= i < tasks.len(),
    ensures
        distinct_ids(tasks.remove(i)),
{
    let rest = tasks.remove(i);
    assert forall|a: int, b: int| 0 <= a < b < rest.len() implies rest[a].id != rest[b].id by {
        let oa = if a < i {
            a
        } else {
            a + 1
        };
        let ob = if b < i {
            b
        } else {
            b + 1
        };
        assert(rest[a] == tasks[oa]);
        assert(rest[b] == tasks[ob]);
    }
}

/// Removing the one entry that carries an id removes the id entirely.
proof fn lemma_remove_id_gone(tasks: Seq<TaskView>, i: int, id: Seq<char>)
    requires
        distinct_ids(tasks),
        0 <= i < tasks.len(),
        tasks[i].id == id,
    ensures
        !contains_task_id(tasks.remove(i), id),
{
    let rest = tasks.remove(i);
    assert forall|k: int| 0 <= k < rest.len() implies rest[k].id != id by {
        let ok = if k < i {
            k
        } else {
            k + 1
        };
        assert(rest[k] == tasks[ok]);
    }
}

/// Removing one entry leaves every other id's presence unchanged.
proof fn lemma_remove_keeps_others(tasks: Seq<TaskView>, i: int, id: Seq<char>)
    requires
        0 <= i < tasks.len(),
        tasks[i].id == id,
    ensures
        forall|other: Seq<char>| #![auto]
            other != id ==> contains_task_id(tasks.remove(i), other) == contains_task_id(
                tasks,
                other,
            ),
{
    let rest = tasks.remove(i);
    assert forall|other: Seq<char>| other != id implies contains_task_id(rest, other)
        == contains_task_id(tasks, other) by {
        if contains_task_id(tasks, other) {
            let k = choose|k: int| 0 <= k < tasks.len() && tasks[k].id == other;
            let nk = if k < i {
                k
            } else {
                k - 1
            };
            assert(rest[nk] == tasks[k]);
            assert(contains_task_id(rest, other));
        }
        if contains_task_id(rest, other) {
            let k = choose|k: int| 0 <= k < rest.len() && rest[k].id == other;
            let ok = if k < i {
                k
            } else {
                k + 1
            };
            assert(rest[k] == tasks[ok]);
            assert(contains_task_id(tasks, other));
        }
    }
}

} // verus!
