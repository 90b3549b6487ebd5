use vstd::prelude::*;
use crate::task::{tasks_view, Task, TaskView};

verus! {

/// Why the store refused an operation.
#[derive(PartialEq, Eq, Structural, Clone, Copy, Debug)]
pub enum StoreError {
    /// Every identifier an `i32` can hold has been given out.
    IdsExhausted,
}

/// A task store held in memory with the semantics of the persistent one:
/// tasks are listed in the order they were stored, identifiers are given out
/// in increasing order, and names are matched exactly. Two writes exist for
/// the completed flag: `toggle_task` flips it (the interactive list's Enter),
/// `complete_task` sets it (the command line's `done`).
pub struct MemoryStore {
    tasks: Vec<Task>,
    last_id: i32,
}

/// The mathematical value of a store: its tasks, in order, and the last
/// identifier it gave out.
pub struct StoreView {
    pub tasks: Seq<TaskView>,
    pub last_id: int,
}

impl View for MemoryStore {
    type V = StoreView;

    closed spec fn view(&self) -> StoreView {
        StoreView { tasks: tasks_view(self.tasks@), last_id: self.last_id as int }
    }
}

/// The tasks of `s` whose name is exactly `name`, in order.
pub open spec fn named(s: Seq<TaskView>, name: Seq<char>) -> Seq<TaskView>
    decreases s.len(),
{
    if s.len() == 0 {
        Seq::empty()
    } else if s.last().name == name {
        named(s.drop_last(), name).push(s.last())
    } else {
        named(s.drop_last(), name)
    }
}

/// `s` with the completed flag of every task named `name` flipped.
pub open spec fn toggled(s: Seq<TaskView>, name: Seq<char>) -> Seq<TaskView> {
    Seq::new(
        s.len(),
        |i: int|
            if s[i].name == name {
                TaskView { checked: !s[i].checked, ..s[i] }
            } else {
                s[i]
            },
    )
}

/// `s` with every task named `name` marked completed.
pub open spec fn completed(s: Seq<TaskView>, name: Seq<char>) -> Seq<TaskView> {
    Seq::new(
        s.len(),
        |i: int|
            if s[i].name == name {
                TaskView { checked: true, ..s[i] }
            } else {
                s[i]
            },
    )
}

/// The store after storing a new task named `name`: it comes last, with the
/// next identifier, not completed.
pub open spec fn inserted(s: StoreView, name: Seq<char>) -> StoreView {
    StoreView {
        tasks: s.tasks.push(TaskView { id: (s.last_id + 1) as i32, name, checked: false }),
        last_id: s.last_id + 1,
    }
}

/// Toggling by a name and listing again shows the opposite completed flag on
/// every task with that name and the same flag on every other task, in the
/// same order, with identifiers and names unchanged.
pub proof fn lemma_toggle_flips_named(s: StoreView, name: Seq<char>)
    ensures
        toggled(s.tasks, name).len() == s.tasks.len(),
        forall|i: int|
            0 <= i < s.tasks.len() ==> {
                let t = #[trigger] toggled(s.tasks, name)[i];
                &&& t.id == s.tasks[i].id
                &&& t.name == s.tasks[i].name
                &&& t.checked == if s.tasks[i].name == name {
                    !s.tasks[i].checked
                } else {
                    s.tasks[i].checked
                }
            },
{
}

/// Storing a task named `name` and listing again shows exactly one task more
/// with that name: it comes last and is not completed. Every earlier task is
/// listed as before.
pub proof fn lemma_insert_adds_one(s: StoreView, name: Seq<char>)
    ensures
        inserted(s, name).tasks.len() == s.tasks.len() + 1,
        inserted(s, name).tasks.take(s.tasks.len() as int) == s.tasks,
        inserted(s, name).tasks.last().name == name,
        !inserted(s, name).tasks.last().checked,
        named(inserted(s, name).tasks, name).len() == named(s.tasks, name).len() + 1,
        named(inserted(s, name).tasks, name).drop_last() == named(s.tasks, name),
        named(inserted(s, name).tasks, name).last() == inserted(s, name).tasks.last(),
{
    let after = inserted(s, name).tasks;
    assert(after.drop_last() =~= s.tasks);
    assert(after.take(s.tasks.len() as int) =~= s.tasks);
}

/// A search by a name that no task has finds nothing.
pub proof fn lemma_search_without_match_is_empty(s: Seq<TaskView>, name: Seq<char>)
    requires
        forall|i: int| 0 <= i < s.len() ==> #[trigger] s[i].name != name,
    ensures
        named(s, name) == Seq::<TaskView>::empty(),
    decreases s.len(),
{
    if s.len() > 0 {
        let rest = s.drop_last();
        assert forall|i: int| 0 <= i < rest.len() implies #[trigger] rest[i].name != name by {
            assert(s[i].name != name);
        }
        lemma_search_without_match_is_empty(rest, name);
        assert(s[s.len() - 1].name != name);
    }
}

/// Identifiers are positive and increase along the list.
pub open spec fn ids_increasing(s: Seq<TaskView>) -> bool {
    &&& forall|i: int| 0 <= i < s.len() ==> 0 < #[trigger] s[i].id
    &&& forall|i: int, j: int| 0 <= i < j < s.len() ==> #[trigger] s[i].id < #[trigger] s[j].id
}

impl StoreView {
    /// Identifiers are positive, increase along the list, and none exceeds the
    /// last one given out.
    pub open spec fn wf(self) -> bool {
        &&& 0 <= self.last_id
        &&& ids_increasing(self.tasks)
        &&& forall|i: int| 0 <= i < self.tasks.len() ==> #[trigger] self.tasks[i].id <= self.last_id
    }
}

impl MemoryStore {
    /// An empty store.
    pub fn new() -> (r: Self)
        ensures
            r@.tasks == Seq::<TaskView>::empty(),
            r@.last_id == 0,
            r@.wf(),
    {
        MemoryStore { tasks: Vec::new(), last_id: 0 }
    }

    /// A store holding `tasks`, such as rows read back from elsewhere, whose
    /// last identifier given out is that of the last task. There is none where
    /// an identifier is not positive or the identifiers do not increase.
    pub fn from_tasks(tasks: Vec<Task>) -> (r: Option<Self>)
        ensures
            r is Some <==> ids_increasing(tasks_view(tasks@)),
            r matches Some(st) ==> st@.wf() && st@.tasks == tasks_view(tasks@) && st@.last_id == (
            if tasks@.len() == 0 {
                0
            } else {
                tasks@.last().id as int
            }),
    {
        let ghost v = tasks_view(tasks@);
        let mut last: i32 = 0;
        let mut i: usize = 0;
        while i < tasks.len()
            invariant
                i <= tasks.len(),
                v == tasks_view(tasks@),
                0 <= last,
                i == 0 ==> last == 0,
                i > 0 ==> last == tasks@[i - 1].id,
                forall|j: int| 0 <= j < i ==> 0 < #[trigger] v[j].id <= last,
                forall|j: int, k: int| 0 <= j < k < i ==> #[trigger] v[j].id < #[trigger] v[k].id,
            decreases tasks.len() - i,
        {
            assert(v[i as int].id == tasks@[i as int].id);
            if tasks[i].id <= last {
                proof {
                    if i == 0 {
                        assert(v[0].id <= 0);
                    } else {
                        let j = i - 1;
                        assert(v[j].id == tasks@[j].id);
                        assert(v[j].id >= v[i as int].id);
                    }
                    assert(!ids_increasing(v));
                }
                return None;
            }
            last = tasks[i].id;
            i = i + 1;
        }
        let r = MemoryStore { tasks, last_id: last };
        assert(r@.wf());
        Some(r)
    }

    /// Stores a new, uncompleted task named `name` under the next identifier.
    pub fn add_task(&mut self, name: &str) -> (r: Result<(), StoreError>)
        requires
            old(self)@.wf(),
        ensures
            final(self)@.wf(),
            r is Ok <==> old(self)@.last_id < i32::MAX,
            r is Ok ==> final(self)@ == inserted(old(self)@, name@),
            r is Err ==> r == Err::<(), StoreError>(StoreError::IdsExhausted) && final(self)@
                == old(self)@,
    {
        if self.last_id == i32::MAX {
            return Err(StoreError::IdsExhausted);
        }
        let id = self.last_id + 1;
        self.tasks.push(Task::new(id, String::from_str(name), false));
        self.last_id = id;
        assert(tasks_view(self.tasks@) =~= inserted(old(self)@, name@).tasks);
        Ok(())
    }

    /// Every task, in the order it was stored.
    pub fn get_all_tasks(&self) -> (r: Vec<Task>)
        ensures
            tasks_view(r@) == self@.tasks,
    {
        let mut r: Vec<Task> = Vec::new();
        let mut i: usize = 0;
        while i < self.tasks.len()
            invariant
                i <= self.tasks.len(),
                r@.len() == i,
                forall|j: int| 0 <= j < i ==> #[trigger] r@[j]@ == self.tasks@[j]@,
            decreases self.tasks.len() - i,
        {
            r.push(self.tasks[i].duplicate());
            i = i + 1;
        }
        assert(tasks_view(r@) =~= tasks_view(self.tasks@));
        r
    }

    /// The tasks whose name is exactly `name`, in the order they were stored;
    /// empty where none is.
    pub fn get_task_by_name(&self, name: &str) -> (r: Vec<Task>)
        ensures
            tasks_view(r@) == named(self@.tasks, name@),
    {
        let key = String::from_str(name);
        let ghost all = tasks_view(self.tasks@);
        let mut r: Vec<Task> = Vec::new();
        let mut i: usize = 0;
        while i < self.tasks.len()
            invariant
                i <= self.tasks.len(),
                all == tasks_view(self.tasks@),
                key@ == name@,
                tasks_view(r@) =~= named(all.take(i as int), name@),
            decreases self.tasks.len() - i,
        {
            assert(all.take(i + 1).drop_last() =~= all.take(i as int));
            if self.tasks[i].name == key {
                r.push(self.tasks[i].duplicate());
            }
            i = i + 1;
            assert(tasks_view(r@) =~= named(all.take(i as int), name@));
        }
        assert(all.take(i as int) =~= all);
        r
    }

    fn rewrite(&mut self, name: &str, flip: bool)
        requires
            old(self)@.wf(),
        ensures
            final(self)@.wf(),
            final(self)@.last_id == old(self)@.last_id,
            flip ==> final(self)@.tasks == toggled(old(self)@.tasks, name@),
            !flip ==> final(self)@.tasks == completed(old(self)@.tasks, name@),
    {
        let key = String::from_str(name);
        let ghost before = tasks_view(self.tasks@);
        let ghost want = if flip {
            toggled(before, name@)
        } else {
            completed(before, name@)
        };
        let mut r: Vec<Task> = Vec::new();
        let mut i: usize = 0;
        while i < self.tasks.len()
            invariant
                i <= self.tasks.len(),
                before == tasks_view(self.tasks@),
                key@ == name@,
                want.len() == before.len(),
                want == if flip {
                    toggled(before, name@)
                } else {
                    completed(before, name@)
                },
                r@.len() == i,
                forall|j: int| 0 <= j < i ==> #[trigger] r@[j]@ == want[j],
            decreases self.tasks.len() - i,
        {
            let t = &self.tasks[i];
            let checked = if t.name == key {
                if flip {
                    !t.checked
                } else {
                    true
                }
            } else {
                t.checked
            };
            r.push(Task::new(t.id, t.name.clone(), checked));
            i = i + 1;
        }
        assert(tasks_view(r@) =~= want);
        assert(before == old(self)@.tasks);
        assert forall|j: int| 0 <= j < want.len() implies #[trigger] want[j].id == before[j].id by {}
        assert forall|j: int, k: int| 0 <= j < k < want.len() implies #[trigger] want[j].id < #[trigger] want[k].id by {
            assert(before[j].id < before[k].id);
        }
        assert forall|j: int| 0 <= j < want.len() implies 0 < #[trigger] want[j].id <= old(self).last_id by {
            assert(0 < before[j].id <= old(self)@.last_id);
        }
        self.tasks = r;
    }

    /// Flips the completed flag of every task named `name`; the others, and
    /// the order, stay as they are.
    pub fn toggle_task(&mut self, name: &str)
        requires
            old(self)@.wf(),
        ensures
            final(self)@.wf(),
            final(self)@ == (StoreView { tasks: toggled(old(self)@.tasks, name@), ..old(self)@ }),
    {
        self.rewrite(name, true);
    }

    /// Marks every task named `name` completed; the others, and the order,
    /// stay as they are.
    pub fn complete_task(&mut self, name: &str)
        requires
            old(self)@.wf(),
        ensures
            final(self)@.wf(),
            final(self)@ == (StoreView { tasks: completed(old(self)@.tasks, name@), ..old(self)@ }),
    {
        self.rewrite(name, false);
    }
}

} // verus!
