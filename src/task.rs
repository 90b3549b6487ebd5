use vstd::prelude::*;

verus! {

/// One stored todo item: the identifier the store assigned, its name and
/// whether it has been completed.
pub struct Task {
    pub id: i32,
    pub name: String,
    pub checked: bool,
}

/// The mathematical value of a task.
pub struct TaskView {
    pub id: i32,
    pub name: Seq<char>,
    pub checked: bool,
}

impl View for Task {
    type V = TaskView;

    open spec fn view(&self) -> TaskView {
        TaskView { id: self.id, name: self.name@, checked: self.checked }
    }
}

impl Task {
    pub fn new(id: i32, name: String, checked: bool) -> (r: Self)
        ensures
            r.id == id,
            r.name@ == name@,
            r.checked == checked,
    {
        Task { id, name, checked }
    }

    /// A new task equal to this one: same identifier, name and flag.
    pub fn duplicate(&self) -> (r: Self)
        ensures
            r@ == self@,
    {
        Task { id: self.id, name: self.name.clone(), checked: self.checked }
    }
}

/// The values of a sequence of tasks, in the same order.
pub open spec fn tasks_view(v: Seq<Task>) -> Seq<TaskView> {
    Seq::new(v.len(), |i: int| v[i]@)
}

} // verus!
