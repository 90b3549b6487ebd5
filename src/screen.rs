use vstd::prelude::*;
use crate::app::{App, AppState, AppView};
use crate::task::Task;

verus! {

/// One line of the task list: the task's name, struck through once the task
/// is completed.
pub struct ListLine {
    pub text: String,
    pub struck: bool,
}

/// What is drawn for a state: the bordered task list with one line
/// highlighted, or the prompt of the add screen.
pub enum Screen {
    TaskList { lines: Vec<ListLine>, selected: usize },
    Prompt { text: String },
}

/// The mathematical value of a screen.
pub enum ScreenView {
    TaskList { lines: Seq<(Seq<char>, bool)>, selected: nat },
    Prompt { text: Seq<char> },
}

impl View for Screen {
    type V = ScreenView;

    open spec fn view(&self) -> ScreenView {
        match self {
            Screen::TaskList { lines, selected } => ScreenView::TaskList {
                lines: Seq::new(lines@.len(), |i: int| (lines@[i].text@, lines@[i].struck)),
                selected: *selected as nat,
            },
            Screen::Prompt { text } => ScreenView::Prompt { text: text@ },
        }
    }
}

/// The label above the text typed on the add screen.
pub open spec fn prompt_label() -> Seq<char> {
    "Create New Task\n "@
}

/// What is drawn in state `s`: the list on `View` and `Edit`, the prompt
/// with the typed text on `Add`.
pub open spec fn screen_of(s: AppView) -> ScreenView {
    if s.state == AppState::Add {
        ScreenView::Prompt { text: prompt_label() + s.buffer }
    } else {
        ScreenView::TaskList {
            lines: Seq::new(s.tasks.len(), |i: int| (s.tasks[i].name, s.tasks[i].checked)),
            selected: s.selected,
        }
    }
}

fn task_line(task: &Task) -> (r: ListLine)
    ensures
        r.text@ == task.name@,
        r.struck == task.checked,
{
    ListLine { text: task.name.clone(), struck: task.checked }
}

impl App {
    /// What to draw for the current state; nothing is kept between two draws.
    pub fn screen(&self) -> (r: Screen)
        ensures
            r@ == screen_of(self@),
    {
        if self.state == AppState::Add {
            let mut text = String::from_str("Create New Task\n ");
            text.append(self.task_name.as_str());
            proof {
                reveal_strlit("Create New Task\n ");
            }
            Screen::Prompt { text }
        } else {
            let mut lines: Vec<ListLine> = Vec::new();
            let mut i: usize = 0;
            while i < self.tasks.len()
                invariant
                    i <= self.tasks.len(),
                    lines@.len() == i,
                    forall|j: int|
                        0 <= j < i ==> lines@[j].text@ == self.tasks@[j].name@
                            && lines@[j].struck == self.tasks@[j].checked,
                decreases self.tasks.len() - i,
            {
                lines.push(task_line(&self.tasks[i]));
                i = i + 1;
            }
            let ghost drawn = Seq::new(lines@.len(), |i: int| (lines@[i].text@, lines@[i].struck));
            let ghost wanted = Seq::new(
                self@.tasks.len(),
                |i: int| (self@.tasks[i].name, self@.tasks[i].checked),
            );
            assert(drawn =~= wanted);
            Screen::TaskList { lines, selected: self.selected_index }
        }
    }
}

} // verus!
