use vstd::prelude::*;
use crate::task::{tasks_view, Task, TaskView};

verus! {

/// The screen the interactive view is on. `Edit` is reachable but behaves
/// exactly like `View`.
#[derive(PartialEq, Eq, Structural, Clone, Copy, Debug)]
pub enum AppState {
    Add,
    Edit,
    View,
}

/// The keys the interactive view distinguishes; every other key is `Other`.
#[derive(PartialEq, Eq, Structural, Clone, Copy, Debug)]
pub enum KeyCode {
    Char(char),
    Up,
    Down,
    Enter,
    Backspace,
    Esc,
    Other,
}

/// Whether a key went down, came up, or is held and repeating.
#[derive(PartialEq, Eq, Structural, Clone, Copy, Debug)]
pub enum KeyEventKind {
    Press,
    Release,
    Repeat,
}

/// One key event from the terminal.
#[derive(PartialEq, Eq, Structural, Clone, Copy, Debug)]
pub struct KeyEvent {
    pub code: KeyCode,
    pub kind: KeyEventKind,
}

/// What the view asks of the task store after a key. Once the store has
/// done it, the caller reads every task back and hands them to
/// `App::set_tasks`.
#[derive(Debug)]
pub enum Request {
    /// Nothing to do.
    Nothing,
    /// Flip the completed flag of every task with this name.
    Toggle(String),
    /// Store a new, uncompleted task with this name.
    Insert(String),
}

/// The mathematical value of a request.
pub enum RequestView {
    Nothing,
    Toggle(Seq<char>),
    Insert(Seq<char>),
}

impl View for Request {
    type V = RequestView;

    open spec fn view(&self) -> RequestView {
        match self {
            Request::Nothing => RequestView::Nothing,
            Request::Toggle(n) => RequestView::Toggle(n@),
            Request::Insert(n) => RequestView::Insert(n@),
        }
    }
}

/// The state of the interactive task list.
pub struct App {
    pub selected_index: usize,
    pub tasks: Vec<Task>,
    pub exit: bool,
    pub state: AppState,
    /// The text typed on the add screen. It is kept when the screen is left,
    /// by submitting or by cancelling.
    pub task_name: String,
}

/// The mathematical value of the interactive view's state.
pub struct AppView {
    pub selected: nat,
    pub tasks: Seq<TaskView>,
    pub exit: bool,
    pub state: AppState,
    pub buffer: Seq<char>,
}

impl View for App {
    type V = AppView;

    open spec fn view(&self) -> AppView {
        AppView {
            selected: self.selected_index as nat,
            tasks: tasks_view(self.tasks@),
            exit: self.exit,
            state: self.state,
            buffer: self.task_name@,
        }
    }
}

/// The selection after moving up: one line up, or from the first line to the last.
pub open spec fn index_up(i: nat, n: nat) -> nat {
    if i > 0 {
        (i - 1) as nat
    } else {
        (n - 1) as nat
    }
}

/// The selection after moving down: one line down, or from the last line to the first.
pub open spec fn index_down(i: nat, n: nat) -> nat {
    if i + 1 < n {
        i + 1
    } else {
        0
    }
}

/// Whether the view handles `key` in state `s` without failing: moving needs a
/// task to move over, and toggling needs the selection to name a task.
pub open spec fn key_allowed(s: AppView, key: KeyEvent) -> bool {
    key.kind == KeyEventKind::Press && s.state != AppState::Add ==> match key.code {
        KeyCode::Up | KeyCode::Down => s.tasks.len() > 0,
        KeyCode::Enter => s.selected < s.tasks.len(),
        _ => true,
    }
}

/// The state after a key on the list screen (`View` or `Edit`).
pub open spec fn next_on_list(s: AppView, code: KeyCode) -> AppView {
    match code {
        KeyCode::Char('a') => AppView { state: AppState::Add, ..s },
        KeyCode::Char('e') => AppView { state: AppState::Edit, ..s },
        KeyCode::Char('q') => AppView { exit: true, ..s },
        KeyCode::Up => AppView { selected: index_up(s.selected, s.tasks.len()), ..s },
        KeyCode::Down => AppView { selected: index_down(s.selected, s.tasks.len()), ..s },
        _ => s,
    }
}

/// The state after a key on the add screen.
pub open spec fn next_on_add(s: AppView, code: KeyCode) -> AppView {
    match code {
        KeyCode::Char(c) => AppView { buffer: s.buffer.push(c), ..s },
        KeyCode::Backspace => if s.buffer.len() > 0 {
            AppView { buffer: s.buffer.drop_last(), ..s }
        } else {
            s
        },
        KeyCode::Enter | KeyCode::Esc => AppView { state: AppState::View, ..s },
        _ => s,
    }
}

/// The state after `key`. Only presses count; the task list itself changes
/// only when the store is read back.
pub open spec fn next_state(s: AppView, key: KeyEvent) -> AppView {
    if key.kind != KeyEventKind::Press {
        s
    } else if s.state == AppState::Add {
        next_on_add(s, key.code)
    } else {
        next_on_list(s, key.code)
    }
}

/// What the store is asked to do after `key`: Enter on the list toggles the
/// selected task, Enter on the add screen stores the typed name.
pub open spec fn request_for(s: AppView, key: KeyEvent) -> RequestView {
    if key.kind == KeyEventKind::Press && key.code == KeyCode::Enter {
        if s.state == AppState::Add {
            RequestView::Insert(s.buffer)
        } else {
            RequestView::Toggle(s.tasks[s.selected as int].name)
        }
    } else {
        RequestView::Nothing
    }
}

/// The state after the same key has come `k` times.
pub open spec fn repeat_key(s: AppView, key: KeyEvent, k: nat) -> AppView
    decreases k,
{
    if k == 0 {
        s
    } else {
        repeat_key(next_state(s, key), key, (k - 1) as nat)
    }
}

/// The selection after moving down `k` times over `n` lines.
pub open spec fn index_down_times(i: nat, n: nat, k: nat) -> nat
    decreases k,
{
    if k == 0 {
        i
    } else {
        index_down_times(index_down(i, n), n, (k - 1) as nat)
    }
}

/// The key Down, pressed.
pub open spec fn down_press() -> KeyEvent {
    KeyEvent { code: KeyCode::Down, kind: KeyEventKind::Press }
}

proof fn lemma_repeat_down_moves_selection(s: AppView, k: nat)
    requires
        s.state != AppState::Add,
    ensures
        repeat_key(s, down_press(), k) == (AppView {
            selected: index_down_times(s.selected, s.tasks.len(), k),
            ..s
        }),
    decreases k,
{
    if k > 0 {
        let t = next_state(s, down_press());
        lemma_repeat_down_moves_selection(t, (k - 1) as nat);
    }
}

proof fn lemma_down_times_straight(i: nat, n: nat, k: nat)
    requires
        i + k < n,
    ensures
        index_down_times(i, n, k) == i + k,
    decreases k,
{
    if k > 0 {
        lemma_down_times_straight(i + 1, n, (k - 1) as nat);
    }
}

proof fn lemma_down_times_split(i: nat, n: nat, a: nat, b: nat)
    ensures
        index_down_times(i, n, a + b) == index_down_times(index_down_times(i, n, a), n, b),
    decreases a,
{
    if a > 0 {
        lemma_down_times_split(index_down(i, n), n, (a - 1) as nat, b);
        assert((a + b - 1) as nat == (a - 1) as nat + b);
    }
}

/// On the list screen with `n` tasks and a valid selection, pressing Down `n`
/// times brings the selection back where it started, and changes nothing else.
pub proof fn lemma_down_cycle(s: AppView)
    requires
        s.state != AppState::Add,
        s.tasks.len() > 0,
        s.selected < s.tasks.len(),
    ensures
        repeat_key(s, down_press(), s.tasks.len()) == s,
{
    let n = s.tasks.len();
    let i = s.selected;
    lemma_repeat_down_moves_selection(s, n);
    let a = (n - 1 - i) as nat;
    lemma_down_times_split(i, n, a, i + 1);
    assert(a + (i + 1) == n);
    lemma_down_times_straight(i, n, a);
    assert(index_down_times((n - 1) as nat, n, i + 1) == index_down_times(0, n, i));
    lemma_down_times_straight(0, n, i);
}

/// On the list screen, Up from the first line selects the last, and Down from
/// the last line selects the first.
pub proof fn lemma_wrap_at_ends(s: AppView)
    requires
        s.state != AppState::Add,
        s.tasks.len() > 0,
    ensures
        next_state(AppView { selected: 0, ..s }, KeyEvent { code: KeyCode::Up, kind: KeyEventKind::Press }).selected
            == s.tasks.len() - 1,
        next_state(AppView { selected: (s.tasks.len() - 1) as nat, ..s }, down_press()).selected == 0,
{
}

/// A key that was released or is repeating leaves the whole state as it was
/// and asks nothing of the store.
pub proof fn lemma_non_press_is_ignored(s: AppView, key: KeyEvent)
    requires
        key.kind != KeyEventKind::Press,
    ensures
        next_state(s, key) == s,
        request_for(s, key) == RequestView::Nothing,
{
}

/// Relies on String::push: the character is appended.
#[verifier::external_body]
fn push_char(s: &mut String, c: char)
    ensures
        final(s)@ == old(s)@.push(c),
{
    s.push(c)
}

/// Relies on String::pop: a non-empty string loses its last character.
#[verifier::external_body]
fn pop_char(s: &mut String)
    requires
        old(s)@.len() > 0,
    ensures
        final(s)@ == old(s)@.drop_last(),
{
    s.pop();
}

impl App {
    /// A view on the list screen over `tasks`, with the first line selected
    /// and nothing typed.
    pub fn new(tasks: Vec<Task>) -> (r: Self)
        ensures
            r@ == (AppView {
                selected: 0,
                tasks: tasks_view(tasks@),
                exit: false,
                state: AppState::View,
                buffer: Seq::empty(),
            }),
    {
        App { selected_index: 0, tasks, exit: false, state: AppState::View, task_name: String::new() }
    }

    /// Whether `handle_key` accepts `key` in the current state.
    pub fn accepts(&self, key: KeyEvent) -> (r: bool)
        ensures
            r == key_allowed(self@, key),
    {
        if key.kind == KeyEventKind::Press && self.state != AppState::Add {
            match key.code {
                KeyCode::Up | KeyCode::Down => self.tasks.len() > 0,
                KeyCode::Enter => self.selected_index < self.tasks.len(),
                _ => true,
            }
        } else {
            true
        }
    }

    fn exit(&mut self)
        ensures
            final(self)@ == (AppView { exit: true, ..old(self)@ }),
    {
        self.exit = true;
    }

    fn move_up(&mut self)
        requires
            old(self).tasks.len() > 0,
        ensures
            final(self)@ == (AppView {
                selected: index_up(old(self)@.selected, old(self)@.tasks.len()),
                ..old(self)@
            }),
    {
        if self.selected_index > 0 {
            self.selected_index = self.selected_index - 1;
        } else {
            self.selected_index = self.tasks.len() - 1;
        }
    }

    fn move_down(&mut self)
        requires
            old(self).tasks.len() > 0,
        ensures
            final(self)@ == (AppView {
                selected: index_down(old(self)@.selected, old(self)@.tasks.len()),
                ..old(self)@
            }),
    {
        if self.selected_index < self.tasks.len() - 1 {
            self.selected_index = self.selected_index + 1;
        } else {
            self.selected_index = 0;
        }
    }

    fn handle_view_state(&mut self, code: KeyCode) -> (r: Request)
        requires
            old(self).state != AppState::Add,
            key_allowed(old(self)@, KeyEvent { code, kind: KeyEventKind::Press }),
        ensures
            final(self)@ == next_on_list(old(self)@, code),
            r@ == request_for(old(self)@, KeyEvent { code, kind: KeyEventKind::Press }),
    {
        match code {
            KeyCode::Char('a') => {
                self.state = AppState::Add;
            },
            KeyCode::Char('e') => {
                self.state = AppState::Edit;
            },
            KeyCode::Char('q') => self.exit(),
            KeyCode::Up => self.move_up(),
            KeyCode::Down => self.move_down(),
            KeyCode::Enter => {
                let name = self.tasks[self.selected_index].name.clone();
                return Request::Toggle(name);
            },
            _ => {},
        }
        Request::Nothing
    }

    fn handle_add_state(&mut self, code: KeyCode) -> (r: Request)
        requires
            old(self).state == AppState::Add,
        ensures
            final(self)@ == next_on_add(old(self)@, code),
            r@ == request_for(old(self)@, KeyEvent { code, kind: KeyEventKind::Press }),
    {
        match code {
            KeyCode::Char(value) => push_char(&mut self.task_name, value),
            KeyCode::Backspace => {
                if self.task_name.unicode_len() > 0 {
                    pop_char(&mut self.task_name);
                }
            },
            KeyCode::Enter => {
                let name = self.task_name.clone();
                self.state = AppState::View;
                return Request::Insert(name);
            },
            KeyCode::Esc => {
                self.state = AppState::View;
            },
            _ => {},
        }
        Request::Nothing
    }

    /// Handles one key event and says what the store must do next. A key that
    /// was not pressed (released, or repeating) changes nothing.
    pub fn handle_key(&mut self, key: KeyEvent) -> (r: Request)
        requires
            key_allowed(old(self)@, key),
        ensures
            final(self)@ == next_state(old(self)@, key),
            r@ == request_for(old(self)@, key),
            key.kind != KeyEventKind::Press ==> final(self)@ == old(self)@ && r@
                == RequestView::Nothing,
    {
        if key.kind != KeyEventKind::Press {
            Request::Nothing
        } else if self.state == AppState::Add {
            self.handle_add_state(key.code)
        } else {
            self.handle_view_state(key.code)
        }
    }

    /// Replaces the task list with what the store returned. The selection is
    /// kept as it is, even where the new list is shorter.
    pub fn set_tasks(&mut self, tasks: Vec<Task>)
        ensures
            final(self)@ == (AppView { tasks: tasks_view(tasks@), ..old(self)@ }),
    {
        self.tasks = tasks;
    }
}

} // verus!
