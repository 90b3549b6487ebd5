use vstd::prelude::*;

verus! {

/// A subcommand of the command line. Each one but `ShowAll` takes the words
/// of a task name, which may be missing.
pub enum Command {
    Add(Option<Vec<String>>),
    Search(Option<Vec<String>>),
    Done(Option<Vec<String>>),
    ShowAll,
}

/// What one run of the program does against the store.
#[derive(Debug)]
pub enum Plan {
    /// Store a new task with this name.
    Insert(String),
    /// Print the tasks with exactly this name.
    Search(String),
    /// Mark the tasks with this name completed.
    Complete(String),
    /// Print every task.
    ListAll,
    /// Open the interactive list over every task.
    Interactive,
}

/// The mathematical value of a plan.
pub enum PlanView {
    Insert(Seq<char>),
    Search(Seq<char>),
    Complete(Seq<char>),
    ListAll,
    Interactive,
}

impl View for Plan {
    type V = PlanView;

    open spec fn view(&self) -> PlanView {
        match self {
            Plan::Insert(n) => PlanView::Insert(n@),
            Plan::Search(n) => PlanView::Search(n@),
            Plan::Complete(n) => PlanView::Complete(n@),
            Plan::ListAll => PlanView::ListAll,
            Plan::Interactive => PlanView::Interactive,
        }
    }
}

/// The words, in order, with one space between two neighbours.
pub open spec fn joined(words: Seq<Seq<char>>) -> Seq<char>
    decreases words.len(),
{
    if words.len() == 0 {
        Seq::empty()
    } else if words.len() == 1 {
        words[0]
    } else {
        joined(words.drop_last()) + seq![' '] + words.last()
    }
}

/// The name given by optional words: the words joined, or empty where there
/// are none.
pub open spec fn name_of(words: Option<Seq<Seq<char>>>) -> Seq<char> {
    match words {
        Some(w) => joined(w),
        None => Seq::empty(),
    }
}

/// The values of the words, in order.
pub open spec fn words_view(v: Seq<String>) -> Seq<Seq<char>> {
    Seq::new(v.len(), |i: int| v[i]@)
}

/// The values of optional words.
pub open spec fn opt_words_view(v: Option<Vec<String>>) -> Option<Seq<Seq<char>>> {
    match v {
        Some(w) => Some(words_view(w@)),
        None => None,
    }
}

/// The name that a list of words stands for: the words with one space
/// between two neighbours.
pub fn join_words(words: &Vec<String>) -> (r: String)
    ensures
        r@ == joined(words_view(words@)),
{
    let mut r = String::new();
    let mut i: usize = 0;
    while i < words.len()
        invariant
            i <= words.len(),
            r@ == joined(words_view(words@).take(i as int)),
        decreases words.len() - i,
    {
        let ghost before = words_view(words@).take(i as int);
        let ghost after = words_view(words@).take(i + 1);
        assert(after.drop_last() =~= before);
        if i > 0 {
            r.append(" ");
            proof {
                reveal_strlit(" ");
            }
        } else {
            assert(before.len() == 0);
        }
        r.append(words[i].as_str());
        i = i + 1;
        assert(r@ =~= joined(after));
    }
    assert(words_view(words@).take(i as int) =~= words_view(words@));
    r
}

fn name_from(words: &Option<Vec<String>>) -> (r: String)
    ensures
        r@ == name_of(opt_words_view(*words)),
{
    match words {
        Some(w) => join_words(w),
        None => String::new(),
    }
}

/// What the program does for a command line: each subcommand acts on the
/// name its words give, and with no subcommand the interactive list opens.
pub fn plan(command: &Option<Command>) -> (r: Plan)
    ensures
        r@ == match command {
            Some(Command::Add(w)) => PlanView::Insert(name_of(opt_words_view(*w))),
            Some(Command::Search(w)) => PlanView::Search(name_of(opt_words_view(*w))),
            Some(Command::Done(w)) => PlanView::Complete(name_of(opt_words_view(*w))),
            Some(Command::ShowAll) => PlanView::ListAll,
            None => PlanView::Interactive,
        },
{
    match command {
        Some(Command::Add(w)) => Plan::Insert(name_from(w)),
        Some(Command::Search(w)) => Plan::Search(name_from(w)),
        Some(Command::Done(w)) => Plan::Complete(name_from(w)),
        Some(Command::ShowAll) => Plan::ListAll,
        None => Plan::Interactive,
    }
}

} // verus!
