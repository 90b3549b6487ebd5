mod app;
mod command;
mod screen;
mod store;
mod task;

pub use app::{
    down_press, index_down, index_down_times, index_up, key_allowed, lemma_down_cycle,
    lemma_non_press_is_ignored, lemma_wrap_at_ends, next_on_add, next_on_list, next_state,
    repeat_key, request_for, App, AppState, AppView, KeyCode, KeyEvent, KeyEventKind, Request,
    RequestView,
};
pub use command::{
    join_words, joined, name_of, opt_words_view, plan, words_view, Command, Plan, PlanView,
};
pub use screen::{prompt_label, screen_of, ListLine, Screen, ScreenView};
pub use store::{
    completed, ids_increasing, inserted, lemma_insert_adds_one, lemma_search_without_match_is_empty,
    lemma_toggle_flips_named, named, toggled, MemoryStore, StoreError, StoreView,
};
pub use task::{tasks_view, Task, TaskView};
