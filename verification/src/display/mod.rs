use vstd::prelude::*;
use crate::scheduled_item::ScheduledItem;

pub mod prompt_window;
pub mod schedule_selection_window;
pub mod schedule_window;
pub mod window_stack;

verus! {

/// Whether a status-line message reports ordinary progress or a failure.
#[derive(Clone, Copy, Debug, PartialEq, Eq, Structural)]
pub enum PromptMessageType {
    Normal,
    Error,
}

/// A transient status-line message; it is shown until the wall clock
/// passes `ttl`.
#[derive(Debug, PartialEq)]
pub struct PromptMessage {
    pub text: String,
    pub ttl: i64,
    pub message_type: PromptMessageType,
}

impl Clone for PromptMessage {
    fn clone(&self) -> (r: Self)
        ensures
            r == *self,
    {
        PromptMessage { text: self.text.clone(), ttl: self.ttl, message_type: self.message_type }
    }
}

/// The always-present bottom panel: one line of user input behind a prompt,
/// plus an optional transient message above it.
#[derive(Debug)]
pub struct PromptWindow {
    pub active: bool,
    pub user_input: String,
    pub prompt: String,
    pub message: Option<PromptMessage>,
}

/// The merged schedule view with an optional selected row.
/// `selected_item_idx` is `-1` when nothing is selected.
#[derive(Debug)]
pub struct ScheduleWindow {
    pub active: bool,
    pub schedules: Vec<ScheduledItem>,
    pub selected_item_idx: i32,
}

/// The modal backend picker shown while an add is pending: the known
/// backend ids, a cursor, and the stashed text to add.
#[derive(Debug)]
pub struct ScheduleSelectionWindow {
    pub schedules: Vec<String>,
    pub selected_item_idx: i32,
    pub task: Option<String>,
}

/// One interactive panel of the window stack. Commands are offered to
/// panels top-down; rendering composes them bottom-up.
#[derive(Debug)]
pub enum Panel {
    Prompt(PromptWindow),
    Schedule(ScheduleWindow),
    Selection(ScheduleSelectionWindow),
}

/// The ordered panel stack. Index 0 is permanently the prompt panel and is
/// never popped; everything above it is a LIFO stack of pushed panels.
#[derive(Debug)]
pub struct WindowStack {
    pub windows: Vec<Panel>,
    pub scheduler_ids: Vec<String>,
}

} // verus!
