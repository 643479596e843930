use vstd::prelude::*;
use crate::scheduled_item::ScheduledItem;
use crate::display::PromptMessage;

verus! {

/// The routing key of a backend, e.g. `"todoist:Inbox"`.
pub type SchedulerAccountId = String;

/// Everything the user-interface task can be asked to do. Each variant's
/// payload is immutable once constructed; a later snapshot always replaces
/// an earlier one wholesale.
#[derive(Debug, PartialEq)]
pub enum UICommand {
    /// Full replacement snapshot of the merged item list.
    Schedules(Vec<ScheduledItem>),
    /// The ids of every registered backend.
    Schedulers(Vec<String>),
    /// A transient status-line message.
    Toast(PromptMessage),
    SetPrompt(String),
    /// The current contents of the input line.
    UpdateUserInput(String),
    /// The user pressed enter on the input line.
    SubmitCommand(String),
    /// Run a text command against a selected item.
    ExecuteWithItem(String, ScheduledItem),
    /// Run a text command with no selection.
    Execute(String),
    /// Push the named panel onto the window stack.
    TransitionPush(String),
    /// Pop the topmost panel (never the prompt).
    TransitionPop,
    ClearSelection,
    SelectPrev,
    SelectNext,
    /// Stash pending add-text until the user picks a backend.
    AddGetScheduler(String),
    /// Add the text to the named backend.
    Add(SchedulerAccountId, String),
    Exit,
}

/// Machine-size bound on snapshot payloads: panel cursors are `i32`, so
/// the lists a command carries must be indexable by one.
pub open spec fn cmd_wf(cmd: UICommand) -> bool {
    match cmd {
        UICommand::Schedules(items) => items@.len() < 0x7FFFFFFF,
        UICommand::Schedulers(ids) => ids@.len() < 0x7FFFFFFF,
        _ => true,
    }
}

/// Everything the master scheduler can be asked to do.
#[derive(Debug, PartialEq)]
pub enum ScheduleCommand {
    Refresh,
    Add(SchedulerAccountId, String),
    CloseTodo(SchedulerAccountId, String),
}

} // verus!
