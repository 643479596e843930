use vstd::prelude::*;
use crate::scheduled_item::ScheduledItem;

pub mod command_executor;
pub mod master_scheduler;
pub mod user_input_task;

verus! {

/// One registered backend as the master scheduler sees it: its routing id
/// and the items of its last successful refresh (stale-but-available when a
/// later refresh fails).
#[derive(Debug)]
pub struct BackendEntry {
    pub id: String,
    pub items: Vec<ScheduledItem>,
}

/// Owns the backend registry and the merged view. The surrounding loop
/// performs the backend calls and hands their outcomes back in.
#[derive(Debug)]
pub struct MasterScheduler {
    pub schedulers: Vec<BackendEntry>,
}

/// The input reader's one piece of state: the line being typed.
#[derive(Debug)]
pub struct UserInputTask {
    pub user_input: String,
}

/// Parses submitted command lines into schedule and panel actions.
#[derive(Debug)]
pub struct CommandExecutor {
}

} // verus!
