pub mod clock;
pub mod text;
pub mod commands;
pub mod display;
pub mod google_calendar_client;
pub mod google_scheduler;
pub mod schedule_colorer;
pub mod schedule_formatter;
pub mod scheduled_item;
pub mod tasks;
pub mod todoist_client;
pub mod todoist_scheduler;
