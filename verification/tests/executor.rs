use todor::commands::ScheduleCommand;
use todor::commands::UICommand;
use todor::scheduled_item::ScheduleItemType;
use todor::scheduled_item::ScheduledItem;
use todor::tasks::CommandExecutor;

fn run(line: &str, selected: Option<&ScheduledItem>) -> (Vec<UICommand>, Vec<ScheduleCommand>) {
    let mut ui: Vec<UICommand> = Vec::new();
    let mut sched: Vec<ScheduleCommand> = Vec::new();
    let mut ex = CommandExecutor::new();
    ex.execute_command(&line.to_string(), selected, &mut ui, &mut sched);
    (ui, sched)
}

fn selected_item() -> ScheduledItem {
    ScheduledItem::new(
        "todoist:9".to_string(),
        "todoist:Work".to_string(),
        ScheduleItemType::Todo,
        "buy milk".to_string(),
        1000,
        None,
        None,
    )
}

#[test]
fn empty_lines_do_nothing() {
    let (ui, sched) = run("", None);
    assert!(ui.is_empty());
    assert!(sched.is_empty());
    let (ui, sched) = run("   ", None);
    assert!(ui.is_empty());
    assert!(sched.is_empty());
}

#[test]
fn refresh_goes_to_the_scheduler() {
    let (ui, sched) = run("refresh", None);
    assert!(ui.is_empty());
    assert_eq!(sched, vec![ScheduleCommand::Refresh]);
    let (_, sched) = run("REFRESH", None);
    assert_eq!(sched, vec![ScheduleCommand::Refresh]);
}

#[test]
fn add_opens_the_picker_and_stashes_the_text() {
    let (ui, sched) = run("add buy milk tomorrow", None);
    assert!(sched.is_empty());
    assert_eq!(
        ui,
        vec![
            UICommand::TransitionPush("schedule_selection".to_string()),
            UICommand::AddGetScheduler("buy milk tomorrow".to_string()),
        ]
    );
}

#[test]
fn close_without_selection_uses_the_default_backend() {
    let (ui, sched) = run("close pay rent", None);
    assert!(ui.is_empty());
    assert_eq!(
        sched,
        vec![ScheduleCommand::CloseTodo("todoist:Inbox".to_string(), "pay rent".to_string())]
    );
}

#[test]
fn close_with_selection_targets_the_selected_item() {
    let item = selected_item();
    let (ui, sched) = run("ack whatever", Some(&item));
    assert!(ui.is_empty());
    assert_eq!(
        sched,
        vec![ScheduleCommand::CloseTodo("todoist:Work".to_string(), "buy milk".to_string())]
    );
}

#[test]
fn unknown_verbs_are_ignored() {
    let (ui, sched) = run("frobnicate the widget", None);
    assert!(ui.is_empty());
    assert!(sched.is_empty());
}

#[test]
fn whitespace_runs_collapse_in_the_remainder() {
    let (ui, _) = run("  add   buy   milk  ", None);
    assert_eq!(
        ui,
        vec![
            UICommand::TransitionPush("schedule_selection".to_string()),
            UICommand::AddGetScheduler("buy milk".to_string()),
        ]
    );
}
