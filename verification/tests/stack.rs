use todor::commands::UICommand;
use todor::display::Panel;
use todor::display::WindowStack;
use todor::scheduled_item::ScheduleItemType;
use todor::scheduled_item::ScheduledItem;

fn item(desc: &str, start: i64) -> ScheduledItem {
    ScheduledItem::new(
        format!("todoist:{}", desc),
        "todoist:Work".to_string(),
        ScheduleItemType::Todo,
        desc.to_string(),
        start,
        None,
        None,
    )
}

fn full_stack() -> WindowStack {
    let mut ws = WindowStack::new();
    let mut out: Vec<UICommand> = Vec::new();
    ws.handle_ui_command(
        &UICommand::Schedulers(vec!["work".to_string(), "home".to_string()]),
        &mut out,
    );
    ws.handle_ui_command(&UICommand::TransitionPush("schedule".to_string()), &mut out);
    ws.handle_ui_command(&UICommand::TransitionPush("schedule_selection".to_string()), &mut out);
    assert!(out.is_empty());
    ws
}

#[test]
fn the_prompt_survives_every_pop() {
    let mut ws = full_stack();
    let mut out: Vec<UICommand> = Vec::new();
    for _ in 0..5 {
        ws.handle_ui_command(&UICommand::TransitionPop, &mut out);
    }
    assert_eq!(ws.windows.len(), 1);
    assert!(matches!(ws.windows[0], Panel::Prompt(_)));
}

#[test]
fn unknown_panel_names_are_ignored() {
    let mut ws = WindowStack::new();
    let mut out: Vec<UICommand> = Vec::new();
    ws.handle_ui_command(&UICommand::TransitionPush("mystery".to_string()), &mut out);
    assert_eq!(ws.windows.len(), 1);
}

#[test]
fn the_picker_shadows_the_list() {
    // A command the picker consumes must never reach the schedule list.
    let mut ws = full_stack();
    let mut out: Vec<UICommand> = Vec::new();
    ws.handle_ui_command(&UICommand::Schedules(vec![item("a", 10)]), &mut out);
    ws.handle_ui_command(&UICommand::SelectNext, &mut out);
    match (&ws.windows[1], &ws.windows[2]) {
        (Panel::Schedule(list), Panel::Selection(picker)) => {
            assert_eq!(picker.selected_item_idx, 0);
            assert_eq!(list.selected_item_idx, -1);
        },
        _ => panic!("unexpected stack layout"),
    }
}

#[test]
fn the_picker_emits_the_pending_add_on_submit() {
    let mut ws = full_stack();
    let mut out: Vec<UICommand> = Vec::new();
    ws.handle_ui_command(
        &UICommand::AddGetScheduler("buy milk tomorrow".to_string()),
        &mut out,
    );
    ws.handle_ui_command(&UICommand::SelectNext, &mut out);
    assert!(out.is_empty());
    ws.handle_ui_command(&UICommand::SubmitCommand("".to_string()), &mut out);
    assert_eq!(
        out,
        vec![
            UICommand::Add("work".to_string(), "buy milk tomorrow".to_string()),
            UICommand::TransitionPop,
        ]
    );
}

#[test]
fn the_picker_pops_without_a_choice() {
    let mut ws = full_stack();
    let mut out: Vec<UICommand> = Vec::new();
    ws.handle_ui_command(&UICommand::SubmitCommand("".to_string()), &mut out);
    assert_eq!(out, vec![UICommand::TransitionPop]);
}

#[test]
fn the_list_resolves_ack_against_its_selection() {
    let mut ws = WindowStack::new();
    let mut out: Vec<UICommand> = Vec::new();
    ws.handle_ui_command(&UICommand::TransitionPush("schedule".to_string()), &mut out);
    let it = item("buy milk", 10);
    ws.handle_ui_command(&UICommand::Schedules(vec![it.clone()]), &mut out);
    ws.handle_ui_command(&UICommand::SelectNext, &mut out);
    assert!(out.is_empty());
    ws.handle_ui_command(&UICommand::SubmitCommand("ack".to_string()), &mut out);
    assert_eq!(out, vec![UICommand::ExecuteWithItem("ack".to_string(), it)]);
}

#[test]
fn the_prompt_forwards_submitted_lines() {
    let mut ws = WindowStack::new();
    let mut out: Vec<UICommand> = Vec::new();
    ws.handle_ui_command(&UICommand::SubmitCommand("refresh".to_string()), &mut out);
    assert_eq!(out, vec![UICommand::Execute("refresh".to_string())]);
}

#[test]
fn selection_clamps_at_both_ends() {
    let mut ws = WindowStack::new();
    let mut out: Vec<UICommand> = Vec::new();
    ws.handle_ui_command(&UICommand::TransitionPush("schedule".to_string()), &mut out);
    // SelectNext on an empty list leaves the selection at -1.
    ws.handle_ui_command(&UICommand::SelectNext, &mut out);
    match &ws.windows[1] {
        Panel::Schedule(list) => assert_eq!(list.selected_item_idx, -1),
        _ => panic!("expected the schedule list"),
    }
    ws.handle_ui_command(&UICommand::Schedules(vec![item("a", 1), item("b", 2)]), &mut out);
    for _ in 0..5 {
        ws.handle_ui_command(&UICommand::SelectNext, &mut out);
    }
    match &ws.windows[1] {
        Panel::Schedule(list) => assert_eq!(list.selected_item_idx, 1),
        _ => panic!("expected the schedule list"),
    }
    for _ in 0..7 {
        ws.handle_ui_command(&UICommand::SelectPrev, &mut out);
    }
    match &ws.windows[1] {
        Panel::Schedule(list) => assert_eq!(list.selected_item_idx, -1),
        _ => panic!("expected the schedule list"),
    }
}

#[test]
fn the_picker_blocks_typing() {
    let mut ws = full_stack();
    let mut out: Vec<UICommand> = Vec::new();
    ws.handle_ui_command(&UICommand::UpdateUserInput("abc".to_string()), &mut out);
    assert!(out.is_empty());
    match &ws.windows[0] {
        Panel::Prompt(prompt) => assert_eq!(prompt.user_input, ""),
        _ => panic!("expected the prompt at the bottom"),
    }
}
