use todor::clock::END_OF_DAY_MS;
use todor::clock::MS_PER_DAY;
use todor::commands::UICommand;
use todor::display::schedule_window::render_schedule;
use todor::display::PromptMessage;
use todor::display::PromptMessageType;
use todor::display::PromptWindow;
use todor::display::WindowStack;
use todor::google_calendar_client::JsonTokenStorage;
use todor::scheduled_item::ScheduleItemType;
use todor::scheduled_item::ScheduledItem;

fn item(desc: &str, start: i64) -> ScheduledItem {
    ScheduledItem::new(
        format!("todoist:{}", desc),
        "todoist:Work".to_string(),
        ScheduleItemType::Todo,
        desc.to_string(),
        start,
        None,
        None,
    )
}

#[test]
fn day_groups_carry_their_date_and_count() {
    // Two items on 1970-01-02, one on 1970-01-03; far future of `now`, so
    // the rows are unstyled and exactly the formatted text.
    let d1 = MS_PER_DAY;
    let d2 = 2 * MS_PER_DAY;
    let items = vec![
        item("beta", d1 + 2 * 3600_000),
        item("alpha", d1 + 3600_000),
        item("gamma", d2 + 3600_000),
    ];
    let now = 0;
    let lines = render_schedule(&items, -1, now);
    let expected_day_one =
        format!("{}", chrono::NaiveDate::from_epoch_days(1).unwrap());
    assert_eq!(lines[0], expected_day_one);
    assert_eq!(lines[0], "1970-01-02");
    assert_eq!(lines[1], "--------2---------");
    assert_eq!(lines[2], "  alpha    1:00");
    assert_eq!(lines[3], "  beta     2:00");
    assert_eq!(lines[4], "");
    assert_eq!(lines[5], "1970-01-03");
    assert_eq!(lines[6], "--------1---------");
    assert_eq!(lines[7], "  gamma    1:00");
    assert_eq!(lines[8], "");
    assert_eq!(lines.len(), 9);
}

#[test]
fn selected_rows_are_marked() {
    let d1 = MS_PER_DAY;
    let items = vec![item("alpha", d1 + 3600_000)];
    let lines = render_schedule(&items, 0, 0);
    assert_eq!(lines[2], "  >  alpha    1:00");
}

#[test]
fn the_prompt_renders_last() {
    let mut ws = WindowStack::new();
    let mut out: Vec<UICommand> = Vec::new();
    ws.handle_ui_command(&UICommand::UpdateUserInput("ref".to_string()), &mut out);
    let segs = ws.render();
    let prompt_lines = segs.last().unwrap();
    assert_eq!(prompt_lines.last().unwrap(), ":> ref");
}

#[test]
fn token_files_live_under_the_config_directory() {
    let storage = JsonTokenStorage { program_name: "me".to_string(), db_dir: "config".to_string() };
    assert_eq!(storage.path(42), "config/me-token-42.json");
    assert_eq!(storage.path(0), "config/me-token-0.json");
}

#[test]
fn toasts_show_until_they_expire() {
    let mut w = PromptWindow::new();
    w.user_input = "hi".to_string();
    w.message = Some(PromptMessage::new(
        "boom".to_string(),
        10_000,
        PromptMessageType::Error,
        1_000,
    ));
    // Before the deadline the message line is drawn above the input line.
    assert_eq!(w.render(5_000), vec!["boom".to_string(), ":> hi".to_string()]);
    // After the deadline only the input line remains.
    assert_eq!(w.render(11_000), vec![":> hi".to_string()]);
}
