use todor::clock::END_OF_DAY_MS;
use todor::clock::MS_PER_DAY;
use todor::scheduled_item::ScheduleItemType;
use todor::todoist_client::find_project;
use todor::todoist_client::NewTask;
use todor::todoist_client::Project;
use todor::todoist_client::Task;
use todor::todoist_client::TodoistDate;
use todor::todoist_scheduler::extract_date;
use todor::todoist_scheduler::find_task_by_content;
use todor::todoist_scheduler::parse_ymd;
use todor::todoist_scheduler::task_to_scheduled_item;
use todor::todoist_scheduler::td_time_to_datetime;

fn td(date: &str) -> TodoistDate {
    TodoistDate { string: "whenever".to_string(), date: date.to_string(), datetime: None, timezone: None }
}

fn task(id: &str, content: &str, due: Option<TodoistDate>) -> Task {
    Task {
        id: id.to_string(),
        project_id: "1".to_string(),
        content: content.to_string(),
        is_completed: false,
        order: None,
        priority: 0,
        due_string: None,
        due_date: None,
        due_datetime: None,
        due,
        url: "".to_string(),
    }
}

#[test]
fn service_dates_parse_as_ymd() {
    assert_eq!(parse_ymd("2020-04-02"), Some((2020, 4, 2)));
    assert_eq!(parse_ymd("0000-01-01"), Some((0, 1, 1)));
    assert_eq!(parse_ymd("2020-4-02"), None);
    assert_eq!(parse_ymd("2020-04-02T00:00"), None);
    assert_eq!(parse_ymd("202a-04-02"), None);
    assert_eq!(parse_ymd(""), None);
}

#[test]
fn extracted_days_agree_with_the_calendar() {
    let expected = chrono::NaiveDate::from_ymd_opt(2020, 4, 2).unwrap().to_epoch_days() as i64;
    assert_eq!(extract_date(&td("2020-04-02"), 7), expected);
    // Malformed or impossible dates fall back to the given day.
    assert_eq!(extract_date(&td("not a date"), 7), 7);
    assert_eq!(extract_date(&td("2020-13-41"), 7), 7);
}

#[test]
fn missing_due_dates_mean_the_end_of_today() {
    assert_eq!(td_time_to_datetime(&None, 3), 3 * MS_PER_DAY + END_OF_DAY_MS);
    assert_eq!(
        td_time_to_datetime(&Some(td("1970-01-02")), 9),
        MS_PER_DAY + END_OF_DAY_MS
    );
}

#[test]
fn tasks_become_todo_items() {
    let t = task("42", "water plants", Some(td("1970-01-03")));
    let item = task_to_scheduled_item(&"Work".to_string(), &t, 0);
    assert_eq!(item.id, "todoist:42");
    assert_eq!(item.scheduler, "todoist:Work");
    assert_eq!(item.item_type, ScheduleItemType::Todo);
    assert_eq!(item.description, "water plants");
    assert_eq!(item.start_time, 2 * MS_PER_DAY + END_OF_DAY_MS);
    assert_eq!(item.end_time, None);
    assert_eq!(item.place, None);
}

#[test]
fn closes_match_tasks_by_exact_content() {
    let tasks = vec![
        task("1", "water plants", None),
        task("2", "buy milk", None),
        task("3", "buy milk", None),
    ];
    let found = find_task_by_content(&tasks, &"buy milk".to_string()).unwrap();
    assert_eq!(found.id, "2");
    assert!(find_task_by_content(&tasks, &"mow lawn".to_string()).is_none());
}

#[test]
fn projects_match_by_name() {
    let projects = vec![
        Project { comment_count: 0, id: "10".to_string(), name: "Inbox".to_string() },
        Project { comment_count: 0, id: "11".to_string(), name: "Work".to_string() },
    ];
    assert_eq!(find_project(&projects, "Work").unwrap().id, "11");
    assert!(find_project(&projects, "Play").is_none());
}

#[test]
fn new_tasks_spell_their_due_instant_in_utc() {
    let due = MS_PER_DAY + END_OF_DAY_MS;  // 1970-01-02 23:59:59
    let t = NewTask::new("10".to_string(), "buy milk".to_string(), due);
    assert_eq!(t.project_id, "10");
    assert_eq!(t.content, "buy milk");
    let expected = chrono::DateTime::<chrono::Utc>::from_timestamp_millis(due)
        .unwrap()
        .to_rfc3339_opts(chrono::SecondsFormat::Secs, true);
    assert_eq!(t.due_datetime, Some(expected));
    assert_eq!(t.due_datetime, Some("1970-01-02T23:59:59+00:00".to_string().replace("+00:00", "Z")));
}
