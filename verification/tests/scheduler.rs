use todor::clock::END_OF_DAY_MS;
use todor::clock::MS_PER_DAY;
use todor::commands::ScheduleCommand;
use todor::display::PromptMessageType;
use todor::scheduled_item::ScheduleItemType;
use todor::scheduled_item::ScheduledItem;
use todor::tasks::master_scheduler::after_add;
use todor::tasks::master_scheduler::after_close;
use todor::tasks::master_scheduler::due_from_parsed;
use todor::tasks::master_scheduler::SchedulerDecision;
use todor::tasks::MasterScheduler;

fn item(desc: &str, scheduler: &str, start: i64) -> ScheduledItem {
    ScheduledItem::new(
        format!("{}:{}", scheduler, desc),
        scheduler.to_string(),
        ScheduleItemType::Todo,
        desc.to_string(),
        start,
        None,
        None,
    )
}

fn registry() -> MasterScheduler {
    MasterScheduler::new(vec!["work".to_string(), "home".to_string()])
}

#[test]
fn startup_announces_the_roster() {
    let ms = registry();
    assert_eq!(ms.schedulers(), vec!["work".to_string(), "home".to_string()]);
}

#[test]
fn routing_miss_toasts_and_calls_nothing() {
    let ms = registry();
    let cmd = ScheduleCommand::CloseTodo("unknown-backend".to_string(), "x".to_string());
    match ms.handle_command(&cmd, 0, None) {
        SchedulerDecision::Miss { message } => {
            assert!(message.contains("unknown-backend"));
            assert!(message.contains("work"));
            assert!(message.contains("home"));
        },
        other => panic!("expected a miss, got {:?}", decision_name(&other)),
    }
}

fn decision_name(d: &SchedulerDecision) -> &'static str {
    match d {
        SchedulerDecision::RefreshAll => "RefreshAll",
        SchedulerDecision::CallAdd { .. } => "CallAdd",
        SchedulerDecision::CallClose { .. } => "CallClose",
        SchedulerDecision::Miss { .. } => "Miss",
    }
}

#[test]
fn known_backends_get_the_close_call() {
    let ms = registry();
    let cmd = ScheduleCommand::CloseTodo("home".to_string(), "water plants".to_string());
    match ms.handle_command(&cmd, 0, None) {
        SchedulerDecision::CallClose { index, target } => {
            assert_eq!(index, 1);
            assert_eq!(target, "water plants");
        },
        other => panic!("expected a close call, got {}", decision_name(&other)),
    }
}

#[test]
fn adds_carry_an_end_of_day_due_date() {
    let ms = registry();
    let now = 100 * MS_PER_DAY + 5000;
    let cmd = ScheduleCommand::Add("work".to_string(), "buy milk".to_string());
    // The text named a day: its last second is the due date.
    match ms.handle_command(&cmd, now, Some(103)) {
        SchedulerDecision::CallAdd { index, text, due_ms } => {
            assert_eq!(index, 0);
            assert_eq!(text, "buy milk");
            assert_eq!(due_ms, 103 * MS_PER_DAY + END_OF_DAY_MS);
        },
        other => panic!("expected an add call, got {}", decision_name(&other)),
    }
    // No date in the text: the end of the current day.
    match ms.handle_command(&cmd, now, None) {
        SchedulerDecision::CallAdd { due_ms, .. } => {
            assert_eq!(due_ms, 100 * MS_PER_DAY + END_OF_DAY_MS);
        },
        other => panic!("expected an add call, got {}", decision_name(&other)),
    }
}

#[test]
fn refresh_failures_keep_the_old_cache() {
    let mut ms = registry();
    let a1 = item("old a", "todoist:work", 50);
    let b1 = item("b one", "todoist:home", 30);
    let b2 = item("b two", "todoist:home", 40);
    ms.apply_refresh(&vec![Some(vec![a1.clone()]), Some(vec![b1.clone()])]);
    // Backend A fails, backend B answers with fresh items.
    ms.apply_refresh(&vec![None, Some(vec![b1.clone(), b2.clone()])]);
    let snapshot = ms.merged_snapshot();
    assert_eq!(snapshot, vec![b1, b2, a1]);
}

#[test]
fn snapshots_are_sorted_by_start_time() {
    let mut ms = registry();
    let a1 = item("late", "todoist:work", 500);
    let a2 = item("early", "todoist:work", 10);
    let b1 = item("middle", "todoist:home", 100);
    ms.apply_refresh(&vec![Some(vec![a1.clone(), a2.clone()]), Some(vec![b1.clone()])]);
    let snapshot = ms.merged_snapshot();
    assert_eq!(snapshot, vec![a2, b1, a1]);
    for w in snapshot.windows(2) {
        assert!(w[0].start_time <= w[1].start_time);
    }
}

#[test]
fn equal_start_times_keep_registry_order() {
    let mut ms = registry();
    let a = item("first", "todoist:work", 100);
    let b = item("second", "todoist:home", 100);
    ms.apply_refresh(&vec![Some(vec![a.clone()]), Some(vec![b.clone()])]);
    assert_eq!(ms.merged_snapshot(), vec![a, b]);
}

#[test]
fn failed_adds_become_error_toasts() {
    let now = 1_000;
    let (refresh, toast) = after_add(&Err("api down".to_string()), now);
    assert!(!refresh);
    let toast = toast.unwrap();
    assert_eq!(toast.text, "api down");
    assert_eq!(toast.message_type, PromptMessageType::Error);
    assert_eq!(toast.ttl, now + 10_000);
    let (refresh, toast) = after_add(&Ok(true), now);
    assert!(refresh);
    assert!(toast.is_none());
}

#[test]
fn closing_refreshes_and_clears_the_selection() {
    let (refresh, clear, toast) = after_close(&Ok(true), 0);
    assert!(refresh && clear && toast.is_none());
    let (refresh, clear, toast) = after_close(&Ok(false), 0);
    assert!(!refresh && !clear && toast.is_none());
    let (refresh, clear, toast) = after_close(&Err("gone".to_string()), 7);
    assert!(!refresh && !clear);
    assert_eq!(toast.unwrap().text, "gone");
}

#[test]
fn parsed_days_become_their_last_second() {
    assert_eq!(due_from_parsed(Some(0), 123), END_OF_DAY_MS);
    assert_eq!(due_from_parsed(Some(3), 0), 3 * MS_PER_DAY + END_OF_DAY_MS);
    // No parsed day: the end of the current day.
    assert_eq!(due_from_parsed(None, 2 * MS_PER_DAY + 5), 2 * MS_PER_DAY + END_OF_DAY_MS);
}

#[test]
fn adds_to_unknown_backends_are_misses_too() {
    let ms = registry();
    let cmd = ScheduleCommand::Add("nowhere".to_string(), "buy milk".to_string());
    match ms.handle_command(&cmd, 0, None) {
        SchedulerDecision::Miss { message } => {
            assert!(message.contains("nowhere"));
        },
        other => panic!("expected a miss, got {}", decision_name(&other)),
    }
}
