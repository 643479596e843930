use todor::clock::END_OF_DAY_MS;
use todor::clock::MS_PER_DAY;
use todor::google_scheduler::cal_event_to_scheduled_item;
use todor::google_scheduler::convert_event_time;
use todor::google_scheduler::event_start_time;
use todor::google_scheduler::format_location;
use todor::google_scheduler::strip_flexe;
use todor::google_scheduler::CalEvent;
use todor::google_scheduler::EventTime;
use todor::scheduled_item::ScheduleItemType;

#[test]
fn when_locations_include_flexe_prefix_we_remove_it() {
    let before = "Flexe HQ-6-Warehouser 12".to_string();
    let after = "Warehouser 12".to_string();
    assert_eq!(strip_flexe(before), after);
}

#[test]
fn every_prefix_occurrence_is_removed() {
    let before = "Flexe HQ-6-Flexe HQ-6-Room".to_string();
    assert_eq!(strip_flexe(before), "Room");
    assert_eq!(strip_flexe("no prefix".to_string()), "no prefix");
}

#[test]
fn locations_pass_through_the_stripper() {
    assert_eq!(format_location(None), None);
    assert_eq!(
        format_location(Some("Flexe HQ-6-Garage".to_string())),
        Some("Garage".to_string())
    );
}

#[test]
fn exact_instants_in_the_future_are_kept() {
    let now = 10 * MS_PER_DAY + 1000;
    let t = EventTime { date_time: Some(now + 5000), date: None };
    assert_eq!(convert_event_time(&t, now), now + 5000);
}

#[test]
fn all_day_events_land_on_the_end_of_their_day() {
    let now = 10 * MS_PER_DAY + 1000;
    let t = EventTime { date_time: None, date: Some(12) };
    assert_eq!(convert_event_time(&t, now), 12 * MS_PER_DAY + END_OF_DAY_MS);
}

#[test]
fn past_events_move_to_the_end_of_today() {
    let now = 10 * MS_PER_DAY + 1000;
    let t = EventTime { date_time: Some(3 * MS_PER_DAY), date: None };
    assert_eq!(convert_event_time(&t, now), 10 * MS_PER_DAY + END_OF_DAY_MS);
}

#[test]
fn events_with_no_start_are_skipped() {
    let e = CalEvent {
        i_cal_uid: None,
        summary: None,
        location: None,
        start: None,
        original_start_time: None,
        end: None,
    };
    assert_eq!(event_start_time(&e, 0), None);
    assert!(cal_event_to_scheduled_item(&"work".to_string(), &e, 0).is_none());
}

#[test]
fn events_become_calendar_items() {
    let now = 10 * MS_PER_DAY;
    let e = CalEvent {
        i_cal_uid: Some("uid-1".to_string()),
        summary: Some("Standup".to_string()),
        location: Some("Flexe HQ-6-Garage".to_string()),
        start: Some(EventTime { date_time: Some(now + 60_000), date: None }),
        original_start_time: None,
        end: Some(EventTime { date_time: Some(now + 120_000), date: None }),
    };
    let item = cal_event_to_scheduled_item(&"work".to_string(), &e, now).unwrap();
    assert_eq!(item.id, "uid-1");
    assert_eq!(item.scheduler, "google:work");
    assert_eq!(item.item_type, ScheduleItemType::Calendar);
    assert_eq!(item.description, "Standup");
    assert_eq!(item.start_time, now + 60_000);
    assert_eq!(item.end_time, Some(now + 120_000));
    assert_eq!(item.place, Some("Garage".to_string()));
}
