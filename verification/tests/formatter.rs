use todor::clock::MS_PER_DAY;
use todor::schedule_formatter::format_item;
use todor::schedule_formatter::format_item_with_time_remaining;
use todor::schedule_formatter::format_selection;
use todor::schedule_formatter::format_time;
use todor::schedule_formatter::DURING_MEETING;
use todor::scheduled_item::ScheduleItemType;
use todor::scheduled_item::ScheduledItem;

fn day_2020_04_02() -> i64 {
    chrono::NaiveDate::from_ymd_opt(2020, 4, 2).unwrap().to_epoch_days() as i64
}

fn item() -> ScheduledItem {
    let day = day_2020_04_02();
    let start_time = day * MS_PER_DAY + ((12 * 3600 + 1 * 60 + 13) * 1000);
    let end_time = day * MS_PER_DAY + ((13 * 3600 + 13 * 60 + 13) * 1000);
    let location = Some("location".to_string());
    ScheduledItem::new(
        "id".to_string(),
        "sched".to_string(),
        ScheduleItemType::Calendar,
        "A meeting".to_string(),
        start_time,
        Some(end_time),
        location,
    )
}

#[test]
fn requests_before_start_time_do_not_include_location() {
    let formatted_str = format_item_with_time_remaining(&item(), 30 * 60 * 1000, 20).unwrap();
    assert_eq!("A meeting               12:01", formatted_str);
}

#[test]
fn requests_close_to_start_time_include_location() {
    let formatted_str = format_item_with_time_remaining(&item(), 2, 20).unwrap();
    assert_eq!("A meeting               12:01\n\tlocation", formatted_str);
}

#[test]
fn requests_after_start_time_but_within_window_include_location() {
    let formatted_str = format_item_with_time_remaining(&item(), -6000, 20).unwrap();
    assert_eq!("A meeting               12:01\n\tlocation", formatted_str);
}

#[test]
fn requests_long_after_start_time_show_end_time() {
    let formatted_str = format_item_with_time_remaining(&item(), DURING_MEETING - 1, 20).unwrap();
    assert_eq!("A meeting              -13:13", formatted_str);
}

#[test]
fn formatting_boundary_at_eleven_and_nine_minutes() {
    // Eleven minutes out: no location line even though a place is set.
    let it = item();
    let eleven = format_item(&it, false, 20, it.start_time - 11 * 60 * 1000).unwrap();
    assert_eq!("A meeting               12:01", eleven);
    // Nine minutes out: the location line is appended.
    let nine = format_item(&it, false, 20, it.start_time - 9 * 60 * 1000).unwrap();
    assert_eq!("A meeting               12:01\n\tlocation", nine);
}

#[test]
fn selected_items_are_marked_and_padded() {
    let sel = format_selection(Some("x".to_string()), 4).unwrap();
    assert_eq!(">  x   ", sel);
    assert_eq!(format_selection(None, 4), None);
}

#[test]
fn times_format_as_hour_and_two_digit_minute() {
    let day = day_2020_04_02();
    assert_eq!("12:01", format_time(day * MS_PER_DAY + (12 * 3600 + 60) * 1000));
    assert_eq!("9:05", format_time(day * MS_PER_DAY + (9 * 3600 + 5 * 60) * 1000));
    assert_eq!("0:00", format_time(day * MS_PER_DAY));
}

#[test]
fn items_with_no_end_time_show_start_when_in_progress() {
    let mut it = item();
    it.end_time = None;
    let formatted = format_item_with_time_remaining(&it, DURING_MEETING, 20).unwrap();
    assert_eq!("A meeting              12:01", formatted);
}
