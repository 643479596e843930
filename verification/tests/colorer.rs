use colored::Colorize;
use todor::schedule_colorer::color_item_with_time_remaining;
use todor::schedule_colorer::color_class;
use todor::schedule_colorer::time_remaining_til;
use todor::schedule_colorer::ColorClass;
use todor::schedule_colorer::ONE_MINUTE_PAST;
use todor::schedule_colorer::TEN_MIN_TIL;
use todor::schedule_colorer::THREE_MIN_TIL;
use todor::scheduled_item::ScheduleItemType;
use todor::scheduled_item::ScheduledItem;

fn abs(val: i64) -> i64 {
    if val < 0 {
        -val
    } else {
        val
    }
}

fn item(now: i64, seconds_in_future: i64) -> ScheduledItem {
    let scheduled_time = now + seconds_in_future * 1000;
    let location = Some("location".to_string());
    ScheduledItem::new(
        "id".to_string(),
        "sched".to_string(),
        ScheduleItemType::Calendar,
        "A meeting".to_string(),
        scheduled_time,
        None,
        location,
    )
}

#[test]
fn when_time_remaining_is_two_minutes() {
    let now: i64 = 1_600_000_000_000;
    let it = item(now, 120);
    let remaining = time_remaining_til(&it, now);
    assert!(abs(120 * 1000 - remaining) < 10);
}

#[test]
fn when_more_than_ten_minutes_out_text_is_plain() {
    let colored = color_item_with_time_remaining(&"No rush".to_string(), TEN_MIN_TIL + 1);
    assert_eq!("No rush", colored);
}

#[test]
fn when_within_ten_minutes_text_turns_yellow() {
    let colored = color_item_with_time_remaining(&"Almost Time".to_string(), TEN_MIN_TIL - 1);
    assert_eq!("Almost Time".yellow().to_string(), colored);
}

#[test]
fn when_within_three_minutes_text_turns_yellow() {
    let colored = color_item_with_time_remaining(&"HURRY!".to_string(), THREE_MIN_TIL - 1);
    assert_eq!("HURRY!".red().bold().to_string(), colored);
}

#[test]
fn when_within_one_minute_past_text_is_red() {
    let colored =
        color_item_with_time_remaining(&"On your way, I hope!".to_string(), ONE_MINUTE_PAST + 1);
    assert_eq!("On your way, I hope!".red().bold().to_string(), colored);
}

#[test]
fn when_more_than_one_minute_past_text_is_plain() {
    let colored =
        color_item_with_time_remaining(&"Hope you're there".to_string(), ONE_MINUTE_PAST - 1);
    assert_eq!("Hope you're there", colored);
}

#[test]
fn coloring_boundaries() {
    // Measured as milliseconds remaining until the start time.
    assert_eq!(color_class(181_000), ColorClass::Approaching);
    assert_eq!(color_class(180_000), ColorClass::Approaching);
    assert_eq!(color_class(179_999), ColorClass::Urgent);
    assert_eq!(color_class(60_000), ColorClass::Urgent);
    assert_eq!(color_class(-59_000), ColorClass::Urgent);
    assert_eq!(color_class(-60_000), ColorClass::Plain);
    assert_eq!(color_class(-61_000), ColorClass::Plain);
    assert_eq!(color_class(600_000), ColorClass::Approaching);
    assert_eq!(color_class(600_001), ColorClass::Plain);
    assert_eq!(color_class(601_000), ColorClass::Plain);
}

#[test]
fn styled_classes_go_through_the_color_library() {
    // If the styling wrappers handed the text back unchanged these would
    // not match the color library's own output when colors are forced on.
    colored::control::set_override(true);
    let urgent = color_item_with_time_remaining(&"t".to_string(), 0);
    assert_eq!("t".red().bold().to_string(), urgent);
    assert_ne!("t", urgent);
    let approaching = color_item_with_time_remaining(&"t".to_string(), 200_000);
    assert_eq!("t".yellow().to_string(), approaching);
    assert_ne!("t", approaching);
    colored::control::unset_override();
}
