use vstd::prelude::*;
use vstd::string::*;
use crate::clock::spec_hour_of_ms;
use crate::clock::spec_minute_of_ms;
use crate::clock::spec_sat_sub;
use crate::clock::hour_of_ms;
use crate::clock::minute_of_ms;
use crate::clock::sat_sub;
use crate::scheduled_item::ScheduledItem;
use crate::text::spec_dec;
use crate::text::spec_digit;
use crate::text::spec_pad_right;
use crate::text::pad_right;
use crate::text::two_digit_string;
use crate::text::u64_to_string;

verus! {

/// Milliseconds of remaining time at or below which an item is rendered as
/// in progress, with its end time.
pub const DURING_MEETING: i64 = -300001;

/// Lower edge of the show-the-location window: five minutes past start.
pub const FIVE_MIN_PAST: i64 = -300000;

/// Upper edge of the show-the-location window: ten minutes until start.
pub const TEN_MIN_TIL: i64 = 600000;

/// `"H:MM"`: the hour unpadded, the minute always two digits.
pub open spec fn spec_time_text(ms: int) -> Seq<char> {
    spec_dec(spec_hour_of_ms(ms) as nat) + seq![':'] + seq![
        spec_digit(spec_minute_of_ms(ms) / 10),
        spec_digit(spec_minute_of_ms(ms) % 10),
    ]
}

/// The hour and minute of a wall-clock timestamp as `"H:MM"`.
pub fn format_time(time: i64) -> (r: String)
    ensures
        r@ == spec_time_text(time as int),
{
    let h = hour_of_ms(time);
    let m = minute_of_ms(time);
    let mut s = u64_to_string(h as u64);
    proof {
        reveal_strlit(":");
        assert(":"@ =~= seq![':']);
    }
    s.append(":");
    s.append(two_digit_string(m as u64).as_str());
    s
}

/// Description padded to `width + 2`, two spaces, start time.
pub open spec fn spec_without_location(item: ScheduledItem, width: int) -> Seq<char> {
    spec_pad_right(item.description@, width + 2) + seq![' ', ' '] + spec_time_text(
        item.start_time as int,
    )
}

/// As without-location, then the place on an indented second line when one
/// is known.
pub open spec fn spec_with_location(item: ScheduledItem, width: int) -> Seq<char> {
    match item.place {
        Some(place) => spec_without_location(item, width) + seq!['\n', '\t'] + place@,
        None => spec_without_location(item, width),
    }
}

/// Description padded to `width + 1`, two spaces, then `-` and the end time;
/// items with no end time show their start time instead.
pub open spec fn spec_with_end_time(item: ScheduledItem, width: int) -> Seq<char> {
    match item.end_time {
        Some(end_time) => spec_pad_right(item.description@, width + 1) + seq![' ', ' ', '-']
            + spec_time_text(end_time as int),
        None => spec_pad_right(item.description@, width + 1) + seq![' ', ' '] + spec_time_text(
            item.start_time as int,
        ),
    }
}

/// Which of the three renderings an item gets, by milliseconds remaining
/// until its start: long past shows the end time, near the start shows the
/// location, and everything else is the plain line.
pub open spec fn spec_format_with_remaining(
    item: ScheduledItem,
    time_remaining: int,
    width: int,
) -> Seq<char> {
    if time_remaining <= DURING_MEETING as int {
        spec_with_end_time(item, width)
    } else if time_remaining <= TEN_MIN_TIL as int {
        spec_with_location(item, width)
    } else {
        spec_without_location(item, width)
    }
}

/// The selected rendering: `">  "` then the line padded to `width`.
pub open spec fn spec_selected_text(line: Seq<char>, width: int) -> Seq<char> {
    seq!['>', ' ', ' '] + spec_pad_right(line, width)
}

/// A line for the item given how many milliseconds remain until it starts.
/// `None` would suppress the item; every item is currently rendered.
pub fn format_item_with_time_remaining(
    item: &ScheduledItem,
    time_remaining: i64,
    max_width: usize,
) -> (r: Option<String>)
    requires
        max_width + 2 <= usize::MAX,
    ensures
        r matches Some(s) && s@ == spec_format_with_remaining(
            *item,
            time_remaining as int,
            max_width as int,
        ),
{
    let line = if time_remaining <= DURING_MEETING {
        format_with_end_time(item, max_width)
    } else if time_remaining <= TEN_MIN_TIL {
        format_with_location(item, max_width)
    } else {
        format_without_location(item, max_width)
    };
    Some(line)
}

/// A line for the item as of the wall clock `now_ms`, selected or not.
/// `None` would suppress the item; every item is currently rendered.
pub fn format_item(item: &ScheduledItem, is_selected: bool, max_width: usize, now_ms: i64) -> (r:
    Option<String>)
    requires
        max_width + 2 <= usize::MAX,
    ensures
        r matches Some(s) && s@ == (if is_selected {
            spec_selected_text(
                spec_format_with_remaining(
                    *item,
                    spec_sat_sub(item.start_time as int, now_ms as int),
                    max_width as int,
                ),
                max_width as int,
            )
        } else {
            spec_format_with_remaining(
                *item,
                spec_sat_sub(item.start_time as int, now_ms as int),
                max_width as int,
            )
        }),
{
    let time_remaining = sat_sub(item.start_time, now_ms);
    let formatted = format_item_with_time_remaining(item, time_remaining, max_width);
    if is_selected {
        format_selection(formatted, max_width)
    } else {
        formatted
    }
}

/// Mark a rendered line as the selection: `">  "` and padding to `width`.
pub fn format_selection(formatted_item: Option<String>, max_width: usize) -> (r: Option<String>)
    ensures
        match formatted_item {
            Some(s) => r matches Some(t) && t@ == spec_selected_text(s@, max_width as int),
            None => r is None,
        },
{
    match formatted_item {
        None => None,
        Some(s) => {
            proof {
                reveal_strlit(">  ");
                assert(">  "@ =~= seq!['>', ' ', ' ']);
            }
            let mut line = String::from_str(">  ");
            line.append(pad_right(s, max_width).as_str());
            Some(line)
        },
    }
}

fn format_without_location(item: &ScheduledItem, max_width: usize) -> (r: String)
    requires
        max_width + 2 <= usize::MAX,
    ensures
        r@ == spec_without_location(*item, max_width as int),
{
    proof {
        reveal_strlit("  ");
        assert("  "@ =~= seq![' ', ' ']);
    }
    let mut line = pad_right(item.description.clone(), max_width + 2);
    line.append("  ");
    line.append(format_time(item.start_time).as_str());
    line
}

fn format_with_location(item: &ScheduledItem, max_width: usize) -> (r: String)
    requires
        max_width + 2 <= usize::MAX,
    ensures
        r@ == spec_with_location(*item, max_width as int),
{
    let mut line = format_without_location(item, max_width);
    match &item.place {
        Some(place) => {
            proof {
                reveal_strlit("\n\t");
                assert("\n\t"@ =~= seq!['\n', '\t']);
            }
            line.append("\n\t");
            line.append(place.as_str());
            line
        },
        None => line,
    }
}

fn format_with_end_time(item: &ScheduledItem, max_width: usize) -> (r: String)
    requires
        max_width + 1 <= usize::MAX,
    ensures
        r@ == spec_with_end_time(*item, max_width as int),
{
    let mut line = pad_right(item.description.clone(), max_width + 1);
    match item.end_time {
        Some(end_time) => {
            proof {
                reveal_strlit("  -");
                assert("  -"@ =~= seq![' ', ' ', '-']);
            }
            line.append("  -");
            line.append(format_time(end_time).as_str());
            line
        },
        None => {
            proof {
                reveal_strlit("  ");
                assert("  "@ =~= seq![' ', ' ']);
            }
            line.append("  ");
            line.append(format_time(item.start_time).as_str());
            line
        },
    }
}

} // verus!
