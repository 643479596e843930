use vstd::prelude::*;
use colored::Colorize;
use crate::clock::spec_sat_sub;
use crate::clock::sat_sub;
use crate::scheduled_item::ScheduledItem;

verus! {

/// Milliseconds remaining at which the urgent styling starts: one minute
/// past the start time, exclusive.
pub const ONE_MINUTE_PAST: i64 = -60000;

/// Milliseconds remaining at which the approaching styling starts.
pub const THREE_MIN_TIL: i64 = 180000;

/// Milliseconds remaining at which the approaching styling ends, inclusive.
pub const TEN_MIN_TIL: i64 = 600000;

/// How urgent an item is, by milliseconds remaining until it starts.
#[derive(Clone, Copy, Debug, PartialEq, Eq, Structural)]
pub enum ColorClass {
    /// Between one minute past and three minutes until the start: bold red.
    Urgent,
    /// Between three and ten minutes until the start: yellow.
    Approaching,
    /// Anything else, long past or far future: unstyled.
    Plain,
}

/// The styling an item gets: urgent in `(-60s, 180s)` of remaining time,
/// approaching in `[180s, 600s]`, unstyled outside both.
pub open spec fn spec_color_class(time_remaining: int) -> ColorClass {
    if (ONE_MINUTE_PAST as int) < time_remaining && time_remaining < THREE_MIN_TIL as int {
        ColorClass::Urgent
    } else if (THREE_MIN_TIL as int) <= time_remaining && time_remaining <= TEN_MIN_TIL as int {
        ColorClass::Approaching
    } else {
        ColorClass::Plain
    }
}

/// Which styling a remaining time gets.
pub fn color_class(time_remaining: i64) -> (r: ColorClass)
    ensures
        r == spec_color_class(time_remaining as int),
{
    if ONE_MINUTE_PAST < time_remaining && time_remaining < THREE_MIN_TIL {
        ColorClass::Urgent
    } else if THREE_MIN_TIL <= time_remaining && time_remaining <= TEN_MIN_TIL {
        ColorClass::Approaching
    } else {
        ColorClass::Plain
    }
}

/// Relies on `colored::Colorize::red` and `bold`: the urgent styling.
/// Whether escape codes are added depends on the environment, so nothing
/// more is stated of the text.
#[verifier::external_body]
fn paint_red_bold(text: &String) -> String {
    text.as_str().red().bold().to_string()
}

/// Relies on `colored::Colorize::yellow`: the approaching styling. Whether
/// escape codes are added depends on the environment, so nothing more is
/// stated of the text.
#[verifier::external_body]
fn paint_yellow(text: &String) -> String {
    text.as_str().yellow().to_string()
}

/// Milliseconds from the wall clock `now_ms` until the item starts;
/// negative once the start time has passed.
pub fn time_remaining_til(item: &ScheduledItem, now_ms: i64) -> (r: i64)
    ensures
        r as int == spec_sat_sub(item.start_time as int, now_ms as int),
{
    sat_sub(item.start_time, now_ms)
}

/// Style a rendered line by how much time remains: unstyled text is handed
/// back unchanged, the two styled classes go through the terminal-color
/// library.
pub fn color_item_with_time_remaining(text: &String, time_remaining: i64) -> (r: String)
    ensures
        spec_color_class(time_remaining as int) is Plain ==> r@ == text@,
{
    match color_class(time_remaining) {
        ColorClass::Urgent => paint_red_bold(text),
        ColorClass::Approaching => paint_yellow(text),
        ColorClass::Plain => text.clone(),
    }
}

/// Style a rendered line for the item as of the wall clock `now_ms`.
pub fn color_item(item: &ScheduledItem, text: &String, now_ms: i64) -> (r: String)
    ensures
        spec_color_class(spec_sat_sub(item.start_time as int, now_ms as int)) is Plain ==> r@
            == text@,
{
    color_item_with_time_remaining(text, time_remaining_til(item, now_ms))
}

} // verus!
