use vstd::prelude::*;
use vstd::string::*;
use crate::clock::spec_day_of_ms;
use crate::clock::spec_end_of_day;
use crate::clock::day_of_ms;
use crate::clock::end_of_day;
use crate::scheduled_item::ScheduleItemType;
use crate::scheduled_item::ScheduledItem;
use crate::text::spec_strip_all;
use crate::text::strip_all;

verus! {

/// A calendar event time as the calendar service reports it, already read
/// into plain values: an exact instant as wall-clock milliseconds, or an
/// all-day date as a day number. The surrounding process parses the
/// service's text forms into this.
#[derive(Debug)]
pub struct EventTime {
    pub date_time: Option<i64>,
    pub date: Option<i64>,
}

impl Clone for EventTime {
    fn clone(&self) -> (r: Self)
        ensures
            r == *self,
    {
        EventTime { date_time: self.date_time, date: self.date }
    }
}

/// A calendar event, with what the schedule view reads of it.
#[derive(Debug)]
pub struct CalEvent {
    pub i_cal_uid: Option<String>,
    pub summary: Option<String>,
    pub location: Option<String>,
    pub start: Option<EventTime>,
    pub original_start_time: Option<EventTime>,
    pub end: Option<EventTime>,
}

/// The prefix the office's room names carry, stripped for display.
pub open spec fn spec_flexe_prefix() -> Seq<char> {
    "Flexe HQ-6-"@
}

/// Room names with the office prefix removed.
pub fn strip_flexe(location: String) -> (r: String)
    ensures
        r@ == spec_strip_all(location@, spec_flexe_prefix()),
{
    proof {
        reveal_strlit("Flexe HQ-6-");
    }
    strip_all(location.as_str(), "Flexe HQ-6-")
}

/// An event's display place: its location with the office prefix removed.
pub open spec fn spec_format_location(location: Option<String>) -> Option<Seq<char>> {
    match location {
        None => None,
        Some(place) => Some(spec_strip_all(place@, spec_flexe_prefix())),
    }
}

pub fn format_location(location: Option<String>) -> (r: Option<String>)
    ensures
        match r {
            Some(s) => spec_format_location(location) matches Some(v) && s@ == v,
            None => spec_format_location(location) is None,
        },
{
    match location {
        None => None,
        Some(place) => Some(strip_flexe(place)),
    }
}

/// The instant an event time names: the exact instant when there is one,
/// else the end (23:59:59) of the all-day date, else the clock now; and
/// never before today — anything earlier is moved to the end of today.
pub open spec fn spec_convert_event_time(time: EventTime, now: int) -> int {
    let picked = match time.date_time {
        Some(ms) => ms as int,
        None => match time.date {
            Some(d) => spec_end_of_day(d as int),
            None => now,
        },
    };
    if spec_day_of_ms(picked) >= spec_day_of_ms(now) {
        picked
    } else {
        spec_end_of_day(spec_day_of_ms(now))
    }
}

pub fn convert_event_time(time: &EventTime, now_ms: i64) -> (r: i64)
    ensures
        r as int == spec_convert_event_time(*time, now_ms as int),
{
    let picked: i64 = match time.date_time {
        Some(ms) => ms,
        None => match time.date {
            Some(d) => end_of_day(d),
            None => now_ms,
        },
    };
    if day_of_ms(picked) >= day_of_ms(now_ms) {
        picked
    } else {
        end_of_day(day_of_ms(now_ms))
    }
}

/// The event time the start is read from: the start itself, or the
/// original start of a moved recurring event.
pub open spec fn spec_event_start_source(e: CalEvent) -> Option<EventTime> {
    match (e.start, e.original_start_time) {
        (Some(s), _) => Some(s),
        (None, Some(s)) => Some(s),
        (None, None) => None,
    }
}

/// An event's start instant; an event with no start at all has none and is
/// skipped by the conversion.
pub fn event_start_time(e: &CalEvent, now_ms: i64) -> (r: Option<i64>)
    ensures
        match spec_event_start_source(*e) {
            Some(t) => r == Some(
                ((spec_convert_event_time(t, now_ms as int)) as i64),
            ),
            None => r is None,
        },
{
    match (&e.start, &e.original_start_time) {
        (Some(s), _) => Some(convert_event_time(s, now_ms)),
        (None, Some(s)) => Some(convert_event_time(s, now_ms)),
        (None, None) => None,
    }
}

/// An event's end instant, when it has one.
pub fn event_end_time(e: &CalEvent, now_ms: i64) -> (r: Option<i64>)
    ensures
        match e.end {
            Some(t) => r == Some(((spec_convert_event_time(t, now_ms as int)) as i64)),
            None => r is None,
        },
{
    match &e.end {
        Some(end) => Some(convert_event_time(end, now_ms)),
        None => None,
    }
}

/// A calendar event as a scheduled item: the id is the event's calendar
/// uid, the owner is the account qualified with the service's name, and an
/// event with no start time at all yields nothing.
pub fn cal_event_to_scheduled_item(account_id: &String, e: &CalEvent, now_ms: i64) -> (r: Option<
    ScheduledItem,
>)
    ensures
        match spec_event_start_source(*e) {
            Some(t) => r matches Some(item) && {
                &&& item.id@ == (match e.i_cal_uid {
                    Some(uid) => uid@,
                    None => Seq::<char>::empty(),
                })
                &&& item.scheduler@ == "google:"@ + account_id@
                &&& item.item_type == ScheduleItemType::Calendar
                &&& item.description@ == (match e.summary {
                    Some(s) => s@,
                    None => "no desc"@,
                })
                &&& item.start_time as int == spec_convert_event_time(t, now_ms as int)
                &&& (match e.end {
                    Some(et) => item.end_time == Some(
                        ((spec_convert_event_time(et, now_ms as int)) as i64),
                    ),
                    None => item.end_time is None,
                })
                &&& (match spec_format_location(e.location) {
                    Some(v) => item.place matches Some(p) && p@ == v,
                    None => item.place is None,
                })
            },
            None => r is None,
        },
{
    let description = match &e.summary {
        Some(s) => s.clone(),
        None => String::from_str("no desc"),
    };
    let place = format_location(
        match &e.location {
            Some(l) => Some(l.clone()),
            None => None,
        },
    );
    let start_time = event_start_time(e, now_ms);
    let end_time = event_end_time(e, now_ms);
    match start_time {
        Some(start_time) => {
            let id = match &e.i_cal_uid {
                Some(uid) => uid.clone(),
                None => String::new(),
            };
            let mut scheduler = String::from_str("google:");
            scheduler.append(account_id.as_str());
            Some(
                ScheduledItem::new(
                    id,
                    scheduler,
                    ScheduleItemType::Calendar,
                    description,
                    start_time,
                    end_time,
                    place,
                ),
            )
        },
        None => None,
    }
}

} // verus!
