use vstd::prelude::*;
use vstd::string::*;
use crate::clock::epoch_day_of_ymd;
use crate::clock::spec_end_of_day;
use crate::clock::end_of_day;
use crate::clock::ymd_to_epoch_day;
use crate::scheduled_item::ScheduleItemType;
use crate::scheduled_item::ScheduledItem;
use crate::text::eq_str;
use crate::todoist_client::Task;
use crate::todoist_client::TodoistDate;

verus! {

/// The bearer token read from a backend's credential file.
#[derive(Debug)]
pub struct ApiToken {
    pub token: String,
}

/// Whether `s` is exactly `"YYYY-MM-DD"`: four digits, dash, two digits,
/// dash, two digits.
pub open spec fn spec_is_ymd(s: Seq<char>) -> bool {
    &&& s.len() == 10
    &&& forall|k: int|
        (0 <= k < 4 || k == 5 || k == 6 || k == 8 || k == 9) ==> 48 <= (#[trigger] s[k]) as u32
            <= 57
    &&& s[4] == '-'
    &&& s[7] == '-'
}

/// The numeric value of a digit character.
pub open spec fn spec_digit_val(c: char) -> int {
    c as u32 - 48
}

/// The year spelled by a `"YYYY-MM-DD"` text.
pub open spec fn spec_ymd_year(s: Seq<char>) -> int {
    spec_digit_val(s[0]) * 1000 + spec_digit_val(s[1]) * 100 + spec_digit_val(s[2]) * 10
        + spec_digit_val(s[3])
}

/// The month spelled by a `"YYYY-MM-DD"` text.
pub open spec fn spec_ymd_month(s: Seq<char>) -> int {
    spec_digit_val(s[5]) * 10 + spec_digit_val(s[6])
}

/// The day of month spelled by a `"YYYY-MM-DD"` text.
pub open spec fn spec_ymd_day(s: Seq<char>) -> int {
    spec_digit_val(s[8]) * 10 + spec_digit_val(s[9])
}

/// Parse `"YYYY-MM-DD"`; anything of another shape is rejected.
pub fn parse_ymd(s: &str) -> (r: Option<(i32, u32, u32)>)
    ensures
        if spec_is_ymd(s@) {
            r matches Some((y, m, d)) && y as int == spec_ymd_year(s@) && m as int
                == spec_ymd_month(s@) && d as int == spec_ymd_day(s@)
        } else {
            r is None
        },
{
    if s.unicode_len() != 10 {
        return None;
    }
    let mut i: usize = 0;
    while i < 10
        invariant
            s@.len() == 10,
            i <= 10,
            forall|k: int|
                0 <= k < i && k != 4 && k != 7 ==> 48 <= (#[trigger] s@[k]) as u32 <= 57,
            forall|k: int| 0 <= k < i && k == 4 ==> s@[k] == '-',
            forall|k: int| 0 <= k < i && k == 7 ==> s@[k] == '-',
        decreases 10 - i,
    {
        let c = s.get_char(i);
        if i == 4 || i == 7 {
            if c != '-' {
                return None;
            }
        } else {
            let v = c as u32;
            if !(48 <= v && v <= 57) {
                return None;
            }
        }
        i = i + 1;
    }
    let y: u32 = digit_val_at(s, 0) * 1000 + digit_val_at(s, 1) * 100 + digit_val_at(s, 2) * 10
        + digit_val_at(s, 3);
    let m: u32 = digit_val_at(s, 5) * 10 + digit_val_at(s, 6);
    let d: u32 = digit_val_at(s, 8) * 10 + digit_val_at(s, 9);
    Some((y as i32, m, d))
}

/// The value of the digit at character position `i`.
fn digit_val_at(s: &str, i: usize) -> (r: u32)
    requires
        i < s@.len(),
        48 <= s@[i as int] as u32 <= 57,
    ensures
        r as int == spec_digit_val(s@[i as int]),
        r <= 9,
{
    s.get_char(i) as u32 - 48
}

/// The day a task's service-reported date names: the spelled civil date
/// when it is well-formed and in calendar range, else the given fallback
/// day (the original falls back to the current date as well).
pub open spec fn spec_extracted_day(date: Seq<char>, today_day: int) -> int {
    if spec_is_ymd(date) {
        match epoch_day_of_ymd(spec_ymd_year(date), spec_ymd_month(date), spec_ymd_day(date)) {
            Some(day) => day as int,
            None => today_day,
        }
    } else {
        today_day
    }
}

/// The day named by a task's due date, backstopped by today.
pub fn extract_date(td: &TodoistDate, today_day: i64) -> (day: i64)
    ensures
        day as int == spec_extracted_day(td.date@, today_day as int),
{
    match parse_ymd(td.date.as_str()) {
        Some((y, m, d)) => match ymd_to_epoch_day(y, m, d) {
            Some(day) => day,
            None => today_day,
        },
        None => today_day,
    }
}

/// A task's start time: the end (23:59:59) of its due day, or of today when
/// the service reported no due date.
pub open spec fn spec_td_due_ms(due: Option<TodoistDate>, today_day: int) -> int {
    match due {
        None => spec_end_of_day(today_day),
        Some(td) => spec_end_of_day(spec_extracted_day(td.date@, today_day)),
    }
}

pub fn td_time_to_datetime(due: &Option<TodoistDate>, today_day: i64) -> (ms: i64)
    ensures
        ms as int == spec_td_due_ms(*due, today_day as int),
{
    match due {
        None => end_of_day(today_day),
        Some(td) => end_of_day(extract_date(td, today_day)),
    }
}

/// A service task as a scheduled item: ids are qualified with the service's
/// name, the text is the task's content, and the start time is the end of
/// its due day.
pub fn task_to_scheduled_item(account_id: &String, t: &Task, today_day: i64) -> (r: ScheduledItem)
    ensures
        r.id@ == "todoist:"@ + t.id@,
        r.scheduler@ == "todoist:"@ + account_id@,
        r.item_type == ScheduleItemType::Todo,
        r.description == t.content,
        r.start_time as int == spec_td_due_ms(t.due, today_day as int),
        r.end_time is None,
        r.place is None,
{
    let mut id = String::from_str("todoist:");
    id.append(t.id.as_str());
    let mut scheduler = String::from_str("todoist:");
    scheduler.append(account_id.as_str());
    ScheduledItem {
        id,
        scheduler,
        item_type: ScheduleItemType::Todo,
        description: t.content.clone(),
        start_time: td_time_to_datetime(&t.due, today_day),
        end_time: None,
        place: None,
    }
}

/// The first cached task whose content is exactly the target text; a
/// `close` acknowledges that task.
pub open spec fn spec_find_task(tasks: Seq<Task>, target: Seq<char>) -> Option<int>
    decreases tasks.len(),
{
    if tasks.len() == 0 {
        None
    } else if tasks[0].content@ == target {
        Some(0int)
    } else {
        match spec_find_task(tasks.skip(1), target) {
            Some(j) => Some(j + 1),
            None => None,
        }
    }
}

pub proof fn lemma_find_task_props(tasks: Seq<Task>, target: Seq<char>)
    ensures
        match spec_find_task(tasks, target) {
            Some(j) => 0 <= j < tasks.len() && tasks[j].content@ == target && forall|k: int|
                0 <= k < j ==> (#[trigger] tasks[k].content@) != target,
            None => forall|k: int|
                0 <= k < tasks.len() ==> (#[trigger] tasks[k].content@) != target,
        },
    decreases tasks.len(),
{
    if tasks.len() == 0 {
    } else if tasks[0].content@ == target {
    } else {
        lemma_find_task_props(tasks.skip(1), target);
        match spec_find_task(tasks, target) {
            Some(j) => {
                assert(tasks.skip(1)[j - 1] == tasks[j]);
                assert forall|k: int|
                    0 <= k < j implies (#[trigger] tasks[k].content@) != target by {
                    if k > 0 {
                        assert(tasks.skip(1)[k - 1] == tasks[k]);
                    }
                }
            },
            None => {
                assert forall|k: int|
                    0 <= k < tasks.len() implies (#[trigger] tasks[k].content@) != target by {
                    if k > 0 {
                        assert(tasks.skip(1)[k - 1] == tasks[k]);
                    }
                }
            },
        }
    }
}

/// Find the task a `close` should acknowledge, by exact content match.
pub fn find_task_by_content<'a>(tasks: &'a Vec<Task>, target: &String) -> (r: Option<&'a Task>)
    ensures
        match r {
            Some(t) => spec_find_task(tasks@, target@) matches Some(j) && *t == tasks@[j],
            None => spec_find_task(tasks@, target@) is None,
        },
{
    let mut i: usize = 0;
    while i < tasks.len()
        invariant
            i <= tasks@.len(),
            forall|k: int| 0 <= k < i ==> (#[trigger] tasks@[k].content@) != target@,
        decreases tasks@.len() - i,
    {
        if eq_str(tasks[i].content.as_str(), target.as_str()) {
            proof {
                lemma_find_task_props(tasks@, target@);
            }
            return Some(&tasks[i]);
        }
        i = i + 1;
    }
    proof {
        lemma_find_task_props(tasks@, target@);
    }
    None
}

} // verus!
