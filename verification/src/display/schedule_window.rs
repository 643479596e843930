use vstd::prelude::*;
use vstd::string::*;
use crate::clock::FORMAT_DAY_MAX;
use crate::clock::FORMAT_DAY_MIN;
use crate::clock::day_text;
use crate::clock::day_of_ms;
use crate::clock::format_epoch_day;
use crate::clock::spec_day_of_ms;
use crate::clock::spec_sat_sub;
use crate::commands::UICommand;
use crate::display::ScheduleWindow;
use crate::schedule_colorer::color_item;
use crate::schedule_colorer::spec_color_class;
use crate::schedule_formatter::format_item;
use crate::schedule_formatter::spec_format_with_remaining;
use crate::schedule_formatter::spec_selected_text;
use crate::scheduled_item::ScheduledItem;
use crate::scheduled_item::clone_items;
use crate::scheduled_item::sort_items_by_start;
use crate::scheduled_item::spec_sort_by_start;
use crate::text::ci_equal;
use crate::text::eq_ignore_case;
use crate::text::spec_dec;

verus! {

/// The widest description column the schedule view will use.
pub const MAX_WIDTH: usize = 48;

/// The item under the schedule view's cursor: `None` when nothing is
/// selected or the cursor points past a shrunken snapshot.
pub open spec fn spec_selected_item(w: ScheduleWindow) -> Option<ScheduledItem> {
    if 0 <= w.selected_item_idx && (w.selected_item_idx as int) < w.schedules@.len() {
        Some(w.schedules@[w.selected_item_idx as int])
    } else {
        None
    }
}

/// Which commands the schedule view consumes: snapshots, cursor moves, and
/// submitted `ack`/`close` lines (case-insensitive), which it resolves
/// against its selection.
pub open spec fn schedule_consumes(cmd: UICommand) -> bool {
    match cmd {
        UICommand::Schedules(_) => true,
        UICommand::SelectNext => true,
        UICommand::SelectPrev => true,
        UICommand::ClearSelection => true,
        UICommand::SubmitCommand(line) => ci_equal(line@, "ack"@) || ci_equal(line@, "close"@),
        _ => false,
    }
}

/// The schedule view's state after being offered a command: a snapshot
/// replaces the list wholesale (stated over views, since the stored list is
/// a copy), and cursor moves clamp to `[-1, len - 1]`.
pub open spec fn schedule_step(pre: ScheduleWindow, post: ScheduleWindow, cmd: UICommand) -> bool {
    match cmd {
        UICommand::Schedules(sched) => {
            &&& post.schedules@ == sched@
            &&& post.selected_item_idx == pre.selected_item_idx
            &&& post.active == pre.active
        },
        _ => post == schedule_next(pre, cmd),
    }
}

/// The schedule view's state after a command that does not replace the
/// snapshot.
pub open spec fn schedule_next(w: ScheduleWindow, cmd: UICommand) -> ScheduleWindow {
    match cmd {
        UICommand::SelectNext => ScheduleWindow {
            selected_item_idx: if w.selected_item_idx + 1 <= w.schedules@.len() - 1 {
                (w.selected_item_idx + 1) as i32
            } else {
                (w.schedules@.len() - 1) as i32
            },
            ..w
        },
        UICommand::SelectPrev => ScheduleWindow {
            selected_item_idx: if w.selected_item_idx - 1 >= -1 {
                (w.selected_item_idx - 1) as i32
            } else {
                -1i32
            },
            ..w
        },
        UICommand::ClearSelection => ScheduleWindow { selected_item_idx: -1i32, ..w },
        _ => w,
    }
}

/// What the schedule view emits: a submitted `ack`/`close` goes back as an
/// execute request, carrying the selected item when there is one.
pub open spec fn schedule_emits(w: ScheduleWindow, cmd: UICommand) -> Seq<UICommand> {
    match cmd {
        UICommand::SubmitCommand(line) => if ci_equal(line@, "ack"@) || ci_equal(
            line@,
            "close"@,
        ) {
            match spec_selected_item(w) {
                Some(item) => seq![UICommand::ExecuteWithItem(line, item)],
                None => seq![UICommand::Execute(line)],
            }
        } else {
            Seq::<UICommand>::empty()
        },
        _ => Seq::<UICommand>::empty(),
    }
}

impl ScheduleWindow {
    /// Offer a command; see `schedule_consumes`, `schedule_next`, and
    /// `schedule_emits` for the three facets of the answer.
    pub fn handle(&mut self, cmd: &UICommand, out: &mut Vec<UICommand>) -> (consumed: bool)
        requires
            old(self).wf(),
            crate::commands::cmd_wf(*cmd),
        ensures
            final(self).wf(),
            consumed == schedule_consumes(*cmd),
            schedule_step(*old(self), *final(self), *cmd),
            final(out)@ == old(out)@ + schedule_emits(*old(self), *cmd),
    {
        let consumed = match cmd {
            UICommand::Schedules(sched) => {
                self.schedules = clone_items(sched);
                true
            },
            UICommand::SelectNext => {
                let len: i32 = self.schedules.len() as i32;
                if self.selected_item_idx + 1 <= len - 1 {
                    self.selected_item_idx = self.selected_item_idx + 1;
                } else {
                    self.selected_item_idx = len - 1;
                }
                true
            },
            UICommand::SelectPrev => {
                if self.selected_item_idx - 1 >= -1 {
                    self.selected_item_idx = self.selected_item_idx - 1;
                } else {
                    self.selected_item_idx = -1;
                }
                true
            },
            UICommand::ClearSelection => {
                self.selected_item_idx = -1;
                true
            },
            UICommand::SubmitCommand(line) => {
                if eq_ignore_case(line.as_str(), "ack") || eq_ignore_case(line.as_str(), "close") {
                    match self.selected_item_ref() {
                        None => {
                            out.push(UICommand::Execute(line.clone()));
                        },
                        Some(item) => {
                            let item = item.clone();
                            out.push(UICommand::ExecuteWithItem(line.clone(), item));
                        },
                    }
                    true
                } else {
                    false
                }
            },
            _ => false,
        };
        proof {
            assert(final(out)@ =~= old(out)@ + schedule_emits(*old(self), *cmd));
        }
        consumed
    }

    fn selected_item_ref(&self) -> (r: Option<&ScheduledItem>)
        requires
            self.wf(),
        ensures
            match r {
                Some(item) => spec_selected_item(*self) == Some(*item),
                None => spec_selected_item(*self) is None,
            },
    {
        if self.selected_item_idx < 0 {
            None
        } else if (self.selected_item_idx as usize) < self.schedules.len() {
            Some(&self.schedules[self.selected_item_idx as usize])
        } else {
            None
        }
    }
}

/// The day a start time falls on, clamped into the formattable window.
pub open spec fn spec_display_day(t: int) -> int {
    let d = spec_day_of_ms(t);
    if d < FORMAT_DAY_MIN as int {
        FORMAT_DAY_MIN as int
    } else if d > FORMAT_DAY_MAX as int {
        FORMAT_DAY_MAX as int
    } else {
        d
    }
}

fn display_day(t: i64) -> (r: i64)
    ensures
        r as int == spec_display_day(t as int),
        FORMAT_DAY_MIN <= r <= FORMAT_DAY_MAX,
{
    let d = day_of_ms(t);
    if d < FORMAT_DAY_MIN {
        FORMAT_DAY_MIN
    } else if d > FORMAT_DAY_MAX {
        FORMAT_DAY_MAX
    } else {
        d
    }
}

/// Length of the run of items at the front of `items` whose start times
/// fall on day `d`.
pub open spec fn spec_day_run(items: Seq<ScheduledItem>, d: int) -> int
    decreases items.len(),
{
    if items.len() == 0 || spec_day_of_ms(items[0].start_time as int) != d {
        0
    } else {
        1 + spec_day_run(items.skip(1), d)
    }
}

pub proof fn lemma_day_run_bounds(items: Seq<ScheduledItem>, d: int)
    ensures
        0 <= spec_day_run(items, d) <= items.len(),
        forall|k: int|
            0 <= k < spec_day_run(items, d) ==> spec_day_of_ms(#[trigger] items[k].start_time as int)
                == d,
        spec_day_run(items, d) < items.len() ==> spec_day_of_ms(
            items[spec_day_run(items, d)].start_time as int,
        ) != d,
    decreases items.len(),
{
    if items.len() == 0 || spec_day_of_ms(items[0].start_time as int) != d {
    } else {
        lemma_day_run_bounds(items.skip(1), d);
        assert forall|k: int|
            0 <= k < spec_day_run(items, d) implies spec_day_of_ms(
            #[trigger] items[k].start_time as int,
        ) == d by {
            if k > 0 {
                assert(spec_day_of_ms(items.skip(1)[k - 1].start_time as int) == d);
            }
        }
        if spec_day_run(items, d) < items.len() {
            assert(items.skip(1)[spec_day_run(items, d) - 1] == items[spec_day_run(items, d)]);
        }
    }
}

pub proof fn lemma_day_run_is(items: Seq<ScheduledItem>, d: int, n: int)
    requires
        0 <= n <= items.len(),
        forall|k: int| 0 <= k < n ==> spec_day_of_ms(#[trigger] items[k].start_time as int) == d,
        n < items.len() ==> spec_day_of_ms(items[n].start_time as int) != d,
    ensures
        spec_day_run(items, d) == n,
    decreases items.len(),
{
    if items.len() == 0 {
    } else if spec_day_of_ms(items[0].start_time as int) != d {
        assert(n == 0);
    } else {
        assert(n >= 1) by {
            assert(spec_day_of_ms(items[0].start_time as int) == d);
        }
        assert forall|k: int|
            0 <= k < n - 1 implies spec_day_of_ms(
            #[trigger] items.skip(1)[k].start_time as int,
        ) == d by {
            assert(items.skip(1)[k] == items[k + 1]);
        }
        if n - 1 < items.skip(1).len() {
            assert(items.skip(1)[n - 1] == items[n]);
        }
        lemma_day_run_is(items.skip(1), d, n - 1);
    }
}

/// The divider drawn under a day header, carrying the day's item count.
pub open spec fn spec_divider(n: int) -> Seq<char> {
    "--------"@ + spec_dec(n as nat) + "---------"@
}

/// One rendered schedule row: when the coloring leaves the text unstyled,
/// the row is exactly two spaces and the formatted item; styled rows go
/// through the terminal-color library and are not pinned here.
pub open spec fn spec_item_line_ok(
    line: Seq<char>,
    item: ScheduledItem,
    selected: bool,
    width: int,
    now: int,
) -> bool {
    spec_color_class(spec_sat_sub(item.start_time as int, now)) is Plain ==> line == seq![' ', ' ']
        + (if selected {
        spec_selected_text(spec_format_with_remaining(item, spec_sat_sub(item.start_time as int, now), width), width)
    } else {
        spec_format_with_remaining(item, spec_sat_sub(item.start_time as int, now), width)
    })
}

/// The schedule view's rendering, group by group: each run of items on one
/// day gets its date header, a divider with the run's length, the items'
/// rows (the row at relative index `sel` marked selected), and a blank
/// line; then the rest of the items the same way.
pub open spec fn spec_schedule_lines_ok(
    lines: Seq<Seq<char>>,
    items: Seq<ScheduledItem>,
    sel: int,
    width: int,
    now: int,
) -> bool
    decreases items.len(),
    via spec_schedule_lines_ok_decreases
{
    if items.len() == 0 {
        lines.len() == 0
    } else {
        let d = spec_day_of_ms(items[0].start_time as int);
        let n = spec_day_run(items, d);
        &&& lines.len() >= n + 3
        &&& lines[0] == day_text(spec_display_day(items[0].start_time as int))
        &&& lines[1] == spec_divider(n)
        &&& forall|k: int|
            0 <= k < n ==> spec_item_line_ok(lines[2 + k], items[k], k == sel, width, now)
        &&& lines[n + 2] == Seq::<char>::empty()
        &&& spec_schedule_lines_ok(lines.skip(n + 3), items.skip(n), sel - n, width, now)
    }
}

#[via_fn]
proof fn spec_schedule_lines_ok_decreases(
    lines: Seq<Seq<char>>,
    items: Seq<ScheduledItem>,
    sel: int,
    width: int,
    now: int,
) {
    if items.len() != 0 {
        lemma_day_run_bounds(items, spec_day_of_ms(items[0].start_time as int));
    }
}

/// Render `items[from..]` group by group. `sel` is the cursor position
/// relative to `from`.
fn schedule_lines(items: &Vec<ScheduledItem>, from: usize, sel: i64, width: usize, now: i64) -> (
    lines: Vec<String>)
    requires
        from <= items@.len(),
        items@.len() < 0x7FFFFFFF,
        width + 2 <= usize::MAX,
        sel >= -0x80000000 - from as i64,
    ensures
        spec_schedule_lines_ok(
            lines.deep_view(),
            items@.skip(from as int),
            sel as int,
            width as int,
            now as int,
        ),
    decreases items@.len() - from,
{
    let ghost rest = items@.skip(from as int);
    if from == items.len() {
        let lines: Vec<String> = Vec::new();
        proof {
            assert(lines.deep_view() =~= Seq::<Seq<char>>::empty());
        }
        return lines;
    }
    let d = day_of_ms(items[from].start_time);
    let mut j: usize = from + 1;
    while j < items.len() && day_of_ms(items[j].start_time) == d
        invariant
            from < j <= items@.len(),
            d == spec_day_of_ms(items@[from as int].start_time as int),
            forall|k: int|
                from <= k < j ==> spec_day_of_ms(#[trigger] items@[k].start_time as int) == d as int,
        decreases items@.len() - j,
    {
        j = j + 1;
    }
    let ghost n = j - from;
    proof {
        assert forall|k: int|
            0 <= k < n implies spec_day_of_ms(#[trigger] rest[k].start_time as int) == d as int by {
            assert(rest[k] == items@[from + k]);
        }
        if n < rest.len() {
            assert(rest[n] == items@[j as int]);
        }
        lemma_day_run_is(rest, d as int, n);
    }
    let mut lines: Vec<String> = Vec::new();
    lines.push(format_epoch_day(display_day(items[from].start_time)));
    let mut divider = String::from_str("--------");
    divider.append(crate::text::u64_to_string((j - from) as u64).as_str());
    divider.append("---------");
    lines.push(divider);
    let mut k: usize = from;
    while k < j
        invariant
            from <= k <= j <= items@.len(),
            items@.len() < 0x7FFFFFFF,
            width + 2 <= usize::MAX,
            rest == items@.skip(from as int),
            lines.deep_view().len() == 2 + k - from,
            lines.deep_view()[0] == day_text(spec_display_day(items@[from as int].start_time as int)),
            lines.deep_view()[1] == spec_divider(n),
            n == j - from,
            forall|t: int|
                0 <= t < k - from ==> spec_item_line_ok(
                    #[trigger] lines.deep_view()[2 + t],
                    rest[t],
                    t == sel as int,
                    width as int,
                    now as int,
                ),
        decreases j - k,
    {
        let is_selected = sel >= 0 && (k - from) as i64 == sel;
        let formatted = match format_item(&items[k], is_selected, width, now) {
            Some(s) => s,
            None => String::new(),
        };
        let colored_line = color_item(&items[k], &formatted, now);
        proof {
            reveal_strlit("  ");
            assert("  "@ =~= seq![' ', ' ']);
        }
        let mut row = String::from_str("  ");
        row.append(colored_line.as_str());
        let ghost pre = lines.deep_view();
        lines.push(row);
        proof {
            assert(lines.deep_view() =~= pre.push(row@));
            assert(rest[k - from] == items@[k as int]);
            assert(is_selected == ((k - from) as int == sel as int));
            assert(spec_item_line_ok(
                lines.deep_view()[2 + (k - from)],
                rest[k - from],
                (k - from) as int == sel as int,
                width as int,
                now as int,
            ));
        }
        k = k + 1;
    }
    let ghost pre = lines.deep_view();
    lines.push(String::new());
    proof {
        assert(lines.deep_view() =~= pre.push(Seq::<char>::empty()));
    }
    let mut tail = schedule_lines(items, j, sel - (j - from) as i64, width, now);
    let ghost head = lines.deep_view();
    let ghost tail_view = tail.deep_view();
    lines.append(&mut tail);
    proof {
        assert(lines.deep_view() =~= head + tail_view);
        assert(lines.deep_view().skip(n + 3) =~= tail_view);
        assert(rest[0] == items@[from as int]);
        assert(rest.skip(n) =~= items@.skip(j as int));
        assert forall|t: int|
            0 <= t < n implies spec_item_line_ok(
            #[trigger] lines.deep_view()[2 + t],
            rest[t],
            t == sel as int,
            width as int,
            now as int,
        ) by {
            assert(lines.deep_view()[2 + t] == head[2 + t]);
        }
        assert(spec_schedule_lines_ok(
            lines.deep_view(),
            rest,
            sel as int,
            width as int,
            now as int,
        ));
    }
    lines
}

/// The longest description among the items; zero when there are none.
pub open spec fn spec_max_desc(items: Seq<ScheduledItem>) -> int
    decreases items.len(),
{
    if items.len() == 0 {
        0
    } else {
        let m = spec_max_desc(items.drop_last());
        if items.last().description@.len() >= m {
            items.last().description@.len() as int
        } else {
            m
        }
    }
}

/// The description column width the view settles on: the widest
/// description, but never wider than `MAX_WIDTH`, and `MAX_WIDTH` when the
/// list is empty.
pub open spec fn spec_fit_width(items: Seq<ScheduledItem>) -> int {
    if items.len() == 0 {
        MAX_WIDTH as int
    } else if spec_max_desc(items) >= MAX_WIDTH as int {
        MAX_WIDTH as int
    } else {
        spec_max_desc(items)
    }
}

fn fit_width(items: &Vec<ScheduledItem>) -> (w: usize)
    ensures
        w as int == spec_fit_width(items@),
        w <= MAX_WIDTH,
{
    let mut m: usize = 0;
    let mut i: usize = 0;
    proof {
        assert(items@.take(0) =~= Seq::<ScheduledItem>::empty());
    }
    while i < items.len()
        invariant
            i <= items@.len(),
            m as int == spec_max_desc(items@.take(i as int)),
            m <= usize::MAX,
        decreases items@.len() - i,
    {
        let len = items[i].description.as_str().unicode_len();
        if len > m {
            m = len;
        }
        proof {
            assert(items@.take(i as int + 1).drop_last() =~= items@.take(i as int));
            assert(items@.take(i as int + 1).last() == items@[i as int]);
        }
        i = i + 1;
    }
    proof {
        assert(items@.take(items@.len() as int) =~= items@);
    }
    if items.len() == 0 {
        MAX_WIDTH
    } else if m >= MAX_WIDTH {
        MAX_WIDTH
    } else {
        m
    }
}

/// Render a snapshot: sort by start time (stably, so ties keep their given
/// order), settle the column width, then draw the day groups.
pub fn render_schedule(items: &Vec<ScheduledItem>, selected_item_idx: i32, now_ms: i64) -> (lines:
    Vec<String>)
    requires
        items@.len() < 0x7FFFFFFF,
    ensures
        spec_schedule_lines_ok(
            lines.deep_view(),
            spec_sort_by_start(items@),
            selected_item_idx as int,
            spec_fit_width(spec_sort_by_start(items@)),
            now_ms as int,
        ),
{
    let sorted = sort_items_by_start(items);
    let width = fit_width(&sorted);
    let lines = schedule_lines(&sorted, 0, selected_item_idx as i64, width, now_ms);
    proof {
        assert(sorted@.skip(0) =~= sorted@);
    }
    lines
}

impl ScheduleWindow {
    /// The lines this panel draws as of the wall clock `now_ms`.
    pub fn render(&self, now_ms: i64) -> (lines: Vec<String>)
        requires
            self.wf(),
        ensures
            spec_schedule_lines_ok(
                lines.deep_view(),
                spec_sort_by_start(self.schedules@),
                self.selected_item_idx as int,
                spec_fit_width(spec_sort_by_start(self.schedules@)),
                now_ms as int,
            ),
    {
        render_schedule(&self.schedules, self.selected_item_idx, now_ms)
    }

    pub fn new() -> (r: Self)
        ensures
            r.wf(),
            r.active == true,
            r.schedules@ == Seq::<ScheduledItem>::empty(),
            r.selected_item_idx == -1,
    {
        ScheduleWindow { active: true, schedules: Vec::new(), selected_item_idx: -1 }
    }

    pub fn id(&self) -> (r: String)
        ensures
            r@ == "schedule"@,
    {
        String::from_str("schedule")
    }

    pub fn active(&self) -> (r: bool)
        ensures
            r == self.active,
    {
        self.active
    }

    pub fn enable(&mut self)
        ensures
            *final(self) == (ScheduleWindow { active: true, ..*old(self) }),
    {
        self.active = true;
    }

    pub fn disable(&mut self)
        ensures
            *final(self) == (ScheduleWindow { active: false, ..*old(self) }),
    {
        self.active = false;
    }

    pub fn selected_item(&self) -> (r: Option<&ScheduledItem>)
        requires
            self.wf(),
        ensures
            match r {
                Some(item) => spec_selected_item(*self) == Some(*item),
                None => spec_selected_item(*self) is None,
            },
    {
        self.selected_item_ref()
    }

    /// The cursor never goes below -1 and the snapshot stays indexable by
    /// an `i32`; the cursor may point past the end after a snapshot shrank.
    pub open spec fn wf(&self) -> bool {
        &&& -1 <= self.selected_item_idx
        &&& self.selected_item_idx < 0x7FFFFFFF
        &&& self.schedules@.len() < 0x7FFFFFFF
    }
}

} // verus!

verus! {

/// Selection clamping: moving the cursor down never passes the end of the
/// list and on an empty list leaves it at -1; moving it up never goes below
/// -1 (no selection).
pub proof fn law_selection_clamped(w: ScheduleWindow)
    requires
        w.wf(),
    ensures
        schedule_next(w, UICommand::SelectNext).selected_item_idx as int <= w.schedules@.len() - 1
            || (w.schedules@.len() == 0 && schedule_next(w, UICommand::SelectNext).selected_item_idx
            == -1),
        schedule_next(w, UICommand::SelectNext).selected_item_idx >= -1,
        schedule_next(w, UICommand::SelectPrev).selected_item_idx >= -1,
        w.schedules@.len() == 0 ==> schedule_next(w, UICommand::SelectNext).selected_item_idx == -1,
{
}

} // verus!
