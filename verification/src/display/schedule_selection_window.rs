use vstd::prelude::*;
use vstd::string::*;
use crate::commands::UICommand;
use crate::display::ScheduleSelectionWindow;

verus! {

/// Which commands the backend picker consumes. It also swallows input
/// echoes, so typing is blocked until a backend is chosen.
pub open spec fn selection_consumes(cmd: UICommand) -> bool {
    match cmd {
        UICommand::ClearSelection => true,
        UICommand::SelectPrev => true,
        UICommand::SelectNext => true,
        UICommand::AddGetScheduler(_) => true,
        UICommand::UpdateUserInput(_) => true,
        UICommand::SubmitCommand(_) => true,
        _ => false,
    }
}

/// The picker's state after being offered a command: cursor moves clamp to
/// `[-1, len - 1]`, and pending add-text is stashed.
pub open spec fn selection_next(w: ScheduleSelectionWindow, cmd: UICommand) -> ScheduleSelectionWindow {
    match cmd {
        UICommand::ClearSelection => ScheduleSelectionWindow { selected_item_idx: -1i32, ..w },
        UICommand::SelectPrev => ScheduleSelectionWindow {
            selected_item_idx: if w.selected_item_idx - 1 >= -1 {
                (w.selected_item_idx - 1) as i32
            } else {
                -1i32
            },
            ..w
        },
        UICommand::SelectNext => ScheduleSelectionWindow {
            selected_item_idx: if w.selected_item_idx + 1 <= w.schedules@.len() - 1 {
                (w.selected_item_idx + 1) as i32
            } else {
                w.selected_item_idx
            },
            ..w
        },
        UICommand::AddGetScheduler(task) => ScheduleSelectionWindow { task: Some(task), ..w },
        _ => w,
    }
}

/// The backend id under the picker's cursor, if any.
pub open spec fn spec_selected_scheduler_id(w: ScheduleSelectionWindow) -> Option<String> {
    if w.selected_item_idx < 0 {
        None
    } else {
        Some(w.schedules@[w.selected_item_idx as int])
    }
}

/// What the picker emits: on submit, the pending add goes to the chosen
/// backend, and the picker asks to be popped either way.
pub open spec fn selection_emits(w: ScheduleSelectionWindow, cmd: UICommand) -> Seq<UICommand> {
    match cmd {
        UICommand::SubmitCommand(_) => {
            match (spec_selected_scheduler_id(w), w.task) {
                (Some(sid), Some(task)) => seq![
                    UICommand::Add(sid, task),
                    UICommand::TransitionPop,
                ],
                _ => seq![UICommand::TransitionPop],
            }
        },
        _ => Seq::<UICommand>::empty(),
    }
}

/// The lines the picker draws: a header, a rule, and one row per backend,
/// the chosen one marked.
pub open spec fn selection_render_lines(w: ScheduleSelectionWindow) -> Seq<Seq<char>> {
    seq!["Select Scheduler:"@, "-------------"@] + Seq::new(
        w.schedules@.len(),
        |i: int|
            (if i == w.selected_item_idx as int {
                "> "@
            } else {
                "  "@
            }) + w.schedules@[i]@,
    )
}

impl ScheduleSelectionWindow {
    /// The picker's cursor stays in `[-1, len - 1]` and the roster is small
    /// enough to index with an `i32`.
    pub open spec fn wf(&self) -> bool {
        &&& -1 <= self.selected_item_idx
        &&& (self.selected_item_idx as int) < self.schedules@.len()
            || (self.schedules@.len() == 0 && self.selected_item_idx == -1)
        &&& self.schedules@.len() < 0x7FFFFFFF
    }

    pub fn new(schedules: Vec<String>) -> (r: Self)
        requires
            schedules@.len() < 0x7FFFFFFF,
        ensures
            r.wf(),
            r.schedules == schedules,
            r.task is None,
            r.selected_item_idx == -1,
    {
        ScheduleSelectionWindow { schedules, task: None, selected_item_idx: -1 }
    }

    pub fn selected_scheduler_id(&self) -> (r: Option<String>)
        requires
            self.wf(),
        ensures
            r == spec_selected_scheduler_id(*self),
    {
        if self.selected_item_idx < 0 {
            None
        } else {
            Some(self.schedules[self.selected_item_idx as usize].clone())
        }
    }

    pub fn id(&self) -> (r: String)
        ensures
            r@ == "schedule_selection"@,
    {
        String::from_str("schedule_selection")
    }

    pub fn active(&self) -> (r: bool)
        ensures
            r == true,
    {
        true
    }

    pub fn enable(&mut self)
        ensures
            *final(self) == *old(self),
    {
    }

    pub fn disable(&mut self)
        ensures
            *final(self) == *old(self),
    {
    }

    /// Offer a command; cursor moves clamp, a stashed task waits for the
    /// submit that names its backend.
    pub fn handle(&mut self, cmd: &UICommand, out: &mut Vec<UICommand>) -> (consumed: bool)
        requires
            old(self).wf(),
        ensures
            final(self).wf(),
            consumed == selection_consumes(*cmd),
            *final(self) == selection_next(*old(self), *cmd),
            final(out)@ == old(out)@ + selection_emits(*old(self), *cmd),
    {
        let consumed = match cmd {
            UICommand::ClearSelection => {
                self.selected_item_idx = -1;
                true
            },
            UICommand::SelectPrev => {
                if self.selected_item_idx - 1 >= -1 {
                    self.selected_item_idx = self.selected_item_idx - 1;
                }
                true
            },
            UICommand::SelectNext => {
                let len: i32 = self.schedules.len() as i32;
                if self.selected_item_idx + 1 <= len - 1 {
                    self.selected_item_idx = self.selected_item_idx + 1;
                }
                true
            },
            UICommand::AddGetScheduler(task) => {
                self.task = Some(task.clone());
                true
            },
            UICommand::UpdateUserInput(_) => true,
            UICommand::SubmitCommand(_) => {
                match self.selected_scheduler_id() {
                    Some(sid) => match &self.task {
                        Some(task) => {
                            out.push(UICommand::Add(sid, task.clone()));
                        },
                        None => {},
                    },
                    None => {},
                }
                out.push(UICommand::TransitionPop);
                true
            },
            _ => false,
        };
        proof {
            assert(final(out)@ =~= old(out)@ + selection_emits(*old(self), *cmd));
        }
        consumed
    }

    /// The lines this panel draws.
    pub fn render(&self) -> (lines: Vec<String>)
        requires
            self.wf(),
        ensures
            lines.deep_view() == selection_render_lines(*self),
    {
        let mut lines: Vec<String> = Vec::new();
        lines.push(String::from_str("Select Scheduler:"));
        lines.push(String::from_str("-------------"));
        let mut i: usize = 0;
        while i < self.schedules.len()
            invariant
                self.wf(),
                i <= self.schedules@.len(),
                lines.deep_view() =~= seq!["Select Scheduler:"@, "-------------"@] + Seq::new(
                    i as nat,
                    |j: int|
                        (if j == self.selected_item_idx as int {
                            "> "@
                        } else {
                            "  "@
                        }) + self.schedules@[j]@,
                ),
            decreases self.schedules@.len() - i,
        {
            let ghost pre = lines.deep_view();
            let marked = self.selected_item_idx >= 0 && i == self.selected_item_idx as usize;
            let mut row = if marked {
                String::from_str("> ")
            } else {
                String::from_str("  ")
            };
            row.append(self.schedules[i].as_str());
            proof {
                assert(row@ == (if i as int == self.selected_item_idx as int {
                    "> "@
                } else {
                    "  "@
                }) + self.schedules@[i as int]@);
            }
            lines.push(row);
            proof {
                assert(lines.deep_view() =~= pre.push(row@));
                assert(lines.deep_view() =~= seq!["Select Scheduler:"@, "-------------"@]
                    + Seq::new(
                    (i + 1) as nat,
                    |j: int|
                        (if j == self.selected_item_idx as int {
                            "> "@
                        } else {
                            "  "@
                        }) + self.schedules@[j]@,
                ));
            }
            i = i + 1;
        }
        proof {
            assert(lines.deep_view() =~= selection_render_lines(*self));
        }
        lines
    }
}

} // verus!

verus! {

/// Selection clamping for the picker: the cursor never leaves
/// `[-1, len - 1]`, and on an empty roster it stays at -1.
pub proof fn law_picker_selection_clamped(w: ScheduleSelectionWindow)
    requires
        w.wf(),
    ensures
        -1 <= selection_next(w, UICommand::SelectNext).selected_item_idx,
        (selection_next(w, UICommand::SelectNext).selected_item_idx as int) < w.schedules@.len()
            || (w.schedules@.len() == 0 && selection_next(w, UICommand::SelectNext).selected_item_idx
            == -1),
        -1 <= selection_next(w, UICommand::SelectPrev).selected_item_idx,
{
}

} // verus!
