use vstd::prelude::*;
use crate::commands::UICommand;
use crate::commands::cmd_wf;
use crate::display::Panel;
use crate::display::PromptWindow;
use crate::display::ScheduleSelectionWindow;
use crate::display::ScheduleWindow;
use crate::display::WindowStack;
use crate::display::prompt_window::prompt_consumes;
use crate::display::prompt_window::prompt_emits;
use crate::display::prompt_window::prompt_next;
use crate::display::prompt_window::prompt_render_lines;
use crate::display::schedule_selection_window::selection_consumes;
use crate::display::schedule_selection_window::selection_emits;
use crate::display::schedule_selection_window::selection_next;
use crate::display::schedule_selection_window::selection_render_lines;
use crate::display::schedule_window::schedule_consumes;
use crate::display::schedule_window::schedule_emits;
use crate::display::schedule_window::schedule_step;
use crate::display::schedule_window::spec_fit_width;
use crate::display::schedule_window::spec_schedule_lines_ok;
use crate::clock::local_now_ms;
use crate::scheduled_item::spec_sort_by_start;
use crate::text::ci_equal;
use crate::text::eq_ignore_case;

verus! {

/// Whether a panel takes part in routing and rendering.
pub open spec fn panel_active(p: Panel) -> bool {
    match p {
        Panel::Prompt(w) => w.active,
        Panel::Schedule(w) => w.active,
        Panel::Selection(_) => true,
    }
}

/// Whether a panel would consume the command.
pub open spec fn panel_consumes(p: Panel, cmd: UICommand) -> bool {
    match p {
        Panel::Prompt(_) => prompt_consumes(cmd),
        Panel::Schedule(_) => schedule_consumes(cmd),
        Panel::Selection(_) => selection_consumes(cmd),
    }
}

/// What a panel emits back into the inbox when offered the command.
pub open spec fn panel_emits(p: Panel, cmd: UICommand) -> Seq<UICommand> {
    match p {
        Panel::Prompt(w) => prompt_emits(w, cmd),
        Panel::Schedule(w) => schedule_emits(w, cmd),
        Panel::Selection(w) => selection_emits(w, cmd),
    }
}

/// How a panel's state may change when offered the command: its kind is
/// kept and its window steps by that window's rule.
pub open spec fn panel_step(pre: Panel, post: Panel, cmd: UICommand) -> bool {
    match (pre, post) {
        (Panel::Prompt(a), Panel::Prompt(b)) => b == prompt_next(a, cmd),
        (Panel::Schedule(a), Panel::Schedule(b)) => schedule_step(a, b, cmd),
        (Panel::Selection(a), Panel::Selection(b)) => b == selection_next(a, cmd),
        _ => false,
    }
}

/// A panel's own well-formedness.
pub open spec fn panel_wf(p: Panel) -> bool {
    match p {
        Panel::Prompt(_) => true,
        Panel::Schedule(w) => w.wf(),
        Panel::Selection(w) => w.wf(),
    }
}

/// The index of the topmost active panel that consumes the command, or -1
/// when none does. Commands are offered top-down, so this panel, and only
/// this one, handles the command.
pub open spec fn top_consumer(panels: Seq<Panel>, cmd: UICommand) -> int
    decreases panels.len(),
{
    if panels.len() == 0 {
        -1
    } else if panel_active(panels.last()) && panel_consumes(panels.last(), cmd) {
        panels.len() - 1
    } else {
        top_consumer(panels.drop_last(), cmd)
    }
}

pub proof fn lemma_top_consumer_bounds(panels: Seq<Panel>, cmd: UICommand)
    ensures
        -1 <= top_consumer(panels, cmd) < panels.len(),
        top_consumer(panels, cmd) >= 0 ==> panel_active(panels[top_consumer(panels, cmd)])
            && panel_consumes(panels[top_consumer(panels, cmd)], cmd),
        forall|k: int|
            top_consumer(panels, cmd) < k < panels.len() ==> !(panel_active(#[trigger] panels[k])
                && panel_consumes(panels[k], cmd)),
    decreases panels.len(),
{
    if panels.len() == 0 {
    } else if panel_active(panels.last()) && panel_consumes(panels.last(), cmd) {
    } else {
        lemma_top_consumer_bounds(panels.drop_last(), cmd);
        assert forall|k: int|
            top_consumer(panels, cmd) < k < panels.len() implies !(panel_active(
            #[trigger] panels[k],
        ) && panel_consumes(panels[k], cmd)) by {
            if k < panels.len() - 1 {
                assert(panels.drop_last()[k] == panels[k]);
            }
        }
    }
}

/// A panel offered a command it does not consume is left exactly as it
/// was and emits nothing.
pub proof fn lemma_no_consume_identity(pre: Panel, post: Panel, cmd: UICommand)
    requires
        panel_step(pre, post, cmd),
        !panel_consumes(pre, cmd),
    ensures
        post == pre,
        panel_emits(pre, cmd) == Seq::<UICommand>::empty(),
{
    match (pre, post) {
        (Panel::Prompt(a), Panel::Prompt(b)) => {},
        (Panel::Schedule(a), Panel::Schedule(b)) => {},
        (Panel::Selection(a), Panel::Selection(b)) => {},
        _ => {},
    }
}

/// What one panel draws: the prompt and the picker are pinned exactly; the
/// schedule view is pinned up to its sort's tie order and the styled rows.
pub open spec fn panel_render_ok(p: Panel, lines: Seq<Seq<char>>, now: int) -> bool {
    match p {
        Panel::Prompt(w) => lines == prompt_render_lines(w, now),
        Panel::Selection(w) => lines == selection_render_lines(w),
        Panel::Schedule(w) => spec_schedule_lines_ok(
            lines,
            spec_sort_by_start(w.schedules@),
            w.selected_item_idx as int,
            spec_fit_width(spec_sort_by_start(w.schedules@)),
            now,
        ),
    }
}

impl Panel {
    /// Offer a command to the panel the stack routes it to.
    pub fn handle(&mut self, cmd: &UICommand, out: &mut Vec<UICommand>) -> (consumed: bool)
        requires
            panel_wf(*old(self)),
            cmd_wf(*cmd),
        ensures
            panel_wf(*final(self)),
            consumed == panel_consumes(*old(self), *cmd),
            panel_step(*old(self), *final(self), *cmd),
            final(out)@ == old(out)@ + panel_emits(*old(self), *cmd),
    {
        match self {
            Panel::Prompt(w) => w.handle(cmd, out),
            Panel::Schedule(w) => w.handle(cmd, out),
            Panel::Selection(w) => w.handle(cmd, out),
        }
    }

    /// What the panel draws as of the wall clock `now_ms`.
    pub fn render(&self, now_ms: i64) -> (lines: Vec<String>)
        requires
            panel_wf(*self),
        ensures
            panel_render_ok(*self, lines.deep_view(), now_ms as int),
    {
        match self {
            Panel::Prompt(w) => w.render(now_ms),
            Panel::Schedule(w) => w.render(now_ms),
            Panel::Selection(w) => w.render(),
        }
    }

    pub fn enabled(self) -> (r: Panel)
        ensures
            r == panel_enabled(self),
    {
        match self {
            Panel::Prompt(mut w) => {
                w.enable();
                Panel::Prompt(w)
            },
            Panel::Schedule(mut w) => {
                w.enable();
                Panel::Schedule(w)
            },
            Panel::Selection(w) => Panel::Selection(w),
        }
    }
}

/// The panel as `Panel::enabled` leaves it.
pub open spec fn panel_enabled(p: Panel) -> Panel {
    match p {
        Panel::Prompt(w) => Panel::Prompt(PromptWindow { active: true, ..w }),
        Panel::Schedule(w) => Panel::Schedule(ScheduleWindow { active: true, ..w }),
        Panel::Selection(w) => Panel::Selection(w),
    }
}

/// What one full draw of the stack looks like as of the instant `now`: one
/// entry per panel, panels above the prompt in stack order with inactive
/// ones drawing nothing, and the prompt's own lines as the last entry.
pub open spec fn spec_stack_render_ok(s: WindowStack, segs: Seq<Vec<String>>, now: int) -> bool {
    &&& segs.len() == s.windows@.len()
    &&& forall|i: int|
        1 <= i < s.windows@.len() ==> if panel_active(#[trigger] s.windows@[i]) {
            panel_render_ok(s.windows@[i], segs[i - 1].deep_view(), now)
        } else {
            segs[i - 1]@.len() == 0
        }
    &&& panel_render_ok(s.windows@[0], segs[s.windows@.len() - 1].deep_view(), now)
}

impl WindowStack {
    /// Index 0 is the prompt panel and the stack never shrinks below it;
    /// every panel and the backend roster stay well-formed.
    pub open spec fn wf(&self) -> bool {
        &&& self.windows@.len() >= 1
        &&& self.windows@[0] is Prompt
        &&& forall|i: int| 0 <= i < self.windows@.len() ==> panel_wf(#[trigger] self.windows@[i])
        &&& self.scheduler_ids@.len() < 0x7FFFFFFF
    }

    pub fn new() -> (r: Self)
        ensures
            r.wf(),
            r.windows@.len() == 1,
            r.windows@[0] matches Panel::Prompt(w) && w.active && w.user_input@ == Seq::<
                char,
            >::empty() && w.prompt@ == ":>"@ && w.message is None,
            r.scheduler_ids@ == Seq::<String>::empty(),
    {
        WindowStack { windows: vec![Panel::Prompt(PromptWindow::new())], scheduler_ids: Vec::new() }
    }

    /// Enable a panel and put it on top of the stack.
    pub fn push(&mut self, window: Panel)
        requires
            old(self).wf(),
            panel_wf(window),
        ensures
            final(self).wf(),
            final(self).windows@ == old(self).windows@.push(panel_enabled(window)),
            final(self).scheduler_ids == old(self).scheduler_ids,
    {
        self.windows.push(window.enabled());
        proof {
            assert(panel_wf(panel_enabled(window)));
        }
    }

    /// Remove the top panel; the prompt at the bottom is never removed.
    pub fn pop(&mut self)
        requires
            old(self).wf(),
        ensures
            final(self).wf(),
            old(self).windows@.len() > 1 ==> final(self).windows@ == old(self).windows@.drop_last(),
            old(self).windows@.len() == 1 ==> final(self).windows@ == old(self).windows@,
            final(self).scheduler_ids == old(self).scheduler_ids,
    {
        if self.windows.len() > 1 {
            self.windows.pop();
        }
    }

    /// Route one command. Panel transitions and the backend roster are
    /// handled by the stack itself; everything else is offered to the
    /// panels top-down and stops at the first active panel that consumes
    /// it. Returns whether the screen should be redrawn.
    pub fn handle_ui_command(&mut self, cmd: &UICommand, out: &mut Vec<UICommand>) -> (redraw: bool)
        requires
            old(self).wf(),
            cmd_wf(*cmd),
        ensures
            final(self).wf(),
            match *cmd {
                UICommand::Schedulers(ids) => {
                    &&& final(self).windows == old(self).windows
                    &&& final(self).scheduler_ids@ == ids@
                    &&& final(out)@ == old(out)@
                    &&& !redraw
                },
                UICommand::TransitionPush(name) => {
                    &&& final(self).scheduler_ids == old(self).scheduler_ids
                    &&& final(out)@ == old(out)@
                    &&& !redraw
                    &&& if ci_equal(name@, "schedule_selection"@) {
                        &&& final(self).windows@.len() == old(self).windows@.len() + 1
                        &&& final(self).windows@.drop_last() == old(self).windows@
                        &&& final(self).windows@.last() matches Panel::Selection(w)
                            && w.schedules@ == old(self).scheduler_ids@ && w.task is None
                            && w.selected_item_idx == -1
                    } else if ci_equal(name@, "schedule"@) {
                        &&& final(self).windows@.len() == old(self).windows@.len() + 1
                        &&& final(self).windows@.drop_last() == old(self).windows@
                        &&& final(self).windows@.last() matches Panel::Schedule(w)
                            && w.schedules@ == Seq::<crate::scheduled_item::ScheduledItem>::empty()
                            && w.selected_item_idx == -1 && w.active
                    } else {
                        final(self).windows == old(self).windows
                    }
                },
                UICommand::TransitionPop => {
                    &&& final(self).scheduler_ids == old(self).scheduler_ids
                    &&& final(out)@ == old(out)@
                    &&& !redraw
                    &&& old(self).windows@.len() > 1 ==> final(self).windows@
                        == old(self).windows@.drop_last()
                    &&& old(self).windows@.len() == 1 ==> final(self).windows@
                        == old(self).windows@
                },
                _ => {
                    &&& final(self).scheduler_ids == old(self).scheduler_ids
                    &&& redraw
                    &&& {
                        let j = top_consumer(old(self).windows@, *cmd);
                        &&& final(self).windows@.len() == old(self).windows@.len()
                        &&& forall|k: int|
                            0 <= k < old(self).windows@.len() && k != j
                                ==> final(self).windows@[k] == old(self).windows@[k]
                        &&& j >= 0 ==> panel_step(
                            old(self).windows@[j],
                            final(self).windows@[j],
                            *cmd,
                        ) && final(out)@ == old(out)@ + panel_emits(old(self).windows@[j], *cmd)
                        &&& j == -1 ==> final(out)@ == old(out)@
                    }
                },
            },
    {
        match cmd {
            UICommand::Schedulers(schedulers) => {
                self.scheduler_ids = crate::text::clone_strings(schedulers);
                false
            },
            UICommand::TransitionPush(window_type) => {
                if eq_ignore_case(window_type.as_str(), "schedule_selection") {
                    let picker = ScheduleSelectionWindow::new(
                        crate::text::clone_strings(&self.scheduler_ids),
                    );
                    self.push(Panel::Selection(picker));
                } else if eq_ignore_case(window_type.as_str(), "schedule") {
                    self.push(Panel::Schedule(ScheduleWindow::new()));
                }
                false
            },
            UICommand::TransitionPop => {
                self.pop();
                false
            },
            _ => {
                let ghost pre = self.windows@;
                let mut idx = self.windows.len();
                proof {
                    lemma_top_consumer_bounds(pre, *cmd);
                    assert(pre.take(pre.len() as int) =~= pre);
                }
                while idx > 0
                    invariant
                        self.wf(),
                        pre == old(self).windows@,
                        self.windows@ == pre,
                        self.scheduler_ids == old(self).scheduler_ids,
                        idx <= pre.len(),
                        cmd_wf(*cmd),
                        out@ == old(out)@,
                        -1 <= top_consumer(pre, *cmd) < pre.len(),
                        top_consumer(pre, *cmd) == top_consumer(pre.take(idx as int), *cmd),
                    decreases idx,
                {
                    let i = idx - 1;
                    let ghost prefix = pre.take(idx as int);
                    proof {
                        assert(prefix.last() == pre[i as int]);
                        assert(prefix.drop_last() =~= pre.take(i as int));
                    }
                    if self.windows[i].active() {
                        let consumed = self.windows[i].handle(cmd, out);
                        let ghost post = self.windows@[i as int];
                        proof {
                            assert(self.windows@ =~= pre.update(i as int, post));
                        }
                        if consumed {
                            proof {
                                assert(top_consumer(prefix, *cmd) == i as int);
                                assert(top_consumer(pre, *cmd) == i as int);
                                assert forall|k: int|
                                    0 <= k < pre.len() && k != i as int implies self.windows@[k]
                                    == pre[k] by {}
                            }
                            return true;
                        }
                        proof {
                            lemma_no_consume_identity(pre[i as int], post, *cmd);
                            assert(self.windows@ =~= pre);
                            assert(out@ =~= old(out)@);
                        }
                    }
                    idx = i;
                }
                proof {
                    assert(pre.take(0) =~= Seq::<Panel>::empty());
                    assert(top_consumer(pre, *cmd) == -1);
                }
                true
            },
        }
    }

    /// Draw the stack: every active panel above the prompt, bottom to top,
    /// then the prompt itself, so the input line is always the last lines
    /// on screen. One entry per panel; an inactive panel draws nothing.
    pub fn render_at(&self, now_ms: i64) -> (segs: Vec<Vec<String>>)
        requires
            self.wf(),
        ensures
            spec_stack_render_ok(*self, segs@, now_ms as int),
    {
        let mut segs: Vec<Vec<String>> = Vec::new();
        let mut i: usize = 1;
        while i < self.windows.len()
            invariant
                self.wf(),
                1 <= i <= self.windows@.len(),
                segs@.len() == i - 1,
                forall|t: int|
                    1 <= t < i ==> if panel_active(#[trigger] self.windows@[t]) {
                        panel_render_ok(self.windows@[t], segs@[t - 1].deep_view(), now_ms as int)
                    } else {
                        segs@[t - 1]@.len() == 0
                    },
            decreases self.windows@.len() - i,
        {
            let p = &self.windows[i];
            if p.active() {
                segs.push(p.render(now_ms));
            } else {
                segs.push(Vec::new());
            }
            i = i + 1;
        }
        segs.push(self.windows[0].render(now_ms));
        segs
    }

    /// Draw the stack as of the wall clock: whatever instant the clock
    /// read, the segments are a full draw of the stack at that instant.
    pub fn render(&self) -> (segs: Vec<Vec<String>>)
        requires
            self.wf(),
        ensures
            exists|now: int| #[trigger] spec_stack_render_ok(*self, segs@, now),
    {
        let now = local_now_ms();
        let segs = self.render_at(now);
        proof {
            assert(spec_stack_render_ok(*self, segs@, now as int));
        }
        segs
    }
}

impl Panel {
    /// Whether the panel takes part in routing and rendering.
    pub fn active(&self) -> (r: bool)
        ensures
            r == panel_active(*self),
    {
        match self {
            Panel::Prompt(w) => w.active,
            Panel::Schedule(w) => w.active,
            Panel::Selection(_) => true,
        }
    }
}

} // verus!

verus! {

/// The stack invariant: however panels are pushed and popped, the panel at
/// index 0 is always the prompt and the stack is never empty. `new`
/// establishes `wf`, and `push`, `pop` and `handle_ui_command` each ensure
/// it is kept, so it holds after any sequence of them; this spells out the
/// two facts `wf` carries.
pub proof fn law_stack_invariant(s: WindowStack)
    requires
        s.wf(),
    ensures
        s.windows@.len() >= 1,
        s.windows@[0] is Prompt,
{
}

/// One panel-stack mutation: what `WindowStack::push` and `WindowStack::pop`
/// are specified to do to the panel sequence.
pub enum StackOp {
    Push(Panel),
    Pop,
}

/// The panel sequence after one mutation, exactly as the two methods'
/// contracts state it: a push appends the enabled panel; a pop removes the
/// top unless only the prompt is left.
pub open spec fn spec_stack_op(windows: Seq<Panel>, op: StackOp) -> Seq<Panel> {
    match op {
        StackOp::Push(w) => windows.push(panel_enabled(w)),
        StackOp::Pop => if windows.len() > 1 {
            windows.drop_last()
        } else {
            windows
        },
    }
}

/// The panel sequence after a whole sequence of mutations, first to last.
pub open spec fn spec_stack_run(windows: Seq<Panel>, ops: Seq<StackOp>) -> Seq<Panel>
    decreases ops.len(),
{
    if ops.len() == 0 {
        windows
    } else {
        spec_stack_run(spec_stack_op(windows, ops[0]), ops.skip(1))
    }
}

/// For any sequence of pushes and pops, the panel at index 0 is always the
/// prompt and the stack length is never below one.
pub proof fn law_stack_invariant_any_sequence(windows: Seq<Panel>, ops: Seq<StackOp>)
    requires
        windows.len() >= 1,
        windows[0] is Prompt,
    ensures
        spec_stack_run(windows, ops).len() >= 1,
        spec_stack_run(windows, ops)[0] is Prompt,
    decreases ops.len(),
{
    if ops.len() > 0 {
        let next = spec_stack_op(windows, ops[0]);
        assert(next.len() >= 1 && next[0] is Prompt);
        law_stack_invariant_any_sequence(next, ops.skip(1));
    }
}

/// Routing precedence: with a prompt at the bottom, the schedule list above
/// it and the picker on top, a command the picker consumes is routed to the
/// picker. By `handle_ui_command`'s contract the consumer is the panel at
/// `top_consumer` and every other panel — the list included — is left
/// untouched and contributes nothing to the emissions.
pub proof fn law_routing_precedence(panels: Seq<Panel>, cmd: UICommand)
    requires
        panels.len() == 3,
        panels[0] is Prompt,
        panels[1] is Schedule,
        panels[2] is Selection,
        panel_consumes(panels[2], cmd),
    ensures
        top_consumer(panels, cmd) == 2,
{
    assert(panels.last() == panels[2]);
    assert(panel_active(panels[2]));
}

} // verus!
