use vstd::prelude::*;
use vstd::string::*;
use crate::commands::ScheduleCommand;
use crate::commands::UICommand;
use crate::scheduled_item::ScheduledItem;
use crate::tasks::CommandExecutor;
use crate::text::ci_equal;
use crate::text::eq_ignore_case;
use crate::text::join_from;
use crate::text::spec_join_space;
use crate::text::spec_tokens;
use crate::text::split_words;

verus! {

/// The backend a `close` with no selection is sent to.
pub open spec fn spec_default_close_target() -> Seq<char> {
    "todoist:Inbox"@
}

/// The verb of a command line: its first whitespace-separated word.
pub open spec fn spec_head(command: Seq<char>) -> Seq<char> {
    if spec_tokens(command).len() == 0 {
        Seq::<char>::empty()
    } else {
        spec_tokens(command)[0]
    }
}

/// Everything after the verb, joined back with single spaces.
pub open spec fn spec_remainder(command: Seq<char>) -> Seq<char> {
    spec_join_space(spec_tokens(command).skip(1))
}

impl CommandExecutor {
    pub fn new() -> (r: Self)
        ensures
            r == (CommandExecutor {  }),
    {
        CommandExecutor {  }
    }

    /// Parse one submitted line. The grammar is `""`, `refresh`,
    /// `add <free text>`, and `close`/`ack` `[<free text>]`, verbs
    /// case-insensitive; anything else is ignored. `refresh` and
    /// `close`/`ack` become schedule commands; `add` opens the backend
    /// picker and stashes its text. A `close` resolves against the selected
    /// item when there is one, else against the remainder text and the
    /// default backend.
    pub fn execute_command(
        &mut self,
        command: &String,
        selected_item: Option<&ScheduledItem>,
        ui_out: &mut Vec<UICommand>,
        sched_out: &mut Vec<ScheduleCommand>,
    )
        ensures
            ({
                let head = spec_head(command@);
                let rem = spec_remainder(command@);
                if ci_equal(head, "refresh"@) {
                    &&& final(sched_out)@ == old(sched_out)@ + seq![ScheduleCommand::Refresh]
                    &&& final(ui_out)@ == old(ui_out)@
                } else if ci_equal(head, "add"@) {
                    &&& final(sched_out)@ == old(sched_out)@
                    &&& final(ui_out)@.len() == old(ui_out)@.len() + 2
                    &&& forall|k: int|
                        0 <= k < old(ui_out)@.len() ==> final(ui_out)@[k] == old(ui_out)@[k]
                    &&& final(ui_out)@[old(ui_out)@.len() as int] matches UICommand::TransitionPush(name)
                        && name@ == "schedule_selection"@
                    &&& final(ui_out)@[old(ui_out)@.len() as int + 1] matches UICommand::AddGetScheduler(text)
                        && text@ == rem
                } else if ci_equal(head, "close"@) || ci_equal(head, "ack"@) {
                    &&& final(ui_out)@ == old(ui_out)@
                    &&& final(sched_out)@.len() == old(sched_out)@.len() + 1
                    &&& forall|k: int|
                        0 <= k < old(sched_out)@.len() ==> final(sched_out)@[k] == old(
                            sched_out,
                        )@[k]
                    &&& final(sched_out)@.last() matches ScheduleCommand::CloseTodo(sid, target)
                        && sid@ == (match selected_item {
                        Some(item) => item.scheduler@,
                        None => spec_default_close_target(),
                    }) && target@ == (match selected_item {
                        Some(item) => item.description@,
                        None => rem,
                    })
                } else {
                    &&& final(sched_out)@ == old(sched_out)@
                    &&& final(ui_out)@ == old(ui_out)@
                }
            }),
    {
        let words = split_words(command.as_str());
        let head: &str = if words.len() == 0 {
            ""
        } else {
            words[0].as_str()
        };
        proof {
            reveal_strlit("");
            reveal_strlit("add");
            reveal_strlit("close");
            reveal_strlit("ack");
            if words@.len() == 0 {
                assert(""@ =~= Seq::<char>::empty());
            } else {
                assert(words.deep_view()[0] == words@[0]@);
            }
            assert(head@ == spec_head(command@));
        }
        if eq_ignore_case(head, "refresh") {
            sched_out.push(ScheduleCommand::Refresh);
            proof {
                assert(final(sched_out)@ =~= old(sched_out)@ + seq![ScheduleCommand::Refresh]);
            }
        } else if eq_ignore_case(head, "add") {
            let remainder = if words.len() == 0 {
                String::new()
            } else {
                join_from(&words, 1)
            };
            ui_out.push(UICommand::TransitionPush(String::from_str("schedule_selection")));
            ui_out.push(UICommand::AddGetScheduler(remainder));
        } else if eq_ignore_case(head, "close") || eq_ignore_case(head, "ack") {
            let item_to_close = match &selected_item {
                None => if words.len() == 0 {
                    String::new()
                } else {
                    join_from(&words, 1)
                },
                Some(item) => item.description.clone(),
            };
            let scheduler_id = match &selected_item {
                None => String::from_str("todoist:Inbox"),
                Some(item) => item.scheduler.clone(),
            };
            sched_out.push(ScheduleCommand::CloseTodo(scheduler_id, item_to_close));
        }
    }
}

} // verus!
