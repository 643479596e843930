use vstd::prelude::*;
use vstd::string::*;
use crate::commands::UICommand;
use crate::tasks::UserInputTask;
use crate::text::push_char;

verus! {

/// A key event, as the input reader understands it. The raw terminal
/// stream is decoded to these by the surrounding process.
#[derive(Clone, Copy, Debug, PartialEq, Eq, Structural)]
pub enum KeyEvent {
    /// A printable character.
    Char(char),
    Enter,
    Backspace,
    CtrlC,
    CtrlD,
    CtrlU,
    Esc,
    Up,
    Down,
    /// Any key with no binding; reserved for future scrolling and paging.
    Other,
}

/// The line buffer after a key: characters append, backspace drops the last
/// character and never underflows, enter and kill-line clear.
pub open spec fn spec_buffer_next(buf: Seq<char>, key: KeyEvent) -> Seq<char> {
    match key {
        KeyEvent::Char(c) => buf.push(c),
        KeyEvent::Enter => Seq::<char>::empty(),
        KeyEvent::Backspace => if buf.len() == 0 {
            buf
        } else {
            buf.drop_last()
        },
        KeyEvent::CtrlU => Seq::<char>::empty(),
        _ => buf,
    }
}

/// What a key emits: enter submits the line, interrupt and end-of-input ask
/// the process to exit, escape clears the selection, arrows move it.
pub open spec fn spec_input_emits(w: UserInputTask, key: KeyEvent) -> Seq<UICommand> {
    match key {
        KeyEvent::Enter => seq![UICommand::SubmitCommand(w.user_input)],
        KeyEvent::CtrlC => seq![UICommand::Exit],
        KeyEvent::CtrlD => seq![UICommand::Exit],
        KeyEvent::Esc => seq![UICommand::ClearSelection],
        KeyEvent::Up => seq![UICommand::SelectPrev],
        KeyEvent::Down => seq![UICommand::SelectNext],
        _ => Seq::<UICommand>::empty(),
    }
}

impl UserInputTask {
    pub fn new() -> (r: Self)
        ensures
            r.user_input@ == Seq::<char>::empty(),
    {
        UserInputTask { user_input: String::new() }
    }

    /// Apply one key to the line buffer and emit what it triggers.
    pub fn process_input(&mut self, key: KeyEvent, out: &mut Vec<UICommand>)
        ensures
            final(self).user_input@ == spec_buffer_next(old(self).user_input@, key),
            final(out)@ == old(out)@ + spec_input_emits(*old(self), key),
    {
        match key {
            KeyEvent::Enter => {
                out.push(UICommand::SubmitCommand(self.user_input.clone()));
                self.user_input = String::new();
            },
            KeyEvent::Backspace => {
                let n = self.user_input.as_str().unicode_len();
                if n > 0 {
                    self.user_input = String::from_str(
                        self.user_input.as_str().substring_char(0, n - 1),
                    );
                    proof {
                        assert(self.user_input@ =~= old(self).user_input@.drop_last());
                    }
                }
            },
            KeyEvent::CtrlC => {
                out.push(UICommand::Exit);
            },
            KeyEvent::CtrlD => {
                out.push(UICommand::Exit);
            },
            KeyEvent::CtrlU => {
                self.user_input = String::new();
            },
            KeyEvent::Char(c) => {
                push_char(&mut self.user_input, c);
            },
            KeyEvent::Esc => {
                out.push(UICommand::ClearSelection);
            },
            KeyEvent::Up => {
                out.push(UICommand::SelectPrev);
            },
            KeyEvent::Down => {
                out.push(UICommand::SelectNext);
            },
            KeyEvent::Other => {},
        }
        proof {
            assert(final(out)@ =~= old(out)@ + spec_input_emits(*old(self), key));
        }
    }

    /// Apply one key, then echo the buffer so the prompt stays in sync.
    pub fn handle_key(&mut self, key: KeyEvent, out: &mut Vec<UICommand>)
        ensures
            final(self).user_input@ == spec_buffer_next(old(self).user_input@, key),
            final(out)@ == old(out)@ + spec_input_emits(*old(self), key) + seq![
                UICommand::UpdateUserInput(final(self).user_input),
            ],
    {
        self.process_input(key, out);
        out.push(UICommand::UpdateUserInput(self.user_input.clone()));
        proof {
            assert(final(out)@ =~= old(out)@ + spec_input_emits(*old(self), key) + seq![
                UICommand::UpdateUserInput(final(self).user_input),
            ]);
        }
    }
}

} // verus!
