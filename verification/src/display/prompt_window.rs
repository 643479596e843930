use vstd::prelude::*;
use vstd::string::*;
use crate::commands::UICommand;
use crate::clock::spec_sat_add;
use crate::clock::sat_add;
use crate::display::PromptMessage;
use crate::display::PromptMessageType;
use crate::display::PromptWindow;

verus! {

impl PromptMessage {
    /// A message that expires `ttl_ms` after `now_ms`.
    pub fn new(text: String, ttl_ms: i64, message_type: PromptMessageType, now_ms: i64) -> (r: Self)
        ensures
            r.text == text,
            r.message_type == message_type,
            r.ttl as int == spec_sat_add(now_ms as int, ttl_ms as int),
    {
        PromptMessage { text, ttl: sat_add(now_ms, ttl_ms), message_type }
    }
}

/// Which commands the prompt panel consumes.
pub open spec fn prompt_consumes(cmd: UICommand) -> bool {
    match cmd {
        UICommand::UpdateUserInput(_) => true,
        UICommand::Toast(_) => true,
        UICommand::SubmitCommand(_) => true,
        _ => false,
    }
}

/// The prompt panel's state after being offered a command.
pub open spec fn prompt_next(w: PromptWindow, cmd: UICommand) -> PromptWindow {
    match cmd {
        UICommand::UpdateUserInput(input) => PromptWindow { user_input: input, ..w },
        UICommand::Toast(msg) => PromptWindow { message: Some(msg), ..w },
        _ => w,
    }
}

/// The commands the prompt panel emits back into the user-interface inbox
/// when offered a command: a submitted line is forwarded for execution.
pub open spec fn prompt_emits(w: PromptWindow, cmd: UICommand) -> Seq<UICommand> {
    match cmd {
        UICommand::SubmitCommand(line) => seq![UICommand::Execute(line)],
        _ => Seq::<UICommand>::empty(),
    }
}

/// The lines the prompt panel draws: the transient message while it lives,
/// then the prompt and the input line, always last on screen.
pub open spec fn prompt_render_lines(w: PromptWindow, now: int) -> Seq<Seq<char>> {
    let input_line = seq![w.prompt@ + seq![' '] + w.user_input@];
    match w.message {
        Some(m) => if m.ttl > now {
            seq![m.text@] + input_line
        } else {
            input_line
        },
        None => input_line,
    }
}

impl PromptWindow {
    pub fn new() -> (r: Self)
        ensures
            r.active == true,
            r.user_input@ == Seq::<char>::empty(),
            r.prompt@ == ":>"@,
            r.message is None,
    {
        PromptWindow {
            active: true,
            user_input: String::new(),
            prompt: String::from_str(":>"),
            message: None,
        }
    }

    pub fn set_prompt(&mut self, prompt: &str)
        ensures
            *final(self) == (PromptWindow { prompt: final(self).prompt, ..*old(self) }),
            final(self).prompt@ == prompt@,
    {
        self.prompt = String::from_str(prompt);
    }

    pub fn set_message(&mut self, message: PromptMessage)
        ensures
            *final(self) == (PromptWindow { message: Some(message), ..*old(self) }),
    {
        self.message = Some(message);
    }

    pub fn id(&self) -> (r: String)
        ensures
            r@ == "prompt"@,
    {
        String::from_str("prompt")
    }

    pub fn active(&self) -> (r: bool)
        ensures
            r == self.active,
    {
        self.active
    }

    pub fn enable(&mut self)
        ensures
            *final(self) == (PromptWindow { active: true, ..*old(self) }),
    {
        self.active = true;
    }

    pub fn disable(&mut self)
        ensures
            *final(self) == (PromptWindow { active: false, ..*old(self) }),
    {
        self.active = false;
    }

    /// Offer a command; consumed commands update the input echo, show a
    /// toast, or forward a submitted line as an `Execute` request.
    pub fn handle(&mut self, cmd: &UICommand, out: &mut Vec<UICommand>) -> (consumed: bool)
        ensures
            consumed == prompt_consumes(*cmd),
            *final(self) == prompt_next(*old(self), *cmd),
            final(out)@ == old(out)@ + prompt_emits(*old(self), *cmd),
    {
        let consumed = match cmd {
            UICommand::UpdateUserInput(input) => {
                self.user_input = input.clone();
                true
            },
            UICommand::Toast(msg) => {
                self.message = Some(msg.clone());
                true
            },
            UICommand::SubmitCommand(line) => {
                out.push(UICommand::Execute(line.clone()));
                true
            },
            _ => false,
        };
        proof {
            assert(final(out)@ =~= old(out)@ + prompt_emits(*old(self), *cmd));
        }
        consumed
    }

    /// The lines this panel draws, the input line last.
    pub fn render(&self, now_ms: i64) -> (lines: Vec<String>)
        ensures
            lines.deep_view() == prompt_render_lines(*self, now_ms as int),
    {
        let mut lines: Vec<String> = Vec::new();
        match &self.message {
            Some(msg) => {
                if msg.ttl > now_ms {
                    lines.push(msg.text.clone());
                }
            },
            None => {},
        }
        let mut input_line = self.prompt.clone();
        input_line.append(" ");
        input_line.append(self.user_input.as_str());
        proof {
            reveal_strlit(" ");
            assert(" "@ =~= seq![' ']);
        }
        lines.push(input_line);
        proof {
            assert(lines.deep_view() =~= prompt_render_lines(*self, now_ms as int));
        }
        lines
    }
}

} // verus!
