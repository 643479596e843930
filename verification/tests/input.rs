use todor::commands::UICommand;
use todor::tasks::user_input_task::KeyEvent;
use todor::tasks::UserInputTask;

fn type_line(task: &mut UserInputTask, line: &str) {
    for c in line.chars() {
        let mut out: Vec<UICommand> = Vec::new();
        task.handle_key(KeyEvent::Char(c), &mut out);
        assert_eq!(out, vec![UICommand::UpdateUserInput(task.user_input.clone())]);
    }
}

#[test]
fn typing_echoes_the_buffer() {
    let mut task = UserInputTask::new();
    type_line(&mut task, "hi");
    assert_eq!(task.user_input, "hi");
}

#[test]
fn enter_submits_then_clears() {
    let mut task = UserInputTask::new();
    type_line(&mut task, "refresh");
    let mut out: Vec<UICommand> = Vec::new();
    task.handle_key(KeyEvent::Enter, &mut out);
    assert_eq!(
        out,
        vec![
            UICommand::SubmitCommand("refresh".to_string()),
            UICommand::UpdateUserInput("".to_string()),
        ]
    );
    assert_eq!(task.user_input, "");
}

#[test]
fn backspace_never_underflows() {
    let mut task = UserInputTask::new();
    let mut out: Vec<UICommand> = Vec::new();
    task.handle_key(KeyEvent::Backspace, &mut out);
    assert_eq!(task.user_input, "");
    type_line(&mut task, "ab");
    task.handle_key(KeyEvent::Backspace, &mut out);
    assert_eq!(task.user_input, "a");
}

#[test]
fn kill_line_clears_the_buffer() {
    let mut task = UserInputTask::new();
    type_line(&mut task, "half a tho");
    let mut out: Vec<UICommand> = Vec::new();
    task.handle_key(KeyEvent::CtrlU, &mut out);
    assert_eq!(task.user_input, "");
    assert_eq!(out, vec![UICommand::UpdateUserInput("".to_string())]);
}

#[test]
fn interrupts_ask_for_exit() {
    let mut task = UserInputTask::new();
    let mut out: Vec<UICommand> = Vec::new();
    task.handle_key(KeyEvent::CtrlC, &mut out);
    task.handle_key(KeyEvent::CtrlD, &mut out);
    assert_eq!(out.iter().filter(|c| matches!(c, UICommand::Exit)).count(), 2);
}

#[test]
fn navigation_keys_move_the_selection() {
    let mut task = UserInputTask::new();
    let mut out: Vec<UICommand> = Vec::new();
    task.handle_key(KeyEvent::Up, &mut out);
    task.handle_key(KeyEvent::Down, &mut out);
    task.handle_key(KeyEvent::Esc, &mut out);
    let moves: Vec<&UICommand> = out
        .iter()
        .filter(|c| !matches!(c, UICommand::UpdateUserInput(_)))
        .collect();
    assert_eq!(
        moves,
        vec![&UICommand::SelectPrev, &UICommand::SelectNext, &UICommand::ClearSelection]
    );
}

#[test]
fn inert_keys_do_nothing_but_echo() {
    let mut task = UserInputTask::new();
    let mut out: Vec<UICommand> = Vec::new();
    task.handle_key(KeyEvent::Other, &mut out);
    assert_eq!(out, vec![UICommand::UpdateUserInput("".to_string())]);
}
