use i3helper::manager::{
    response_has_errors, Command, CommandKind, EventType, I3Manager, LoopInput, RunState,
};

fn plain(id: usize) -> Command {
    Command { con_id: id, kind: CommandKind::TitleFormatPlain }
}

fn emphasize(id: usize) -> Command {
    Command { con_id: id, kind: CommandKind::TitleFormatEmphasized }
}

fn focus(id: usize) -> Command {
    Command { con_id: id, kind: CommandKind::Focus }
}

fn running_manager() -> I3Manager {
    let mut m = I3Manager::new();
    m.start();
    m
}

#[test]
fn manager_starts_idle_then_runs() {
    let mut m = I3Manager::new();
    assert_eq!(m.state, RunState::Idle);
    m.start();
    assert_eq!(m.state, RunState::Running);
}

#[test]
fn router_emits_in_order() {
    let mut m = running_manager();
    // First event: no prior active window, so only one command.
    let c1 = m.step(&LoopInput::Event(EventType::FocusChange(10)));
    assert_eq!(c1, vec![emphasize(10)]);
    // Second event: unfocus the old window first, then emphasize the new.
    let c2 = m.step(&LoopInput::Event(EventType::FocusChange(20)));
    assert_eq!(c2, vec![plain(10), emphasize(20)]);
    // Third event, same shape.
    let c3 = m.step(&LoopInput::Event(EventType::FocusChange(30)));
    assert_eq!(c3, vec![plain(20), emphasize(30)]);
    assert_eq!(m.stack.get_active(), Some(30));
    assert_eq!(m.stack.get_previous(), Some(20));
}

#[test]
fn close_event_emits_nothing() {
    let mut m = running_manager();
    m.step(&LoopInput::Event(EventType::FocusChange(1)));
    m.step(&LoopInput::Event(EventType::FocusChange(2)));
    let cmds = m.step(&LoopInput::Event(EventType::Close(2)));
    assert_eq!(cmds, Vec::<Command>::new());
    assert_eq!(m.stack.get_active(), Some(1));
}

#[test]
fn close_active_then_switch_uses_remaining_stack() {
    let mut m = running_manager();
    m.step(&LoopInput::Event(EventType::FocusChange(1)));
    m.step(&LoopInput::Event(EventType::FocusChange(2)));
    m.step(&LoopInput::Event(EventType::FocusChange(3)));
    let on_close = m.step(&LoopInput::Event(EventType::Close(3)));
    assert_eq!(on_close, Vec::<Command>::new());
    // The stack is now 1 then 2 (most recent last); the trigger focuses the
    // window below the remaining top.
    let cmds = m.step(&LoopInput::SwitchRequest);
    assert_eq!(cmds, vec![focus(1)]);
}

#[test]
fn switch_on_empty_stack_is_noop() {
    let mut m = running_manager();
    let cmds = m.step(&LoopInput::SwitchRequest);
    assert_eq!(cmds, Vec::<Command>::new());
    assert_eq!(m.state, RunState::Running);
}

#[test]
fn switch_on_singleton_stack_is_noop() {
    let mut m = running_manager();
    m.step(&LoopInput::Event(EventType::FocusChange(5)));
    let cmds = m.step(&LoopInput::SwitchRequest);
    assert_eq!(cmds, Vec::<Command>::new());
}

#[test]
fn switch_to_previous_emits_focus_command() {
    let mut m = running_manager();
    m.step(&LoopInput::Event(EventType::FocusChange(5)));
    m.step(&LoopInput::Event(EventType::FocusChange(6)));
    assert_eq!(m.switch_to_previous(), Some(focus(5)));
    // The stack order is unchanged by the trigger itself.
    assert_eq!(m.stack.get_active(), Some(6));
    assert_eq!(m.stack.get_previous(), Some(5));
}

#[test]
fn refocusing_the_active_window_does_not_duplicate_it() {
    let mut m = running_manager();
    m.step(&LoopInput::Event(EventType::FocusChange(5)));
    let cmds = m.step(&LoopInput::Event(EventType::FocusChange(5)));
    // The prior active window existed (it is 5 itself), so both commands go
    // out, and the stack still holds a single entry.
    assert_eq!(cmds, vec![plain(5), emphasize(5)]);
    assert_eq!(m.stack.get_active(), Some(5));
    assert_eq!(m.stack.get_previous(), None);
}

#[test]
fn other_events_are_ignored() {
    let mut m = running_manager();
    m.step(&LoopInput::Event(EventType::FocusChange(8)));
    let cmds = m.step(&LoopInput::Event(EventType::Other));
    assert_eq!(cmds, Vec::<Command>::new());
    assert_eq!(m.stack.get_active(), Some(8));
    assert_eq!(m.state, RunState::Running);
}

#[test]
fn read_error_keeps_loop_running() {
    let mut m = running_manager();
    m.step(&LoopInput::Event(EventType::FocusChange(8)));
    let cmds = m.step(&LoopInput::ReadError);
    assert_eq!(cmds, Vec::<Command>::new());
    assert_eq!(m.state, RunState::Running);
    assert_eq!(m.stack.get_active(), Some(8));
}

#[test]
fn interrupt_stops_loop() {
    let mut m = running_manager();
    let cmds = m.step(&LoopInput::Interrupt);
    assert_eq!(cmds, Vec::<Command>::new());
    assert_eq!(m.state, RunState::Stopped);
}

#[test]
fn response_without_errors_reports_none() {
    assert!(!response_has_errors(&Vec::new()));
    assert!(!response_has_errors(&vec![None, None]));
}

#[test]
fn response_with_error_reports_it() {
    assert!(response_has_errors(&vec![Some("no window matches".to_string())]));
    assert!(response_has_errors(&vec![None, Some("bad command".to_string()), None]));
}

#[test]
fn command_errors_do_not_halt_loop() {
    let mut m = running_manager();
    m.step(&LoopInput::Event(EventType::FocusChange(1)));
    // The window manager reports a failure for the command that was sent...
    let outcomes = vec![Some("title_format failed".to_string())];
    assert!(response_has_errors(&outcomes));
    // ...and the next event is still processed normally.
    assert_eq!(m.state, RunState::Running);
    let cmds = m.step(&LoopInput::Event(EventType::FocusChange(2)));
    assert_eq!(cmds, vec![plain(1), emphasize(2)]);
    assert_eq!(m.stack.get_active(), Some(2));
}
