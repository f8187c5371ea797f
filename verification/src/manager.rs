//! The event router, command sequencing decisions, and the orchestrator's
//! state machine.
//!
//! Everything here is a function from plain values to plain values: the
//! surrounding daemon reads events and signals from its sockets, feeds them
//! in as [`LoopInput`]s, and sends the returned [`Command`]s over its
//! dedicated command connection.

use vstd::prelude::*;

use crate::stack::{no_dups, remove_id, stack_after_push, WindowStack};

verus! {

/// One window notification from the event stream, reduced to what the
/// router reads: the change kind and the window id. Every other change kind
/// is `Other` and is ignored.
#[derive(Clone, Copy, Debug, PartialEq, Eq, Structural)]
pub enum EventType {
    /// The window gained focus.
    FocusChange(usize),
    /// The window was closed.
    Close(usize),
    /// Any other change; ignored.
    Other,
}

/// What a command asks the window manager to do to one window.
#[derive(Clone, Copy, Debug, PartialEq, Eq, Structural)]
pub enum CommandKind {
    /// Reset the window's title bar to the plain style.
    TitleFormatPlain,
    /// Render the window's title bar in the emphasized style.
    TitleFormatEmphasized,
    /// Give the window focus.
    Focus,
}

/// A command scoped to one window, ready to be rendered and sent over the
/// command connection.
#[derive(Clone, Copy, Debug, PartialEq, Eq, Structural)]
pub struct Command {
    pub con_id: usize,
    pub kind: CommandKind,
}

/// The orchestrator's lifecycle: constructed, subscribed and looping, or
/// cleanly shut down.
#[derive(Clone, Copy, Debug, PartialEq, Eq, Structural)]
pub enum RunState {
    Idle,
    Running,
    Stopped,
}

/// Whichever awaitable source woke the select loop, as one tagged value,
/// processed one at a time.
#[derive(Clone, Copy, Debug, PartialEq, Eq, Structural)]
pub enum LoopInput {
    /// The event connection yielded a window event.
    Event(EventType),
    /// The event connection yielded a read error; logged, never fatal.
    ReadError,
    /// The graceful-shutdown signal.
    Interrupt,
    /// The user signal asking to focus the previously focused window.
    SwitchRequest,
}

pub open spec fn plain(id: usize) -> Command {
    Command { con_id: id, kind: CommandKind::TitleFormatPlain }
}

pub open spec fn emphasize(id: usize) -> Command {
    Command { con_id: id, kind: CommandKind::TitleFormatEmphasized }
}

pub open spec fn focus(id: usize) -> Command {
    Command { con_id: id, kind: CommandKind::Focus }
}

/// The recency stack after one window event.
pub open spec fn next_stack(s: Seq<usize>, ev: EventType) -> Seq<usize> {
    match ev {
        EventType::FocusChange(w) => stack_after_push(s, w),
        EventType::Close(w) => remove_id(s, w),
        EventType::Other => s,
    }
}

/// The commands one window event provokes, in the order they must be sent:
/// on a focus change, first the plain style for the window that was active
/// (none on the very first event), then the emphasized style for the new
/// one; close and other events emit nothing.
pub open spec fn emitted(s: Seq<usize>, ev: EventType) -> Seq<Command> {
    match ev {
        EventType::FocusChange(w) => if s.len() == 0 {
            seq![emphasize(w)]
        } else {
            seq![plain(s.last()), emphasize(w)]
        },
        EventType::Close(_) => Seq::<Command>::empty(),
        EventType::Other => Seq::<Command>::empty(),
    }
}

/// The focus-switch command a "switch to previous" trigger issues: none
/// unless the stack holds at least two windows.
pub open spec fn previous_focus(s: Seq<usize>) -> Option<Command> {
    if s.len() > 1 {
        Some(focus(s[s.len() - 2]))
    } else {
        None
    }
}

/// The loop state after one input: only an interrupt stops the loop.
pub open spec fn next_state(st: RunState, input: LoopInput) -> RunState {
    match input {
        LoopInput::Interrupt => RunState::Stopped,
        _ => st,
    }
}

/// The recency stack after one loop input: only window events touch it.
pub open spec fn step_stack(s: Seq<usize>, input: LoopInput) -> Seq<usize> {
    match input {
        LoopInput::Event(ev) => next_stack(s, ev),
        _ => s,
    }
}

/// The commands one loop input provokes.
pub open spec fn step_commands(s: Seq<usize>, input: LoopInput) -> Seq<Command> {
    match input {
        LoopInput::Event(ev) => emitted(s, ev),
        LoopInput::SwitchRequest => match previous_focus(s) {
            Some(c) => seq![c],
            None => Seq::<Command>::empty(),
        },
        _ => Seq::<Command>::empty(),
    }
}

/// Law: the loop stops only on an explicit interrupt. A read error, a
/// window event, or a switch request — whatever its command responses later
/// report — leaves the loop in the state it was in.
pub proof fn lemma_only_interrupt_stops(st: RunState, input: LoopInput)
    ensures
        next_state(st, input) == (if input is Interrupt {
            RunState::Stopped
        } else {
            st
        }),
{
}

/// The orchestrator's decision core: the recency stack and the loop state.
/// The connections themselves stay with the caller.
pub struct I3Manager {
    pub stack: WindowStack,
    pub state: RunState,
}

impl I3Manager {
    pub fn new() -> (m: Self)
        ensures
            m.stack@ == Seq::<usize>::empty(),
            m.state == RunState::Idle,
    {
        I3Manager { stack: WindowStack::new(), state: RunState::Idle }
    }

    /// The subscription succeeded: the event loop is live.
    pub fn start(&mut self)
        requires
            old(self).state == RunState::Idle,
        ensures
            final(self).state == RunState::Running,
            final(self).stack == old(self).stack,
    {
        self.state = RunState::Running;
    }

    /// Route one window event: update the recency stack and return the
    /// title-format commands to issue, in order. The plain-style command for
    /// the window that was active is computed before the stack moves, so it
    /// names the right window.
    pub fn handle_i3_event(&mut self, event: &EventType) -> (cmds: Vec<Command>)
        ensures
            final(self).state == old(self).state,
            final(self).stack@ == next_stack(old(self).stack@, *event),
            no_dups(final(self).stack@),
            cmds@ == emitted(old(self).stack@, *event),
    {
        self.stack.observe_no_dups();
        let mut cmds: Vec<Command> = Vec::new();
        match event {
            EventType::FocusChange(w) => {
                if let Some(p) = self.stack.get_active() {
                    cmds.push(Command { con_id: p, kind: CommandKind::TitleFormatPlain });
                }
                self.stack.set_active(*w);
                cmds.push(Command { con_id: *w, kind: CommandKind::TitleFormatEmphasized });
                proof {
                    assert(cmds@ =~= emitted(old(self).stack@, *event));
                }
            }
            EventType::Close(w) => {
                self.stack.delete(*w);
                proof {
                    assert(cmds@ =~= emitted(old(self).stack@, *event));
                }
            }
            EventType::Other => {
                proof {
                    assert(cmds@ =~= emitted(old(self).stack@, *event));
                }
            }
        }
        cmds
    }

    /// The "switch to previous window" trigger: the focus command to issue,
    /// if any. On an empty or singleton stack this is a no-op. The stack
    /// order is deliberately left unchanged here: it moves only when the
    /// window manager confirms the switch with a real focus event.
    pub fn switch_to_previous(&self) -> (cmd: Option<Command>)
        ensures
            cmd == previous_focus(self.stack@),
    {
        match self.stack.get_previous() {
            Some(prev) => Some(Command { con_id: prev, kind: CommandKind::Focus }),
            None => None,
        }
    }

    /// One iteration of the event loop: feed whichever input the select
    /// wait produced, get back the commands to send, in order.
    pub fn step(&mut self, input: &LoopInput) -> (cmds: Vec<Command>)
        requires
            old(self).state == RunState::Running,
        ensures
            final(self).state == next_state(old(self).state, *input),
            final(self).stack@ == step_stack(old(self).stack@, *input),
            no_dups(final(self).stack@),
            cmds@ == step_commands(old(self).stack@, *input),
    {
        self.stack.observe_no_dups();
        match input {
            LoopInput::Event(ev) => self.handle_i3_event(ev),
            LoopInput::ReadError => Vec::new(),
            LoopInput::Interrupt => {
                self.state = RunState::Stopped;
                Vec::new()
            },
            LoopInput::SwitchRequest => {
                let mut cmds: Vec<Command> = Vec::new();
                if let Some(c) = self.switch_to_previous() {
                    cmds.push(c);
                }
                proof {
                    assert(cmds@ =~= step_commands(old(self).stack@, *input));
                }
                cmds
            },
        }
    }
}

/// Inspect one command's response: does any sub-command report an error?
/// A failure is non-fatal — the caller logs it and the loop carries on; the
/// command is never retried.
pub fn response_has_errors(outcomes: &Vec<Option<String>>) -> (r: bool)
    ensures
        r == (exists|i: int| 0 <= i < outcomes@.len() && outcomes@[i] is Some),
{
    let n = outcomes.len();
    let mut found = false;
    let mut i: usize = 0;
    while i < n
        invariant
            i <= n,
            n == outcomes@.len(),
            found == (exists|j: int| 0 <= j < i && outcomes@[j] is Some),
        decreases n - i,
    {
        if outcomes[i].is_some() {
            found = true;
            proof {
                assert(outcomes@[i as int] is Some);
            }
        }
        i = i + 1;
    }
    found
}

} // verus!
