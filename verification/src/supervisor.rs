use vstd::prelude::*;
use vstd::string::StringExecFns;
use crate::bridge::SessionLine;
use crate::bridge::classify_line;
use crate::bridge::command_response;
use crate::bridge::handle_command;
use crate::bridge::is_local;

verus! {

/// Where one supervised session stands.  `Bridging`: the child runs and
/// operator lines are still read and dispatched.  `Draining`: operator input
/// is over (the console closed, or the child's input pipe broke); nothing is
/// forwarded any more, the session only awaits the child's exit while its
/// remaining output is drained.  `Exited`: the child has terminated with the
/// recorded status code (no code when it was ended by a signal).
#[derive(Clone, Copy, Debug)]
pub enum SupervisorPhase {
    Bridging,
    Draining,
    Exited(Option<i32>),
}

/// What the session can observe: a line typed by the operator, the console
/// closing, a failed write to the child's input, or the child's exit.
pub enum BridgeEvent {
    OperatorLine(String),
    EndOfInput,
    WriteFailed,
    ChildExited(Option<i32>),
}

/// What the surrounding session must do next: write the given text to the
/// child's input, display whole lines on the console, stop reading operator
/// input and wait for the child, report the child's exit status, or nothing.
pub enum BridgeAction {
    Forward(String),
    Display(Vec<String>),
    AwaitExit,
    ReportExit(Option<i32>),
    Ignore,
}

/// The phase transition of one supervision step.  Operator lines never move
/// the phase; end of input and a broken input pipe end the bridging (and
/// nothing else); the child's exit ends the session with its status.
pub open spec fn next_phase(phase: SupervisorPhase, event: BridgeEvent) -> SupervisorPhase {
    match event {
        BridgeEvent::OperatorLine(_) => phase,
        BridgeEvent::EndOfInput => match phase {
            SupervisorPhase::Bridging => SupervisorPhase::Draining,
            p => p,
        },
        BridgeEvent::WriteFailed => match phase {
            SupervisorPhase::Bridging => SupervisorPhase::Draining,
            p => p,
        },
        BridgeEvent::ChildExited(code) => SupervisorPhase::Exited(code),
    }
}

/// Owns the lifecycle of one child process: it decides, event by event, what
/// is forwarded to the child, what the console shows, and when the session
/// only waits for the child to exit.  The surrounding session performs the
/// actions (pipe writes, console output, the blocking wait) and feeds the
/// outcome back in as the next event.
pub struct Supervisor {
    phase: SupervisorPhase,
}

impl View for Supervisor {
    type V = SupervisorPhase;

    closed spec fn view(&self) -> SupervisorPhase {
        self.phase
    }
}

impl Supervisor {
    /// A session starts bridging as soon as the child is spawned.
    pub fn new() -> (s: Self)
        ensures
            s@ is Bridging,
    {
        Supervisor { phase: SupervisorPhase::Bridging }
    }

    /// The phase the session currently stands in; the workspace teardown
    /// asks for it, as no workspace is removed under a live child.
    pub fn current_phase(&self) -> (p: SupervisorPhase)
        ensures
            p == self@,
    {
        self.phase
    }

    /// One step of the bridge loop.  While bridging, a local line is answered
    /// on the console and never forwarded; any other line is forwarded with a
    /// trailing newline, exactly as typed.  End of input or a broken pipe
    /// turns the session to draining.  The child's exit is always recorded
    /// and reported with its status.
    pub fn step(&mut self, event: BridgeEvent) -> (a: BridgeAction)
        ensures
            final(self)@ == next_phase(old(self)@, event),
            event matches BridgeEvent::OperatorLine(line) ==> (old(self)@ is Bridging ==> ((
            is_local(line@) ==> (a matches BridgeAction::Display(lines) && lines.deep_view()
                == command_response(line@))) && (!is_local(line@) ==> (a
                matches BridgeAction::Forward(t) && t@ == line@ + "\n"@)))),
            (old(self)@ is Bridging && (event is EndOfInput || event is WriteFailed)) ==> a
                is AwaitExit,
            event matches BridgeEvent::ChildExited(code) ==> (a
                matches BridgeAction::ReportExit(r) && r == code),
            (!(old(self)@ is Bridging) && !(event is ChildExited)) ==> a is Ignore,
    {
        match event {
            BridgeEvent::ChildExited(code) => {
                self.phase = SupervisorPhase::Exited(code);
                BridgeAction::ReportExit(code)
            },
            BridgeEvent::OperatorLine(line) => match self.phase {
                SupervisorPhase::Bridging => match classify_line(line.as_str()) {
                    SessionLine::Local(command) => BridgeAction::Display(
                        handle_command(command.as_str()),
                    ),
                    SessionLine::PassThrough(text) => {
                        let mut payload = text;
                        payload.append("\n");
                        BridgeAction::Forward(payload)
                    },
                },
                _ => BridgeAction::Ignore,
            },
            BridgeEvent::EndOfInput => match self.phase {
                SupervisorPhase::Bridging => {
                    self.phase = SupervisorPhase::Draining;
                    BridgeAction::AwaitExit
                },
                _ => BridgeAction::Ignore,
            },
            BridgeEvent::WriteFailed => match self.phase {
                SupervisorPhase::Bridging => {
                    self.phase = SupervisorPhase::Draining;
                    BridgeAction::AwaitExit
                },
                _ => BridgeAction::Ignore,
            },
        }
    }
}

/// A broken input pipe ends only the bridging, not the session: the step on
/// the write failure turns a bridging session to draining, and the child's
/// exit afterwards is still recorded with its status.
pub proof fn lemma_broken_pipe_still_reports_exit(phase: SupervisorPhase, code: Option<i32>)
    requires
        phase is Bridging,
    ensures
        next_phase(phase, BridgeEvent::WriteFailed) is Draining,
        next_phase(next_phase(phase, BridgeEvent::WriteFailed), BridgeEvent::ChildExited(code))
            == SupervisorPhase::Exited(code),
{
}

} // verus!
