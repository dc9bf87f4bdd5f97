//! What the launch asks its caller to do, what the caller reports back, and
//! how a report that tells of a failure is classified.

use crate::command::{CommandLine, CommandLineView, CommandOutcome, CommandOutcomeView};
use crate::syscall::{Syscall, SyscallView};
use vstd::prelude::*;
use vstd::string::StringExecFns;

verus! {

/// One thing for the caller to do.
#[derive(Clone, Debug, PartialEq, Eq)]
pub enum Action {
    /// Run a command of the network backend and wait for it to exit.
    Run(CommandLine),
    /// Invoke a kernel primitive.
    Call(Syscall),
}

/// The mathematical content of an [`Action`].
#[verifier::ext_equal]
pub enum ActionView {
    Run(CommandLineView),
    Call(SyscallView),
}

impl View for Action {
    type V = ActionView;

    open spec fn view(&self) -> ActionView {
        match self {
            Action::Run(line) => ActionView::Run(line@),
            Action::Call(call) => ActionView::Call(call@),
        }
    }
}

impl ActionView {
    /// Whether every text that the action hands to the kernel is free of NUL.
    /// Backend commands hand nothing to the kernel themselves.
    pub open spec fn nul_free(self) -> bool {
        self matches ActionView::Call(call) ==> call.nul_free()
    }
}

/// The views of a sequence of actions.
pub open spec fn actions(plan: Seq<Action>) -> Seq<ActionView> {
    plan.map_values(|a: Action| a@)
}

/// Each command line as an action.
pub open spec fn runs(plan: Seq<CommandLineView>) -> Seq<ActionView> {
    plan.map_values(|line: CommandLineView| ActionView::Run(line))
}

/// The view of an optional action.
pub open spec fn opt_action(action: Option<Action>) -> Option<ActionView> {
    match action {
        Some(a) => Some(a@),
        None => None,
    }
}

/// What came of the action that was pending.
#[derive(Clone, Debug, PartialEq, Eq)]
pub enum Event {
    /// The kernel primitive returned this value.
    Returned(i64),
    /// The backend command ran and exited.
    Exited(CommandOutcome),
    /// The backend command could not be started; the text says why.
    NotStarted(String),
}

/// The mathematical content of an [`Event`].
#[verifier::ext_equal]
pub enum EventView {
    Returned(int),
    Exited(CommandOutcomeView),
    NotStarted(Seq<char>),
}

impl View for Event {
    type V = EventView;

    open spec fn view(&self) -> EventView {
        match self {
            Event::Returned(value) => EventView::Returned(*value as int),
            Event::Exited(outcome) => EventView::Exited(outcome@),
            Event::NotStarted(reason) => EventView::NotStarted(reason@),
        }
    }
}

/// A step that did not succeed, by kind.
#[derive(Clone, Debug, PartialEq, Eq)]
pub enum Fault {
    /// A namespace, mount, pivot, pipe or fork operation reported failure.
    /// Nothing can continue from here.
    Setup(Syscall),
    /// A network-backend command failed; the text is what it wrote to its
    /// error stream or, where it could not be started, the reason. Nothing can
    /// continue from here.
    Backend(CommandLine, String),
    /// The process image could not be replaced. Nothing can continue from
    /// here.
    Exec(Syscall),
    /// A best-effort step of the final teardown failed. The launch goes on.
    Cleanup(Syscall),
}

/// The mathematical content of a [`Fault`].
#[verifier::ext_equal]
pub enum FaultView {
    Setup(SyscallView),
    Backend(CommandLineView, Seq<char>),
    Exec(SyscallView),
    Cleanup(SyscallView),
}

impl View for Fault {
    type V = FaultView;

    open spec fn view(&self) -> FaultView {
        match self {
            Fault::Setup(call) => FaultView::Setup(call@),
            Fault::Backend(line, message) => FaultView::Backend(line@, message@),
            Fault::Exec(call) => FaultView::Exec(call@),
            Fault::Cleanup(call) => FaultView::Cleanup(call@),
        }
    }
}

impl FaultView {
    /// Whether the launch must stop at this fault.
    pub open spec fn fatal(self) -> bool {
        !(self is Cleanup)
    }

    /// The message that describes the failed step: for a backend command what
    /// it wrote to its error stream or why it could not be started, for a
    /// kernel primitive the kind of fault and the primitive's name.
    pub open spec fn message(self) -> Seq<char> {
        match self {
            FaultView::Setup(call) => "setup fault: "@ + call.name(),
            FaultView::Backend(_, stderr) => stderr,
            FaultView::Exec(call) => "exec fault: "@ + call.name(),
            FaultView::Cleanup(call) => "cleanup fault: "@ + call.name(),
        }
    }
}

/// The view of an optional fault.
pub open spec fn opt_fault(fault: Option<Fault>) -> Option<FaultView> {
    match fault {
        Some(f) => Some(f@),
        None => None,
    }
}

impl Fault {
    /// The message that describes the failed step.
    pub fn message(&self) -> (message: String)
        ensures
            message@ == self@.message(),
    {
        match self {
            Fault::Setup(call) => String::from_str("setup fault: ").concat(call.name()),
            Fault::Backend(_, stderr) => stderr.clone(),
            Fault::Exec(call) => String::from_str("exec fault: ").concat(call.name()),
            Fault::Cleanup(call) => String::from_str("cleanup fault: ").concat(call.name()),
        }
    }

    /// Whether the launch must stop at this fault.
    pub fn is_fatal(&self) -> (fatal: bool)
        ensures
            fatal == self@.fatal(),
    {
        match self {
            Fault::Cleanup(_) => false,
            _ => true,
        }
    }
}

/// Whether the value that `call` returned tells of its success. A fork
/// succeeds with any process id that is not negative; the barrier's write and
/// read succeed when exactly one byte went through; the wait for the child
/// counts as done whatever it returns; an exec that returns has failed; every
/// other primitive succeeds with zero.
pub open spec fn accepts(call: SyscallView, value: int) -> bool {
    match call {
        SyscallView::Fork => 0 <= value <= i32::MAX,
        SyscallView::SignalBarrier => value == 1,
        SyscallView::AwaitBarrier => value == 1,
        SyscallView::Wait { .. } => true,
        SyscallView::Exec { .. } => false,
        _ => value == 0,
    }
}

/// Whether `event` reports that `action` succeeded. A command that could not
/// be started has failed, and so has any action with a report of the wrong
/// kind.
pub open spec fn succeeded(action: ActionView, event: EventView) -> bool {
    match (action, event) {
        (ActionView::Run(_), EventView::Exited(outcome)) => outcome.success,
        (ActionView::Call(call), EventView::Returned(value)) => accepts(call, value),
        _ => false,
    }
}

/// Tells whether the value that `call` returned means success.
pub fn call_accepts(call: &Syscall, value: i64) -> (ok: bool)
    ensures
        ok == accepts(call@, value as int),
{
    match call {
        Syscall::Fork => 0 <= value && value <= 0x7fff_ffff,
        Syscall::SignalBarrier => value == 1,
        Syscall::AwaitBarrier => value == 1,
        Syscall::Wait { .. } => true,
        Syscall::Exec { .. } => false,
        _ => value == 0,
    }
}

/// Tells whether `event` reports that `action` succeeded.
pub fn action_succeeded(action: &Action, event: &Event) -> (ok: bool)
    ensures
        ok == succeeded(action@, event@),
{
    match action {
        Action::Run(_) => match event {
            Event::Exited(outcome) => outcome.success,
            _ => false,
        },
        Action::Call(call) => match event {
            Event::Returned(value) => call_accepts(call, *value),
            _ => false,
        },
    }
}

} // verus!
