//! The launch protocol as a state machine.
//!
//! A launch is a value that names the one action that is pending. The caller
//! performs it and reports what came of it; the launch judges the report and
//! moves on, or stops with the fault. The order of the actions is fixed here
//! and nowhere else: bridge, barrier, process-id namespace, fork; in the
//! child the root switch behind its barrier signal; in the parent the network
//! attachment after that signal, the wait, and the teardown.

use crate::command::{lines, CommandLine, CommandLineView};
use crate::event::{
    action_succeeded, actions, opt_action, opt_fault, runs, succeeded, Action, ActionView, Event,
    EventView, Fault, FaultView,
};
use crate::network::{
    bridge_probe, bridge_probe_line, create_veth, create_veth_command, create_veth_line,
    creation_may_fail, find_ns_net, find_ns_net_line, init_bridge, init_bridge_plan,
    init_bridge_tolerates, is_veth_name, link_veth_to_bridge, link_veth_to_bridge_plan,
    link_veth_to_ns, link_veth_to_ns_plan, namespace_id, put_netns, put_netns_line,
    release_netns, release_netns_line, VethPair,
};
use crate::request::{
    argv_of, lemma_joined_nul_free, lemma_marker_name_nul_free, marker_name, marker_of,
    LaunchRequest, RequestView,
};
use crate::syscall::{
    bind_private_flags, child_namespaces, detach_flags, pid_namespace, pseudo_filesystem_mounts,
    pseudo_filesystems, slave_flags, syscalls, BarrierEnd, Syscall, SyscallView,
    lemma_pseudo_filesystems_nul_free, BIND_PRIVATE_FLAGS, CHILD_NAMESPACES, DETACH_FLAGS,
    MARKER_MODE, PID_NAMESPACE, SLAVE_FLAGS,
};
use crate::text::{lemma_nul_free_by_chars, nul_free, trimmed};
use vstd::prelude::*;
use vstd::string::StringExecFns;

verus! {

/// What the launching process has to do next.
#[derive(Clone, Copy, Debug, PartialEq, Eq, Structural)]
pub enum ParentStage {
    /// Ask the backend whether the shared bridge is present.
    ProbeBridge,
    /// Make the shared bridge active, creating it where it was absent.
    InitBridge,
    /// Create the barrier pipe.
    CreateBarrier,
    /// Unshare the process-id namespace, so that the child becomes its first
    /// process.
    UnsharePid,
    /// Fork.
    Fork,
    /// Close the unused write end, then block until the child's token arrives.
    AwaitBarrier,
    /// Ask the backend for the child's network namespace.
    FindNamespace,
    /// Register that namespace under its name.
    RegisterNamespace,
    /// Create the veth pair.
    CreateVeth,
    /// Move the container-side end into the namespace and configure it.
    ConfigurePeer,
    /// Attach the host-side end to the bridge.
    AttachHost,
    /// Remove the namespace's registration.
    ReleaseNamespace,
    /// Block until the child has terminated.
    AwaitChild,
    /// Remove the old-root marker and unmount the root, as far as that goes.
    CleanUp,
    /// Nothing is left to do: the launch has succeeded.
    Finished,
}

/// How far the child has come.
#[derive(Clone, Copy, Debug, PartialEq, Eq, Structural)]
pub enum ChildState {
    Forked,
    RootBindIsolated,
    OldRootMarkerCreated,
    NamespacesUnshared,
    BarrierSignaled,
    RootPivoted,
    PseudoFsMounted,
    PropagationIsolated,
    OldRootUnmounted,
    /// The process image has been replaced. No launch code runs in this state.
    Execd,
}

/// Which of the two processes a launch value drives, and where it stands.
#[derive(Clone, Copy, Debug, PartialEq, Eq, Structural)]
pub enum Phase {
    Parent(ParentStage),
    Child(ChildState),
}

/// The mathematical content of a [`Launch`].
#[verifier::ext_equal]
pub struct LaunchView {
    pub request: RequestView,
    /// The host-side veth name.
    pub host: Seq<char>,
    /// The container-side veth name.
    pub peer: Seq<char>,
    pub phase: Phase,
    /// How many actions of the current phase have been done.
    pub step: nat,
    /// Whether the probe found the bridge present.
    pub bridge_present: bool,
    /// The child's process id, once forked.
    pub pid: int,
    /// The child's network namespace, once found.
    pub ns_id: Seq<char>,
}

/// The path at which the old root hangs after the pivot.
pub open spec fn pivoted_marker() -> Seq<char> {
    "/.old_root"@
}

/// The address to assign; the empty text where none was requested.
pub open spec fn address_of(request: RequestView) -> Seq<char> {
    match request.address {
        Some(a) => a,
        None => Seq::empty(),
    }
}

/// One kernel primitive as a plan.
pub open spec fn one_call(call: SyscallView) -> Seq<ActionView> {
    seq![ActionView::Call(call)]
}

/// One backend command as a plan.
pub open spec fn one_run(line: CommandLineView) -> Seq<ActionView> {
    seq![ActionView::Run(line)]
}

/// Each kernel primitive as an action.
pub open spec fn calls(plan: Seq<SyscallView>) -> Seq<ActionView> {
    plan.map_values(|call: SyscallView| ActionView::Call(call))
}

/// The actions of one stage of the launching process, in order.
pub open spec fn parent_plan(v: LaunchView, stage: ParentStage) -> Seq<ActionView> {
    match stage {
        ParentStage::ProbeBridge => one_run(bridge_probe_line()),
        ParentStage::InitBridge => runs(init_bridge_plan(v.bridge_present)),
        ParentStage::CreateBarrier => one_call(SyscallView::Pipe),
        ParentStage::UnsharePid => one_call(SyscallView::Unshare { namespaces: PID_NAMESPACE as int }),
        ParentStage::Fork => one_call(SyscallView::Fork),
        ParentStage::AwaitBarrier => seq![
            ActionView::Call(SyscallView::CloseBarrier { end: BarrierEnd::Write }),
            ActionView::Call(SyscallView::AwaitBarrier),
        ],
        ParentStage::FindNamespace => one_run(find_ns_net_line(v.pid)),
        ParentStage::RegisterNamespace => one_run(put_netns_line(v.pid, v.ns_id)),
        ParentStage::CreateVeth => one_run(create_veth_line(v.host, v.peer)),
        ParentStage::ConfigurePeer => runs(
            link_veth_to_ns_plan(v.peer, v.ns_id, address_of(v.request)),
        ),
        ParentStage::AttachHost => runs(link_veth_to_bridge_plan(v.host)),
        ParentStage::ReleaseNamespace => one_run(release_netns_line(v.ns_id)),
        ParentStage::AwaitChild => one_call(SyscallView::Wait { pid: v.pid }),
        ParentStage::CleanUp => seq![
            ActionView::Call(SyscallView::Rmdir { path: marker_of(v.request.root) }),
            ActionView::Call(SyscallView::Unmount { target: v.request.root, options: 0 }),
        ],
        ParentStage::Finished => Seq::empty(),
    }
}

/// The actions by which the child leaves `state`, in order.
pub open spec fn child_plan(request: RequestView, state: ChildState) -> Seq<ActionView> {
    match state {
        ChildState::Forked => seq![
            ActionView::Call(SyscallView::CloseBarrier { end: BarrierEnd::Read }),
            ActionView::Call(
                SyscallView::Mount {
                    source: request.root,
                    target: request.root,
                    fstype: ""@,
                    flags: BIND_PRIVATE_FLAGS as int,
                    data: ""@,
                },
            ),
        ],
        ChildState::RootBindIsolated => one_call(
            SyscallView::Mkdir { path: marker_of(request.root), mode: MARKER_MODE as int },
        ),
        ChildState::OldRootMarkerCreated => one_call(
            SyscallView::Unshare { namespaces: CHILD_NAMESPACES as int },
        ),
        ChildState::NamespacesUnshared => seq![
            ActionView::Call(SyscallView::SignalBarrier),
            ActionView::Call(SyscallView::CloseBarrier { end: BarrierEnd::Write }),
        ],
        ChildState::BarrierSignaled => one_call(
            SyscallView::PivotRoot { new_root: request.root, put_old: marker_of(request.root) },
        ),
        ChildState::RootPivoted => one_call(SyscallView::Chdir { path: "/"@ }) + calls(
            pseudo_filesystem_mounts(),
        ),
        ChildState::PseudoFsMounted => one_call(
            SyscallView::Mount {
                source: ""@,
                target: pivoted_marker(),
                fstype: ""@,
                flags: SLAVE_FLAGS as int,
                data: ""@,
            },
        ),
        ChildState::PropagationIsolated => seq![
            ActionView::Call(
                SyscallView::Unmount { target: pivoted_marker(), options: DETACH_FLAGS as int },
            ),
            ActionView::Call(SyscallView::Rmdir { path: pivoted_marker() }),
        ],
        ChildState::OldRootUnmounted => one_call(
            SyscallView::Exec {
                program: request.command,
                argv: argv_of(request.command, request.args),
            },
        ),
        ChildState::Execd => Seq::empty(),
    }
}

/// The state that the child reaches when it has left `state`.
pub open spec fn child_successor(state: ChildState) -> ChildState {
    match state {
        ChildState::Forked => ChildState::RootBindIsolated,
        ChildState::RootBindIsolated => ChildState::OldRootMarkerCreated,
        ChildState::OldRootMarkerCreated => ChildState::NamespacesUnshared,
        ChildState::NamespacesUnshared => ChildState::BarrierSignaled,
        ChildState::BarrierSignaled => ChildState::RootPivoted,
        ChildState::RootPivoted => ChildState::PseudoFsMounted,
        ChildState::PseudoFsMounted => ChildState::PropagationIsolated,
        ChildState::PropagationIsolated => ChildState::OldRootUnmounted,
        ChildState::OldRootUnmounted => ChildState::Execd,
        ChildState::Execd => ChildState::Execd,
    }
}

/// The stage that follows `stage` in the launching process. Without
/// networking the bridge and the attachment are left out. What follows the
/// fork depends on the process and is not told here.
pub open spec fn parent_successor(stage: ParentStage, networked: bool) -> ParentStage {
    match stage {
        ParentStage::ProbeBridge => ParentStage::InitBridge,
        ParentStage::InitBridge => ParentStage::CreateBarrier,
        ParentStage::CreateBarrier => ParentStage::UnsharePid,
        ParentStage::UnsharePid => ParentStage::Fork,
        ParentStage::Fork => ParentStage::AwaitBarrier,
        ParentStage::AwaitBarrier => if networked {
            ParentStage::FindNamespace
        } else {
            ParentStage::AwaitChild
        },
        ParentStage::FindNamespace => ParentStage::RegisterNamespace,
        ParentStage::RegisterNamespace => ParentStage::CreateVeth,
        ParentStage::CreateVeth => ParentStage::ConfigurePeer,
        ParentStage::ConfigurePeer => ParentStage::AttachHost,
        ParentStage::AttachHost => ParentStage::ReleaseNamespace,
        ParentStage::ReleaseNamespace => ParentStage::AwaitChild,
        ParentStage::AwaitChild => ParentStage::CleanUp,
        ParentStage::CleanUp => ParentStage::Finished,
        ParentStage::Finished => ParentStage::Finished,
    }
}

/// The stage at which a launch starts.
pub open spec fn first_stage(networked: bool) -> ParentStage {
    if networked {
        ParentStage::ProbeBridge
    } else {
        ParentStage::CreateBarrier
    }
}

/// Whether nothing follows `phase`.
pub open spec fn terminal(phase: Phase) -> bool {
    phase == Phase::Parent(ParentStage::Finished) || phase == Phase::Child(ChildState::Execd)
}

/// The actions of the phase in which `v` stands.
pub open spec fn plan_of(v: LaunchView) -> Seq<ActionView> {
    match v.phase {
        Phase::Parent(stage) => parent_plan(v, stage),
        Phase::Child(state) => child_plan(v.request, state),
    }
}

/// The action that the caller has to perform next, if any is left.
pub open spec fn pending_action(v: LaunchView) -> Option<ActionView> {
    if v.step < plan_of(v).len() {
        Some(plan_of(v)[v.step as int])
    } else {
        None
    }
}

/// What the backend command wrote to its error stream, where the event is the
/// exit of one; why it could not be started, where it could not; else the
/// empty text.
pub open spec fn message_of(event: EventView) -> Seq<char> {
    match event {
        EventView::Exited(outcome) => outcome.stderr,
        EventView::NotStarted(reason) => reason,
        EventView::Returned(_) => Seq::empty(),
    }
}

/// Whether the exit status of the pending command is not held against it:
/// the probe's failure only tells that the bridge is absent, and the
/// creation's failure that another launch has created the bridge meanwhile.
pub open spec fn lenient(v: LaunchView) -> bool {
    ||| v.phase == Phase::Parent(ParentStage::ProbeBridge)
    ||| v.phase == Phase::Parent(ParentStage::InitBridge) && creation_may_fail(
        v.bridge_present,
        v.step as int,
    )
}

/// The kind of fault that a failure of `action` is, in phase `phase`: a failed
/// backend command is a backend fault; an exec that returned is an exec
/// fault; a failed kernel primitive is a cleanup fault during the final
/// teardown and a setup fault anywhere else.
pub open spec fn fault_of(phase: Phase, action: ActionView, event: EventView) -> FaultView {
    match action {
        ActionView::Run(line) => FaultView::Backend(line, message_of(event)),
        ActionView::Call(call) => if call is Exec {
            FaultView::Exec(call)
        } else if phase == Phase::Parent(ParentStage::CleanUp) {
            FaultView::Cleanup(call)
        } else {
            FaultView::Setup(call)
        },
    }
}

/// How `event` counts for the pending action: no fault where it reports
/// success, and none where a command whose exit status is not held against
/// it has run and exited; otherwise the fault by its kind. A command that
/// could not be started is a fault wherever it happens.
pub open spec fn judged(v: LaunchView, event: EventView) -> Option<FaultView> {
    match pending_action(v) {
        None => None,
        Some(action) => if succeeded(action, event) || (lenient(v) && event is Exited) {
            None
        } else {
            Some(fault_of(v.phase, action, event))
        },
    }
}

/// Whether `event` is the successful exit of a backend command.
pub open spec fn exited_well(event: EventView) -> bool {
    event matches EventView::Exited(outcome) && outcome.success
}

/// The value that the kernel primitive returned; zero for any other event.
pub open spec fn returned_value(event: EventView) -> int {
    match event {
        EventView::Returned(value) => value,
        _ => 0,
    }
}

/// What the backend command printed; the empty text for any other event.
pub open spec fn output_of(event: EventView) -> Seq<char> {
    match event {
        EventView::Exited(outcome) => outcome.stdout,
        _ => Seq::empty(),
    }
}

/// The launch at the start of the phase that follows the one in which `v`
/// stands, `event` being the report on the last action of that phase. The
/// probe's result, the fork's return value and the namespace listing are
/// taken from the event. The fork returns zero in the child and the child's
/// process id in the parent.
pub open spec fn entered(v: LaunchView, event: EventView) -> LaunchView {
    match v.phase {
        Phase::Parent(ParentStage::ProbeBridge) => LaunchView {
            phase: Phase::Parent(ParentStage::InitBridge),
            step: 0,
            bridge_present: exited_well(event),
            ..v
        },
        Phase::Parent(ParentStage::Fork) => if returned_value(event) == 0 {
            LaunchView { phase: Phase::Child(ChildState::Forked), step: 0, ..v }
        } else {
            LaunchView {
                phase: Phase::Parent(ParentStage::AwaitBarrier),
                step: 0,
                pid: returned_value(event),
                ..v
            }
        },
        Phase::Parent(ParentStage::FindNamespace) => LaunchView {
            phase: Phase::Parent(ParentStage::RegisterNamespace),
            step: 0,
            ns_id: trimmed(output_of(event)),
            ..v
        },
        Phase::Parent(stage) => LaunchView {
            phase: Phase::Parent(parent_successor(stage, v.request.networked())),
            step: 0,
            ..v
        },
        Phase::Child(state) => LaunchView {
            phase: Phase::Child(child_successor(state)),
            step: 0,
            ..v
        },
    }
}

/// The launch after the pending action is done with: one step further in the
/// same phase, or at the start of the next. A launch with nothing pending
/// stays as it is.
pub open spec fn next_view(v: LaunchView, event: EventView) -> LaunchView {
    if pending_action(v) is None {
        v
    } else if v.step + 1 < plan_of(v).len() {
        LaunchView { step: v.step + 1, ..v }
    } else {
        entered(v, event)
    }
}

/// The step function of the launch: a fatal fault stops it; otherwise it moves
/// on.
pub open spec fn advanced(v: LaunchView, event: EventView) -> Result<LaunchView, FaultView> {
    match judged(v, event) {
        Some(fault) => if fault.fatal() {
            Err(fault)
        } else {
            Ok(next_view(v, event))
        },
        None => Ok(next_view(v, event)),
    }
}

/// The launch before anything is done.
pub open spec fn initial(request: RequestView, host: Seq<char>, peer: Seq<char>) -> LaunchView {
    LaunchView {
        request,
        host,
        peer,
        phase: Phase::Parent(first_stage(request.networked())),
        step: 0,
        bridge_present: false,
        pid: 0,
        ns_id: Seq::empty(),
    }
}

impl LaunchView {
    /// Whether an action is pending exactly where the phase is not terminal.
    pub open spec fn consistent(self) -> bool {
        &&& self.request.well_formed()
        &&& if terminal(self.phase) {
            self.step == 0
        } else {
            self.step < plan_of(self).len()
        }
    }
}

/// Whatever the launch hands to a kernel primitive can be passed as a C
/// string: the texts of a request hold no NUL, and neither do the fixed paths,
/// types and options.
pub proof fn lemma_kernel_texts_nul_free(v: LaunchView)
    requires
        v.request.well_formed(),
    ensures
        forall|i: int| 0 <= i < plan_of(v).len() ==> (#[trigger] plan_of(v)[i]).nul_free(),
{
    lemma_marker_name_nul_free();
    lemma_joined_nul_free(v.request.root, marker_name());
    lemma_pseudo_filesystems_nul_free();
    reveal_strlit("");
    reveal_strlit("/");
    reveal_strlit("/.old_root");
    lemma_nul_free_by_chars(""@);
    lemma_nul_free_by_chars("/"@);
    lemma_nul_free_by_chars("/.old_root"@);
    let argv = argv_of(v.request.command, v.request.args);
    assert forall|j: int| 0 <= j < argv.len() implies nul_free(#[trigger] argv[j]) by {
        if j > 0 {
            assert(argv[j] == v.request.args[j - 1]);
        }
    }
}

/// Appends a kernel primitive to a plan.
fn push_call(plan: &mut Vec<Action>, call: Syscall)
    ensures
        actions(final(plan)@) == actions(old(plan)@).push(ActionView::Call(call@)),
{
    plan.push(Action::Call(call));
}

/// Appends a backend command to a plan.
fn push_run(plan: &mut Vec<Action>, line: CommandLine)
    ensures
        actions(final(plan)@) == actions(old(plan)@).push(ActionView::Run(line@)),
{
    plan.push(Action::Run(line));
}

/// Appends backend commands to a plan, in their order.
fn append_runs(plan: &mut Vec<Action>, commands: Vec<CommandLine>)
    ensures
        actions(final(plan)@) == actions(old(plan)@) + runs(lines(commands@)),
{
    let ghost all = lines(commands@);
    let ghost mut done: int = 0;
    let mut rest = commands;
    while rest.len() > 0
        invariant
            0 <= done <= all.len(),
            lines(rest@) == all.skip(done),
            actions(plan@) == actions(old(plan)@) + runs(all.take(done)),
        decreases rest.len(),
    {
        let ghost before = rest@;
        let line = rest.remove(0);
        proof {
            assert(lines(before).len() == before.len());
            assert(lines(before)[0] == line@);
            assert forall|i: int| 0 <= i < rest@.len() implies lines(rest@)[i] == all.skip(
                done + 1,
            )[i] by {
                assert(lines(before)[i + 1] == before[i + 1]@);
            }
        }
        push_run(plan, line);
        proof {
            done = done + 1;
        }
    }
}

/// Appends kernel primitives to a plan, in their order.
fn append_calls(plan: &mut Vec<Action>, primitives: Vec<Syscall>)
    ensures
        actions(final(plan)@) == actions(old(plan)@) + calls(syscalls(primitives@)),
{
    let ghost all = syscalls(primitives@);
    let ghost mut done: int = 0;
    let mut rest = primitives;
    while rest.len() > 0
        invariant
            0 <= done <= all.len(),
            syscalls(rest@) == all.skip(done),
            actions(plan@) == actions(old(plan)@) + calls(all.take(done)),
        decreases rest.len(),
    {
        let ghost before = rest@;
        let call = rest.remove(0);
        proof {
            assert(syscalls(before).len() == before.len());
            assert(syscalls(before)[0] == call@);
            assert forall|i: int| 0 <= i < rest@.len() implies syscalls(rest@)[i] == all.skip(
                done + 1,
            )[i] by {
                assert(syscalls(before)[i + 1] == before[i + 1]@);
            }
        }
        push_call(plan, call);
        proof {
            done = done + 1;
        }
    }
}

/// One launch: the request, the names chosen for its veth pair, and how far
/// it has come.
#[derive(Debug)]
pub struct Launch {
    request: LaunchRequest,
    veth: VethPair,
    phase: Phase,
    step: usize,
    bridge_present: bool,
    pid: i32,
    ns_id: String,
}

impl View for Launch {
    type V = LaunchView;

    closed spec fn view(&self) -> LaunchView {
        LaunchView {
            request: self.request@,
            host: self.veth.host@,
            peer: self.veth.peer@,
            phase: self.phase,
            step: self.step as nat,
            bridge_present: self.bridge_present,
            pid: self.pid as int,
            ns_id: self.ns_id@,
        }
    }
}

impl Launch {
    /// An action is pending in every phase but the terminal ones.
    #[verifier::type_invariant]
    pub open spec fn inv(self) -> bool {
        self@.consistent()
    }

    /// The launch of `request` before anything is done, with `veth` as the
    /// names of the veth pair to create if networking is requested.
    pub fn new(request: LaunchRequest, veth: VethPair) -> (launch: Launch)
        ensures
            launch@ == initial(request@, veth.host@, veth.peer@),
            launch@.consistent(),
    {
        proof {
            use_type_invariant(&request);
        }
        let stage = if request.networked() {
            ParentStage::ProbeBridge
        } else {
            ParentStage::CreateBarrier
        };
        Launch {
            request,
            veth,
            phase: Phase::Parent(stage),
            step: 0,
            bridge_present: false,
            pid: 0,
            ns_id: String::new(),
        }
    }

    /// The launch of `request` before anything is done. Where networking is
    /// requested the names of the veth pair are drawn at random.
    pub fn begin(request: LaunchRequest) -> (launch: Launch)
        ensures
            launch@ == initial(request@, launch@.host, launch@.peer),
            launch@.consistent(),
            request@.networked() ==> is_veth_name(launch@.host) && is_veth_name(launch@.peer),
            !request@.networked() ==> launch@.host.len() == 0 && launch@.peer.len() == 0,
    {
        let veth = if request.networked() {
            create_veth()
        } else {
            VethPair { host: String::new(), peer: String::new() }
        };
        Launch::new(request, veth)
    }

    /// The request that is being launched.
    pub fn request(&self) -> (request: &LaunchRequest)
        ensures
            request@ == self@.request,
    {
        &self.request
    }

    /// The names of the veth pair.
    pub fn veth(&self) -> (veth: &VethPair)
        ensures
            veth.host@ == self@.host,
            veth.peer@ == self@.peer,
    {
        &self.veth
    }

    /// Where the launch stands.
    pub fn phase(&self) -> (phase: Phase)
        ensures
            phase == self@.phase,
    {
        self.phase
    }

    /// The child's process id; zero before the fork, and in the child.
    pub fn pid(&self) -> (pid: i32)
        ensures
            pid == self@.pid,
    {
        self.pid
    }

    /// The child's network namespace; empty until it has been found.
    pub fn ns_id(&self) -> (ns_id: &str)
        ensures
            ns_id@ == self@.ns_id,
    {
        self.ns_id.as_str()
    }

    /// Whether the launch has succeeded: the child has been waited for and the
    /// teardown attempted. The child's own exit code plays no part.
    pub fn finished(&self) -> (finished: bool)
        ensures
            finished == (self@.phase == Phase::Parent(ParentStage::Finished)),
    {
        match self.phase {
            Phase::Parent(ParentStage::Finished) => true,
            _ => false,
        }
    }

    /// The exit status of the launching process: zero once the launch is
    /// finished, none before.
    pub fn exit_status(&self) -> (status: Option<i32>)
        ensures
            status == if self@.phase == Phase::Parent(ParentStage::Finished) {
                Some(0i32)
            } else {
                None
            },
    {
        if self.finished() {
            Some(0)
        } else {
            None
        }
    }

    /// The actions of `stage` of the launching process.
    fn parent_actions(&self, stage: ParentStage) -> (plan: Vec<Action>)
        ensures
            actions(plan@) == parent_plan(self@, stage),
    {
        let mut plan: Vec<Action> = Vec::new();
        match stage {
            ParentStage::ProbeBridge => {
                push_run(&mut plan, bridge_probe());
            },
            ParentStage::InitBridge => {
                append_runs(&mut plan, init_bridge(self.bridge_present));
            },
            ParentStage::CreateBarrier => {
                push_call(&mut plan, Syscall::Pipe);
            },
            ParentStage::UnsharePid => {
                push_call(&mut plan, Syscall::Unshare { namespaces: pid_namespace() });
            },
            ParentStage::Fork => {
                push_call(&mut plan, Syscall::Fork);
            },
            ParentStage::AwaitBarrier => {
                push_call(&mut plan, Syscall::CloseBarrier { end: BarrierEnd::Write });
                push_call(&mut plan, Syscall::AwaitBarrier);
            },
            ParentStage::FindNamespace => {
                push_run(&mut plan, find_ns_net(self.pid));
            },
            ParentStage::RegisterNamespace => {
                push_run(&mut plan, put_netns(self.pid, self.ns_id.as_str()));
            },
            ParentStage::CreateVeth => {
                push_run(&mut plan, create_veth_command(&self.veth));
            },
            ParentStage::ConfigurePeer => {
                let address = match self.request.address() {
                    Some(a) => a,
                    None => {
                        proof {
                            reveal_strlit("");
                            assert(""@ =~= Seq::<char>::empty());
                        }
                        ""
                    },
                };
                append_runs(
                    &mut plan,
                    link_veth_to_ns(self.veth.peer.as_str(), self.ns_id.as_str(), address),
                );
            },
            ParentStage::AttachHost => {
                append_runs(&mut plan, link_veth_to_bridge(self.veth.host.as_str()));
            },
            ParentStage::ReleaseNamespace => {
                push_run(&mut plan, release_netns(self.ns_id.as_str()));
            },
            ParentStage::AwaitChild => {
                push_call(&mut plan, Syscall::Wait { pid: self.pid });
            },
            ParentStage::CleanUp => {
                push_call(&mut plan, Syscall::Rmdir { path: self.request.old_root_marker() });
                push_call(
                    &mut plan,
                    Syscall::Unmount { target: String::from_str(self.request.root()), options: 0 },
                );
            },
            ParentStage::Finished => {},
        }
        plan
    }

    /// The actions by which the child leaves `state`.
    fn child_actions(&self, state: ChildState) -> (plan: Vec<Action>)
        ensures
            actions(plan@) == child_plan(self@.request, state),
    {
        let mut plan: Vec<Action> = Vec::new();
        match state {
            ChildState::Forked => {
                push_call(&mut plan, Syscall::CloseBarrier { end: BarrierEnd::Read });
                push_call(
                    &mut plan,
                    Syscall::Mount {
                        source: String::from_str(self.request.root()),
                        target: String::from_str(self.request.root()),
                        fstype: String::from_str(""),
                        flags: bind_private_flags(),
                        data: String::from_str(""),
                    },
                );
            },
            ChildState::RootBindIsolated => {
                push_call(
                    &mut plan,
                    Syscall::Mkdir { path: self.request.old_root_marker(), mode: MARKER_MODE },
                );
            },
            ChildState::OldRootMarkerCreated => {
                push_call(&mut plan, Syscall::Unshare { namespaces: child_namespaces() });
            },
            ChildState::NamespacesUnshared => {
                push_call(&mut plan, Syscall::SignalBarrier);
                push_call(&mut plan, Syscall::CloseBarrier { end: BarrierEnd::Write });
            },
            ChildState::BarrierSignaled => {
                push_call(
                    &mut plan,
                    Syscall::PivotRoot {
                        new_root: String::from_str(self.request.root()),
                        put_old: self.request.old_root_marker(),
                    },
                );
            },
            ChildState::RootPivoted => {
                push_call(&mut plan, Syscall::Chdir { path: String::from_str("/") });
                append_calls(&mut plan, pseudo_filesystems());
            },
            ChildState::PseudoFsMounted => {
                push_call(
                    &mut plan,
                    Syscall::Mount {
                        source: String::from_str(""),
                        target: String::from_str("/.old_root"),
                        fstype: String::from_str(""),
                        flags: slave_flags(),
                        data: String::from_str(""),
                    },
                );
            },
            ChildState::PropagationIsolated => {
                push_call(
                    &mut plan,
                    Syscall::Unmount {
                        target: String::from_str("/.old_root"),
                        options: detach_flags(),
                    },
                );
                push_call(&mut plan, Syscall::Rmdir { path: String::from_str("/.old_root") });
            },
            ChildState::OldRootUnmounted => {
                push_call(
                    &mut plan,
                    Syscall::Exec {
                        program: String::from_str(self.request.command()),
                        argv: self.request.argv(),
                    },
                );
            },
            ChildState::Execd => {},
        }
        plan
    }

    /// The actions of the phase in which the launch stands, in order.
    pub fn plan(&self) -> (plan: Vec<Action>)
        ensures
            actions(plan@) == plan_of(self@),
    {
        match self.phase {
            Phase::Parent(stage) => self.parent_actions(stage),
            Phase::Child(state) => self.child_actions(state),
        }
    }

    /// The action that the caller has to perform next. There is one unless
    /// the launch is finished, and what it hands to the kernel holds no NUL.
    pub fn pending(&self) -> (action: Option<Action>)
        ensures
            opt_action(action) == pending_action(self@),
            action is None <==> terminal(self@.phase),
            action matches Some(a) ==> a@.nul_free(),
    {
        proof {
            use_type_invariant(self);
            lemma_kernel_texts_nul_free(self@);
        }
        let mut plan = self.plan();
        if self.step < plan.len() {
            let action = plan.remove(self.step);
            Some(action)
        } else {
            None
        }
    }

    /// The fault that a failure of `action` is in the current phase.
    fn classify(&self, action: Action, event: &Event) -> (fault: Fault)
        ensures
            fault@ == fault_of(self@.phase, action@, event@),
    {
        match action {
            Action::Run(line) => {
                let message = match event {
                    Event::Exited(outcome) => outcome.stderr.clone(),
                    Event::NotStarted(reason) => reason.clone(),
                    Event::Returned(_) => String::new(),
                };
                Fault::Backend(line, message)
            },
            Action::Call(call) => {
                let is_exec = match &call {
                    Syscall::Exec { .. } => true,
                    _ => false,
                };
                let in_cleanup = match self.phase {
                    Phase::Parent(ParentStage::CleanUp) => true,
                    _ => false,
                };
                if is_exec {
                    Fault::Exec(call)
                } else if in_cleanup {
                    Fault::Cleanup(call)
                } else {
                    Fault::Setup(call)
                }
            },
        }
    }

    /// Tells whether the exit status of the pending command is not held
    /// against it.
    fn is_lenient(&self) -> (held_back: bool)
        ensures
            held_back == lenient(self@),
    {
        match self.phase {
            Phase::Parent(ParentStage::ProbeBridge) => true,
            Phase::Parent(ParentStage::InitBridge) => init_bridge_tolerates(
                self.bridge_present,
                self.step,
            ),
            _ => false,
        }
    }

    /// Judges what the caller reports of the pending action: `None` where the
    /// launch can count it as done, else the fault by its kind.
    pub fn judge(&self, event: &Event) -> (fault: Option<Fault>)
        ensures
            opt_fault(fault) == judged(self@, event@),
    {
        match self.pending() {
            None => None,
            Some(action) => {
                let exited = match event {
                    Event::Exited(_) => true,
                    _ => false,
                };
                if action_succeeded(&action, event) || (self.is_lenient() && exited) {
                    None
                } else {
                    Some(self.classify(action, event))
                }
            },
        }
    }

    /// The launch after the pending action is done with.
    fn proceed(self, event: Event) -> (next: Launch)
        requires
            judged(self@, event@) matches Some(fault) ==> !fault.fatal(),
        ensures
            next@ == next_view(self@, event@),
    {
        proof {
            use_type_invariant(&self);
            use_type_invariant(&self.request);
        }
        let length = self.plan().len();
        if self.step >= length {
            self
        } else if self.step + 1 < length {
            Launch { step: self.step + 1, ..self }
        } else {
            match self.phase {
                Phase::Parent(ParentStage::ProbeBridge) => {
                    let present = match &event {
                        Event::Exited(outcome) => outcome.success,
                        _ => false,
                    };
                    Launch {
                        phase: Phase::Parent(ParentStage::InitBridge),
                        step: 0,
                        bridge_present: present,
                        ..self
                    }
                },
                Phase::Parent(ParentStage::Fork) => {
                    let value: i64 = match &event {
                        Event::Returned(value) => *value,
                        _ => 0,
                    };
                    if value == 0 {
                        Launch { phase: Phase::Child(ChildState::Forked), step: 0, ..self }
                    } else {
                        Launch {
                            phase: Phase::Parent(ParentStage::AwaitBarrier),
                            step: 0,
                            pid: value as i32,
                            ..self
                        }
                    }
                },
                Phase::Parent(ParentStage::FindNamespace) => {
                    let ns_id = match &event {
                        Event::Exited(outcome) => namespace_id(outcome.stdout.as_str()),
                        _ => String::new(),
                    };
                    Launch {
                        phase: Phase::Parent(ParentStage::RegisterNamespace),
                        step: 0,
                        ns_id,
                        ..self
                    }
                },
                Phase::Parent(stage) => {
                    let next = parent_stage_after(stage, self.request.networked());
                    Launch { phase: Phase::Parent(next), step: 0, ..self }
                },
                Phase::Child(state) => {
                    Launch { phase: Phase::Child(child_state_after(state)), step: 0, ..self }
                },
            }
        }
    }

    /// Takes the caller's report on the pending action and moves on: one step
    /// further, or into the next phase. A fatal fault ends the launch and is
    /// returned. A failure during the final teardown does not stop it, nor
    /// does a bridge probe or a bridge creation that ran and exited with a
    /// failure.
    pub fn advance(self, event: Event) -> (result: Result<Launch, Fault>)
        ensures
            match result {
                Ok(next) => advanced(self@, event@) == Ok::<LaunchView, FaultView>(next@),
                Err(fault) => advanced(self@, event@) == Err::<LaunchView, FaultView>(fault@),
            },
    {
        match self.judge(&event) {
            Some(fault) => {
                if fault.is_fatal() {
                    Err(fault)
                } else {
                    Ok(self.proceed(event))
                }
            },
            None => Ok(self.proceed(event)),
        }
    }
}

/// The state that the child reaches when it has left `state`.
pub fn child_state_after(state: ChildState) -> (next: ChildState)
    ensures
        next == child_successor(state),
{
    match state {
        ChildState::Forked => ChildState::RootBindIsolated,
        ChildState::RootBindIsolated => ChildState::OldRootMarkerCreated,
        ChildState::OldRootMarkerCreated => ChildState::NamespacesUnshared,
        ChildState::NamespacesUnshared => ChildState::BarrierSignaled,
        ChildState::BarrierSignaled => ChildState::RootPivoted,
        ChildState::RootPivoted => ChildState::PseudoFsMounted,
        ChildState::PseudoFsMounted => ChildState::PropagationIsolated,
        ChildState::PropagationIsolated => ChildState::OldRootUnmounted,
        ChildState::OldRootUnmounted => ChildState::Execd,
        ChildState::Execd => ChildState::Execd,
    }
}

/// The stage that follows `stage` in the launching process.
pub fn parent_stage_after(stage: ParentStage, networked: bool) -> (next: ParentStage)
    ensures
        next == parent_successor(stage, networked),
{
    match stage {
        ParentStage::ProbeBridge => ParentStage::InitBridge,
        ParentStage::InitBridge => ParentStage::CreateBarrier,
        ParentStage::CreateBarrier => ParentStage::UnsharePid,
        ParentStage::UnsharePid => ParentStage::Fork,
        ParentStage::Fork => ParentStage::AwaitBarrier,
        ParentStage::AwaitBarrier => if networked {
            ParentStage::FindNamespace
        } else {
            ParentStage::AwaitChild
        },
        ParentStage::FindNamespace => ParentStage::RegisterNamespace,
        ParentStage::RegisterNamespace => ParentStage::CreateVeth,
        ParentStage::CreateVeth => ParentStage::ConfigurePeer,
        ParentStage::ConfigurePeer => ParentStage::AttachHost,
        ParentStage::AttachHost => ParentStage::ReleaseNamespace,
        ParentStage::ReleaseNamespace => ParentStage::AwaitChild,
        ParentStage::AwaitChild => ParentStage::CleanUp,
        ParentStage::CleanUp => ParentStage::Finished,
        ParentStage::Finished => ParentStage::Finished,
    }
}

} // verus!
