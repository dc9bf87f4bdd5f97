//! What holds of every launch: the order in which the child takes its steps,
//! where the barrier is signalled and observed, and what has happened to the
//! old root by the time the command is executed.
//!
//! The statements speak of the actions that the launch asks for. That the
//! kernel does what an action names is not stated here.

use crate::event::{succeeded, ActionView, EventView, FaultView};
use crate::launch::{
    advanced, child_plan, child_successor, judged, next_view, parent_successor, pending_action,
    pivoted_marker, ChildState, LaunchView, ParentStage, Phase,
};
use crate::request::{argv_of, marker_of, RequestView};
use crate::syscall::{
    pseudo_filesystem_mounts, BarrierEnd, SyscallView, BIND_PRIVATE_FLAGS, CHILD_NAMESPACES,
    DETACH_FLAGS, MARKER_MODE, PID_NAMESPACE, SLAVE_FLAGS,
};
use vstd::prelude::*;

verus! {

/// Everything the child does between the fork and the exec, in order.
pub open spec fn child_script(request: RequestView) -> Seq<ActionView> {
    child_plan(request, ChildState::Forked) + child_plan(request, ChildState::RootBindIsolated)
        + child_plan(request, ChildState::OldRootMarkerCreated) + child_plan(
        request,
        ChildState::NamespacesUnshared,
    ) + child_plan(request, ChildState::BarrierSignaled) + child_plan(
        request,
        ChildState::RootPivoted,
    ) + child_plan(request, ChildState::PseudoFsMounted) + child_plan(
        request,
        ChildState::PropagationIsolated,
    ) + child_plan(request, ChildState::OldRootUnmounted)
}

/// The number of actions that the child has behind it when it enters `state`.
pub open spec fn child_offset(state: ChildState) -> int {
    match state {
        ChildState::Forked => 0,
        ChildState::RootBindIsolated => 2,
        ChildState::OldRootMarkerCreated => 3,
        ChildState::NamespacesUnshared => 4,
        ChildState::BarrierSignaled => 6,
        ChildState::RootPivoted => 7,
        ChildState::PseudoFsMounted => 11,
        ChildState::PropagationIsolated => 12,
        ChildState::OldRootUnmounted => 14,
        ChildState::Execd => 15,
    }
}

/// The number of actions in the child's script.
pub open spec fn child_script_len() -> int {
    15
}

/// The launch that `events` lead to from `v`, or the fault at which it
/// stopped.
pub open spec fn run(v: LaunchView, events: Seq<EventView>) -> Result<LaunchView, FaultView>
    decreases events.len(),
{
    if events.len() == 0 {
        Ok(v)
    } else {
        match advanced(v, events.first()) {
            Ok(next) => run(next, events.drop_first()),
            Err(fault) => Err(fault),
        }
    }
}

/// Whether the report `events[i]` tells of the success of the action that
/// the child takes `i` actions after its first `done`.
pub open spec fn reports_success(
    request: RequestView,
    done: int,
    events: Seq<EventView>,
    i: int,
) -> bool {
    done + i < child_script_len() && succeeded(child_script(request)[done + i], events[i])
}

/// Whether `v` stands in the child, `done` actions after the fork, with the
/// next one pending.
pub open spec fn child_at(v: LaunchView, done: int) -> bool {
    &&& v.phase matches Phase::Child(state)
    &&& state != ChildState::Execd
    &&& v.step < child_plan(v.request, state).len()
    &&& done == child_offset(state) + v.step
}

/// The script is the plans of the child's states one after the other: the
/// action at `step` of `state` stands at `child_offset(state) + step`.
pub proof fn lemma_script_index(request: RequestView, state: ChildState, step: int)
    requires
        state != ChildState::Execd,
        0 <= step < child_plan(request, state).len(),
    ensures
        child_script(request).len() == child_script_len(),
        child_offset(state) + step < child_script_len(),
        child_script(request)[child_offset(state) + step] == child_plan(request, state)[step],
        child_offset(child_successor(state)) == child_offset(state) + child_plan(
            request,
            state,
        ).len(),
{
}

/// As long as every report tells of success, the child takes the actions of
/// its script one after the other.
pub proof fn lemma_child_follows_script(v: LaunchView, done: int, events: Seq<EventView>)
    requires
        child_at(v, done),
        forall|i: int|
            0 <= i < events.len() ==> #[trigger] reports_success(v.request, done, events, i),
    ensures
        run(v, events) matches Ok(next) && next.request == v.request && child_at(
            next,
            done + events.len(),
        ) && pending_action(next) == Some(child_script(v.request)[done + events.len()]),
    decreases events.len(),
{
    let state = v.phase->Child_0;
    lemma_script_index(v.request, state, v.step as int);
    if events.len() > 0 {
        assert(reports_success(v.request, done, events, 0));
        let next = next_view(v, events.first());
        let rest = events.drop_first();
        assert forall|i: int| 0 <= i < rest.len() implies #[trigger] reports_success(
            next.request,
            done + 1,
            rest,
            i,
        ) by {
            assert(reports_success(v.request, done, events, i + 1));
        }
        lemma_child_follows_script(next, done + 1, rest);
    }
}

/// The exec of the requested command with the requested argument vector.
pub open spec fn exec_of(request: RequestView) -> ActionView {
    ActionView::Call(
        SyscallView::Exec {
            program: request.command,
            argv: argv_of(request.command, request.args),
        },
    )
}

/// The child's steps, written out: close the barrier's read end; bind-mount
/// the root onto itself, recursively and privately; create the old-root
/// marker; unshare the mount and network namespaces; write the barrier token
/// and close the write end; pivot the root; change to the new root; mount
/// `/proc`, `/sys` and `/dev`; make the old root a recursive slave; detach it
/// and remove its directory; execute the command.
pub open spec fn child_steps(request: RequestView) -> Seq<ActionView> {
    seq![
        ActionView::Call(SyscallView::CloseBarrier { end: BarrierEnd::Read }),
        ActionView::Call(
            SyscallView::Mount {
                source: request.root,
                target: request.root,
                fstype: ""@,
                flags: BIND_PRIVATE_FLAGS as int,
                data: ""@,
            },
        ),
        ActionView::Call(
            SyscallView::Mkdir { path: marker_of(request.root), mode: MARKER_MODE as int },
        ),
        ActionView::Call(SyscallView::Unshare { namespaces: CHILD_NAMESPACES as int }),
        ActionView::Call(SyscallView::SignalBarrier),
        ActionView::Call(SyscallView::CloseBarrier { end: BarrierEnd::Write }),
        ActionView::Call(
            SyscallView::PivotRoot { new_root: request.root, put_old: marker_of(request.root) },
        ),
        ActionView::Call(SyscallView::Chdir { path: "/"@ }),
        ActionView::Call(pseudo_filesystem_mounts()[0]),
        ActionView::Call(pseudo_filesystem_mounts()[1]),
        ActionView::Call(pseudo_filesystem_mounts()[2]),
        ActionView::Call(
            SyscallView::Mount {
                source: ""@,
                target: pivoted_marker(),
                fstype: ""@,
                flags: SLAVE_FLAGS as int,
                data: ""@,
            },
        ),
        ActionView::Call(
            SyscallView::Unmount { target: pivoted_marker(), options: DETACH_FLAGS as int },
        ),
        ActionView::Call(SyscallView::Rmdir { path: pivoted_marker() }),
        exec_of(request),
    ]
}

/// The plans of the child's states, one after the other, are the steps
/// written out above.
pub proof fn lemma_child_script_written_out(request: RequestView)
    ensures
        child_script(request) == child_steps(request),
{
    lemma_script_index(request, ChildState::Forked, 0);
    lemma_script_index(request, ChildState::Forked, 1);
    lemma_script_index(request, ChildState::RootBindIsolated, 0);
    lemma_script_index(request, ChildState::OldRootMarkerCreated, 0);
    lemma_script_index(request, ChildState::NamespacesUnshared, 0);
    lemma_script_index(request, ChildState::NamespacesUnshared, 1);
    lemma_script_index(request, ChildState::BarrierSignaled, 0);
    lemma_script_index(request, ChildState::RootPivoted, 0);
    lemma_script_index(request, ChildState::RootPivoted, 1);
    lemma_script_index(request, ChildState::RootPivoted, 2);
    lemma_script_index(request, ChildState::RootPivoted, 3);
    lemma_script_index(request, ChildState::PseudoFsMounted, 0);
    lemma_script_index(request, ChildState::PropagationIsolated, 0);
    lemma_script_index(request, ChildState::PropagationIsolated, 1);
    lemma_script_index(request, ChildState::OldRootUnmounted, 0);
}

/// Whether `action` is an exec.
pub open spec fn is_exec(action: ActionView) -> bool {
    action matches ActionView::Call(call) && call is Exec
}

/// Whether `action` mounts or unmounts.
pub open spec fn touches_mounts(action: ActionView) -> bool {
    action matches ActionView::Call(call) && (call is Mount || call is Unmount)
}

/// Whether `v` stands in the child right after the fork.
pub open spec fn child_start(v: LaunchView) -> bool {
    v.phase == Phase::Child(ChildState::Forked) && v.step == 0
}

/// A run over `events` is the run over the first `count` of them, continued
/// over the rest.
pub proof fn lemma_run_split(v: LaunchView, events: Seq<EventView>, count: int)
    requires
        0 <= count <= events.len(),
    ensures
        run(v, events) == match run(v, events.take(count)) {
            Ok(middle) => run(middle, events.skip(count)),
            Err(fault) => Err::<LaunchView, FaultView>(fault),
        },
    decreases count,
{
    if count == 0 {
        assert(events.skip(0) =~= events);
    } else {
        let head = events.take(count);
        assert(head.drop_first() =~= events.drop_first().take(count - 1));
        assert(events.drop_first().skip(count - 1) =~= events.skip(count));
        match advanced(v, events.first()) {
            Ok(next) => {
                lemma_run_split(next, events.drop_first(), count - 1);
            },
            Err(_) => {},
        }
    }
}

/// If every step that the child takes after the fork succeeds, the one action
/// left is the exec of the requested command with the requested argument
/// vector, and nothing before it was an exec.
pub proof fn child_executes_the_request(v: LaunchView, events: Seq<EventView>)
    requires
        child_start(v),
        events.len() == child_script_len() - 1,
        forall|i: int| 0 <= i < events.len() ==> #[trigger] reports_success(v.request, 0, events, i),
    ensures
        run(v, events) matches Ok(last) && last.phase == Phase::Child(
            ChildState::OldRootUnmounted,
        ) && pending_action(last) == Some(exec_of(v.request)),
        forall|i: int| 0 <= i < events.len() ==> !is_exec(#[trigger] child_script(v.request)[i]),
{
    lemma_child_follows_script(v, 0, events);
    lemma_child_script_written_out(v.request);
}

/// The exec is the end of the launch code in the child: whatever is reported
/// of it, the launch stops with an exec fault.
pub proof fn exec_never_returns_into_the_launch(v: LaunchView, event: EventView)
    requires
        pending_action(v) == Some(exec_of(v.request)),
    ensures
        advanced(v, event) == Err::<LaunchView, FaultView>(
            FaultView::Exec(
                SyscallView::Exec {
                    program: v.request.command,
                    argv: argv_of(v.request.command, v.request.args),
                },
            ),
        ),
{
}

/// The child stops at the first step that is not reported as a success, with
/// the fault of that step: a setup fault, or an exec fault for the last.
pub proof fn child_stops_at_first_failure(v: LaunchView, events: Seq<EventView>, failing: int)
    requires
        child_start(v),
        0 <= failing < events.len(),
        failing < child_script_len(),
        forall|i: int| 0 <= i < failing ==> #[trigger] reports_success(v.request, 0, events, i),
        !succeeded(child_script(v.request)[failing], events[failing]),
    ensures
        child_script(v.request)[failing] matches ActionView::Call(call) && run(v, events) == Err::<
            LaunchView,
            FaultView,
        >(if call is Exec {
            FaultView::Exec(call)
        } else {
            FaultView::Setup(call)
        }),
{
    let head = events.take(failing);
    assert forall|i: int| 0 <= i < head.len() implies #[trigger] reports_success(
        v.request,
        0,
        head,
        i,
    ) by {
        assert(reports_success(v.request, 0, events, i));
    }
    lemma_child_follows_script(v, 0, head);
    lemma_run_split(v, events, failing);
    lemma_child_script_written_out(v.request);
}

/// The fork is taken right after the process-id namespace has been unshared,
/// and nowhere else: the child becomes the first process of that namespace.
pub proof fn fork_follows_pid_unshare(v: LaunchView, event: EventView, next: LaunchView)
    requires
        advanced(v, event) == Ok::<LaunchView, FaultView>(next),
        pending_action(next) == Some(ActionView::Call(SyscallView::Fork)),
    ensures
        pending_action(v) == Some(
            ActionView::Call(SyscallView::Unshare { namespaces: PID_NAMESPACE as int }),
        ),
        event == EventView::Returned(0),
{
}

/// A launch turns into the child's side only where the fork has returned
/// zero, and then stands at the child's first step.
pub proof fn child_starts_at_fork(v: LaunchView, event: EventView, next: LaunchView)
    requires
        advanced(v, event) == Ok::<LaunchView, FaultView>(next),
        v.phase is Parent,
        next.phase is Child,
    ensures
        pending_action(v) == Some(ActionView::Call(SyscallView::Fork)),
        event == EventView::Returned(0),
        child_start(next),
{
}

/// The barrier's token is written in the state in which the namespaces have
/// been unshared, as the first thing there, and nowhere else; the child
/// writes it once.
pub proof fn barrier_signalled_when_namespaces_unshared(v: LaunchView)
    ensures
        pending_action(v) == Some(ActionView::Call(SyscallView::SignalBarrier)) <==> v.phase
            == Phase::Child(ChildState::NamespacesUnshared) && v.step == 0,
        forall|i: int|
            0 <= i < child_script_len() ==> (#[trigger] child_script(v.request)[i]
                == ActionView::Call(SyscallView::SignalBarrier) <==> i == child_offset(
                ChildState::NamespacesUnshared,
            )),
{
    lemma_child_script_written_out(v.request);
}

/// The child reaches the state in which the namespaces are unshared only by
/// the success of the unshare of its mount and network namespaces.
pub proof fn namespaces_unshared_by_unshare(v: LaunchView, event: EventView, next: LaunchView)
    requires
        advanced(v, event) == Ok::<LaunchView, FaultView>(next),
        next.phase == Phase::Child(ChildState::NamespacesUnshared),
        v.phase != next.phase,
    ensures
        pending_action(v) == Some(
            ActionView::Call(SyscallView::Unshare { namespaces: CHILD_NAMESPACES as int }),
        ),
        event == EventView::Returned(0),
        next.step == 0,
{
}

/// The parent goes on past the barrier exactly when its read has brought the
/// one-byte token; any other report stops the launch with a setup fault.
pub proof fn parent_passes_the_barrier_with_the_token(v: LaunchView, event: EventView)
    requires
        pending_action(v) == Some(ActionView::Call(SyscallView::AwaitBarrier)),
    ensures
        advanced(v, event) is Ok <==> event == EventView::Returned(1),
        advanced(v, event) matches Err(fault) ==> fault == FaultView::Setup(
            SyscallView::AwaitBarrier,
        ),
{
}

/// The network attachment starts only after the parent has read the token
/// from the barrier.
pub proof fn attachment_follows_the_barrier(v: LaunchView, event: EventView, next: LaunchView)
    requires
        advanced(v, event) == Ok::<LaunchView, FaultView>(next),
        next.phase == Phase::Parent(ParentStage::FindNamespace),
        v.phase != next.phase,
    ensures
        pending_action(v) == Some(ActionView::Call(SyscallView::AwaitBarrier)),
        event == EventView::Returned(1),
        v.request.networked(),
{
}

/// Between the pivot and the exec the child detaches the old root and removes
/// its directory: the pivot is what leaves the state "barrier signaled", the
/// lazy unmount and the removal are what leave "propagation isolated", and
/// the exec comes after both.
pub proof fn old_root_removed_before_exec(request: RequestView)
    ensures
        child_script(request)[child_offset(ChildState::BarrierSignaled)] == ActionView::Call(
            SyscallView::PivotRoot { new_root: request.root, put_old: marker_of(request.root) },
        ),
        child_script(request)[child_offset(ChildState::PropagationIsolated)]
            == ActionView::Call(
            SyscallView::Unmount { target: pivoted_marker(), options: DETACH_FLAGS as int },
        ),
        child_script(request)[child_offset(ChildState::PropagationIsolated) + 1]
            == ActionView::Call(SyscallView::Rmdir { path: pivoted_marker() }),
        child_script(request)[child_offset(ChildState::OldRootUnmounted)] == exec_of(
            request,
        ),
        child_offset(ChildState::BarrierSignaled) < child_offset(ChildState::PropagationIsolated)
            < child_offset(ChildState::OldRootUnmounted),
{
    lemma_child_script_written_out(request);
}

/// What the child mounts and unmounts stays out of the host's mount table:
/// but for the private bind mount of the root onto itself, every mount and
/// unmount comes after the unshare of the mount namespace; and the old root
/// is detached right after it has been made a recursive slave.
pub proof fn mounts_stay_in_the_child(request: RequestView, i: int)
    requires
        0 <= i < child_script_len(),
        touches_mounts(child_script(request)[i]),
    ensures
        i > child_offset(ChildState::OldRootMarkerCreated) || child_script(request)[i]
            == ActionView::Call(
            SyscallView::Mount {
                source: request.root,
                target: request.root,
                fstype: ""@,
                flags: BIND_PRIVATE_FLAGS as int,
                data: ""@,
            },
        ),
        child_script(request)[child_offset(ChildState::OldRootMarkerCreated)]
            == ActionView::Call(SyscallView::Unshare { namespaces: CHILD_NAMESPACES as int }),
        child_script(request)[child_offset(ChildState::PseudoFsMounted)]
            == ActionView::Call(
            SyscallView::Mount {
                source: ""@,
                target: pivoted_marker(),
                fstype: ""@,
                flags: SLAVE_FLAGS as int,
                data: ""@,
            },
        ),
        child_offset(ChildState::PropagationIsolated) == child_offset(ChildState::PseudoFsMounted)
            + 1,
{
    lemma_child_script_written_out(request);
}

/// The place of a state in the child's path.
pub open spec fn child_rank(state: ChildState) -> nat {
    match state {
        ChildState::Forked => 0,
        ChildState::RootBindIsolated => 1,
        ChildState::OldRootMarkerCreated => 2,
        ChildState::NamespacesUnshared => 3,
        ChildState::BarrierSignaled => 4,
        ChildState::RootPivoted => 5,
        ChildState::PseudoFsMounted => 6,
        ChildState::PropagationIsolated => 7,
        ChildState::OldRootUnmounted => 8,
        ChildState::Execd => 9,
    }
}

/// The child skips no state and never goes back: a step leaves it in its
/// state or takes it to the next one.
pub proof fn child_states_in_order(v: LaunchView, event: EventView, next: LaunchView)
    requires
        v.phase is Child,
        advanced(v, event) == Ok::<LaunchView, FaultView>(next),
    ensures
        next.phase matches Phase::Child(after) && (after == v.phase->Child_0 || child_rank(after)
            == child_rank(v.phase->Child_0) + 1),
        next.request == v.request,
{
}

/// The place of a stage in the parent's path.
pub open spec fn parent_rank(stage: ParentStage) -> nat {
    match stage {
        ParentStage::ProbeBridge => 0,
        ParentStage::InitBridge => 1,
        ParentStage::CreateBarrier => 2,
        ParentStage::UnsharePid => 3,
        ParentStage::Fork => 4,
        ParentStage::AwaitBarrier => 5,
        ParentStage::FindNamespace => 6,
        ParentStage::RegisterNamespace => 7,
        ParentStage::CreateVeth => 8,
        ParentStage::ConfigurePeer => 9,
        ParentStage::AttachHost => 10,
        ParentStage::ReleaseNamespace => 11,
        ParentStage::AwaitChild => 12,
        ParentStage::CleanUp => 13,
        ParentStage::Finished => 14,
    }
}

/// The parent never goes back: a step leaves it in its stage or takes it to
/// the stage that follows. With networking no stage is left out; without it
/// the bridge and the attachment are, and nothing else.
pub proof fn parent_stages_in_order(v: LaunchView, event: EventView, next: LaunchView)
    requires
        v.phase is Parent,
        next.phase is Parent,
        advanced(v, event) == Ok::<LaunchView, FaultView>(next),
    ensures
        next.phase == v.phase || next.phase == Phase::Parent(
            parent_successor(v.phase->Parent_0, v.request.networked()),
        ),
        parent_rank(next.phase->Parent_0) >= parent_rank(v.phase->Parent_0),
        v.request.networked() ==> parent_rank(next.phase->Parent_0) <= parent_rank(
            v.phase->Parent_0,
        ) + 1,
        next.request == v.request,
{
}

/// The parent reads the barrier once: the read is pending as the second step
/// after the fork, when the unused write end has been closed, and nowhere
/// else.
pub proof fn barrier_awaited_once_after_the_fork(v: LaunchView)
    ensures
        pending_action(v) == Some(ActionView::Call(SyscallView::AwaitBarrier)) <==> v.phase
            == Phase::Parent(ParentStage::AwaitBarrier) && v.step == 1,
{
}

/// A launch that is finished has waited for the child and has attempted the
/// teardown: the last stage is entered from the teardown only, whatever the
/// teardown's own steps reported.
pub proof fn finished_after_wait_and_teardown(v: LaunchView, event: EventView, next: LaunchView)
    requires
        advanced(v, event) == Ok::<LaunchView, FaultView>(next),
        next.phase == Phase::Parent(ParentStage::Finished),
        v.phase != next.phase,
    ensures
        v.phase == Phase::Parent(ParentStage::CleanUp),
        v.step == 1,
        pending_action(v) == Some(
            ActionView::Call(SyscallView::Unmount { target: v.request.root, options: 0 }),
        ),
{
}

/// No failure of the teardown stops the launch.
pub proof fn teardown_is_best_effort(v: LaunchView, event: EventView)
    requires
        v.phase == Phase::Parent(ParentStage::CleanUp),
    ensures
        advanced(v, event) is Ok,
        judged(v, event) matches Some(fault) ==> fault is Cleanup,
{
}

/// Nothing is done past a fatal fault: where the report on a pending action
/// is judged a fatal fault, the run ends with that fault, whatever is
/// reported after it.
pub proof fn fatal_fault_ends_the_launch(v: LaunchView, events: Seq<EventView>, at: int)
    requires
        0 <= at < events.len(),
        run(v, events.take(at)) matches Ok(middle) && judged(middle, events[at]) matches Some(
            fault,
        ) && fault.fatal(),
    ensures
        run(v, events) matches Err(fault) && fault.fatal() && judged(
            run(v, events.take(at))->Ok_0,
            events[at],
        ) == Some(fault),
{
    lemma_run_split(v, events, at);
    assert(events.skip(at).first() == events[at]);
}

} // verus!
