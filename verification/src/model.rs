//! An idealised network backend, and what holds of the launch's commands
//! when they are run against it: making the shared bridge active works
//! whatever other launches do meanwhile, and releasing a namespace's name
//! twice is as good as once.
//!
//! The model says how a backend that works answers. It is a yardstick for
//! the order of the commands and for which failures are let pass, not a claim
//! about any real backend.

use crate::command::CommandLineView;
use crate::event::{runs, ActionView, EventView, FaultView};
use crate::launch::{
    advanced, exited_well, message_of, pending_action, plan_of, LaunchView, ParentStage, Phase,
};
use crate::network::{
    bridge_create_line, bridge_probe_line, creation_may_fail, init_bridge_plan,
    release_netns_line, up_dev_line, BRIDGE_NAME,
};
use vstd::prelude::*;

verus! {

/// The bridge device as the backend sees it.
pub struct BridgeDevice {
    pub present: bool,
    pub active: bool,
}

/// How an idealised backend answers `line`, and what it leaves behind. The
/// probe succeeds on a present bridge and changes nothing. Creation succeeds
/// on an absent bridge and leaves it present and inactive; on a present one
/// it fails. Activation succeeds on a present bridge and leaves it active.
/// Anything else fails and changes nothing.
pub open spec fn answer(device: BridgeDevice, line: CommandLineView) -> (BridgeDevice, bool) {
    if line == bridge_probe_line() {
        (device, device.present)
    } else if line == bridge_create_line() {
        if device.present {
            (device, false)
        } else {
            (BridgeDevice { present: true, active: false }, true)
        }
    } else if line == up_dev_line(BRIDGE_NAME@) {
        if device.present {
            (BridgeDevice { present: true, active: true }, true)
        } else {
            (device, false)
        }
    } else {
        (device, false)
    }
}

/// What other launches may have made of the bridge between two commands of
/// this one: they create and activate, they never remove.
pub open spec fn may_follow(before: BridgeDevice, after: BridgeDevice) -> bool {
    before.present ==> after.present
}

/// Runs the commands of `init_bridge_plan(present)` from the one at `from`
/// against the idealised backend. A command that fails stops the run, unless
/// it is the creation, whose failure is let pass.
pub open spec fn carry_out(device: BridgeDevice, present: bool, from: int) -> (BridgeDevice, bool)
    decreases init_bridge_plan(present).len() - from,
{
    let plan = init_bridge_plan(present);
    if from < 0 || from >= plan.len() {
        (device, true)
    } else {
        let (after, ok) = answer(device, plan[from]);
        if ok || creation_may_fail(present, from) {
            carry_out(after, present, from + 1)
        } else {
            (after, false)
        }
    }
}

/// One round of making the bridge active: the probe on `device`, then the
/// plan that the probe's answer calls for, run on what other launches have
/// made of the bridge meanwhile.
pub open spec fn ensure_bridge_active(device: BridgeDevice, meanwhile: BridgeDevice) -> (
    BridgeDevice,
    bool,
) {
    let present = answer(device, bridge_probe_line()).1;
    carry_out(meanwhile, present, 0)
}

/// The three bridge commands are three different command lines.
pub proof fn lemma_bridge_lines_differ()
    ensures
        bridge_probe_line() != bridge_create_line(),
        bridge_probe_line() != up_dev_line(BRIDGE_NAME@),
        bridge_create_line() != up_dev_line(BRIDGE_NAME@),
{
    assert(bridge_probe_line().args.len() == 4);
    reveal_strlit("add");
    reveal_strlit("set");
    assert("add"@[0] != "set"@[0]);
}

/// Making the bridge active succeeds and leaves the bridge present and
/// active, whatever its state before, and whatever other launches have
/// created or activated between the probe and the command after it: a bridge
/// that appears after a failed probe makes the creation fail, and that
/// failure is let pass.
pub proof fn bridge_activation_survives_a_race(device: BridgeDevice, meanwhile: BridgeDevice)
    requires
        may_follow(device, meanwhile),
    ensures
        ({
            let (after, ok) = ensure_bridge_active(device, meanwhile);
            ok && after.present && after.active
        }),
{
    lemma_bridge_lines_differ();
    reveal_with_fuel(carry_out, 3);
}

/// Making the bridge active twice in a row succeeds both times and leaves the
/// bridge present and active both times, whatever its state before: the
/// second round finds the bridge present and only brings it up.
pub proof fn bridge_activation_is_idempotent(device: BridgeDevice)
    ensures
        ({
            let (first, first_ok) = ensure_bridge_active(device, device);
            let (second, second_ok) = ensure_bridge_active(first, first);
            &&& first_ok
            &&& first.present
            &&& first.active
            &&& second_ok
            &&& second.present
            &&& second.active
            &&& answer(first, bridge_probe_line()).1
        }),
{
    bridge_activation_survives_a_race(device, device);
    let first = ensure_bridge_active(device, device).0;
    bridge_activation_survives_a_race(first, first);
    lemma_bridge_lines_differ();
}

/// The launch starts with the probe. A probe that ran and exited tells by its
/// exit status whether the bridge is present, and the launch asks next for
/// the commands that this calls for. A probe that could not be started stops
/// the launch with a backend fault.
pub proof fn launch_probes_then_initialises(v: LaunchView, event: EventView)
    requires
        v.phase == Phase::Parent(ParentStage::ProbeBridge),
        v.step == 0,
    ensures
        pending_action(v) == Some(ActionView::Run(bridge_probe_line())),
        event is Exited ==> (advanced(v, event) matches Ok(next) && next.phase == Phase::Parent(
            ParentStage::InitBridge,
        ) && next.step == 0 && plan_of(next) == runs(init_bridge_plan(exited_well(event)))),
        !(event is Exited) ==> advanced(v, event) == Err::<LaunchView, FaultView>(
            FaultView::Backend(bridge_probe_line(), message_of(event)),
        ),
{
}

/// Where the probe found no bridge, a creation that ran and exited with a
/// failure does not stop the launch: the bridge is brought up next, as after
/// a creation that succeeded. A creation that could not be started stops the
/// launch with a backend fault.
pub proof fn failed_creation_is_let_pass(v: LaunchView, event: EventView)
    requires
        v.phase == Phase::Parent(ParentStage::InitBridge),
        !v.bridge_present,
        v.step == 0,
    ensures
        pending_action(v) == Some(ActionView::Run(bridge_create_line())),
        event is Exited ==> (advanced(v, event) matches Ok(next) && next.phase == v.phase
            && next.step == 1 && pending_action(next) == Some(
            ActionView::Run(up_dev_line(BRIDGE_NAME@)),
        )),
        !(event is Exited) ==> advanced(v, event) == Err::<LaunchView, FaultView>(
            FaultView::Backend(bridge_create_line(), message_of(event)),
        ),
{
}

/// The activation of the bridge must succeed: any other report on it stops
/// the launch with a backend fault.
pub proof fn failed_activation_stops_the_launch(v: LaunchView, event: EventView)
    requires
        v.phase == Phase::Parent(ParentStage::InitBridge),
        pending_action(v) == Some(ActionView::Run(up_dev_line(BRIDGE_NAME@))),
    ensures
        advanced(v, event) is Ok <==> exited_well(event),
        !exited_well(event) ==> advanced(v, event) == Err::<LaunchView, FaultView>(
            FaultView::Backend(up_dev_line(BRIDGE_NAME@), message_of(event)),
        ),
{
    lemma_bridge_lines_differ();
}

/// How an idealised backend answers the release of the name `ns_id`, given
/// the names that are registered: the name is gone afterwards, and the
/// command succeeds whether or not the name was there.
pub open spec fn answer_release(registered: Set<Seq<char>>, line: CommandLineView, ns_id: Seq<char>) -> (
    Set<Seq<char>>,
    bool,
) {
    if line == release_netns_line(ns_id) {
        (registered.remove(ns_id), true)
    } else {
        (registered, false)
    }
}

/// Releasing a name is idempotent: it succeeds on a name that is not
/// registered and changes nothing then, so that a second release in a row
/// succeeds and leaves what the first has left.
pub proof fn release_is_idempotent(registered: Set<Seq<char>>, ns_id: Seq<char>)
    ensures
        ({
            let line = release_netns_line(ns_id);
            let (first, first_ok) = answer_release(registered, line, ns_id);
            let (second, second_ok) = answer_release(first, line, ns_id);
            &&& first_ok
            &&& second_ok
            &&& !first.contains(ns_id)
            &&& second == first
            &&& !registered.contains(ns_id) ==> first == registered
        }),
{
    let first = registered.remove(ns_id);
    assert(first.remove(ns_id) =~= first);
    if !registered.contains(ns_id) {
        assert(first =~= registered);
    }
}

} // verus!
