//! The network backend's command lines: the shared bridge, the veth pair, the
//! registration of the container's network namespace, and addressing.
//!
//! Every function here only says what is to be run. Running it, and handing
//! the outcome to the launch state machine, is the caller's part.

use crate::command::{lines, push_line, CommandLine, CommandLineView};
use crate::text::{ascii_lower, ascii_lowercase, decimal, decimal_string, trim, trimmed};
use vstd::prelude::*;
use vstd::string::StringExecFns;

verus! {

/// The shared bridge device that every container's host-side veth end joins.
pub const BRIDGE_NAME: &'static str = "runc-rs";

/// The name that the container-side interface bears inside the container.
pub const CONTAINER_IFACE: &'static str = "eth0";

/// The loopback interface.
pub const LOOPBACK_IFACE: &'static str = "lo";

/// The number of random characters at the end of a veth interface name.
pub const SUFFIX_LEN: usize = 6;

/// `ip link set dev <dev> up`.
pub open spec fn up_dev_line(dev: Seq<char>) -> CommandLineView {
    CommandLineView { program: "ip"@, args: seq!["link"@, "set"@, "dev"@, dev, "up"@] }
}

/// `ip netns exec <ns_id> ip link set dev <dev> up`.
pub open spec fn up_dev_ns_line(dev: Seq<char>, ns_id: Seq<char>) -> CommandLineView {
    CommandLineView {
        program: "ip"@,
        args: seq!["netns"@, "exec"@, ns_id, "ip"@, "link"@, "set"@, "dev"@, dev, "up"@],
    }
}

/// `ip -j link show <bridge>`.
pub open spec fn bridge_probe_line() -> CommandLineView {
    CommandLineView { program: "ip"@, args: seq!["-j"@, "link"@, "show"@, BRIDGE_NAME@] }
}

/// `ip link add <bridge> type bridge`.
pub open spec fn bridge_create_line() -> CommandLineView {
    CommandLineView {
        program: "ip"@,
        args: seq!["link"@, "add"@, BRIDGE_NAME@, "type"@, "bridge"@],
    }
}

/// What remains to be run once the probe has told whether the bridge is
/// present: bring it up, after creating it where it was absent.
pub open spec fn init_bridge_plan(present: bool) -> Seq<CommandLineView> {
    if present {
        seq![up_dev_line(BRIDGE_NAME@)]
    } else {
        seq![bridge_create_line(), up_dev_line(BRIDGE_NAME@)]
    }
}

/// Whether the command at `index` of `init_bridge_plan(present)` may exit
/// with a failure: the creation may, since the bridge can have been created
/// by another launch after the probe. The activation may not.
pub open spec fn creation_may_fail(present: bool, index: int) -> bool {
    !present && index == 0
}

/// `ip link add <host> type veth peer name <peer>`.
pub open spec fn create_veth_line(host: Seq<char>, peer: Seq<char>) -> CommandLineView {
    CommandLineView {
        program: "ip"@,
        args: seq!["link"@, "add"@, host, "type"@, "veth"@, "peer"@, "name"@, peer],
    }
}

/// `lsns -t net -o NS -n -p <pid>`.
pub open spec fn find_ns_net_line(pid: int) -> CommandLineView {
    CommandLineView {
        program: "lsns"@,
        args: seq!["-t"@, "net"@, "-o"@, "NS"@, "-n"@, "-p"@, decimal(pid)],
    }
}

/// The path under which the kernel shows the network namespace of `pid`.
pub open spec fn proc_ns_path(pid: int) -> Seq<char> {
    "/proc/"@ + decimal(pid) + "/ns/net"@
}

/// The path under which a namespace is registered by name.
pub open spec fn netns_path(ns_id: Seq<char>) -> Seq<char> {
    "/var/run/netns/"@ + ns_id
}

/// `ln -s /proc/<pid>/ns/net /var/run/netns/<ns_id>`.
pub open spec fn put_netns_line(pid: int, ns_id: Seq<char>) -> CommandLineView {
    CommandLineView { program: "ln"@, args: seq!["-s"@, proc_ns_path(pid), netns_path(ns_id)] }
}

/// `rm -f /var/run/netns/<ns_id>`.
pub open spec fn release_netns_line(ns_id: Seq<char>) -> CommandLineView {
    CommandLineView { program: "rm"@, args: seq!["-f"@, netns_path(ns_id)] }
}

/// `ip link set dev <iface> master <bridge>`.
pub open spec fn attach_line(iface: Seq<char>, bridge: Seq<char>) -> CommandLineView {
    CommandLineView {
        program: "ip"@,
        args: seq!["link"@, "set"@, "dev"@, iface, "master"@, bridge],
    }
}

/// `ip link set dev <iface> netns <ns_id>`.
pub open spec fn move_line(iface: Seq<char>, ns_id: Seq<char>) -> CommandLineView {
    CommandLineView {
        program: "ip"@,
        args: seq!["link"@, "set"@, "dev"@, iface, "netns"@, ns_id],
    }
}

/// `ip netns exec <ns_id> ip link set dev <iface> name <new_name>`.
pub open spec fn rename_line(
    iface: Seq<char>,
    ns_id: Seq<char>,
    new_name: Seq<char>,
) -> CommandLineView {
    CommandLineView {
        program: "ip"@,
        args: seq![
            "netns"@,
            "exec"@,
            ns_id,
            "ip"@,
            "link"@,
            "set"@,
            "dev"@,
            iface,
            "name"@,
            new_name,
        ],
    }
}

/// `ip netns exec <ns_id> ip addr add <address> dev <iface>`.
pub open spec fn address_line(
    iface: Seq<char>,
    ns_id: Seq<char>,
    address: Seq<char>,
) -> CommandLineView {
    CommandLineView {
        program: "ip"@,
        args: seq!["netns"@, "exec"@, ns_id, "ip"@, "addr"@, "add"@, address, "dev"@, iface],
    }
}

/// Joining the bridge: enslave the interface to it, then bring it up.
pub open spec fn link_veth_to_bridge_plan(veth: Seq<char>) -> Seq<CommandLineView> {
    seq![attach_line(veth, BRIDGE_NAME@), up_dev_line(veth)]
}

/// Entering the namespace: move the interface in, give it the canonical name
/// and the address, then bring it and the loopback interface up.
pub open spec fn link_veth_to_ns_plan(
    veth: Seq<char>,
    ns_id: Seq<char>,
    address: Seq<char>,
) -> Seq<CommandLineView> {
    seq![
        move_line(veth, ns_id),
        rename_line(veth, ns_id, CONTAINER_IFACE@),
        address_line(CONTAINER_IFACE@, ns_id, address),
        up_dev_ns_line(CONTAINER_IFACE@, ns_id),
        up_dev_ns_line(LOOPBACK_IFACE@, ns_id),
    ]
}

/// The command that activates the interface `dev` on the host.
pub fn up_dev(dev: &str) -> (line: CommandLine)
    ensures
        line@ == up_dev_line(dev@),
{
    CommandLine::new("ip").arg("link").arg("set").arg("dev").arg(dev).arg("up")
}

/// The command that activates the interface `dev` inside the namespace
/// registered as `ns_id`.
pub fn up_dev_ns(dev: &str, ns_id: &str) -> (line: CommandLine)
    ensures
        line@ == up_dev_ns_line(dev@, ns_id@),
{
    CommandLine::new("ip").arg("netns").arg("exec").arg(ns_id).arg("ip").arg("link").arg("set").arg(
        "dev",
    ).arg(dev).arg("up")
}

/// The command whose success tells that the shared bridge is present.
pub fn bridge_probe() -> (line: CommandLine)
    ensures
        line@ == bridge_probe_line(),
{
    CommandLine::new("ip").arg("-j").arg("link").arg("show").arg(BRIDGE_NAME)
}

/// The command that creates the shared bridge.
pub fn bridge_create() -> (line: CommandLine)
    ensures
        line@ == bridge_create_line(),
{
    CommandLine::new("ip").arg("link").arg("add").arg(BRIDGE_NAME).arg("type").arg("bridge")
}

/// The commands that make the shared bridge active, given whether the probe
/// found it present. A bridge that is already there is only brought up; a
/// missing one is created first. The activation must succeed. The creation
/// may exit with a failure (see `init_bridge_tolerates`): a bridge that
/// another launch has created meanwhile is as good as one's own.
pub fn init_bridge(present: bool) -> (plan: Vec<CommandLine>)
    ensures
        lines(plan@) == init_bridge_plan(present),
{
    let mut plan: Vec<CommandLine> = Vec::new();
    if !present {
        push_line(&mut plan, bridge_create());
    }
    push_line(&mut plan, up_dev(BRIDGE_NAME));
    plan
}

/// Tells whether the command at `index` of `init_bridge(present)` may exit
/// with a failure without stopping the launch.
pub fn init_bridge_tolerates(present: bool, index: usize) -> (tolerated: bool)
    ensures
        tolerated == creation_may_fail(present, index as int),
{
    !present && index == 0
}

/// The command that attaches `iface` to the bridge `bridge`.
pub fn attach_interface_to_bridge(iface: &str, bridge: &str) -> (line: CommandLine)
    ensures
        line@ == attach_line(iface@, bridge@),
{
    CommandLine::new("ip").arg("link").arg("set").arg("dev").arg(iface).arg("master").arg(bridge)
}

/// The command that moves `iface` into the namespace registered as `ns_id`.
pub fn move_interface_to_namespace(iface: &str, ns_id: &str) -> (line: CommandLine)
    ensures
        line@ == move_line(iface@, ns_id@),
{
    CommandLine::new("ip").arg("link").arg("set").arg("dev").arg(iface).arg("netns").arg(ns_id)
}

/// The command that renames `iface` to `new_name` inside the namespace.
pub fn rename_interface_in_namespace(iface: &str, ns_id: &str, new_name: &str) -> (line:
    CommandLine)
    ensures
        line@ == rename_line(iface@, ns_id@, new_name@),
{
    CommandLine::new("ip").arg("netns").arg("exec").arg(ns_id).arg("ip").arg("link").arg("set").arg(
        "dev",
    ).arg(iface).arg("name").arg(new_name)
}

/// The command that assigns `address` to `iface` inside the namespace.
pub fn assign_address_in_namespace(iface: &str, ns_id: &str, address: &str) -> (line:
    CommandLine)
    ensures
        line@ == address_line(iface@, ns_id@, address@),
{
    CommandLine::new("ip").arg("netns").arg("exec").arg(ns_id).arg("ip").arg("addr").arg("add").arg(
        address,
    ).arg("dev").arg(iface)
}

/// The commands that attach the host-side end `veth` to the shared bridge and
/// bring it up, in the order in which they must succeed.
pub fn link_veth_to_bridge(veth: &str) -> (plan: Vec<CommandLine>)
    ensures
        lines(plan@) == link_veth_to_bridge_plan(veth@),
{
    let mut plan: Vec<CommandLine> = Vec::new();
    push_line(&mut plan, attach_interface_to_bridge(veth, BRIDGE_NAME));
    push_line(&mut plan, up_dev(veth));
    plan
}

/// The commands that hand the container-side end `veth` to the namespace
/// registered as `ns_id`: move it there, rename it to `eth0`, assign `ip`, and
/// bring up both it and the loopback interface. Each must succeed, in order.
pub fn link_veth_to_ns(veth: &str, ns_id: &str, ip: &str) -> (plan: Vec<CommandLine>)
    ensures
        lines(plan@) == link_veth_to_ns_plan(veth@, ns_id@, ip@),
{
    let mut plan: Vec<CommandLine> = Vec::new();
    push_line(&mut plan, move_interface_to_namespace(veth, ns_id));
    push_line(&mut plan, rename_interface_in_namespace(veth, ns_id, CONTAINER_IFACE));
    push_line(&mut plan, assign_address_in_namespace(CONTAINER_IFACE, ns_id, ip));
    push_line(&mut plan, up_dev_ns(CONTAINER_IFACE, ns_id));
    push_line(&mut plan, up_dev_ns(LOOPBACK_IFACE, ns_id));
    plan
}

/// The command that lists the network namespace of process `pid`.
pub fn find_ns_net(pid: libc::pid_t) -> (line: CommandLine)
    ensures
        line@ == find_ns_net_line(pid as int),
{
    let number = decimal_string(pid);
    CommandLine::new("lsns").arg("-t").arg("net").arg("-o").arg("NS").arg("-n").arg("-p").arg(
        number.as_str(),
    )
}

/// The namespace identifier in what the listing printed: its output without
/// the surrounding white space.
pub fn namespace_id(stdout: &str) -> (ns_id: String)
    ensures
        ns_id@ == trimmed(stdout@),
{
    trim(stdout)
}

/// The command that registers the network namespace of `pid` under the name
/// `ns_id`, so that later commands can address it by that name.
pub fn put_netns(pid: libc::pid_t, ns_id: &str) -> (line: CommandLine)
    ensures
        line@ == put_netns_line(pid as int, ns_id@),
{
    let number = decimal_string(pid);
    let mut source = String::from_str("/proc/");
    source.append(number.as_str());
    source.append("/ns/net");
    let mut target = String::from_str("/var/run/netns/");
    target.append(ns_id);
    CommandLine::new("ln").arg("-s").arg(source.as_str()).arg(target.as_str())
}

/// The command that removes the registration of `ns_id`. It does not fail on
/// a name that is not registered, so that releasing twice is as good as once.
pub fn release_netns(ns_id: &str) -> (line: CommandLine)
    ensures
        line@ == release_netns_line(ns_id@),
{
    let mut target = String::from_str("/var/run/netns/");
    target.append(ns_id);
    CommandLine::new("rm").arg("-f").arg(target.as_str())
}

/// Whether `c` is an ASCII letter or digit.
pub open spec fn is_alphanumeric(c: char) -> bool {
    ('0' <= c && c <= '9') || ('a' <= c && c <= 'z') || ('A' <= c && c <= 'Z')
}

/// Whether `c` is an ASCII lower-case letter or digit.
pub open spec fn is_lower_alphanumeric(c: char) -> bool {
    ('0' <= c && c <= '9') || ('a' <= c && c <= 'z')
}

/// The interface name made of the bridge's name, a hyphen and `suffix` in
/// lower case.
pub open spec fn veth_name_of(suffix: Seq<char>) -> Seq<char> {
    BRIDGE_NAME@ + "-"@ + ascii_lower(suffix)
}

/// Whether `name` is the bridge's name, a hyphen, and then `SUFFIX_LEN`
/// lower-case letters or digits.
pub open spec fn is_veth_name(name: Seq<char>) -> bool {
    exists|tail: Seq<char>|
        {
            &&& tail.len() == SUFFIX_LEN
            &&& forall|i: int| 0 <= i < tail.len() ==> is_lower_alphanumeric(#[trigger] tail[i])
            &&& name == BRIDGE_NAME@ + "-"@ + tail
        }
}

/// The two interface names of a veth pair: the end that stays on the host and
/// joins the bridge, and the end that moves into the container.
#[derive(Clone, Debug, PartialEq, Eq)]
pub struct VethPair {
    pub host: String,
    pub peer: String,
}

/// One character drawn by `rand`'s thread-local generator from its
/// `Alphanumeric` distribution (`rand::Rng::sample` on `rand::thread_rng()`).
/// Trusted: whatever is drawn is one of a-z, A-Z and 0-9; which one is not
/// stated. The generator panics only where the operating system cannot seed
/// it, and the draw rejects and repeats with a chance of one in thirty-two.
#[verifier::external_body]
fn sample_alphanumeric() -> (c: char)
    ensures
        is_alphanumeric(c),
{
    rand::Rng::sample(&mut rand::thread_rng(), rand::distributions::Alphanumeric)
}

/// `SUFFIX_LEN` random letters and digits.
pub fn random_suffix() -> (suffix: String)
    ensures
        suffix@.len() == SUFFIX_LEN,
        forall|i: int| 0 <= i < suffix@.len() ==> is_alphanumeric(#[trigger] suffix@[i]),
{
    let mut suffix = String::new();
    let mut drawn: usize = 0;
    while drawn < SUFFIX_LEN
        invariant
            drawn <= SUFFIX_LEN,
            suffix@.len() == drawn,
            forall|i: int| 0 <= i < suffix@.len() ==> is_alphanumeric(#[trigger] suffix@[i]),
        decreases SUFFIX_LEN - drawn,
    {
        let c = sample_alphanumeric();
        suffix.push(c);
        drawn += 1;
    }
    suffix
}

/// The veth interface name with the given suffix: the bridge's name, a
/// hyphen, and the suffix folded to lower case.
pub fn veth_name(suffix: &str) -> (name: String)
    ensures
        name@ == veth_name_of(suffix@),
{
    let folded = ascii_lowercase(suffix);
    let mut name = String::from_str(BRIDGE_NAME);
    name.append("-");
    name.append(folded.as_str());
    name
}

/// Folding letters and digits to lower case leaves lower-case letters and
/// digits, so a name built from such a suffix is a well-formed veth name.
pub proof fn lemma_veth_name_well_formed(suffix: Seq<char>)
    requires
        suffix.len() == SUFFIX_LEN,
        forall|i: int| 0 <= i < suffix.len() ==> is_alphanumeric(#[trigger] suffix[i]),
    ensures
        is_veth_name(veth_name_of(suffix)),
{
    let tail = ascii_lower(suffix);
    assert forall|i: int| 0 <= i < tail.len() implies is_lower_alphanumeric(
        #[trigger] tail[i],
    ) by {
        assert(is_alphanumeric(suffix[i]));
    }
}

/// Chooses the names of a new veth pair. Both are the bridge's name followed
/// by a hyphen and six random lower-case letters or digits, so that pairs of
/// containers that share the bridge do not collide.
pub fn create_veth() -> (pair: VethPair)
    ensures
        is_veth_name(pair.host@),
        is_veth_name(pair.peer@),
{
    let first = random_suffix();
    let host = veth_name(first.as_str());
    let second = random_suffix();
    let peer = veth_name(second.as_str());
    proof {
        lemma_veth_name_well_formed(first@);
        lemma_veth_name_well_formed(second@);
    }
    VethPair { host, peer }
}

/// The command that creates the veth pair `pair`.
pub fn create_veth_command(pair: &VethPair) -> (line: CommandLine)
    ensures
        line@ == create_veth_line(pair.host@, pair.peer@),
{
    CommandLine::new("ip").arg("link").arg("add").arg(pair.host.as_str()).arg("type").arg(
        "veth",
    ).arg("peer").arg("name").arg(pair.peer.as_str())
}

} // verus!
