use runc_rs::command::CommandLine;
use runc_rs::network::{
    assign_address_in_namespace, attach_interface_to_bridge, bridge_create, bridge_probe,
    create_veth, create_veth_command, find_ns_net, init_bridge, init_bridge_tolerates,
    link_veth_to_bridge,
    link_veth_to_ns, move_interface_to_namespace, namespace_id, put_netns, random_suffix,
    release_netns, rename_interface_in_namespace, up_dev, up_dev_ns, veth_name, VethPair,
    BRIDGE_NAME, SUFFIX_LEN,
};

fn words(line: &CommandLine) -> Vec<String> {
    let mut all = vec![line.program.clone()];
    for arg in &line.args {
        all.push(arg.clone());
    }
    all
}

fn shown(line: &CommandLine) -> String {
    words(line).join(" ")
}

fn shown_all(plan: &[CommandLine]) -> Vec<String> {
    let mut all = Vec::new();
    for line in plan {
        all.push(shown(line));
    }
    all
}

#[test]
fn up_dev_brings_a_host_interface_up() {
    let line = up_dev("veth0");
    assert_eq!(line.program, "ip");
    assert_eq!(line.args, vec!["link", "set", "dev", "veth0", "up"]);
}

#[test]
fn up_dev_ns_runs_inside_the_namespace() {
    let line = up_dev_ns("lo", "4026532281");
    assert_eq!(line.program, "ip");
    assert_eq!(
        line.args,
        vec!["netns", "exec", "4026532281", "ip", "link", "set", "dev", "lo", "up"]
    );
}

#[test]
fn bridge_probe_shows_the_bridge_link() {
    assert_eq!(shown(&bridge_probe()), "ip -j link show runc-rs");
    assert_eq!(BRIDGE_NAME, "runc-rs");
}

#[test]
fn bridge_create_adds_a_bridge_device() {
    assert_eq!(shown(&bridge_create()), "ip link add runc-rs type bridge");
}

#[test]
fn init_bridge_only_activates_a_present_bridge() {
    let plan = init_bridge(true);
    assert_eq!(shown_all(&plan), vec!["ip link set dev runc-rs up"]);
}

#[test]
fn init_bridge_creates_then_activates_a_missing_bridge() {
    let plan = init_bridge(false);
    assert_eq!(
        shown_all(&plan),
        vec!["ip link add runc-rs type bridge", "ip link set dev runc-rs up"]
    );
}

#[test]
fn init_bridge_twice_ends_with_activation_both_times() {
    // First launch: the probe fails, the bridge is created and brought up.
    let first = init_bridge(false);
    // Second launch: the probe now succeeds; nothing is created again.
    let second = init_bridge(true);
    assert_eq!(shown(first.last().unwrap()), "ip link set dev runc-rs up");
    assert_eq!(shown(second.last().unwrap()), "ip link set dev runc-rs up");
    assert!(!shown_all(&second).contains(&"ip link add runc-rs type bridge".to_string()));
}

#[test]
fn random_suffix_is_six_letters_or_digits() {
    for _ in 0..200 {
        let suffix = random_suffix();
        assert_eq!(suffix.chars().count(), SUFFIX_LEN);
        assert!(suffix.chars().all(|c| c.is_ascii_alphanumeric()));
    }
}

#[test]
fn veth_name_prefixes_and_lowers_the_suffix() {
    assert_eq!(veth_name("aB3dEf"), "runc-rs-ab3def");
    assert_eq!(veth_name("ZZZZZZ"), "runc-rs-zzzzzz");
    assert_eq!(veth_name("012345"), "runc-rs-012345");
    assert_eq!(veth_name(""), "runc-rs-");
}

#[test]
fn create_veth_names_carry_the_bridge_prefix() {
    for _ in 0..100 {
        let pair = create_veth();
        for name in [&pair.host, &pair.peer] {
            assert_eq!(name.len(), "runc-rs-".len() + 6);
            assert!(name.starts_with("runc-rs-"));
            let tail = &name["runc-rs-".len()..];
            assert!(tail.chars().all(|c| c.is_ascii_lowercase() || c.is_ascii_digit()));
        }
    }
}

#[test]
fn create_veth_draws_fresh_names() {
    let mut seen = std::collections::HashSet::new();
    for _ in 0..50 {
        let pair = create_veth();
        seen.insert(pair.host);
        seen.insert(pair.peer);
    }
    // 100 draws from 36^6 names: a constant generator would leave one name.
    assert!(seen.len() > 90);
}

#[test]
fn create_veth_command_names_both_ends() {
    let pair = VethPair { host: "runc-rs-aaaaaa".to_string(), peer: "runc-rs-bbbbbb".to_string() };
    assert_eq!(
        shown(&create_veth_command(&pair)),
        "ip link add runc-rs-aaaaaa type veth peer name runc-rs-bbbbbb"
    );
}

#[test]
fn find_ns_net_lists_the_namespace_of_the_process() {
    let line = find_ns_net(4242);
    assert_eq!(line.program, "lsns");
    assert_eq!(line.args, vec!["-t", "net", "-o", "NS", "-n", "-p", "4242"]);
}

#[test]
fn namespace_id_is_the_trimmed_listing() {
    assert_eq!(namespace_id("4026532281\n"), "4026532281");
    assert_eq!(namespace_id("  4026532281  \n"), "4026532281");
    assert_eq!(namespace_id("\n"), "");
}

#[test]
fn put_netns_links_the_proc_entry_under_the_runtime_directory() {
    let line = put_netns(4242, "4026532281");
    assert_eq!(line.program, "ln");
    assert_eq!(line.args, vec!["-s", "/proc/4242/ns/net", "/var/run/netns/4026532281"]);
}

#[test]
fn release_netns_removes_the_registration() {
    let line = release_netns("4026532281");
    assert_eq!(line.program, "rm");
    assert_eq!(line.args, vec!["-f", "/var/run/netns/4026532281"]);
}

#[test]
fn link_veth_to_bridge_enslaves_then_activates() {
    let plan = link_veth_to_bridge("runc-rs-aaaaaa");
    assert_eq!(
        shown_all(&plan),
        vec![
            "ip link set dev runc-rs-aaaaaa master runc-rs",
            "ip link set dev runc-rs-aaaaaa up",
        ]
    );
}

#[test]
fn link_veth_to_ns_moves_renames_addresses_and_activates() {
    let plan = link_veth_to_ns("runc-rs-bbbbbb", "4026532281", "10.0.0.5/24");
    assert_eq!(
        shown_all(&plan),
        vec![
            "ip link set dev runc-rs-bbbbbb netns 4026532281",
            "ip netns exec 4026532281 ip link set dev runc-rs-bbbbbb name eth0",
            "ip netns exec 4026532281 ip addr add 10.0.0.5/24 dev eth0",
            "ip netns exec 4026532281 ip link set dev eth0 up",
            "ip netns exec 4026532281 ip link set dev lo up",
        ]
    );
}

#[test]
fn backend_primitives_build_single_commands() {
    assert_eq!(
        shown(&attach_interface_to_bridge("v0", "br0")),
        "ip link set dev v0 master br0"
    );
    assert_eq!(shown(&move_interface_to_namespace("v1", "ns")), "ip link set dev v1 netns ns");
    assert_eq!(
        shown(&rename_interface_in_namespace("v1", "ns", "eth0")),
        "ip netns exec ns ip link set dev v1 name eth0"
    );
    assert_eq!(
        shown(&assign_address_in_namespace("eth0", "ns", "192.168.1.2/24")),
        "ip netns exec ns ip addr add 192.168.1.2/24 dev eth0"
    );
}

#[test]
fn release_netns_does_not_mind_a_missing_name() {
    // The same command serves a first and a second release: it is told not
    // to fail on a name that is not there.
    let first = release_netns("4026532281");
    let second = release_netns("4026532281");
    assert_eq!(first, second);
    assert_eq!(shown(&first), "rm -f /var/run/netns/4026532281");
}

#[test]
fn only_the_creation_of_the_bridge_may_fail() {
    assert!(init_bridge_tolerates(false, 0));
    assert!(!init_bridge_tolerates(false, 1));
    assert!(!init_bridge_tolerates(true, 0));
    assert!(!init_bridge_tolerates(true, 1));
}
