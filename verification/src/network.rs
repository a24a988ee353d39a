//! Container networking as plans of commands: the host bridge with NAT for
//! 10.0.0.0/24, and for each container a veth pair whose inner end lives in
//! the container's network namespace with the container's address.
use vstd::prelude::*;
use crate::text::{concat, decimal, push_decimal, push_str, views};

verus! {

pub const BRIDGE_NAME: &'static str = "docklet0";
pub const SUBNET: &'static str = "10.0.0.0/24";
pub const GATEWAY: &'static str = "10.0.0.1";

/// One command to run: a program with its arguments, inside a network
/// namespace when one is named.
pub struct NetCommand {
    pub program: String,
    pub args: Vec<String>,
    pub netns: Option<String>,
}

/// A step of the host network set-up.
pub enum NetStep {
    /// Run a command; a failure fails the set-up when `must_succeed`.
    Run { command: NetCommand, must_succeed: bool },
    /// Run `create` unless `check` succeeds; a failing `create` fails the set-up.
    Ensure { check: NetCommand, create: NetCommand },
    /// Write `value` into the file at `path`; a failure fails the set-up.
    WriteFile { path: String, value: String },
}

/// The view of a command: program, arguments, namespace.
pub open spec fn command_view(c: NetCommand) -> (Seq<char>, Seq<Seq<char>>, Option<Seq<char>>) {
    (c.program@, views(c.args@), match c.netns {
        Some(n) => Some(n@),
        None => None,
    })
}

/// The host end of a container's veth pair.
pub open spec fn host_veth(id: Seq<char>) -> Seq<char> {
    "veth-"@ + id
}

/// The container end of a container's veth pair.
pub open spec fn container_veth(id: Seq<char>) -> Seq<char> {
    "ceth-"@ + id
}

/// The network namespace of process `pid`.
pub open spec fn netns_of(pid: u32) -> Seq<char> {
    "/proc/"@ + decimal(pid as nat) + "/ns/net"@
}

fn strings(parts: Vec<&str>) -> (v: Vec<String>)
    ensures
        v@.len() == parts@.len(),
        forall|i: int| 0 <= i < v@.len() ==> #[trigger] v@[i]@ == parts@[i]@,
{
    let mut v: Vec<String> = Vec::new();
    let mut i: usize = 0;
    while i < parts.len()
        invariant
            i <= parts@.len(),
            v@.len() == i,
            forall|k: int| 0 <= k < i ==> #[trigger] v@[k]@ == parts@[k]@,
        decreases parts@.len() - i,
    {
        v.push(parts[i].to_owned());
        i += 1;
    }
    v
}

fn ip(args: Vec<&str>, netns: Option<String>) -> (c: NetCommand)
    ensures
        c.program@ == "ip"@,
        c.args@.len() == args@.len(),
        forall|i: int| 0 <= i < args@.len() ==> #[trigger] c.args@[i]@ == args@[i]@,
        c.netns == netns,
{
    NetCommand { program: "ip".to_owned(), args: strings(args), netns }
}

/// The commands that connect a container to the bridge, in order:
/// create the veth pair, attach the host end to the bridge and bring it up,
/// move the container end into the container's namespace, and there bring up
/// loopback, give the container end its address, bring it up and route
/// through the gateway.
pub open spec fn setup_plan(pid: u32, id: Seq<char>, ip: Seq<char>) -> Seq<(Seq<char>, Seq<Seq<char>>, Option<Seq<char>>)> {
    let h = host_veth(id);
    let c = container_veth(id);
    let ns = Some(netns_of(pid));
    seq![
        ("ip"@, seq!["link"@, "add"@, h, "type"@, "veth"@, "peer"@, "name"@, c], None),
        ("ip"@, seq!["link"@, "set"@, h, "master"@, BRIDGE_NAME@], None),
        ("ip"@, seq!["link"@, "set"@, h, "up"@], None),
        ("ip"@, seq!["link"@, "set"@, c, "netns"@, decimal(pid as nat)], None),
        ("ip"@, seq!["link"@, "set"@, "lo"@, "up"@], ns),
        ("ip"@, seq!["addr"@, "add"@, ip + "/24"@, "dev"@, c], ns),
        ("ip"@, seq!["link"@, "set"@, c, "up"@], ns),
        ("ip"@, seq!["route"@, "add"@, "default"@, "via"@, GATEWAY@, "dev"@, c], ns),
    ]
}

/// The commands that set up networking for the container `container_id`
/// whose process is `pid`, giving it `container_ip` in the subnet.
pub fn setup_container_net(pid: u32, container_id: &str, container_ip: &str) -> (plan: Vec<NetCommand>)
    ensures
        plan@.map_values(|c: NetCommand| command_view(c)) == setup_plan(pid, container_id@, container_ip@),
{
    let host = concat("veth-", container_id);
    let cont = concat("ceth-", container_id);
    let mut pid_text = String::new();
    push_decimal(&mut pid_text, pid as u64);
    let mut netns = concat("/proc/", pid_text.as_str());
    push_str(&mut netns, "/ns/net");
    let addr = concat(container_ip, "/24");
    let mut plan: Vec<NetCommand> = Vec::new();
    plan.push(ip(vec!["link", "add", host.as_str(), "type", "veth", "peer", "name", cont.as_str()], None));
    plan.push(ip(vec!["link", "set", host.as_str(), "master", BRIDGE_NAME], None));
    plan.push(ip(vec!["link", "set", host.as_str(), "up"], None));
    plan.push(ip(vec!["link", "set", cont.as_str(), "netns", pid_text.as_str()], None));
    plan.push(ip(vec!["link", "set", "lo", "up"], Some(netns.clone())));
    plan.push(ip(vec!["addr", "add", addr.as_str(), "dev", cont.as_str()], Some(netns.clone())));
    plan.push(ip(vec!["link", "set", cont.as_str(), "up"], Some(netns.clone())));
    plan.push(ip(vec!["route", "add", "default", "via", GATEWAY, "dev", cont.as_str()], Some(netns)));
    assert forall|i: int| 0 <= i < 8 implies command_view(#[trigger] plan@[i]) == setup_plan(
        pid,
        container_id@,
        container_ip@,
    )[i] by {
        assert(views(plan@[i].args@) =~= setup_plan(pid, container_id@, container_ip@)[i].1);
    }
    assert(plan@.map_values(|c: NetCommand| command_view(c)) =~= setup_plan(pid, container_id@, container_ip@));
    plan
}

/// The command that removes a container's host-side veth (the inner end goes
/// with the namespace).
pub fn teardown_container_net(container_id: &str) -> (c: NetCommand)
    ensures
        command_view(c) == ("ip"@, seq!["link"@, "delete"@, host_veth(container_id@)], None::<Seq<char>>),
{
    let host = concat("veth-", container_id);
    let c = ip(vec!["link", "delete", host.as_str()], None);
    assert(views(c.args@) =~= seq!["link"@, "delete"@, host_veth(container_id@)]);
    c
}

fn iptables_rule(op: &str) -> (c: NetCommand)
    ensures
        command_view(c) == (
            "iptables"@,
            seq!["-t"@, "nat"@, op@, "POSTROUTING"@, "-s"@, SUBNET@, "!"@, "-o"@, BRIDGE_NAME@, "-j"@, "MASQUERADE"@],
            None::<Seq<char>>,
        ),
{
    let c = NetCommand {
        program: "iptables".to_owned(),
        args: strings(vec!["-t", "nat", op, "POSTROUTING", "-s", SUBNET, "!", "-o", BRIDGE_NAME, "-j", "MASQUERADE"]),
        netns: None,
    };
    assert(views(c.args@) =~= seq!["-t"@, "nat"@, op@, "POSTROUTING"@, "-s"@, SUBNET@, "!"@, "-o"@, BRIDGE_NAME@, "-j"@, "MASQUERADE"@]);
    c
}

/// The host set-up, in order: make sure the bridge exists, give it the
/// gateway address (failures ignored), bring it up, enable IP forwarding,
/// and make sure the masquerading rule for the subnet exists.
pub fn init_network() -> (plan: Vec<NetStep>)
    ensures
        plan@.len() == 5,
        plan@[0] matches NetStep::Ensure { check, create } && command_view(check) == ("ip"@, seq!["link"@, "show"@, BRIDGE_NAME@], None::<Seq<char>>)
            && command_view(create) == ("ip"@, seq!["link"@, "add"@, "name"@, BRIDGE_NAME@, "type"@, "bridge"@], None::<Seq<char>>),
        plan@[1] matches NetStep::Run { command, must_succeed } && !must_succeed && command_view(command) == (
            "ip"@,
            seq!["addr"@, "replace"@, GATEWAY@ + "/24"@, "dev"@, BRIDGE_NAME@],
            None::<Seq<char>>,
        ),
        plan@[2] matches NetStep::Run { command, must_succeed } && must_succeed && command_view(command) == (
            "ip"@,
            seq!["link"@, "set"@, BRIDGE_NAME@, "up"@],
            None::<Seq<char>>,
        ),
        plan@[3] matches NetStep::WriteFile { path, value } && path@ == "/proc/sys/net/ipv4/ip_forward"@ && value@ == "1"@,
        plan@[4] matches NetStep::Ensure { check, create } && command_view(check) == (
            "iptables"@,
            seq!["-t"@, "nat"@, "-C"@, "POSTROUTING"@, "-s"@, SUBNET@, "!"@, "-o"@, BRIDGE_NAME@, "-j"@, "MASQUERADE"@],
            None::<Seq<char>>,
        ) && command_view(create) == (
            "iptables"@,
            seq!["-t"@, "nat"@, "-A"@, "POSTROUTING"@, "-s"@, SUBNET@, "!"@, "-o"@, BRIDGE_NAME@, "-j"@, "MASQUERADE"@],
            None::<Seq<char>>,
        ),
{
    let check_bridge = ip(vec!["link", "show", BRIDGE_NAME], None);
    assert(views(check_bridge.args@) =~= seq!["link"@, "show"@, BRIDGE_NAME@]);
    let create_bridge = ip(vec!["link", "add", "name", BRIDGE_NAME, "type", "bridge"], None);
    assert(views(create_bridge.args@) =~= seq!["link"@, "add"@, "name"@, BRIDGE_NAME@, "type"@, "bridge"@]);
    let gw = concat(GATEWAY, "/24");
    let addr = ip(vec!["addr", "replace", gw.as_str(), "dev", BRIDGE_NAME], None);
    assert(views(addr.args@) =~= seq!["addr"@, "replace"@, GATEWAY@ + "/24"@, "dev"@, BRIDGE_NAME@]);
    let up = ip(vec!["link", "set", BRIDGE_NAME, "up"], None);
    assert(views(up.args@) =~= seq!["link"@, "set"@, BRIDGE_NAME@, "up"@]);
    let mut plan: Vec<NetStep> = Vec::new();
    plan.push(NetStep::Ensure { check: check_bridge, create: create_bridge });
    plan.push(NetStep::Run { command: addr, must_succeed: false });
    plan.push(NetStep::Run { command: up, must_succeed: true });
    plan.push(NetStep::WriteFile { path: "/proc/sys/net/ipv4/ip_forward".to_owned(), value: "1".to_owned() });
    plan.push(NetStep::Ensure { check: iptables_rule("-C"), create: iptables_rule("-A") });
    plan
}

/// Why a command cannot be run in a namespace.
#[derive(Debug, PartialEq, Eq)]
pub enum NetError {
    /// The namespace path is empty.
    EmptyNamespacePath,
}

/// The `nsenter` invocation that runs a command in the network namespace at
/// `netns_path`; an empty path is refused.
pub fn nsenter_args(netns_path: &str, command: &NetCommand) -> (r: Result<Vec<String>, NetError>)
    ensures
        netns_path@.len() == 0 <==> r is Err,
        r matches Err(e) ==> e == NetError::EmptyNamespacePath,
        r matches Ok(args) ==> views(args@) == seq!["--net="@ + netns_path@, command.program@] + views(command.args@),
{
    if netns_path.is_empty() {
        return Err(NetError::EmptyNamespacePath);
    }
    let mut args: Vec<String> = Vec::new();
    args.push(concat("--net=", netns_path));
    args.push(command.program.clone());
    let mut i: usize = 0;
    while i < command.args.len()
        invariant
            i <= command.args@.len(),
            views(args@) == seq!["--net="@ + netns_path@, command.program@] + views(command.args@).take(i as int),
        decreases command.args@.len() - i,
    {
        let ghost before = args@;
        args.push(command.args[i].clone());
        assert(args@ == before.push(args@[args@.len() - 1]));
        assert(views(args@) =~= views(before).push(command.args@[i as int]@));
        i += 1;
        assert(views(args@) =~= seq!["--net="@ + netns_path@, command.program@] + views(command.args@).take(i as int));
    }
    assert(views(command.args@).take(command.args@.len() as int) =~= views(command.args@));
    Ok(args)
}

} // verus!
