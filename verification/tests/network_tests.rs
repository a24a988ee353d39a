use virtualos::network::{
    init_network, nsenter_args, setup_container_net, teardown_container_net, NetCommand, NetError,
    NetStep,
};

fn line(c: &NetCommand) -> String {
    format!("{} {}", c.program, c.args.join(" "))
}

#[test]
fn container_setup_commands() {
    let plan = setup_container_net(4242, "abc", "10.0.0.5");
    let lines: Vec<String> = plan.iter().map(line).collect();
    assert_eq!(
        lines,
        vec![
            "ip link add veth-abc type veth peer name ceth-abc",
            "ip link set veth-abc master docklet0",
            "ip link set veth-abc up",
            "ip link set ceth-abc netns 4242",
            "ip link set lo up",
            "ip addr add 10.0.0.5/24 dev ceth-abc",
            "ip link set ceth-abc up",
            "ip route add default via 10.0.0.1 dev ceth-abc",
        ]
    );
    for (i, c) in plan.iter().enumerate() {
        if i < 4 {
            assert!(c.netns.is_none());
        } else {
            assert_eq!(c.netns.as_deref(), Some("/proc/4242/ns/net"));
        }
    }
}

#[test]
fn teardown_removes_host_end() {
    let c = teardown_container_net("abc");
    assert_eq!(line(&c), "ip link delete veth-abc");
}

#[test]
fn host_setup_steps() {
    let plan = init_network();
    assert_eq!(plan.len(), 5);
    match &plan[0] {
        NetStep::Ensure { check, create } => {
            assert_eq!(line(check), "ip link show docklet0");
            assert_eq!(line(create), "ip link add name docklet0 type bridge");
        }
        _ => panic!("bridge step"),
    }
    match &plan[1] {
        NetStep::Run { command, must_succeed } => {
            assert_eq!(line(command), "ip addr replace 10.0.0.1/24 dev docklet0");
            assert!(!must_succeed);
        }
        _ => panic!("address step"),
    }
    match &plan[3] {
        NetStep::WriteFile { path, value } => {
            assert_eq!(path, "/proc/sys/net/ipv4/ip_forward");
            assert_eq!(value, "1");
        }
        _ => panic!("forwarding step"),
    }
    match &plan[4] {
        NetStep::Ensure { check, create } => {
            assert_eq!(line(check), "iptables -t nat -C POSTROUTING -s 10.0.0.0/24 ! -o docklet0 -j MASQUERADE");
            assert_eq!(line(create), "iptables -t nat -A POSTROUTING -s 10.0.0.0/24 ! -o docklet0 -j MASQUERADE");
        }
        _ => panic!("nat step"),
    }
}

#[test]
fn nsenter_invocation() {
    let c = NetCommand { program: "ip".to_string(), args: vec!["link".to_string(), "show".to_string()], netns: None };
    assert_eq!(nsenter_args("/proc/1/ns/net", &c).unwrap(), vec!["--net=/proc/1/ns/net", "ip", "link", "show"]);
    assert_eq!(nsenter_args("", &c), Err(NetError::EmptyNamespacePath));
}
