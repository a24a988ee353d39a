use std::sync::mpsc;
use virtualos::cgroup::{
    cgroup_v2_relative_path, cgroup_walk_start, cgroup_walk_step, controllers_enabled, walk_decision, Cgroup,
    CgroupError, WalkStep,
};
use virtualos::child::{clone_args, clone_outcome, container_clone_flags, Child, CloneOutcome, CLONE_INTO_CGROUP};
use virtualos::daemon::{check_run_request, requested_id, requested_memory, status_text, summarize, MyVirtualOs, RequestError};
use virtualos::devices::{DeviceError, DeviceManager, SerialDevice};
use virtualos::container::ContainerStatus;
use virtualos::text::{i64_to_decimal, join, u64_to_decimal};

#[test]
fn cgroup_settings() {
    let cg = Cgroup::at("/sys/fs/cgroup/docklet", "c1");
    assert_eq!(cg.path(), "/sys/fs/cgroup/docklet/c1");
    let m = cg.memory_limit_setting(0);
    assert_eq!((m.file.as_str(), m.value.as_str()), ("/sys/fs/cgroup/docklet/c1/memory.max", "max"));
    assert_eq!(cg.memory_limit_setting(1048576).value, "1048576");
    let w = cg.cpu_weight_setting(100);
    assert_eq!((w.file.as_str(), w.value.as_str()), ("/sys/fs/cgroup/docklet/c1/cpu.weight", "100"));
    let p = cg.add_process_setting(4242);
    assert_eq!((p.file.as_str(), p.value.as_str()), ("/sys/fs/cgroup/docklet/c1/cgroup.procs", "4242"));
    let s = Cgroup::subtree_control_setting("/sys/fs/cgroup/docklet");
    assert_eq!(s.file, "/sys/fs/cgroup/docklet/cgroup.subtree_control");
    assert_eq!(s.value, "+memory +cpu");
}

#[test]
fn cgroup_open() {
    assert!(Cgroup::open_checked("/x".to_string(), true).is_ok());
    assert_eq!(Cgroup::open_checked("/x".to_string(), false).err(), Some(CgroupError::NotFound("/x".to_string())));
    assert!(Cgroup::from_path("/".to_string()).is_ok());
    assert!(matches!(Cgroup::from_path("/definitely/not/here".to_string()), Err(CgroupError::NotFound(_))));
}

#[test]
fn own_group_path() {
    let content = "12:cpu:/old\n0::/user.slice/session-1.scope\n";
    assert_eq!(cgroup_v2_relative_path(content), Some("user.slice/session-1.scope".to_string()));
    assert_eq!(cgroup_v2_relative_path("0::/\n"), Some("".to_string()));
    assert_eq!(cgroup_v2_relative_path("0::/a\r\n"), Some("a".to_string()));
    assert_eq!(cgroup_v2_relative_path("1:x:/y\n"), None);
    assert_eq!(cgroup_v2_relative_path(""), None);
    assert_eq!(cgroup_walk_start("a/b"), "/sys/fs/cgroup/a/b");
    assert_eq!(cgroup_walk_start(""), "/sys/fs/cgroup/");
}

#[test]
fn controller_lists() {
    let wanted = vec!["memory".to_string(), "cpu".to_string()];
    assert!(controllers_enabled("cpuset cpu io memory pids", &wanted));
    assert!(!controllers_enabled("io memory pids", &wanted));
    // names are whole words: "cpuset" does not list "cpu"
    assert!(!controllers_enabled("cpuset io memory pids", &wanted));
    assert!(controllers_enabled("memory\tcpu\n", &wanted));
    assert!(!controllers_enabled("memorycpu", &wanted));
    assert!(!controllers_enabled("cpu memory", &vec!["".to_string()]));
    assert!(controllers_enabled("", &vec![]));
}

#[test]
fn child_setup() {
    let c = Child::new("/run/root", "/bin/sh", &vec!["-c".to_string(), "true".to_string()], true, 5);
    assert_eq!(c.config.ready_fd, Some(5));
    assert_eq!(c.exec_argv(), vec!["/bin/sh", "-c", "true"]);
    let nul = Child::new("/r", "bad\0cmd", &vec![], false, 3);
    assert_eq!(nul.exec_argv(), vec!["/bin/sh"]);
    assert_eq!(
        c.rootfs_dirs(),
        vec![
            "/run/root/proc",
            "/run/root/sys",
            "/run/root/sys/fs",
            "/run/root/sys/fs/cgroup",
            "/run/root/dev",
            "/run/root/dev/pts",
            "/run/root/.old_root",
        ]
    );
    let mounts = Child::standard_mounts();
    let targets: Vec<&str> = mounts.iter().map(|m| m.target.as_str()).collect();
    assert_eq!(targets, vec!["/proc", "/sys", "/dev", "/dev/pts", "/sys/fs/cgroup"]);
    assert_eq!(mounts[4].fstype, "cgroup2");
}

#[test]
fn clone_call() {
    let flags = container_clone_flags();
    assert_eq!(flags, 0x2000_0000 | 0x0400_0000 | 0x0002_0000 | 0x0200_0000);
    let a = clone_args(flags, 9);
    assert_eq!(a.flags, flags | CLONE_INTO_CGROUP);
    assert_eq!((a.exit_signal, a.cgroup, a.stack, a.stack_size), (17, 9, 0, 0));
    assert_eq!(clone_outcome(0), CloneOutcome::InChild);
    assert_eq!(clone_outcome(1234), CloneOutcome::InParent(1234));
    assert_eq!(clone_outcome(-1), CloneOutcome::Failed);
}

#[test]
fn daemon_requests() {
    let d = MyVirtualOs::default();
    assert_eq!(d.base_dir, "/var/lib/docklet");
    let m = d.manager();
    assert_eq!(m.state_path("x"), "/var/lib/docklet/containers/x/state.json");
    assert_eq!(requested_memory(0), None);
    assert_eq!(requested_memory(64), Some(64));
    assert_eq!(requested_id(String::new()), None);
    assert_eq!(requested_id("c".to_string()), Some("c".to_string()));
    assert_eq!(check_run_request(true), Ok(()));
    assert_eq!(check_run_request(false), Err(RequestError::ForegroundRunUnsupported));
    assert_eq!(status_text(ContainerStatus::Running), "Running");
    let s = summarize("i".into(), "alpine".into(), "sh".into(), ContainerStatus::Stopped, None, None);
    assert_eq!((s.status.as_str(), s.pid, s.network_ip.as_str()), ("Stopped", 0, ""));
    let s = summarize("i".into(), "alpine".into(), "sh".into(), ContainerStatus::Running, Some(9), Some("10.0.0.2".into()));
    assert_eq!((s.pid, s.network_ip.as_str()), (9, "10.0.0.2"));
}

#[test]
fn serial_ports() {
    let (out_tx, out_rx) = mpsc::channel();
    let (in_tx, in_rx) = mpsc::channel();
    let mut dm = DeviceManager::new(SerialDevice::new(out_tx, in_rx));
    assert_eq!(dm.handle_io_out(0x3f8, b"hi"), Ok(()));
    assert_eq!(out_rx.try_recv(), Ok(b'h'));
    assert_eq!(out_rx.try_recv(), Ok(b'i'));
    assert_eq!(dm.handle_io_out(0x80, b"x"), Ok(()));
    assert!(out_rx.try_recv().is_err());
    in_tx.send(b'z').unwrap();
    assert_eq!(dm.handle_io_in(0x3f8), Ok(b'z'));
    assert_eq!(dm.handle_io_in(0x60), Ok(0));
    drop(in_tx);
    assert_eq!(dm.handle_io_in(0x3f8), Err(DeviceError::NoInput));
    drop(out_rx);
    assert_eq!(dm.handle_io_out(0x3f8, b"x"), Err(DeviceError::ReceiverDropped));
    // an empty write sends nothing and cannot fail
    assert_eq!(dm.handle_io_out(0x3f8, b""), Ok(()));
}

#[test]
fn text_helpers() {
    assert_eq!(u64_to_decimal(0), "0");
    assert_eq!(u64_to_decimal(1234567890), "1234567890");
    assert_eq!(u64_to_decimal(u64::MAX), u64::MAX.to_string());
    assert_eq!(i64_to_decimal(-42), "-42");
    assert_eq!(i64_to_decimal(i64::MIN), i64::MIN.to_string());
    assert_eq!(join(&vec!["a".to_string(), "b".to_string(), "c".to_string()], ", "), "a, b, c");
    assert_eq!(join(&vec![], ":"), "");
}

#[test]
fn walk_steps() {
    let wanted = vec!["memory".to_string(), "cpu".to_string()];
    let here = "/sys/fs/cgroup/user.slice";
    let full = Some("cpu io memory".to_string());
    let partial = Some("io memory".to_string());
    let up = Some("/sys/fs/cgroup".to_string());
    assert_eq!(walk_decision(here, &full, &wanted, up.clone()), WalkStep::Found);
    assert_eq!(walk_decision(here, &partial, &wanted, up.clone()), WalkStep::Up("/sys/fs/cgroup".to_string()));
    assert_eq!(walk_decision(here, &None, &wanted, up), WalkStep::Up("/sys/fs/cgroup".to_string()));
    assert_eq!(walk_decision(here, &None, &wanted, None), WalkStep::GiveUp);
    assert_eq!(walk_decision("/", &partial, &wanted, Some("/".to_string())), WalkStep::GiveUp);
    // through the standard library's parent
    assert_eq!(cgroup_walk_step(here, &None, &wanted), WalkStep::Up("/sys/fs/cgroup".to_string()));
    assert_eq!(cgroup_walk_step("/sys", &partial, &wanted), WalkStep::Up("/".to_string()));
    assert_eq!(cgroup_walk_step("/", &None, &wanted), WalkStep::GiveUp);
    assert_eq!(cgroup_walk_step("/", &full, &wanted), WalkStep::Found);
}
