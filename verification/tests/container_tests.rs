use virtualos::container::{network_failure_steps, start_steps, StartStep};
use virtualos::container::{stop_action, ProcessProbe, StopAction, STOP_GRACE_NS};
use virtualos::container::{
    allocate_ip, container_id_or_generated, AddressError, ContainerManager, ContainerState,
    ContainerStatus, LifecycleError, LifecycleEvent,
};

#[test]
fn manager_paths() {
    let m = ContainerManager::new("/var/lib/virtualos".to_string());
    assert_eq!(m.cgroup_parent, "/sys/fs/cgroup/docklet");
    assert_eq!(m.containers_dir(), "/var/lib/virtualos/containers");
    assert_eq!(m.container_dir("abc"), "/var/lib/virtualos/containers/abc");
    assert_eq!(m.state_path("abc"), "/var/lib/virtualos/containers/abc/state.json");
    assert_eq!(m.cgroup_dir("abc"), "/sys/fs/cgroup/docklet/abc");
}

#[test]
fn addresses_fill_gaps() {
    assert_eq!(allocate_ip(&vec![]), Ok("10.0.0.2".to_string()));
    assert_eq!(allocate_ip(&vec![2, 3]), Ok("10.0.0.4".to_string()));
    assert_eq!(allocate_ip(&vec![3, 2, 5]), Ok("10.0.0.4".to_string()));
    assert_eq!(allocate_ip(&vec![0, 0, 7]), Ok("10.0.0.2".to_string()));
    assert_eq!(allocate_ip(&vec![2, 2, 3, 3]), Ok("10.0.0.4".to_string()));
    let mut all: Vec<u8> = (2..=253).collect();
    assert_eq!(allocate_ip(&all), Ok("10.0.0.254".to_string()));
    all.push(254);
    assert_eq!(allocate_ip(&all), Err(AddressError::NoFreeAddress));
    // with 255 taken as well the answer is the same error
    all.push(255);
    assert_eq!(allocate_ip(&all), Err(AddressError::NoFreeAddress));
}

#[test]
fn generated_ids() {
    assert_eq!(container_id_or_generated(Some("web".to_string())), "web");
    let a = container_id_or_generated(None);
    let b = container_id_or_generated(None);
    assert_eq!(a.len(), 8);
    assert!(a.chars().all(|c| c.is_ascii_hexdigit() && !c.is_ascii_uppercase()));
    assert_ne!(a, b);
}

#[test]
fn lifecycle_start_and_stop() {
    let s = ContainerState::created();
    assert_eq!(s.status, ContainerStatus::Created);
    assert_eq!(s.check_startable(), Ok(()));
    let s = s.step(LifecycleEvent::Started { pid: 42, cgroup_path: Some("/cg/a".to_string()) }).unwrap();
    assert_eq!((s.status, s.pid), (ContainerStatus::Running, Some(42)));
    assert_eq!(s.cgroup_path.as_deref(), Some("/cg/a"));
    assert_eq!(s.check_stoppable(), Ok(42));
    assert!(s.needs_stop_before_delete());
    let s = s.step(LifecycleEvent::Stopped).unwrap();
    assert_eq!((s.status, s.pid, s.cgroup_path.clone()), (ContainerStatus::Stopped, None, None));
    assert_eq!(s.check_startable(), Err(LifecycleError::NotCreated));
    assert_eq!(s.check_stoppable(), Err(LifecycleError::NotRunning));
    assert!(!s.needs_stop_before_delete());
}

#[test]
fn lifecycle_refusals_and_observation() {
    let s = ContainerState::created();
    assert_eq!(s.step(LifecycleEvent::Stopped).unwrap_err(), LifecycleError::NotRunning);
    let r = ContainerState::created()
        .step(LifecycleEvent::Started { pid: 7, cgroup_path: None })
        .unwrap();
    let alive = r.step(LifecycleEvent::Observed { alive: true }).unwrap();
    assert_eq!((alive.status, alive.pid), (ContainerStatus::Running, Some(7)));
    let dead = alive.step(LifecycleEvent::Observed { alive: false }).unwrap();
    assert_eq!((dead.status, dead.pid), (ContainerStatus::Stopped, None));
    let again = dead.step(LifecycleEvent::Started { pid: 8, cgroup_path: None });
    assert_eq!(again.unwrap_err(), LifecycleError::NotCreated);
    let fg = ContainerState::created()
        .step(LifecycleEvent::Started { pid: 9, cgroup_path: Some("/cg".to_string()) })
        .unwrap()
        .step(LifecycleEvent::Exited)
        .unwrap();
    assert_eq!((fg.status, fg.pid), (ContainerStatus::Stopped, None));
    assert_eq!(fg.cgroup_path.as_deref(), Some("/cg"));
}

#[test]
fn stop_escalation() {
    assert_eq!(stop_action(ProcessProbe::Alive, 0), StopAction::Wait);
    assert_eq!(stop_action(ProcessProbe::Alive, STOP_GRACE_NS), StopAction::Wait);
    assert_eq!(stop_action(ProcessProbe::Alive, STOP_GRACE_NS + 1), StopAction::ForceKill);
    assert_eq!(stop_action(ProcessProbe::Gone, 5), StopAction::Finished);
    assert_eq!(stop_action(ProcessProbe::Failed, 5), StopAction::Fail);
}

#[test]
fn start_order() {
    assert_eq!(
        start_steps(true, false),
        vec![
            StartStep::SetUpNetwork,
            StartStep::ReleaseChild,
            StartStep::RecordRunning,
            StartStep::WaitForExit,
            StartStep::TearDownNetwork,
            StartStep::RecordStopped,
        ]
    );
    assert_eq!(start_steps(true, true), vec![StartStep::SetUpNetwork, StartStep::ReleaseChild, StartStep::RecordRunning]);
    assert_eq!(
        start_steps(false, false),
        vec![StartStep::ReleaseChild, StartStep::RecordRunning, StartStep::WaitForExit, StartStep::RecordStopped]
    );
    assert_eq!(network_failure_steps(), vec![StartStep::KillChild, StartStep::ReapChild]);
}
