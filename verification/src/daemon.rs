//! The daemon's side of the container API: its state directory and the
//! conversion of requests and answers.
use vstd::prelude::*;
use crate::container::{ContainerManager, ContainerStatus};

verus! {

/// The daemon's service state.
pub struct MyVirtualOs {
    pub base_dir: String,
}

/// The daemon's default state directory.
pub const DAEMON_BASE_DIR: &'static str = "/var/lib/docklet";

impl MyVirtualOs {
    /// The service with the default state directory.
    pub fn new() -> (s: Self)
        ensures
            s.base_dir@ == DAEMON_BASE_DIR@,
    {
        MyVirtualOs { base_dir: DAEMON_BASE_DIR.to_owned() }
    }

    /// A container manager over the daemon's state directory.
    pub fn manager(&self) -> (m: ContainerManager)
        ensures
            m.base_dir == self.base_dir,
            m.cgroup_parent@ == crate::container::CGROUP_PARENT@,
    {
        ContainerManager::new(self.base_dir.clone())
    }
}

impl Default for MyVirtualOs {
    fn default() -> (s: Self)
        ensures
            s.base_dir@ == DAEMON_BASE_DIR@,
    {
        Self::new()
    }
}

/// A memory limit from a request: 0 means none.
pub fn requested_memory(memory_limit: u64) -> (r: Option<u64>)
    ensures
        memory_limit == 0 <==> r is None,
        r matches Some(m) ==> m == memory_limit,
{
    if memory_limit == 0 {
        None
    } else {
        Some(memory_limit)
    }
}

/// A container id from a request: the empty id means "generate one".
pub fn requested_id(id: String) -> (r: Option<String>)
    ensures
        id@.len() == 0 <==> r is None,
        r matches Some(s) ==> s == id,
{
    if id.as_str().is_empty() {
        None
    } else {
        Some(id)
    }
}

/// The status as the daemon reports it.
pub open spec fn status_name(s: ContainerStatus) -> &'static str {
    match s {
        ContainerStatus::Created => "Created",
        ContainerStatus::Running => "Running",
        ContainerStatus::Stopped => "Stopped",
    }
}

/// The name under which a status is reported.
pub fn status_text(s: ContainerStatus) -> (r: &'static str)
    ensures
        r == status_name(s),
{
    match s {
        ContainerStatus::Created => "Created",
        ContainerStatus::Running => "Running",
        ContainerStatus::Stopped => "Stopped",
    }
}

/// Why the daemon refused a request.
#[derive(Debug, PartialEq, Eq)]
pub enum RequestError {
    /// A foreground run cannot be served through the daemon.
    ForegroundRunUnsupported,
}

/// The daemon serves only detached runs.
pub fn check_run_request(detach: bool) -> (r: Result<(), RequestError>)
    ensures
        r is Ok <==> detach,
        r matches Err(e) ==> e == RequestError::ForegroundRunUnsupported,
{
    if detach {
        Ok(())
    } else {
        Err(RequestError::ForegroundRunUnsupported)
    }
}

/// What the daemon reports for one container.
pub struct ContainerSummary {
    pub id: String,
    pub image: String,
    pub command: String,
    pub status: String,
    pub pid: i32,
    pub network_ip: String,
}

/// A listing entry: a missing pid is reported as 0, a missing address as "".
pub fn summarize(
    id: String,
    image: String,
    command: String,
    status: ContainerStatus,
    pid: Option<i32>,
    network_ip: Option<String>,
) -> (r: ContainerSummary)
    ensures
        r.id == id && r.image == image && r.command == command,
        r.status@ == status_name(status)@,
        r.pid == (match pid {
            Some(p) => p,
            None => 0,
        }),
        r.network_ip@ == (match network_ip {
            Some(a) => a@,
            None => Seq::<char>::empty(),
        }),
{
    let pid = match pid {
        Some(p) => p,
        None => 0,
    };
    let network_ip = match network_ip {
        Some(a) => a,
        None => String::new(),
    };
    ContainerSummary { id, image, command, status: status_text(status).to_owned(), pid, network_ip }
}

} // verus!
