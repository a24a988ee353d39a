//! Container bookkeeping: where a container's state lives, the lifecycle of
//! a container (created, running, stopped) as a state machine, the naming of
//! new containers and the allocation of their addresses in 10.0.0.0/24.
use vstd::prelude::*;
use crate::paths::{join_path, path_join};
use crate::text::{chars_of, decimal, find_first, lemma_prefix_len_before, prefix_len_before, push_decimal, string_of_range};

verus! {

/// Lifecycle status of a container.
#[derive(Clone, Copy, Debug, PartialEq, Eq, Structural)]
pub enum ContainerStatus {
    Created,
    Running,
    Stopped,
}

/// The parts of a container's recorded state that its lifecycle changes.
#[derive(Debug)]
pub struct ContainerState {
    pub status: ContainerStatus,
    pub pid: Option<i32>,
    pub cgroup_path: Option<String>,
}

/// Why a lifecycle step was refused.
#[derive(Debug, PartialEq, Eq)]
pub enum LifecycleError {
    /// Only a created container can be started.
    NotCreated,
    /// Only a running container can be stopped.
    NotRunning,
}

/// Something that happens to a container.
pub enum LifecycleEvent {
    /// Its process was started with this pid, in this group (if limits apply).
    Started { pid: i32, cgroup_path: Option<String> },
    /// Its foreground process exited.
    Exited,
    /// It was stopped on request.
    Stopped,
    /// A listing found whether its process is still alive.
    Observed { alive: bool },
}

impl ContainerState {
    /// A consistent state: a process id is recorded exactly while running.
    pub open spec fn wf(&self) -> bool {
        (self.status == ContainerStatus::Running) <==> self.pid is Some
    }

    /// A freshly created container: no process, no group.
    pub fn created() -> (s: Self)
        ensures
            s.status == ContainerStatus::Created,
            s.pid is None,
            s.cgroup_path is None,
            s.wf(),
    {
        ContainerState { status: ContainerStatus::Created, pid: None, cgroup_path: None }
    }

    /// Whether a start may begin.
    pub fn check_startable(&self) -> (r: Result<(), LifecycleError>)
        ensures
            r is Ok <==> self.status == ContainerStatus::Created,
            r matches Err(e) ==> e == LifecycleError::NotCreated,
    {
        match self.status {
            ContainerStatus::Created => Ok(()),
            _ => Err(LifecycleError::NotCreated),
        }
    }

    /// Whether a stop may begin; gives the pid to signal. A running
    /// container must have its pid recorded.
    pub fn check_stoppable(&self) -> (r: Result<i32, LifecycleError>)
        requires
            self.status == ContainerStatus::Running ==> self.pid is Some,
        ensures
            r is Ok <==> self.status == ContainerStatus::Running,
            r matches Ok(pid) ==> self.pid == Some(pid),
            r matches Err(e) ==> e == LifecycleError::NotRunning,
    {
        match self.status {
            ContainerStatus::Running => match self.pid {
                Some(p) => Ok(p),
                None => Err(LifecycleError::NotRunning),
            },
            _ => Err(LifecycleError::NotRunning),
        }
    }

    /// Whether deleting the container must stop it first.
    pub fn needs_stop_before_delete(&self) -> (r: bool)
        ensures
            r == (self.status == ContainerStatus::Running),
    {
        self.status == ContainerStatus::Running
    }

    /// The state after `event`, or why the event is not allowed now.
    pub fn step(self, event: LifecycleEvent) -> (r: Result<ContainerState, LifecycleError>)
        ensures
            r == next_state(self, event),
            self.wf() ==> (r matches Ok(s) ==> s.wf()),
    {
        match event {
            LifecycleEvent::Started { pid, cgroup_path } => {
                if self.status != ContainerStatus::Created {
                    return Err(LifecycleError::NotCreated);
                }
                let cg = match cgroup_path {
                    Some(p) => Some(p),
                    None => self.cgroup_path,
                };
                Ok(ContainerState { status: ContainerStatus::Running, pid: Some(pid), cgroup_path: cg })
            },
            LifecycleEvent::Exited => {
                if self.status != ContainerStatus::Running {
                    return Err(LifecycleError::NotRunning);
                }
                Ok(ContainerState { status: ContainerStatus::Stopped, pid: None, cgroup_path: self.cgroup_path })
            },
            LifecycleEvent::Stopped => {
                if self.status != ContainerStatus::Running {
                    return Err(LifecycleError::NotRunning);
                }
                Ok(ContainerState { status: ContainerStatus::Stopped, pid: None, cgroup_path: None })
            },
            LifecycleEvent::Observed { alive } => {
                if self.status == ContainerStatus::Running && !alive {
                    Ok(ContainerState { status: ContainerStatus::Stopped, pid: None, cgroup_path: self.cgroup_path })
                } else {
                    Ok(self)
                }
            },
        }
    }
}

/// The lifecycle: a created container starts (running, with its pid and,
/// when limits apply, its group); a running one exits (stopped, no pid) or is
/// stopped (stopped, no pid, group removed); a listing marks a running
/// container whose process is gone as stopped and leaves every other state
/// as it is.
pub open spec fn next_state(s: ContainerState, event: LifecycleEvent) -> Result<ContainerState, LifecycleError> {
    match event {
        LifecycleEvent::Started { pid, cgroup_path } => if s.status == ContainerStatus::Created {
            Ok(
                ContainerState {
                    status: ContainerStatus::Running,
                    pid: Some(pid),
                    cgroup_path: if cgroup_path is Some { cgroup_path } else { s.cgroup_path },
                },
            )
        } else {
            Err(LifecycleError::NotCreated)
        },
        LifecycleEvent::Exited => if s.status == ContainerStatus::Running {
            Ok(ContainerState { status: ContainerStatus::Stopped, pid: None, cgroup_path: s.cgroup_path })
        } else {
            Err(LifecycleError::NotRunning)
        },
        LifecycleEvent::Stopped => if s.status == ContainerStatus::Running {
            Ok(ContainerState { status: ContainerStatus::Stopped, pid: None, cgroup_path: None })
        } else {
            Err(LifecycleError::NotRunning)
        },
        LifecycleEvent::Observed { alive } => if s.status == ContainerStatus::Running && !alive {
            Ok(ContainerState { status: ContainerStatus::Stopped, pid: None, cgroup_path: s.cgroup_path })
        } else {
            Ok(s)
        },
    }
}

/// Every step keeps the state consistent: a pid is recorded exactly while
/// the container runs.
pub proof fn lemma_step_keeps_consistency(s: ContainerState, event: LifecycleEvent)
    requires
        s.wf(),
    ensures
        next_state(s, event) matches Ok(t) ==> t.wf(),
{
}

/// A stopped container never runs again: no event takes it back to running.
pub proof fn lemma_stopped_is_final(s: ContainerState, event: LifecycleEvent)
    requires
        s.status == ContainerStatus::Stopped,
    ensures
        next_state(s, event) matches Ok(t) ==> t.status == ContainerStatus::Stopped,
{
}

/// Only a created container can be started, and starting it makes it run.
pub proof fn lemma_start_only_from_created(s: ContainerState, pid: i32, cgroup_path: Option<String>)
    ensures
        next_state(s, LifecycleEvent::Started { pid, cgroup_path }) is Ok <==> s.status
            == ContainerStatus::Created,
        next_state(s, LifecycleEvent::Started { pid, cgroup_path }) matches Ok(t) ==> t.status
            == ContainerStatus::Running && t.pid == Some(pid),
{
}

/// A stop is allowed exactly for a running container and leaves it stopped,
/// with neither process nor group recorded.
pub proof fn lemma_stop_clears_process(s: ContainerState)
    ensures
        next_state(s, LifecycleEvent::Stopped) is Ok <==> s.status == ContainerStatus::Running,
        next_state(s, LifecycleEvent::Stopped) matches Ok(t) ==> t.status == ContainerStatus::Stopped
            && t.pid is None && t.cgroup_path is None,
{
}

/// Observing a live process, or a container that is not running, changes nothing.
pub proof fn lemma_observation_is_idempotent(s: ContainerState, alive: bool)
    requires
        alive || s.status != ContainerStatus::Running,
    ensures
        next_state(s, LifecycleEvent::Observed { alive }) == Ok::<ContainerState, LifecycleError>(s),
{
}

/// Manages the containers recorded below a base directory.
pub struct ContainerManager {
    pub base_dir: String,
    pub cgroup_parent: String,
}

/// The control-group directory under which containers get their groups.
pub const CGROUP_PARENT: &'static str = "/sys/fs/cgroup/docklet";

/// Where container `id`'s directory lives below `base`.
pub open spec fn container_location(base: Seq<char>, id: Seq<char>) -> Seq<char> {
    path_join(path_join(base, "containers"@), id)
}

impl ContainerManager {
    /// A manager for containers recorded below `base_dir`, with their groups
    /// below the runtime's control-group directory.
    pub fn new(base_dir: String) -> (m: Self)
        ensures
            m.base_dir == base_dir,
            m.cgroup_parent@ == CGROUP_PARENT@,
    {
        ContainerManager { base_dir, cgroup_parent: CGROUP_PARENT.to_owned() }
    }

    /// The directory that holds all container directories.
    pub fn containers_dir(&self) -> (r: String)
        ensures
            r@ == path_join(self.base_dir@, "containers"@),
    {
        join_path(self.base_dir.as_str(), "containers")
    }

    /// The directory of container `id`.
    pub fn container_dir(&self, id: &str) -> (r: String)
        ensures
            r@ == container_location(self.base_dir@, id@),
    {
        let dir = self.containers_dir();
        join_path(dir.as_str(), id)
    }

    /// The state file of container `id`.
    pub fn state_path(&self, id: &str) -> (r: String)
        ensures
            r@ == path_join(container_location(self.base_dir@, id@), "state.json"@),
    {
        let dir = self.container_dir(id);
        join_path(dir.as_str(), "state.json")
    }

    /// The control group of container `id`.
    pub fn cgroup_dir(&self, id: &str) -> (r: String)
        ensures
            r@ == path_join(self.cgroup_parent@, id@),
    {
        join_path(self.cgroup_parent.as_str(), id)
    }
}

/// Whether `n` is taken by one of the used host numbers.
pub open spec fn host_used(used: Seq<u8>, n: int) -> bool {
    exists|i: int| 0 <= i < used.len() && used[i] == n
}

/// The smallest host number from 2 up that is not used.
pub open spec fn lowest_free_host(used: Seq<u8>, n: int) -> int
    decreases 256 - n,
{
    if n >= 256 || !host_used(used, n) {
        n
    } else {
        lowest_free_host(used, n + 1)
    }
}

/// Why no address could be given.
#[derive(Debug, PartialEq, Eq)]
pub enum AddressError {
    /// Every host number from 2 to 254 is taken.
    NoFreeAddress,
}

/// The address for host number `n` in 10.0.0.0/24.
pub open spec fn subnet_address(n: int) -> Seq<char> {
    "10.0.0."@ + decimal(n as nat)
}

proof fn lemma_lowest_free(used: Seq<u8>, n: int)
    requires
        2 <= n <= 256,
    ensures
        n <= lowest_free_host(used, n) <= 256,
        lowest_free_host(used, n) < 256 ==> !host_used(used, lowest_free_host(used, n)),
        forall|k: int| n <= k < lowest_free_host(used, n) ==> host_used(used, k),
    decreases 256 - n,
{
    if n < 256 && host_used(used, n) {
        lemma_lowest_free(used, n + 1);
    }
}

/// Gives the next address in 10.0.0.0/24 from the host numbers that other
/// containers use: the smallest free number from 2 up (1 is the gateway),
/// refused when every number from 2 to 254 is taken.
pub fn allocate_ip(used: &Vec<u8>) -> (r: Result<String, AddressError>)
    ensures
        lowest_free_host(used@, 2) <= 254 ==> (r matches Ok(a) && a@ == subnet_address(
            lowest_free_host(used@, 2),
        )),
        lowest_free_host(used@, 2) > 254 ==> r == Err::<String, AddressError>(AddressError::NoFreeAddress),
{
    // which host numbers are taken
    let mut taken: Vec<bool> = Vec::new();
    let mut k: usize = 0;
    while k < 256
        invariant
            k <= 256,
            taken@.len() == k,
            forall|j: int| 0 <= j < k ==> !taken@[j],
        decreases 256 - k,
    {
        taken.push(false);
        k += 1;
    }
    let mut i: usize = 0;
    while i < used.len()
        invariant
            i <= used@.len(),
            taken@.len() == 256,
            forall|n: int| 0 <= n < 256 ==> (taken@[n] <==> exists|j: int| 0 <= j < i && used@[j] == n),
        decreases used@.len() - i,
    {
        let u = used[i] as usize;
        taken.set(u, true);
        i += 1;
        assert forall|n: int| 0 <= n < 256 implies (taken@[n] <==> exists|j: int| 0 <= j < i && used@[j] == n) by {
            if taken@[n] && n != u {
                let j = choose|j: int| 0 <= j < i - 1 && used@[j] == n;
                assert(0 <= j < i && used@[j] == n);
            }
            if n == u {
                assert(used@[i - 1] == n);
            }
        }
    }
    proof {
        lemma_lowest_free(used@, 2);
    }
    let mut next: usize = 2;
    while next < 256 && taken[next]
        invariant
            2 <= next <= 256,
            taken@.len() == 256,
            forall|n: int| 0 <= n < 256 ==> (taken@[n] <==> host_used(used@, n)),
            lowest_free_host(used@, next as int) == lowest_free_host(used@, 2),
        decreases 256 - next,
    {
        next += 1;
    }
    if next > 254 {
        return Err(AddressError::NoFreeAddress);
    }
    let mut a = "10.0.0.".to_owned();
    push_decimal(&mut a, next as u64);
    Ok(a)
}

/// Whether `c` is a lower-case hexadecimal digit.
pub open spec fn is_lower_hex(c: char) -> bool {
    ('0' <= c && c <= '9') || ('a' <= c && c <= 'f')
}

/// The text form of a UUID: 32 lower-case hexadecimal digits in groups of
/// 8, 4, 4, 4 and 12, separated by '-'.
pub open spec fn uuid_text(s: Seq<char>) -> bool {
    &&& s.len() == 36
    &&& forall|i: int| 0 <= i < 36 ==> if i == 8 || i == 13 || i == 18 || i == 23 {
        s[i] == '-'
    } else {
        is_lower_hex(#[trigger] s[i])
    }
}

/// `uuid::Uuid::new_v4` turned into text by its `Display` impl: a random
/// version-4 UUID, written as lower-case hyphenated hex. The contract states
/// only the shape of the text; the digits are random.
#[verifier::external_body]
fn random_uuid_text() -> (s: String)
    ensures
        uuid_text(s@),
{
    uuid::Uuid::new_v4().to_string()
}

/// The id of a new container: the one asked for, or else the first group of
/// a random UUID (eight lower-case hex digits).
pub fn container_id_or_generated(id: Option<String>) -> (r: String)
    ensures
        id matches Some(s) ==> r == s,
        id is None ==> r@.len() == 8 && forall|i: int| 0 <= i < 8 ==> is_lower_hex(#[trigger] r@[i]),
{
    match id {
        Some(s) => s,
        None => {
            let text = random_uuid_text();
            let chars = chars_of(text.as_str());
            let n = find_first(&chars, '-');
            proof {
                lemma_prefix_len_before(chars@, '-');
                assert(chars@[8] == '-');
                assert forall|i: int| 0 <= i < 8 implies chars@[i] != '-' by {
                    assert(is_lower_hex(chars@[i]));
                }
            }
            let r = string_of_range(&chars, 0, n);
            assert forall|i: int| 0 <= i < 8 implies is_lower_hex(#[trigger] r@[i]) by {
                assert(r@[i] == chars@[i]);
            }
            r
        },
    }
}

/// An address handed out is never one that is in use, is never the network
/// (0) or the gateway (1), and every host number below it is taken.
pub proof fn lemma_allocated_host_is_free(used: Seq<u8>)
    requires
        lowest_free_host(used, 2) <= 254,
    ensures
        2 <= lowest_free_host(used, 2),
        !host_used(used, lowest_free_host(used, 2)),
        forall|k: int| 2 <= k < lowest_free_host(used, 2) ==> host_used(used, k),
{
    lemma_lowest_free(used, 2);
}

/// No address is given exactly when every host number from 2 to 254 is in use.
pub proof fn lemma_no_address_iff_all_taken(used: Seq<u8>)
    ensures
        lowest_free_host(used, 2) > 254 <==> forall|k: int| 2 <= k <= 254 ==> #[trigger] host_used(used, k),
{
    lemma_lowest_free(used, 2);
    let n = lowest_free_host(used, 2);
    if n <= 254 {
        assert(!host_used(used, n));
    }
}

/// How long a stopped container's process gets after SIGTERM before it is
/// killed, in nanoseconds (10 seconds).
pub const STOP_GRACE_NS: u64 = 10_000_000_000;

/// What a liveness probe (signal 0) of a stopping container's process found.
#[derive(Clone, Copy, Debug, PartialEq, Eq, Structural)]
pub enum ProcessProbe {
    /// The process still exists.
    Alive,
    /// No such process (ESRCH).
    Gone,
    /// The probe failed otherwise.
    Failed,
}

/// What the stop loop does next.
#[derive(Clone, Copy, Debug, PartialEq, Eq, Structural)]
pub enum StopAction {
    /// Wait a little and probe again.
    Wait,
    /// The grace period is over: send SIGKILL and finish.
    ForceKill,
    /// The process is gone: finish.
    Finished,
    /// The probe failed: the stop fails.
    Fail,
}

/// The stop loop's decision after SIGTERM: a process that is gone ends the
/// wait, a failed probe fails the stop, and a live process is waited for
/// until more than the grace period has passed, then killed.
pub fn stop_action(probe: ProcessProbe, elapsed_ns: u64) -> (r: StopAction)
    ensures
        r == (match probe {
            ProcessProbe::Gone => StopAction::Finished,
            ProcessProbe::Failed => StopAction::Fail,
            ProcessProbe::Alive => if elapsed_ns > STOP_GRACE_NS {
                StopAction::ForceKill
            } else {
                StopAction::Wait
            },
        }),
{
    match probe {
        ProcessProbe::Gone => StopAction::Finished,
        ProcessProbe::Failed => StopAction::Fail,
        ProcessProbe::Alive => if elapsed_ns > STOP_GRACE_NS {
            StopAction::ForceKill
        } else {
            StopAction::Wait
        },
    }
}

/// A step in starting a container once its process has been spawned and is
/// waiting for the ready byte.
#[derive(Clone, Copy, Debug, PartialEq, Eq, Structural)]
pub enum StartStep {
    /// Set up the host bridge and connect the container's namespace.
    SetUpNetwork,
    /// Write the ready byte: the process may now run its command.
    ReleaseChild,
    /// Record the container as running.
    RecordRunning,
    /// Wait in the foreground until the process exits.
    WaitForExit,
    /// Remove the container's host-side network end.
    TearDownNetwork,
    /// Record the container as stopped.
    RecordStopped,
    /// Kill the waiting process.
    KillChild,
    /// Reap the killed process.
    ReapChild,
}

/// The order of a start: the network (for a container with an address) is
/// set up before the process is released, the container is recorded as
/// running, and a foreground start then waits for the exit, removes the
/// network end (when there is one) and records the container as stopped.
pub open spec fn start_sequence(has_network: bool, detach: bool) -> Seq<StartStep> {
    let setup = if has_network { seq![StartStep::SetUpNetwork] } else { Seq::empty() };
    let teardown = if has_network { seq![StartStep::TearDownNetwork] } else { Seq::empty() };
    let foreground = if detach {
        Seq::empty()
    } else {
        seq![StartStep::WaitForExit] + teardown + seq![StartStep::RecordStopped]
    };
    setup + seq![StartStep::ReleaseChild, StartStep::RecordRunning] + foreground
}

/// The steps of a start, in order.
pub fn start_steps(has_network: bool, detach: bool) -> (v: Vec<StartStep>)
    ensures
        v@ == start_sequence(has_network, detach),
{
    let mut v: Vec<StartStep> = Vec::new();
    if has_network {
        v.push(StartStep::SetUpNetwork);
    }
    v.push(StartStep::ReleaseChild);
    v.push(StartStep::RecordRunning);
    if !detach {
        v.push(StartStep::WaitForExit);
        if has_network {
            v.push(StartStep::TearDownNetwork);
        }
        v.push(StartStep::RecordStopped);
    }
    assert(v@ =~= start_sequence(has_network, detach));
    v
}

/// When setting up the network fails, the start ends there: the waiting
/// process is killed and then reaped, and never released.
pub fn network_failure_steps() -> (v: Vec<StartStep>)
    ensures
        v@ == seq![StartStep::KillChild, StartStep::ReapChild],
{
    let mut v: Vec<StartStep> = Vec::new();
    v.push(StartStep::KillChild);
    v.push(StartStep::ReapChild);
    assert(v@ =~= seq![StartStep::KillChild, StartStep::ReapChild]);
    v
}

/// A started process is released only after its network is set up: in every
/// start, a set-up step comes before the release, exactly when the container
/// has an address.
pub proof fn lemma_release_after_network(has_network: bool, detach: bool)
    ensures
        start_sequence(has_network, detach).contains(StartStep::ReleaseChild),
        has_network ==> start_sequence(has_network, detach)[0] == StartStep::SetUpNetwork
            && start_sequence(has_network, detach)[1] == StartStep::ReleaseChild,
        !has_network ==> start_sequence(has_network, detach)[0] == StartStep::ReleaseChild
            && !start_sequence(has_network, detach).contains(StartStep::SetUpNetwork),
{
    let s = start_sequence(has_network, detach);
    if has_network {
        assert(s[1] == StartStep::ReleaseChild);
    } else {
        assert(s[0] == StartStep::ReleaseChild);
        assert forall|i: int| 0 <= i < s.len() implies s[i] != StartStep::SetUpNetwork by {}
    }
}

} // verus!
