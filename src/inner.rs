use vstd::prelude::*;
use tokio::net::UnixStream;
use tokio::process::Child;
use tokio::task::JoinHandle;
use crate::capabilities::{ch_capabilities, ch_flags, Capabilities};
use crate::config::{is_default_config, HypervisorConfig};
use crate::device::{DeviceType, PendingDevices};
use crate::persist::{HypervisorState, PersistError, HYPERVISOR_NAME_CH};
use crate::shutdown::{after_request, ShutdownObserver, ShutdownSignal};
use crate::tasks::{TaskRegistry, TaskResult};

verus! {

broadcast use vstd::string::group_string_axioms;

#[verifier::external_type_specification]
#[verifier::external_body]
pub struct ExChild(Child);

#[verifier::external_type_specification]
#[verifier::external_body]
pub struct ExUnixStream(UnixStream);

/// Timeout of control operations on a new instance, in seconds.
pub const CH_DEFAULT_TIMEOUT_SECS: u32 = 10;

/// Coarse lifecycle of the VM.
#[derive(Debug, Clone, Copy, PartialEq, Eq, Structural)]
pub enum VmmState {
    /// No hypervisor process is known.
    NotReady,
    /// The hypervisor process runs and its control socket is connected.
    VmRunning,
    /// The hypervisor process was reaped.
    Stopped,
}

/// The hypervisor process: its handle and its id, held together.
pub struct VmProcess {
    pub child: Child,
    pub pid: u32,
}

/// Why a lifecycle step was refused.
#[derive(Debug, Clone, Copy, PartialEq, Eq, Structural)]
pub enum LifecycleError {
    /// A process was attached while the instance was not in `NotReady`.
    AlreadyStarted,
}

/// The supervisory state of one hypervisor instance.
pub struct CloudHypervisorInner {
    pub(crate) state: VmmState,
    pub(crate) id: String,
    pub(crate) api_socket: Option<UnixStream>,
    pub(crate) extra_args: Option<Vec<String>>,
    pub(crate) config: Option<HypervisorConfig>,
    pub(crate) process: Option<VmProcess>,
    pub(crate) timeout_secs: i32,
    pub(crate) netns: Option<String>,
    /// Sandbox-specific directory.
    pub(crate) vm_path: String,
    /// Hypervisor runtime directory.
    pub(crate) run_dir: String,
    /// Subdirectory of `vm_path`.
    pub(crate) jailer_root: String,
    /// Devices to add to the VM once it boots.
    pub(crate) pending_devices: PendingDevices,
    pub(crate) capabilities: Capabilities,
    pub(crate) shutdown: ShutdownSignal,
    pub(crate) tasks: TaskRegistry,
}

/// What a `CloudHypervisorInner` holds, as plain values.
pub ghost struct InnerView {
    pub state: VmmState,
    pub id: Seq<char>,
    pub has_api_socket: bool,
    pub extra_args: Option<Seq<String>>,
    pub config: Option<HypervisorConfig>,
    pub pid: Option<u32>,
    pub timeout_secs: i32,
    pub netns: Option<Seq<char>>,
    pub vm_path: Seq<char>,
    pub run_dir: Seq<char>,
    pub jailer_root: Seq<char>,
    pub pending_devices: Seq<DeviceType>,
    pub capabilities: u32,
    pub shutdown_requested: bool,
    pub tasks: Seq<JoinHandle<TaskResult>>,
}

impl View for CloudHypervisorInner {
    type V = InnerView;

    closed spec fn view(&self) -> InnerView {
        InnerView {
            state: self.state,
            id: self.id@,
            has_api_socket: self.api_socket is Some,
            extra_args: match self.extra_args {
                Some(a) => Some(a@),
                None => None,
            },
            config: self.config,
            pid: match self.process {
                Some(p) => Some(p.pid),
                None => None,
            },
            timeout_secs: self.timeout_secs,
            netns: match self.netns {
                Some(n) => Some(n@),
                None => None,
            },
            vm_path: self.vm_path@,
            run_dir: self.run_dir@,
            jailer_root: self.jailer_root@,
            pending_devices: self.pending_devices@,
            capabilities: self.capabilities@,
            shutdown_requested: self.shutdown@,
            tasks: self.tasks@,
        }
    }
}

/// The state of a new instance: not started, nothing attached, nothing
/// queued or registered, the signal not fired, empty paths, no configuration
/// and the default timeout.
pub open spec fn is_fresh(v: InnerView) -> bool {
    &&& v.state == VmmState::NotReady
    &&& !v.has_api_socket
    &&& v.extra_args is None
    &&& v.pid is None
    &&& v.timeout_secs == CH_DEFAULT_TIMEOUT_SECS as i32
    &&& v.netns is None
    &&& v.jailer_root == Seq::<char>::empty()
    &&& v.pending_devices == Seq::<DeviceType>::empty()
    &&& v.capabilities == ch_flags()
    &&& !v.shutdown_requested
    &&& v.tasks.len() == 0
}

/// `c` is the configuration in force for `v`: the one set, else the
/// canonical default.
pub open spec fn config_in_force(v: InnerView, c: HypervisorConfig) -> bool {
    match v.config {
        Some(set) => c == set,
        None => is_default_config(c),
    }
}

/// `s` is the snapshot of an instance in state `v`.
pub open spec fn is_snapshot_of(v: InnerView, s: HypervisorState) -> bool {
    &&& s.hypervisor_type@ == HYPERVISOR_NAME_CH@
    &&& s.id@ == v.id
    &&& s.vm_path@ == v.vm_path
    &&& s.run_dir@ == v.run_dir
    &&& !s.jailed
    &&& s.jailer_root@ == Seq::<char>::empty()
    &&& s.netns is None
    &&& s.cached_block_devices@.len() == 0
    &&& config_in_force(v, s.config)
}

/// `v` is a fresh instance rebuilt from snapshot `s`.
pub open spec fn is_restored_from(s: HypervisorState, v: InnerView) -> bool {
    &&& is_fresh(v)
    &&& v.id == s.id@
    &&& v.vm_path == s.vm_path@
    &&& v.run_dir == s.run_dir@
    &&& v.config == Some(s.config)
}

impl CloudHypervisorInner {
    /// The invariant: a process is attached exactly while the VM runs, the
    /// control socket only then, and the timeout is positive.
    pub closed spec fn wf(&self) -> bool {
        &&& (self.process is Some) == (self.state == VmmState::VmRunning)
        &&& self.api_socket is Some ==> self.state == VmmState::VmRunning
        &&& self.timeout_secs > 0
    }

    /// A new instance.  No I/O is done.
    pub fn new() -> (r: Self)
        ensures
            r.wf(),
            is_fresh(r@),
            r@.id == Seq::<char>::empty(),
            r@.vm_path == Seq::<char>::empty(),
            r@.run_dir == Seq::<char>::empty(),
            r@.config is None,
    {
        let capabilities = ch_capabilities();
        CloudHypervisorInner {
            api_socket: None,
            extra_args: None,
            process: None,
            config: None,
            state: VmmState::NotReady,
            timeout_secs: CH_DEFAULT_TIMEOUT_SECS as i32,
            id: String::new(),
            jailer_root: String::new(),
            vm_path: String::new(),
            run_dir: String::new(),
            netns: None,
            pending_devices: PendingDevices::new(),
            capabilities,
            shutdown: ShutdownSignal::new(),
            tasks: TaskRegistry::new(),
        }
    }

    /// Stores the configuration, replacing any earlier one.
    pub fn set_hypervisor_config(&mut self, config: HypervisorConfig)
        requires
            old(self).wf(),
        ensures
            final(self).wf(),
            final(self)@ == (InnerView { config: Some(config), ..old(self)@ }),
    {
        self.config = Some(config);
    }

    /// The configuration in force; never fails.
    pub fn hypervisor_config(&self) -> (r: HypervisorConfig)
        ensures
            config_in_force(self@, r),
    {
        match &self.config {
            Some(c) => c.clone(),
            None => HypervisorConfig::default(),
        }
    }

    /// The snapshot of this instance: tag, identity, paths and configuration;
    /// jail, namespace and block-device cache at their neutral values.
    pub fn save(&self) -> (r: HypervisorState)
        ensures
            is_snapshot_of(self@, r),
    {
        HypervisorState {
            hypervisor_type: HYPERVISOR_NAME_CH.to_string(),
            id: self.id.clone(),
            vm_path: self.vm_path.clone(),
            jailed: false,
            jailer_root: String::new(),
            netns: None,
            config: self.hypervisor_config(),
            run_dir: self.run_dir.clone(),
            cached_block_devices: Vec::new(),
        }
    }

    /// A fresh instance rebuilt from `state`, which is not attached to any
    /// process.  A snapshot of another backend is refused.
    pub fn restore(_hypervisor_args: (), state: HypervisorState) -> (r: Result<Self, PersistError>)
        ensures
            r is Ok <==> state.hypervisor_type@ == HYPERVISOR_NAME_CH@,
            r matches Ok(c) ==> c.wf() && is_restored_from(state, c@),
            r matches Err(e) ==> e == PersistError::BackendMismatch(state.hypervisor_type),
    {
        let tag = HYPERVISOR_NAME_CH.to_string();
        if state.hypervisor_type != tag {
            return Err(PersistError::BackendMismatch(state.hypervisor_type));
        }
        let mut ch = Self::new();
        ch.config = Some(state.config);
        ch.state = VmmState::NotReady;
        ch.id = state.id;
        ch.vm_path = state.vm_path;
        ch.run_dir = state.run_dir;
        Ok(ch)
    }

    /// Attaches the started hypervisor process and its connected control
    /// socket.  Refused unless no process was ever attached.
    pub fn start(&mut self, child: Child, pid: u32, api_socket: UnixStream) -> (r: Result<(), LifecycleError>)
        requires
            old(self).wf(),
        ensures
            final(self).wf(),
            r is Ok <==> old(self)@.state == VmmState::NotReady,
            r is Ok ==> final(self)@ == (InnerView {
                state: VmmState::VmRunning,
                pid: Some(pid),
                has_api_socket: true,
                ..old(self)@
            }),
            r matches Err(e) ==> e == LifecycleError::AlreadyStarted && final(self)@ == old(self)@,
    {
        if self.state != VmmState::NotReady {
            return Err(LifecycleError::AlreadyStarted);
        }
        self.process = Some(VmProcess { child, pid });
        self.api_socket = Some(api_socket);
        self.state = VmmState::VmRunning;
        Ok(())
    }

    /// Detaches the hypervisor process for reaping: drops the control socket,
    /// clears the process and its id together and moves to `Stopped`.  Hands
    /// out the process handle, if one was attached.
    pub fn reap(&mut self) -> (r: Option<Child>)
        requires
            old(self).wf(),
        ensures
            final(self).wf(),
            r is Some <==> old(self)@.pid is Some,
            final(self)@ == (InnerView {
                state: if old(self)@.pid is Some { VmmState::Stopped } else { old(self)@.state },
                pid: None,
                has_api_socket: false,
                ..old(self)@
            }),
    {
        self.api_socket = None;
        match self.process.take() {
            Some(p) => {
                self.state = VmmState::Stopped;
                Some(p.child)
            },
            None => None,
        }
    }

    /// Sets the sandbox identity.
    pub fn set_id(&mut self, id: String)
        requires
            old(self).wf(),
        ensures
            final(self).wf(),
            final(self)@ == (InnerView { id: id@, ..old(self)@ }),
    {
        self.id = id;
    }

    /// Sets the sandbox-specific directory.
    pub fn set_vm_path(&mut self, vm_path: String)
        requires
            old(self).wf(),
        ensures
            final(self).wf(),
            final(self)@ == (InnerView { vm_path: vm_path@, ..old(self)@ }),
    {
        self.vm_path = vm_path;
    }

    /// Sets the hypervisor runtime directory.
    pub fn set_run_dir(&mut self, run_dir: String)
        requires
            old(self).wf(),
        ensures
            final(self).wf(),
            final(self)@ == (InnerView { run_dir: run_dir@, ..old(self)@ }),
    {
        self.run_dir = run_dir;
    }

    /// Sets the jail subdirectory, taken relative to the sandbox directory.
    pub fn set_jailer_root(&mut self, jailer_root: String)
        requires
            old(self).wf(),
        ensures
            final(self).wf(),
            final(self)@ == (InnerView { jailer_root: jailer_root@, ..old(self)@ }),
    {
        self.jailer_root = jailer_root;
    }

    /// Sets the network namespace the process joins.
    pub fn set_netns(&mut self, netns: Option<String>)
        requires
            old(self).wf(),
        ensures
            final(self).wf(),
            final(self)@ == (InnerView {
                netns: match netns {
                    Some(n) => Some(n@),
                    None => None,
                },
                ..old(self)@
            }),
    {
        self.netns = netns;
    }

    /// Sets the extra arguments the process is launched with.
    pub fn set_extra_args(&mut self, extra_args: Vec<String>)
        requires
            old(self).wf(),
        ensures
            final(self).wf(),
            final(self)@ == (InnerView { extra_args: Some(extra_args@), ..old(self)@ }),
    {
        self.extra_args = Some(extra_args);
    }

    /// Queues a device request until the guest has booted.
    pub fn add_pending_device(&mut self, device: DeviceType)
        requires
            old(self).wf(),
        ensures
            final(self).wf(),
            final(self)@ == (InnerView {
                pending_devices: old(self)@.pending_devices.push(device),
                ..old(self)@
            }),
    {
        self.pending_devices.enqueue(device);
    }

    /// Hands out the queued device requests, oldest first, and empties the
    /// queue.
    pub fn drain_pending_devices(&mut self) -> (r: Vec<DeviceType>)
        requires
            old(self).wf(),
        ensures
            final(self).wf(),
            r@ == old(self)@.pending_devices,
            final(self)@ == (InnerView {
                pending_devices: Seq::<DeviceType>::empty(),
                ..old(self)@
            }),
    {
        self.pending_devices.drain()
    }

    /// Fires the shutdown signal; later calls change nothing.
    pub fn request_shutdown(&mut self)
        requires
            old(self).wf(),
        ensures
            final(self).wf(),
            final(self)@ == (InnerView {
                shutdown_requested: after_request(old(self)@.shutdown_requested),
                ..old(self)@
            }),
    {
        self.shutdown.request_shutdown();
    }

    /// A new observer of the shutdown signal, for a background task.
    pub fn subscribe_shutdown(&self) -> (r: ShutdownObserver)
        ensures
            r@ == self@.shutdown_requested,
    {
        self.shutdown.subscribe()
    }

    /// Takes ownership of a background task.
    pub fn register_task(&mut self, handle: JoinHandle<TaskResult>)
        requires
            old(self).wf(),
        ensures
            final(self).wf(),
            final(self)@ == (InnerView { tasks: old(self)@.tasks.push(handle), ..old(self)@ }),
    {
        self.tasks.register(handle);
    }

    /// Hands out every background task for joining, in the order of
    /// registration, and empties the registry.
    pub fn take_tasks(&mut self) -> (r: Vec<JoinHandle<TaskResult>>)
        requires
            old(self).wf(),
        ensures
            final(self).wf(),
            r@ == old(self)@.tasks,
            final(self)@ == (InnerView {
                tasks: Seq::<JoinHandle<TaskResult>>::empty(),
                ..old(self)@
            }),
    {
        let r = self.tasks.take_all();
        assert(self@.tasks =~= Seq::<JoinHandle<TaskResult>>::empty());
        r
    }

    /// The lifecycle state.
    pub fn state(&self) -> (r: VmmState)
        ensures
            r == self@.state,
    {
        self.state
    }

    /// The sandbox identity.
    pub fn id(&self) -> (r: &str)
        ensures
            r@ == self@.id,
    {
        self.id.as_str()
    }

    /// The sandbox-specific directory.
    pub fn vm_path(&self) -> (r: &str)
        ensures
            r@ == self@.vm_path,
    {
        self.vm_path.as_str()
    }

    /// The hypervisor runtime directory.
    pub fn run_dir(&self) -> (r: &str)
        ensures
            r@ == self@.run_dir,
    {
        self.run_dir.as_str()
    }

    /// The jail subdirectory, relative to the sandbox directory.
    pub fn jailer_root(&self) -> (r: &str)
        ensures
            r@ == self@.jailer_root,
    {
        self.jailer_root.as_str()
    }

    /// Seconds callers wait for a control operation; always positive.
    pub fn timeout_secs(&self) -> (r: i32)
        requires
            self.wf(),
        ensures
            r == self@.timeout_secs,
            r > 0,
    {
        self.timeout_secs
    }

    /// The id of the attached process, if any.
    pub fn pid(&self) -> (r: Option<u32>)
        ensures
            r == self@.pid,
    {
        match &self.process {
            Some(p) => Some(p.pid),
            None => None,
        }
    }

    /// The capabilities this backend advertises.
    pub fn capabilities(&self) -> (r: &Capabilities)
        ensures
            r@ == self@.capabilities,
    {
        &self.capabilities
    }

    /// Number of queued device requests.
    pub fn pending_device_count(&self) -> (r: usize)
        ensures
            r == self@.pending_devices.len(),
    {
        self.pending_devices.len()
    }

    /// Number of registered background tasks.
    pub fn task_count(&self) -> (r: usize)
        ensures
            r == self@.tasks.len(),
    {
        self.tasks.len()
    }

    /// Whether the shutdown signal has fired.
    pub fn is_shutdown_requested(&self) -> (r: bool)
        ensures
            r == self@.shutdown_requested,
    {
        self.shutdown.is_requested()
    }
}

impl Default for CloudHypervisorInner {
    fn default() -> (r: Self)
        ensures
            r.wf(),
            is_fresh(r@),
            r@.id == Seq::<char>::empty(),
            r@.vm_path == Seq::<char>::empty(),
            r@.run_dir == Seq::<char>::empty(),
            r@.config is None,
    {
        Self::new()
    }
}

/// Saving an instance and restoring the snapshot gives back its identity,
/// paths and configuration in force, in a fresh not-started instance,
/// whatever state the saved instance was in.
pub proof fn lemma_save_restore_round_trip(saved: InnerView, snapshot: HypervisorState, restored: InnerView)
    requires
        is_snapshot_of(saved, snapshot),
        is_restored_from(snapshot, restored),
    ensures
        restored.id == saved.id,
        restored.vm_path == saved.vm_path,
        restored.run_dir == saved.run_dir,
        config_in_force(restored, snapshot.config),
        config_in_force(saved, snapshot.config),
        restored.state == VmmState::NotReady,
        restored.pending_devices.len() == 0,
        restored.tasks.len() == 0,
{
}

/// A snapshot is always restorable: it carries this backend's tag.
pub proof fn lemma_snapshot_restorable(saved: InnerView, snapshot: HypervisorState)
    requires
        is_snapshot_of(saved, snapshot),
    ensures
        snapshot.hypervisor_type@ == HYPERVISOR_NAME_CH@,
{
}

/// On an instance that was never configured, the configuration in force is
/// the canonical default.
pub proof fn lemma_fresh_config_is_default(v: InnerView, c: HypervisorConfig)
    requires
        v.config is None,
        config_in_force(v, c),
    ensures
        is_default_config(c),
{
}

} // verus!
