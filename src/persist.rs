use vstd::prelude::*;
use crate::config::HypervisorConfig;

verus! {

/// Backend tag of this hypervisor in a snapshot.
pub const HYPERVISOR_NAME_CH: &'static str = "cloud-hypervisor";

/// Durable record of one hypervisor instance, in the format shared by every
/// backend.  It holds nothing process-local.
#[derive(Debug, Clone, PartialEq, Eq)]
pub struct HypervisorState {
    /// Which backend wrote the record.
    pub hypervisor_type: String,
    pub id: String,
    pub vm_path: String,
    pub jailed: bool,
    pub jailer_root: String,
    pub netns: Option<String>,
    pub config: HypervisorConfig,
    pub run_dir: String,
    /// Block devices another backend keeps across a restart.
    pub cached_block_devices: Vec<String>,
}

/// Why a snapshot could not be restored.
#[derive(Debug, Clone, PartialEq, Eq)]
pub enum PersistError {
    /// The snapshot was written by another backend, whose tag is given.
    BackendMismatch(String),
}

} // verus!
