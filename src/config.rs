use vstd::prelude::*;

verus! {

/// Tunable parameters of the hypervisor: binary, boot images and resources.
#[derive(Debug, PartialEq, Eq)]
pub struct HypervisorConfig {
    /// Path of the hypervisor binary.
    pub path: String,
    /// Path of the guest kernel.
    pub kernel: String,
    /// Path of the guest root-file-system image.
    pub image: String,
    /// Path of the guest initrd.
    pub initrd: String,
    /// Number of virtual CPUs the guest boots with.
    pub default_vcpus: u32,
    /// Guest memory at boot, in MiB.
    pub default_memory_mib: u32,
}

/// `c` is the canonical empty configuration.
pub open spec fn is_default_config(c: HypervisorConfig) -> bool {
    &&& c.path@ == Seq::<char>::empty()
    &&& c.kernel@ == Seq::<char>::empty()
    &&& c.image@ == Seq::<char>::empty()
    &&& c.initrd@ == Seq::<char>::empty()
    &&& c.default_vcpus == 0
    &&& c.default_memory_mib == 0
}

impl Clone for HypervisorConfig {
    fn clone(&self) -> (r: Self)
        ensures
            r == *self,
    {
        HypervisorConfig {
            path: self.path.clone(),
            kernel: self.kernel.clone(),
            image: self.image.clone(),
            initrd: self.initrd.clone(),
            default_vcpus: self.default_vcpus,
            default_memory_mib: self.default_memory_mib,
        }
    }
}

impl Default for HypervisorConfig {
    fn default() -> (r: Self)
        ensures
            is_default_config(r),
    {
        HypervisorConfig {
            path: String::new(),
            kernel: String::new(),
            image: String::new(),
            initrd: String::new(),
            default_vcpus: 0,
            default_memory_mib: 0,
        }
    }
}

} // verus!
