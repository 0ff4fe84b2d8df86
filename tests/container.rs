use ch_inner::capabilities::{
    ch_capabilities, Capabilities, BLOCK_DEVICE_HOTPLUG_SUPPORT, BLOCK_DEVICE_SUPPORT,
    FS_SHARING_SUPPORT, MULTI_QUEUE_SUPPORT,
};
use ch_inner::config::HypervisorConfig;
use ch_inner::device::{DeviceType, PendingDevices};
use ch_inner::inner::{CloudHypervisorInner, VmmState, CH_DEFAULT_TIMEOUT_SECS};
use ch_inner::persist::{HypervisorState, PersistError, HYPERVISOR_NAME_CH};

fn sample_config() -> HypervisorConfig {
    HypervisorConfig {
        path: "/usr/bin/cloud-hypervisor".to_string(),
        kernel: "/opt/vm/vmlinux".to_string(),
        image: "/opt/vm/rootfs.img".to_string(),
        initrd: String::new(),
        default_vcpus: 2,
        default_memory_mib: 2048,
    }
}

fn block(path: &str) -> DeviceType {
    DeviceType::Block { path: path.to_string(), read_only: false }
}

#[test]
fn new_container_is_fresh() {
    let ch = CloudHypervisorInner::new();
    assert_eq!(ch.state(), VmmState::NotReady);
    assert_eq!(ch.pending_device_count(), 0);
    assert_eq!(ch.task_count(), 0);
    assert_eq!(ch.timeout_secs(), 10);
    assert_eq!(CH_DEFAULT_TIMEOUT_SECS, 10);
    assert!(!ch.is_shutdown_requested());
    assert_eq!(ch.pid(), None);
    assert_eq!(ch.id(), "");
    assert_eq!(ch.vm_path(), "");
    assert_eq!(ch.run_dir(), "");
    assert_eq!(ch.jailer_root(), "");
}

#[test]
fn default_matches_new() {
    let ch = CloudHypervisorInner::default();
    assert_eq!(ch.state(), VmmState::NotReady);
    assert_eq!(ch.timeout_secs(), 10);
    assert_eq!(ch.hypervisor_config(), HypervisorConfig::default());
}

#[test]
fn capabilities_of_this_backend() {
    let ch = CloudHypervisorInner::new();
    let caps = ch.capabilities();
    assert!(caps.is_block_device_supported());
    assert!(caps.is_block_device_hotplug_supported());
    assert!(caps.is_fs_sharing_supported());
    assert!(!caps.is_multi_queue_supported());
    assert!(ch_capabilities().is_set(BLOCK_DEVICE_SUPPORT | FS_SHARING_SUPPORT));
}

#[test]
fn capability_set_replaces_bits() {
    let mut caps = Capabilities::new();
    assert!(!caps.is_block_device_supported());
    caps.set(MULTI_QUEUE_SUPPORT | BLOCK_DEVICE_HOTPLUG_SUPPORT);
    assert!(caps.is_multi_queue_supported());
    assert!(caps.is_block_device_hotplug_supported());
    assert!(!caps.is_block_device_supported());
    assert!(!caps.is_set(MULTI_QUEUE_SUPPORT | FS_SHARING_SUPPORT));
    caps.set(FS_SHARING_SUPPORT);
    assert!(!caps.is_multi_queue_supported());
    assert!(caps.is_fs_sharing_supported());
}

#[test]
fn unset_configuration_is_default() {
    let ch = CloudHypervisorInner::new();
    let c = ch.hypervisor_config();
    assert_eq!(c, HypervisorConfig::default());
    assert_eq!(c.path, "");
    assert_eq!(c.default_vcpus, 0);
    assert_eq!(c.default_memory_mib, 0);
}

#[test]
fn set_configuration_overwrites() {
    let mut ch = CloudHypervisorInner::new();
    ch.set_hypervisor_config(HypervisorConfig::default());
    ch.set_hypervisor_config(sample_config());
    assert_eq!(ch.hypervisor_config(), sample_config());
}

#[test]
fn save_projects_identity_paths_and_config() {
    let mut ch = CloudHypervisorInner::new();
    ch.set_id("sbx-7".to_string());
    ch.set_vm_path("/run/vm/sbx-7".to_string());
    ch.set_run_dir("/run/ch/sbx-7".to_string());
    ch.set_jailer_root("root".to_string());
    ch.set_netns(Some("/var/run/netns/cni-1".to_string()));
    ch.set_hypervisor_config(sample_config());
    let s = ch.save();
    assert_eq!(s.hypervisor_type, "cloud-hypervisor");
    assert_eq!(s.hypervisor_type, HYPERVISOR_NAME_CH);
    assert_eq!(s.id, "sbx-7");
    assert_eq!(s.vm_path, "/run/vm/sbx-7");
    assert_eq!(s.run_dir, "/run/ch/sbx-7");
    assert!(!s.jailed);
    assert_eq!(s.jailer_root, "");
    assert_eq!(s.netns, None);
    assert!(s.cached_block_devices.is_empty());
    assert_eq!(s.config, sample_config());
}

#[test]
fn save_without_config_stores_default() {
    let ch = CloudHypervisorInner::new();
    let s = ch.save();
    assert_eq!(s.config, HypervisorConfig::default());
}

#[test]
fn round_trip_keeps_identity_paths_and_config() {
    let mut ch = CloudHypervisorInner::new();
    ch.set_id("sbx-2".to_string());
    ch.set_vm_path("/run/vm/sbx-2".to_string());
    ch.set_run_dir("/run/ch/sbx-2".to_string());
    ch.set_hypervisor_config(sample_config());
    ch.add_pending_device(block("/dev/sda"));
    ch.request_shutdown();
    let r = CloudHypervisorInner::restore((), ch.save()).unwrap();
    assert_eq!(r.id(), "sbx-2");
    assert_eq!(r.vm_path(), "/run/vm/sbx-2");
    assert_eq!(r.run_dir(), "/run/ch/sbx-2");
    assert_eq!(r.hypervisor_config(), sample_config());
    assert_eq!(r.state(), VmmState::NotReady);
    assert_eq!(r.pending_device_count(), 0);
    assert!(!r.is_shutdown_requested());
    assert_eq!(r.jailer_root(), "");
    assert_eq!(r.timeout_secs(), 10);
}

#[test]
fn checkpoint_across_restart() {
    let mut ch = CloudHypervisorInner::new();
    ch.set_id("sbx-1".to_string());
    ch.set_vm_path("/run/vm/sbx-1".to_string());
    ch.set_hypervisor_config(sample_config());
    let snapshot = ch.save();
    drop(ch);
    let r = CloudHypervisorInner::restore((), snapshot).unwrap();
    assert_eq!(r.id(), "sbx-1");
    assert_eq!(r.vm_path(), "/run/vm/sbx-1");
    assert_eq!(r.hypervisor_config(), sample_config());
    assert_eq!(r.state(), VmmState::NotReady);
    assert_eq!(r.pending_device_count(), 0);
    assert_eq!(r.task_count(), 0);
    assert_eq!(r.pid(), None);
}

#[test]
fn restore_refuses_other_backend() {
    let s = HypervisorState {
        hypervisor_type: "dragonball".to_string(),
        id: "sbx-3".to_string(),
        vm_path: "/run/vm/sbx-3".to_string(),
        jailed: false,
        jailer_root: String::new(),
        netns: None,
        config: sample_config(),
        run_dir: String::new(),
        cached_block_devices: Vec::new(),
    };
    let e = CloudHypervisorInner::restore((), s).err().unwrap();
    assert_eq!(e, PersistError::BackendMismatch("dragonball".to_string()));
}

#[test]
fn restore_refuses_empty_tag() {
    let mut s = CloudHypervisorInner::new().save();
    s.hypervisor_type = String::new();
    let e = CloudHypervisorInner::restore((), s).err().unwrap();
    assert_eq!(e, PersistError::BackendMismatch(String::new()));
}

#[test]
fn pending_devices_drain_in_order() {
    let mut ch = CloudHypervisorInner::new();
    let d1 = block("/dev/vda");
    let d2 = DeviceType::Network {
        host_dev_name: "tap0".to_string(),
        guest_mac: "02:00:00:00:00:01".to_string(),
    };
    let d3 = DeviceType::Vsock { guest_cid: 3 };
    ch.add_pending_device(d1.clone());
    ch.add_pending_device(d2.clone());
    ch.add_pending_device(d3.clone());
    assert_eq!(ch.pending_device_count(), 3);
    assert_eq!(ch.drain_pending_devices(), vec![d1, d2, d3]);
    assert_eq!(ch.pending_device_count(), 0);
    assert!(ch.drain_pending_devices().is_empty());
}

#[test]
fn pending_queue_on_its_own() {
    let mut q = PendingDevices::new();
    assert!(q.is_empty());
    assert!(q.drain().is_empty());
    let d = DeviceType::ShareFs { mount_tag: "kataShared".to_string(), host_path: "/run/share".to_string() };
    q.enqueue(d.clone());
    assert_eq!(q.len(), 1);
    assert_eq!(q.drain(), vec![d]);
    assert!(q.is_empty());
}

#[test]
fn reap_without_process_keeps_state() {
    let mut ch = CloudHypervisorInner::new();
    assert!(ch.reap().is_none());
    assert_eq!(ch.state(), VmmState::NotReady);
    assert_eq!(ch.pid(), None);
}
