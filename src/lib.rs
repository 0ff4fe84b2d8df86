//! Supervisory state of one cloud-hypervisor virtual machine: lifecycle,
//! configuration, capability set, pending-device queue, shutdown broadcast,
//! background-task registry and the checkpoint/restore projection.

pub mod capabilities;
pub mod config;
pub mod device;
pub mod shutdown;
pub mod tasks;
pub mod persist;
pub mod inner;
