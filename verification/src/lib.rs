//! Core logic of a single-VM hypervisor supervisor: deciding how the external
//! hypervisor process is invoked, assembling its argument list, preparing USB
//! passthrough, sequencing a graceful shutdown, and dispatching operator
//! commands.  Everything here is pure decision and string logic; the process
//! spawning, socket, and sysfs side effects live outside the library and hand
//! plain values in.

use vstd::prelude::*;

pub mod config;
pub mod disk;
pub mod dispatch;
pub mod hostcmd;
pub mod plan;
pub mod resource;
pub mod strings;
pub mod supervise;
pub mod usb;

verus! {

/// The failure taxonomy.  `ConfigInvalid` is fatal before anything spawns;
/// `DeviceBindFailed` skips one passthrough device; `SpawnFailed` is fatal
/// for the hypervisor and log-only for helpers; `ControlPlaneUnavailable` is
/// reported per request; `ShutdownSignalFailed` lets the shutdown sequence
/// continue.
#[derive(PartialEq, Eq, Structural, Clone, Copy, Debug)]
pub enum VmError {
    ConfigInvalid,
    DeviceBindFailed,
    SpawnFailed,
    ControlPlaneUnavailable,
    ShutdownSignalFailed,
}

impl VmError {
    /// A short diagnostic word for each failure kind.
    pub fn message(&self) -> (r: &'static str)
        ensures
            *self is ConfigInvalid ==> r@ == "configuration invalid"@,
            *self is DeviceBindFailed ==> r@ == "device bind failed"@,
            *self is SpawnFailed ==> r@ == "spawn failed"@,
            *self is ControlPlaneUnavailable ==> r@ == "control plane unavailable"@,
            *self is ShutdownSignalFailed ==> r@ == "shutdown signal failed"@,
    {
        match self {
            VmError::ConfigInvalid => "configuration invalid",
            VmError::DeviceBindFailed => "device bind failed",
            VmError::SpawnFailed => "spawn failed",
            VmError::ControlPlaneUnavailable => "control plane unavailable",
            VmError::ShutdownSignalFailed => "shutdown signal failed",
        }
    }
}

} // verus!
