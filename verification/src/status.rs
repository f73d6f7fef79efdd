//! Two-valued status of kernel components and user-space subsystems.
//!
//! The key set of each status block is fixed at construction: the engine
//! only ever flips existing entries, never adds or removes one, so the
//! blocks are plain structs with one field per component.

use vstd::prelude::*;

verus! {

/// Binary status of one component.  Interfaces render it as UP/DOWN and
/// services as RUNNING/STOPPED, but the state machine is the same.
#[derive(Clone, Copy, Debug, PartialEq, Eq, Structural)]
pub enum Status {
    Online,
    Offline,
}

/// The opposite status.
pub open spec fn spec_flip(s: Status) -> Status {
    match s {
        Status::Online => Status::Offline,
        Status::Offline => Status::Online,
    }
}

/// Flips a binary status.
pub fn flip(s: Status) -> (r: Status)
    ensures
        r == spec_flip(s),
{
    match s {
        Status::Online => Status::Offline,
        Status::Offline => Status::Online,
    }
}

/// Status of each kernel component, keyed by a fixed set of names.
#[derive(Clone, Copy, Debug, PartialEq, Eq, Structural)]
pub struct KernelStatus {
    pub scheduler: Status,
    pub memory_manager: Status,
    pub syscall_layer: Status,
    pub driver_framework: Status,
    pub network_stack: Status,
    pub security_sandbox: Status,
    pub vfs_layer: Status,
    pub process_manager: Status,
}

impl KernelStatus {
    /// Component statuses right after boot: everything online except the
    /// network stack.
    pub fn boot_defaults() -> (r: KernelStatus)
        ensures
            r == (KernelStatus {
                scheduler: Status::Online,
                memory_manager: Status::Online,
                syscall_layer: Status::Online,
                driver_framework: Status::Online,
                network_stack: Status::Offline,
                security_sandbox: Status::Online,
                vfs_layer: Status::Online,
                process_manager: Status::Online,
            }),
    {
        KernelStatus {
            scheduler: Status::Online,
            memory_manager: Status::Online,
            syscall_layer: Status::Online,
            driver_framework: Status::Online,
            network_stack: Status::Offline,
            security_sandbox: Status::Online,
            vfs_layer: Status::Online,
            process_manager: Status::Online,
        }
    }
}

/// Status of each user-space subsystem, keyed by a fixed set of names.
#[derive(Clone, Copy, Debug, PartialEq, Eq, Structural)]
pub struct SubsystemStatus {
    pub ion_shell: Status,
    pub package_manager: Status,
    pub netstack_daemon: Status,
    pub gui_orbital: Status,
    pub userland_services: Status,
    pub audio_daemon: Status,
    pub display_manager: Status,
}

impl SubsystemStatus {
    /// Subsystem statuses right after boot: the networking daemon and the
    /// display stack start offline.
    pub fn boot_defaults() -> (r: SubsystemStatus)
        ensures
            r == (SubsystemStatus {
                ion_shell: Status::Online,
                package_manager: Status::Online,
                netstack_daemon: Status::Offline,
                gui_orbital: Status::Offline,
                userland_services: Status::Online,
                audio_daemon: Status::Online,
                display_manager: Status::Offline,
            }),
    {
        SubsystemStatus {
            ion_shell: Status::Online,
            package_manager: Status::Online,
            netstack_daemon: Status::Offline,
            gui_orbital: Status::Offline,
            userland_services: Status::Online,
            audio_daemon: Status::Online,
            display_manager: Status::Offline,
        }
    }
}

} // verus!
