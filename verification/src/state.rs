//! The merged desired and current state, the backend's devices, and errors:
//! the plain values that the reconciliation reads.
use vstd::prelude::*;

verus! {

/// What is known of an interface's type.
#[derive(Debug, Clone)]
pub enum IfaceKind {
    /// The desired state does not say.
    Unknown,
    /// The backend-native name of the type.
    Native(String),
    /// The type has no counterpart in the backend.
    Unsupported,
}

/// One interface of the merged state.
#[derive(Debug, Clone)]
pub struct MergedInterface {
    pub name: String,
    pub kind: IfaceKind,
    /// The desired state differs from the current one.
    pub changed: bool,
    pub absent: bool,
    pub down: bool,
    /// The interface has no physical existence of its own.
    pub is_virtual: bool,
    /// The interface is backed by the kernel, not by a user-space switch.
    pub kernel: bool,
}

/// The DNS part of the merged state.
#[derive(Debug, Clone)]
pub struct MergedDns {
    pub changed: bool,
    /// The interfaces that hold DNS settings now can go on holding them.
    pub ifaces_still_valid: bool,
    pub servers: Vec<String>,
    pub searches: Vec<String>,
}

/// Desired and current configuration, already merged.
#[derive(Debug, Clone)]
pub struct MergedNetworkState {
    /// Change runtime state only; persist nothing.
    pub memory_only: bool,
    /// The desired hostname, where one is configured.
    pub hostname: Option<String>,
    pub interfaces: Vec<MergedInterface>,
    pub dns: MergedDns,
}

/// The backend's live view of one kernel interface.
#[derive(Debug, Clone)]
pub struct NmDevice {
    pub name: String,
    /// Backend-native type name.
    pub iface_type: String,
    /// Handle by which the backend deletes the device.
    pub obj_path: String,
}

/// Why a reconciliation stopped.
#[derive(Debug, Clone, Copy, PartialEq, Eq, Structural)]
pub enum ErrorKind {
    /// A call to the backend failed.
    Backend,
    /// The interface type has no counterpart in the backend.
    NotImplemented,
    /// The settings cannot be stored in the form that was asked for.
    NotRepresentable,
    /// The event handed in does not answer the pending action.
    Unexpected,
}

/// An error of the reconciliation, or of the backend as the caller reports it.
#[derive(Debug)]
pub struct NmstateError {
    pub kind: ErrorKind,
    /// What failed: the interface, type or profile identity where known.
    pub msg: String,
}

impl MergedInterface {
    /// The interface is to be removed: its merged value is absent.
    pub open spec fn to_remove(self) -> bool {
        self.absent
    }

    /// The interface may have left a kernel device behind that the backend's
    /// profile deletion does not reach.
    pub open spec fn residual(self) -> bool {
        self.kernel && self.changed && (self.absent || self.down) && self.is_virtual
    }
}

} // verus!
