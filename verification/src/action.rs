//! What the library asks its caller to carry to the kernel.

use vstd::prelude::*;
use kvm_bindings::{kvm_regs, kvm_sregs};

verus! {

/// The opening of the virtualization device.
#[derive(Clone, Copy, Debug, PartialEq, Eq)]
pub struct OpenRequest {
    /// The path of the device node.
    pub path: &'static str,
    /// Open for reading.
    pub read: bool,
    /// Open for writing.
    pub write: bool,
}

/// A request that carries one integer argument and no payload.
#[derive(Clone, Copy, Debug, PartialEq, Eq, Structural)]
pub struct Control {
    /// The handle that the request is issued on.
    pub fd: i32,
    /// The request code.
    pub code: u64,
    /// The argument.
    pub arg: i32,
}

/// A request by which the kernel fills a register block of the caller.
#[derive(Clone, Copy, Debug, PartialEq, Eq, Structural)]
pub struct Transfer {
    /// The handle that the request is issued on.
    pub fd: i32,
    /// The request code.
    pub code: u64,
}

/// A request that hands the kernel a block of general-purpose registers.
#[derive(Clone, Copy, Debug, PartialEq)]
pub struct RegsWrite {
    /// The handle that the request is issued on.
    pub fd: i32,
    /// The request code.
    pub code: u64,
    /// The registers to be written.
    pub regs: kvm_regs,
}

/// A request that hands the kernel a block of special registers.
#[derive(Clone, Copy, Debug, PartialEq)]
pub struct SregsWrite {
    /// The handle that the request is issued on.
    pub fd: i32,
    /// The request code.
    pub code: u64,
    /// The registers to be written.
    pub sregs: kvm_sregs,
}

/// The mapping of the shared run-state region.
#[derive(Clone, Copy, Debug, PartialEq, Eq, Structural)]
pub struct MapRequest {
    /// The handle of the virtual CPU that the region belongs to.
    pub fd: i32,
    /// The number of bytes to map.
    pub len: usize,
    /// Where in the handle's resource the mapping starts.
    pub offset: i64,
    /// The caller reads the region.
    pub read: bool,
    /// The caller writes the region.
    pub write: bool,
    /// Writes are seen by the kernel, and the kernel's by the caller.
    pub shared: bool,
}

/// How to learn the size of the shared run-state region.
#[derive(Clone, Copy, Debug, PartialEq, Eq, Structural)]
pub enum SizeQuery {
    /// The size was queried before on this device handle: no request is due.
    Known(usize),
    /// The kernel has to be asked.
    Ask(Control),
}

} // verus!
