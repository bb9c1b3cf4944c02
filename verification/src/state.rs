//! The handles of one control plane as a value, and what makes such a value
//! sound.

use vstd::prelude::*;

verus! {

/// A mapping of the shared run-state region: where it lies and how long it is.
#[derive(Clone, Copy, Debug, PartialEq, Eq, Structural)]
pub struct Region {
    /// The address that the kernel mapped the region at.
    pub addr: usize,
    /// The number of bytes mapped.
    pub len: usize,
}

/// Where the virtual CPU stands in its life.
#[derive(Clone, Copy, Debug, PartialEq, Eq, Structural)]
pub enum Phase {
    /// No virtual CPU was created.
    Absent,
    /// The virtual CPU exists; its shared region is not mapped.
    Created,
    /// The shared region is mapped and no run is outstanding.
    Runnable,
    /// A run was requested and the kernel has not answered.
    Running,
    /// The last run came back, leaving this exit reason in the shared region.
    Exited(u32),
    /// The virtual CPU was released together with the device.
    Closed,
}

/// What the caller has to release, in the order of the fields: first the
/// mapping, then the handles from the virtual CPU up to the device.
#[derive(Clone, Copy, Debug, PartialEq, Eq, Structural)]
pub struct Released {
    /// The mapping to unmap.
    pub region: Option<Region>,
    /// The handle of the virtual CPU.
    pub vcpu_fd: Option<i32>,
    /// The handle of the machine.
    pub vm_fd: Option<i32>,
    /// The handle of the device.
    pub fd: Option<i32>,
}

/// The handles of one control plane.
#[derive(Clone, Copy, Debug, PartialEq, Eq, Structural)]
pub struct KvmState {
    /// The handle of the device.
    pub fd: i32,
    /// The device handle has not been closed.
    pub open: bool,
    /// The handle of the machine.
    pub vm_fd: Option<i32>,
    /// The handle of the virtual CPU.
    pub vcpu_fd: Option<i32>,
    /// The size of the shared region, once the device was asked for it.
    pub size: Option<usize>,
    /// The mapping of the shared region.
    pub region: Option<Region>,
    /// Where the virtual CPU stands.
    pub phase: Phase,
}

impl Phase {
    /// A virtual CPU exists.
    pub open spec fn has_vcpu(self) -> bool {
        self is Created || self.has_region()
    }

    /// The shared region is mapped.
    pub open spec fn has_region(self) -> bool {
        self is Runnable || self is Running || self is Exited
    }
}

impl Released {
    /// Nothing to release.
    pub open spec fn nothing() -> Released {
        Released { region: None, vcpu_fd: None, vm_fd: None, fd: None }
    }
}

impl KvmState {
    /// The state right after the device was opened as `fd`.
    pub open spec fn initial(fd: i32) -> KvmState {
        KvmState {
            fd,
            open: true,
            vm_fd: None,
            vcpu_fd: None,
            size: None,
            region: None,
            phase: Phase::Absent,
        }
    }

    /// What holds of the handles at every moment:
    /// no handle is -1; a closed device has no machine, and where there is no
    /// machine there is no virtual CPU; the phase tells whether a virtual CPU
    /// and a mapping exist; the queried size is positive; a mapping is at
    /// least as long as the size that the device was queried for.
    pub open spec fn wf(self) -> bool {
        &&& self.fd != -1
        &&& self.vm_fd != Some(-1i32)
        &&& self.vcpu_fd != Some(-1i32)
        &&& (!self.open ==> self.vm_fd is None)
        &&& (self.vm_fd is None ==> self.vcpu_fd is None)
        &&& (self.vcpu_fd is Some <==> self.phase.has_vcpu())
        &&& (self.region is Some <==> self.phase.has_region())
        &&& (self.phase is Closed ==> !self.open)
        &&& (self.size matches Some(n) ==> n > 0)
        &&& (self.region matches Some(r) ==> self.size matches Some(n) && r.len >= n)
    }
}

} // verus!
