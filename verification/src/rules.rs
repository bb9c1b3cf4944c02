//! The rules of the control plane: for each operation, the request that it
//! is carried out by, and what the kernel's answer makes of the handles.

use vstd::prelude::*;
use kvm_bindings::{kvm_regs, kvm_sregs};
use crate::action::{Control, MapRequest, RegsWrite, SizeQuery, SregsWrite, Transfer};
use crate::error::{KvmError, EBADF, EBUSY, EINVAL};
use crate::request::Operation;
use crate::state::{KvmState, Phase, Region, Released};

verus! {

/// An answer to a request that yields a handle keeps the kernel's convention:
/// a success is never -1, and a failure never carries the error number 0.
pub open spec fn handle_reply(reply: Result<i32, i32>) -> bool {
    match reply {
        Ok(fd) => fd != -1,
        Err(e) => e != 0,
    }
}

/// An answer to the size query keeps the kernel's promise: the size is
/// strictly positive, and a failure never carries the error number 0.
pub open spec fn size_reply(reply: Result<i32, i32>) -> bool {
    match reply {
        Ok(n) => n > 0,
        Err(e) => e != 0,
    }
}

/// A request without payload, with the code of `op`.
pub open spec fn control(fd: i32, op: Operation, arg: i32) -> Control {
    Control { fd, code: op.spec_code() as u64, arg }
}

/// A request that moves a register block, with the code of `op`.
pub open spec fn transfer(fd: i32, op: Operation) -> Transfer {
    Transfer { fd, code: op.spec_code() as u64 }
}

impl KvmState {
    /// Why no machine can be created now, if anything stands against it: the
    /// device is closed.
    pub open spec fn machine_refused(self) -> Option<KvmError> {
        if !self.open {
            Some(KvmError::CreationFailed(EBADF))
        } else {
            None
        }
    }

    /// The request that creates a machine: on the device, with no flags.
    pub open spec fn create_vm_request(self) -> Result<Control, KvmError> {
        match self.machine_refused() {
            Some(e) => Err(e),
            None => Ok(control(self.fd, Operation::CreateVm, 0)),
        }
    }

    /// The handles once the kernel has answered the creation of a machine:
    /// a new machine takes the place of the old one and of nothing else. The
    /// virtual CPU that is held, its mapping and its phase stay as they are
    /// until a new virtual CPU is created.
    pub open spec fn after_create_vm(self, reply: Result<i32, i32>) -> KvmState {
        match (self.machine_refused(), reply) {
            (None, Ok(fd)) => KvmState { vm_fd: Some(fd), ..self },
            _ => self,
        }
    }

    /// What the creation of a machine comes to: the machine that the new one
    /// displaced, or the failure.
    pub open spec fn create_vm_result(self, reply: Result<i32, i32>) -> Result<Released, KvmError> {
        match (self.machine_refused(), reply) {
            (Some(e), _) => Err(e),
            (None, Err(errno)) => Err(KvmError::CreationFailed(errno)),
            (None, Ok(_)) => Ok(
                Released { region: None, vcpu_fd: None, vm_fd: self.vm_fd, fd: None },
            ),
        }
    }

    /// Why no virtual CPU can be created now, if anything stands against it:
    /// there is no machine, or a run is outstanding on the virtual CPU that
    /// the new one would displace.
    pub open spec fn vcpu_refused(self) -> Option<KvmError> {
        if self.vm_fd is None {
            Some(KvmError::CreationFailed(EBADF))
        } else if self.phase is Running {
            Some(KvmError::UseAfterUnmap)
        } else {
            None
        }
    }

    /// The request that creates the virtual CPU `id`: on the machine.
    pub open spec fn create_vcpu_request(self, id: i32) -> Result<Control, KvmError> {
        match self.vcpu_refused() {
            Some(e) => Err(e),
            None => Ok(control(self.vm_fd->Some_0, Operation::CreateVcpu, id)),
        }
    }

    /// The handles once the kernel has answered the creation of a virtual
    /// CPU: a new one takes the place of the old one and of its mapping.
    pub open spec fn after_create_vcpu(self, reply: Result<i32, i32>) -> KvmState {
        match (self.vcpu_refused(), reply) {
            (None, Ok(fd)) => KvmState {
                vcpu_fd: Some(fd),
                region: None,
                phase: Phase::Created,
                ..self
            },
            _ => self,
        }
    }

    /// What the creation of a virtual CPU comes to: what the new one
    /// displaced, or the failure.
    pub open spec fn create_vcpu_result(self, reply: Result<i32, i32>) -> Result<
        Released,
        KvmError,
    > {
        match (self.vcpu_refused(), reply) {
            (Some(e), _) => Err(e),
            (None, Err(errno)) => Err(KvmError::CreationFailed(errno)),
            (None, Ok(_)) => Ok(
                Released { region: self.region, vcpu_fd: self.vcpu_fd, vm_fd: None, fd: None },
            ),
        }
    }

    /// How to learn the size of the shared region: from the earlier answer
    /// where there is one, else by a query on the device.
    pub open spec fn mmap_size_request(self) -> Result<SizeQuery, KvmError> {
        if !self.open {
            Err(KvmError::QueryFailed(EBADF))
        } else {
            match self.size {
                Some(n) => Ok(SizeQuery::Known(n)),
                None => Ok(SizeQuery::Ask(control(self.fd, Operation::GetVcpuMmapSize, 0))),
            }
        }
    }

    /// The handles once the kernel has answered the size query: the first
    /// size learnt is kept.
    pub open spec fn after_mmap_size(self, reply: Result<i32, i32>) -> KvmState {
        match reply {
            Ok(n) if self.open && self.size is None => KvmState { size: Some(n as usize), ..self },
            _ => self,
        }
    }

    /// What the size query comes to: the size kept from an earlier answer,
    /// else the size just learnt, else the failure.
    pub open spec fn mmap_size_result(self, reply: Result<i32, i32>) -> Result<usize, KvmError> {
        if !self.open {
            Err(KvmError::QueryFailed(EBADF))
        } else {
            match (self.size, reply) {
                (Some(n), _) => Ok(n),
                (None, Ok(n)) => Ok(n as usize),
                (None, Err(errno)) => Err(KvmError::QueryFailed(errno)),
            }
        }
    }

    /// Why `size` bytes of the shared region cannot be mapped now, if
    /// anything stands against it: there is no virtual CPU, the region is
    /// mapped already, or `size` is less than the device was found to ask for.
    pub open spec fn map_refused(self, size: usize) -> Option<KvmError> {
        if !self.phase.has_vcpu() {
            Some(KvmError::MapFailed(EBADF))
        } else if self.phase.has_region() {
            Some(KvmError::MapFailed(EBUSY))
        } else {
            match self.size {
                Some(n) if size >= n => None,
                _ => Some(KvmError::MapFailed(EINVAL)),
            }
        }
    }

    /// The request that maps the shared region: `size` bytes of the virtual
    /// CPU's handle from its start, to read and write, shared with the kernel.
    pub open spec fn map_run_state_request(self, size: usize) -> Result<MapRequest, KvmError> {
        match self.map_refused(size) {
            Some(e) => Err(e),
            None => Ok(
                MapRequest {
                    fd: self.vcpu_fd->Some_0,
                    len: size,
                    offset: 0,
                    read: true,
                    write: true,
                    shared: true,
                },
            ),
        }
    }

    /// The handles once the kernel has answered the mapping.
    pub open spec fn after_map_run_state(self, size: usize, reply: Result<usize, i32>) -> KvmState {
        match (self.map_refused(size), reply) {
            (None, Ok(addr)) => KvmState {
                region: Some(Region { addr, len: size }),
                phase: Phase::Runnable,
                ..self
            },
            _ => self,
        }
    }

    /// What the mapping comes to: the region, or the failure.
    pub open spec fn map_run_state_result(self, size: usize, reply: Result<usize, i32>) -> Result<
        Region,
        KvmError,
    > {
        match (self.map_refused(size), reply) {
            (Some(e), _) => Err(e),
            (None, Err(errno)) => Err(KvmError::MapFailed(errno)),
            (None, Ok(addr)) => Ok(Region { addr, len: size }),
        }
    }

    /// The shared region can be given up: it is mapped and no run is
    /// outstanding.
    pub open spec fn can_unmap(self) -> bool {
        self.phase is Runnable || self.phase is Exited
    }

    /// The handles once the shared region was given up.
    pub open spec fn after_unmap_run_state(self) -> KvmState {
        if self.can_unmap() {
            KvmState { region: None, phase: Phase::Created, ..self }
        } else {
            self
        }
    }

    /// What giving up the shared region comes to: the mapping to unmap, or
    /// the misuse.
    pub open spec fn unmap_run_state_result(self) -> Result<Region, KvmError> {
        if self.can_unmap() && self.region is Some {
            Ok(self.region->Some_0)
        } else {
            Err(KvmError::UseAfterUnmap)
        }
    }

    /// The request that reads or writes a register block by `op`: on the
    /// virtual CPU.
    pub open spec fn register_request(self, op: Operation) -> Result<Transfer, KvmError> {
        match self.vcpu_fd {
            Some(fd) => Ok(transfer(fd, op)),
            None => Err(KvmError::RegisterAccessFailed(EBADF)),
        }
    }

    /// The request that writes `regs` to the general-purpose registers: it
    /// carries the block as it was given.
    pub open spec fn set_vcpu_regs_request(self, regs: kvm_regs) -> Result<RegsWrite, KvmError> {
        match self.register_request(Operation::SetRegs) {
            Ok(t) => Ok(RegsWrite { fd: t.fd, code: t.code, regs }),
            Err(e) => Err(e),
        }
    }

    /// The request that writes `sregs` to the special registers: it carries
    /// the block as it was given.
    pub open spec fn set_vcpu_sregs_request(self, sregs: kvm_sregs) -> Result<
        SregsWrite,
        KvmError,
    > {
        match self.register_request(Operation::SetSregs) {
            Ok(t) => Ok(SregsWrite { fd: t.fd, code: t.code, sregs }),
            Err(e) => Err(e),
        }
    }

    /// What a register access comes to, where the kernel's answer was
    /// `reply`: the answer's value, or the failure.
    pub open spec fn register_result<T>(self, reply: Result<T, i32>) -> Result<T, KvmError> {
        match (self.vcpu_fd, reply) {
            (None, _) => Err(KvmError::RegisterAccessFailed(EBADF)),
            (Some(_), Err(errno)) => Err(KvmError::RegisterAccessFailed(errno)),
            (Some(_), Ok(v)) => Ok(v),
        }
    }

    /// What the writing of a register block comes to, where the kernel's
    /// answer was `reply`.
    pub open spec fn write_result(self, reply: Result<i32, i32>) -> Result<(), KvmError> {
        match (self.vcpu_fd, reply) {
            (None, _) => Err(KvmError::RegisterAccessFailed(EBADF)),
            (Some(_), Err(errno)) => Err(KvmError::RegisterAccessFailed(errno)),
            (Some(_), Ok(_)) => Ok(()),
        }
    }

    /// Why the virtual CPU cannot be run now, if anything stands against it:
    /// there is none, its shared region is not mapped, or a run is
    /// outstanding.
    pub open spec fn run_refused(self) -> Option<KvmError> {
        match self.phase {
            Phase::Absent | Phase::Closed => Some(KvmError::RunFailed(EBADF)),
            Phase::Created => Some(KvmError::RunFailed(EINVAL)),
            Phase::Running => Some(KvmError::RunFailed(EBUSY)),
            Phase::Runnable | Phase::Exited(_) => None,
        }
    }

    /// The request that resumes execution: on the virtual CPU, with no flags.
    pub open spec fn run_request(self) -> Result<Control, KvmError> {
        match self.run_refused() {
            Some(e) => Err(e),
            None => Ok(control(self.vcpu_fd->Some_0, Operation::Run, 0)),
        }
    }

    /// The handles once a run was requested.
    pub open spec fn after_run_request(self) -> KvmState {
        if self.run_refused() is None {
            KvmState { phase: Phase::Running, ..self }
        } else {
            self
        }
    }

    /// The handles once the kernel has answered the run: with an exit reason
    /// where it gave control back, runnable again where it refused.
    pub open spec fn after_run(self, reply: Result<u32, i32>) -> KvmState {
        if self.phase is Running {
            match reply {
                Ok(reason) => KvmState { phase: Phase::Exited(reason), ..self },
                Err(_) => KvmState { phase: Phase::Runnable, ..self },
            }
        } else {
            self
        }
    }

    /// What the run comes to.
    pub open spec fn run_result(self, reply: Result<u32, i32>) -> Result<(), KvmError> {
        if self.phase is Running {
            match reply {
                Ok(_) => Ok(()),
                Err(errno) => Err(KvmError::RunFailed(errno)),
            }
        } else {
            Err(KvmError::RunFailed(EINVAL))
        }
    }

    /// The handles once the device was closed: none is left.
    pub open spec fn after_close(self) -> KvmState {
        if self.phase is Running || !self.open {
            self
        } else {
            KvmState {
                fd: self.fd,
                open: false,
                vm_fd: None,
                vcpu_fd: None,
                size: None,
                region: None,
                phase: if self.phase.has_vcpu() {
                    Phase::Closed
                } else {
                    Phase::Absent
                },
            }
        }
    }

    /// What closing the device comes to: all that was held, to be released.
    pub open spec fn close_result(self) -> Result<Released, KvmError> {
        if self.phase is Running {
            Err(KvmError::UseAfterUnmap)
        } else if !self.open {
            Ok(Released::nothing())
        } else {
            Ok(
                Released {
                    region: self.region,
                    vcpu_fd: self.vcpu_fd,
                    vm_fd: self.vm_fd,
                    fd: Some(self.fd),
                },
            )
        }
    }
}

} // verus!
