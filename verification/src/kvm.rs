//! The control plane itself: the handles of one device, one machine and one
//! virtual CPU, and the operations on them.

use vstd::prelude::*;
use kvm_bindings::{kvm_regs, kvm_sregs};
use crate::action::{Control, MapRequest, OpenRequest, RegsWrite, SizeQuery, SregsWrite, Transfer};
use crate::error::{open_error, spec_open_error, KvmError, EBADF, EBUSY, EINVAL};
use crate::request::Operation;
use crate::rules::{handle_reply, size_reply};
use crate::state::{KvmState, Phase, Region, Released};

verus! {

/// The path of the device node.
pub open spec fn spec_device_path() -> Seq<char> {
    "/dev/kvm"@
}

/// The handles of one control plane. A value of this type is always sound
/// in the sense of [`KvmState::wf`].
#[derive(Debug)]
pub struct Kvm {
    state: KvmState,
}

impl View for Kvm {
    type V = KvmState;

    closed spec fn view(&self) -> KvmState {
        self.state
    }
}

impl Kvm {
    #[verifier::type_invariant]
    spec fn sound(self) -> bool {
        self.state.wf()
    }

    /// How the device is to be opened: by its path, for reading and writing.
    pub fn open_request() -> (req: OpenRequest)
        ensures
            req.path@ == spec_device_path(),
            req.read,
            req.write,
    {
        OpenRequest { path: "/dev/kvm", read: true, write: true }
    }

    /// The control plane of a device that was opened with the answer
    /// `opened`: its handle, or the error number.
    pub fn new(opened: Result<i32, i32>) -> (r: Result<Kvm, KvmError>)
        requires
            handle_reply(opened),
        ensures
            match opened {
                Ok(fd) => r is Ok && r->Ok_0@ == KvmState::initial(fd),
                Err(errno) => r is Err && r->Err_0 == spec_open_error(errno),
            },
            r is Ok ==> r->Ok_0@.wf(),
    {
        match opened {
            Ok(fd) => Ok(
                Kvm {
                    state: KvmState {
                        fd,
                        open: true,
                        vm_fd: None,
                        vcpu_fd: None,
                        size: None,
                        region: None,
                        phase: Phase::Absent,
                    },
                },
            ),
            Err(errno) => Err(open_error(errno)),
        }
    }

    /// The request that creates a machine, unless the device is closed.
    pub fn create_vm_request(&self) -> (r: Result<Control, KvmError>)
        ensures
            r == self@.create_vm_request(),
    {
        if !self.state.open {
            Err(KvmError::CreationFailed(EBADF))
        } else {
            Ok(Control { fd: self.state.fd, code: Operation::CreateVm.code(), arg: 0 })
        }
    }

    /// Takes the kernel's answer to the creation of a machine. On success the
    /// new machine is held and the machine that it displaced is handed out
    /// for release. A virtual CPU that is held stays held, with its mapping,
    /// until a new one is created.
    pub fn create_vm(&mut self, reply: Result<i32, i32>) -> (r: Result<Released, KvmError>)
        requires
            handle_reply(reply),
        ensures
            final(self)@ == old(self)@.after_create_vm(reply),
            r == old(self)@.create_vm_result(reply),
            final(self)@.wf(),
    {
        proof {
            use_type_invariant(&*self);
        }
        if !self.state.open {
            return Err(KvmError::CreationFailed(EBADF));
        }
        match reply {
            Err(errno) => Err(KvmError::CreationFailed(errno)),
            Ok(fd) => {
                let before = self.state;
                self.state = KvmState {
                    fd: before.fd,
                    open: before.open,
                    vm_fd: Some(fd),
                    vcpu_fd: before.vcpu_fd,
                    size: before.size,
                    region: before.region,
                    phase: before.phase,
                };
                Ok(Released { region: None, vcpu_fd: None, vm_fd: before.vm_fd, fd: None })
            },
        }
    }

    /// The request that creates the virtual CPU `id`, unless there is no
    /// machine or a run is outstanding.
    pub fn create_vcpu_request(&self, id: i32) -> (r: Result<Control, KvmError>)
        ensures
            r == self@.create_vcpu_request(id),
    {
        match self.state.vm_fd {
            None => Err(KvmError::CreationFailed(EBADF)),
            Some(vm_fd) => {
                if matches!(self.state.phase, Phase::Running) {
                    Err(KvmError::UseAfterUnmap)
                } else {
                    Ok(Control { fd: vm_fd, code: Operation::CreateVcpu.code(), arg: id })
                }
            },
        }
    }

    /// Takes the kernel's answer to the creation of a virtual CPU. On success
    /// the new virtual CPU is held, its shared region not yet mapped, and what
    /// it displaced is handed out for release.
    pub fn create_vcpu(&mut self, reply: Result<i32, i32>) -> (r: Result<Released, KvmError>)
        requires
            handle_reply(reply),
        ensures
            final(self)@ == old(self)@.after_create_vcpu(reply),
            r == old(self)@.create_vcpu_result(reply),
            final(self)@.wf(),
    {
        proof {
            use_type_invariant(&*self);
        }
        if self.state.vm_fd.is_none() {
            return Err(KvmError::CreationFailed(EBADF));
        }
        if matches!(self.state.phase, Phase::Running) {
            return Err(KvmError::UseAfterUnmap);
        }
        match reply {
            Err(errno) => Err(KvmError::CreationFailed(errno)),
            Ok(fd) => {
                let before = self.state;
                self.state = KvmState {
                    fd: before.fd,
                    open: before.open,
                    vm_fd: before.vm_fd,
                    vcpu_fd: Some(fd),
                    size: before.size,
                    region: None,
                    phase: Phase::Created,
                };
                Ok(
                    Released {
                        region: before.region,
                        vcpu_fd: before.vcpu_fd,
                        vm_fd: None,
                        fd: None,
                    },
                )
            },
        }
    }

    /// How to learn the size of the shared region: the size itself where the
    /// device was asked before, else the query to issue on the device.
    pub fn mmap_size_request(&self) -> (r: Result<SizeQuery, KvmError>)
        ensures
            r == self@.mmap_size_request(),
    {
        if !self.state.open {
            return Err(KvmError::QueryFailed(EBADF));
        }
        match self.state.size {
            Some(n) => Ok(SizeQuery::Known(n)),
            None => Ok(
                SizeQuery::Ask(
                    Control {
                        fd: self.state.fd,
                        code: Operation::GetVcpuMmapSize.code(),
                        arg: 0,
                    },
                ),
            ),
        }
    }

    /// Takes the kernel's answer to the size query and gives the size of the
    /// shared region. The first size learnt is kept for the life of the device
    /// handle and given again whatever a later answer says.
    pub fn mmap_size(&mut self, reply: Result<i32, i32>) -> (r: Result<usize, KvmError>)
        requires
            size_reply(reply),
        ensures
            final(self)@ == old(self)@.after_mmap_size(reply),
            r == old(self)@.mmap_size_result(reply),
            r matches Ok(n) ==> n > 0 && final(self)@.size == Some(n),
            final(self)@.wf(),
    {
        proof {
            use_type_invariant(&*self);
        }
        if !self.state.open {
            return Err(KvmError::QueryFailed(EBADF));
        }
        if let Some(n) = self.state.size {
            return Ok(n);
        }
        match reply {
            Err(errno) => Err(KvmError::QueryFailed(errno)),
            Ok(n) => {
                let size: usize = n as usize;
                let before = self.state;
                self.state = KvmState {
                    fd: before.fd,
                    open: before.open,
                    vm_fd: before.vm_fd,
                    vcpu_fd: before.vcpu_fd,
                    size: Some(size),
                    region: before.region,
                    phase: before.phase,
                };
                Ok(size)
            },
        }
    }

    /// Why `size` bytes of the shared region cannot be mapped now, if
    /// anything stands against it.
    fn map_refused(&self, size: usize) -> (e: Option<KvmError>)
        ensures
            e == self@.map_refused(size),
    {
        match self.state.phase {
            Phase::Absent | Phase::Closed => Some(KvmError::MapFailed(EBADF)),
            Phase::Runnable | Phase::Running | Phase::Exited(_) => Some(
                KvmError::MapFailed(EBUSY),
            ),
            Phase::Created => match self.state.size {
                Some(n) => if size >= n {
                    None
                } else {
                    Some(KvmError::MapFailed(EINVAL))
                },
                None => Some(KvmError::MapFailed(EINVAL)),
            },
        }
    }

    /// The request that maps `size` bytes of the shared region, unless there
    /// is no virtual CPU, the region is mapped already, or `size` is less than
    /// the size that the device was found to ask for.
    pub fn map_run_state_request(&self, size: usize) -> (r: Result<MapRequest, KvmError>)
        ensures
            r == self@.map_run_state_request(size),
    {
        proof {
            use_type_invariant(self);
        }
        if let Some(e) = self.map_refused(size) {
            return Err(e);
        }
        match self.state.vcpu_fd {
            Some(fd) => Ok(
                MapRequest { fd, len: size, offset: 0, read: true, write: true, shared: true },
            ),
            None => Err(KvmError::MapFailed(EBADF)),
        }
    }

    /// Takes the kernel's answer to the mapping of `size` bytes: the address,
    /// or the error number. On success the region is held and the virtual CPU
    /// can be run.
    pub fn map_run_state(&mut self, size: usize, reply: Result<usize, i32>) -> (r: Result<
        Region,
        KvmError,
    >)
        ensures
            final(self)@ == old(self)@.after_map_run_state(size, reply),
            r == old(self)@.map_run_state_result(size, reply),
            final(self)@.wf(),
    {
        proof {
            use_type_invariant(&*self);
        }
        if let Some(e) = self.map_refused(size) {
            return Err(e);
        }
        match reply {
            Err(errno) => Err(KvmError::MapFailed(errno)),
            Ok(addr) => {
                let region = Region { addr, len: size };
                let before = self.state;
                self.state = KvmState {
                    fd: before.fd,
                    open: before.open,
                    vm_fd: before.vm_fd,
                    vcpu_fd: before.vcpu_fd,
                    size: before.size,
                    region: Some(region),
                    phase: Phase::Runnable,
                };
                Ok(region)
            },
        }
    }

    /// Gives up the shared region and hands its mapping out to be unmapped,
    /// unless a run is outstanding or nothing is mapped.
    pub fn unmap_run_state(&mut self) -> (r: Result<Region, KvmError>)
        ensures
            final(self)@ == old(self)@.after_unmap_run_state(),
            r == old(self)@.unmap_run_state_result(),
            final(self)@.wf(),
    {
        proof {
            use_type_invariant(&*self);
        }
        match (self.state.phase, self.state.region) {
            (Phase::Runnable, Some(region)) | (Phase::Exited(_), Some(region)) => {
                let before = self.state;
                self.state = KvmState {
                    fd: before.fd,
                    open: before.open,
                    vm_fd: before.vm_fd,
                    vcpu_fd: before.vcpu_fd,
                    size: before.size,
                    region: None,
                    phase: Phase::Created,
                };
                Ok(region)
            },
            _ => Err(KvmError::UseAfterUnmap),
        }
    }

    /// The request that moves a register block by `op`, unless there is no
    /// virtual CPU.
    fn register_request(&self, op: Operation) -> (r: Result<Transfer, KvmError>)
        ensures
            r == self@.register_request(op),
    {
        match self.state.vcpu_fd {
            Some(fd) => Ok(Transfer { fd, code: op.code() }),
            None => Err(KvmError::RegisterAccessFailed(EBADF)),
        }
    }

    /// The request that reads the special registers of the virtual CPU.
    pub fn get_vcpu_sregs_request(&self) -> (r: Result<Transfer, KvmError>)
        ensures
            r == self@.register_request(Operation::GetSregs),
    {
        self.register_request(Operation::GetSregs)
    }

    /// Takes the kernel's answer to the reading of the special registers:
    /// the block that it filled, or the error number.
    pub fn get_vcpu_sregs(&self, reply: Result<kvm_sregs, i32>) -> (r: Result<kvm_sregs, KvmError>)
        ensures
            r == self@.register_result(reply),
    {
        match (self.state.vcpu_fd, reply) {
            (None, _) => Err(KvmError::RegisterAccessFailed(EBADF)),
            (Some(_), Err(errno)) => Err(KvmError::RegisterAccessFailed(errno)),
            (Some(_), Ok(sregs)) => Ok(sregs),
        }
    }

    /// The request that writes `sregs` to the special registers of the
    /// virtual CPU: it carries the block as it was given.
    pub fn set_vcpu_sregs_request(&self, sregs: kvm_sregs) -> (r: Result<SregsWrite, KvmError>)
        ensures
            r == self@.set_vcpu_sregs_request(sregs),
    {
        match self.register_request(Operation::SetSregs) {
            Ok(t) => Ok(SregsWrite { fd: t.fd, code: t.code, sregs }),
            Err(e) => Err(e),
        }
    }

    /// Takes the kernel's answer to the writing of the special registers.
    pub fn set_vcpu_sregs(&self, reply: Result<i32, i32>) -> (r: Result<(), KvmError>)
        requires
            reply is Err ==> reply->Err_0 != 0,
        ensures
            r == self@.write_result(reply),
    {
        match (self.state.vcpu_fd, reply) {
            (None, _) => Err(KvmError::RegisterAccessFailed(EBADF)),
            (Some(_), Err(errno)) => Err(KvmError::RegisterAccessFailed(errno)),
            (Some(_), Ok(_)) => Ok(()),
        }
    }

    /// The request that reads the general-purpose registers of the virtual
    /// CPU.
    pub fn get_vcpu_regs_request(&self) -> (r: Result<Transfer, KvmError>)
        ensures
            r == self@.register_request(Operation::GetRegs),
    {
        self.register_request(Operation::GetRegs)
    }

    /// Takes the kernel's answer to the reading of the general-purpose
    /// registers: the block that it filled, or the error number.
    pub fn get_vcpu_regs(&self, reply: Result<kvm_regs, i32>) -> (r: Result<kvm_regs, KvmError>)
        ensures
            r == self@.register_result(reply),
    {
        match (self.state.vcpu_fd, reply) {
            (None, _) => Err(KvmError::RegisterAccessFailed(EBADF)),
            (Some(_), Err(errno)) => Err(KvmError::RegisterAccessFailed(errno)),
            (Some(_), Ok(regs)) => Ok(regs),
        }
    }

    /// The request that writes `regs` to the general-purpose registers of the
    /// virtual CPU: it carries the block as it was given.
    pub fn set_vcpu_regs_request(&self, regs: kvm_regs) -> (r: Result<RegsWrite, KvmError>)
        ensures
            r == self@.set_vcpu_regs_request(regs),
    {
        match self.register_request(Operation::SetRegs) {
            Ok(t) => Ok(RegsWrite { fd: t.fd, code: t.code, regs }),
            Err(e) => Err(e),
        }
    }

    /// Takes the kernel's answer to the writing of the general-purpose
    /// registers.
    pub fn set_vcpu_regs(&self, reply: Result<i32, i32>) -> (r: Result<(), KvmError>)
        ensures
            r == self@.write_result(reply),
    {
        match (self.state.vcpu_fd, reply) {
            (None, _) => Err(KvmError::RegisterAccessFailed(EBADF)),
            (Some(_), Err(errno)) => Err(KvmError::RegisterAccessFailed(errno)),
            (Some(_), Ok(_)) => Ok(()),
        }
    }

    /// The request that resumes execution on the virtual CPU, unless there is
    /// none, its shared region is not mapped, or a run is outstanding. Once
    /// the request is given out, the run is outstanding.
    pub fn run_request(&mut self) -> (r: Result<Control, KvmError>)
        ensures
            final(self)@ == old(self)@.after_run_request(),
            r == old(self)@.run_request(),
            final(self)@.wf(),
    {
        proof {
            use_type_invariant(&*self);
        }
        match (self.state.phase, self.state.vcpu_fd) {
            (Phase::Absent, _) | (Phase::Closed, _) => Err(KvmError::RunFailed(EBADF)),
            (Phase::Created, _) => Err(KvmError::RunFailed(EINVAL)),
            (Phase::Running, _) => Err(KvmError::RunFailed(EBUSY)),
            (_, None) => Err(KvmError::RunFailed(EBADF)),
            (_, Some(fd)) => {
                let before = self.state;
                self.state = KvmState {
                    fd: before.fd,
                    open: before.open,
                    vm_fd: before.vm_fd,
                    vcpu_fd: before.vcpu_fd,
                    size: before.size,
                    region: before.region,
                    phase: Phase::Running,
                };
                Ok(Control { fd, code: Operation::Run.code(), arg: 0 })
            },
        }
    }

    /// Takes the kernel's answer to the run: the exit reason that it left in
    /// the shared region, or the error number. The exit reason is kept as it
    /// is; what it means is for the caller to say.
    pub fn run(&mut self, reply: Result<u32, i32>) -> (r: Result<(), KvmError>)
        requires
            reply is Err ==> reply->Err_0 != 0,
        ensures
            final(self)@ == old(self)@.after_run(reply),
            r == old(self)@.run_result(reply),
            final(self)@.wf(),
    {
        proof {
            use_type_invariant(&*self);
        }
        if !matches!(self.state.phase, Phase::Running) {
            return Err(KvmError::RunFailed(EINVAL));
        }
        let before = self.state;
        match reply {
            Ok(reason) => {
                self.state = KvmState {
                    fd: before.fd,
                    open: before.open,
                    vm_fd: before.vm_fd,
                    vcpu_fd: before.vcpu_fd,
                    size: before.size,
                    region: before.region,
                    phase: Phase::Exited(reason),
                };
                Ok(())
            },
            Err(errno) => {
                self.state = KvmState {
                    fd: before.fd,
                    open: before.open,
                    vm_fd: before.vm_fd,
                    vcpu_fd: before.vcpu_fd,
                    size: before.size,
                    region: before.region,
                    phase: Phase::Runnable,
                };
                Err(KvmError::RunFailed(errno))
            },
        }
    }

    /// Closes the device and, with it, all that was made from it. What was
    /// held is handed out for release. While a run is outstanding nothing is
    /// closed; a closed device stays closed and hands out nothing.
    pub fn close(&mut self) -> (r: Result<Released, KvmError>)
        ensures
            final(self)@ == old(self)@.after_close(),
            r == old(self)@.close_result(),
            final(self)@.wf(),
    {
        proof {
            use_type_invariant(&*self);
        }
        if matches!(self.state.phase, Phase::Running) {
            return Err(KvmError::UseAfterUnmap);
        }
        if !self.state.open {
            return Ok(Released { region: None, vcpu_fd: None, vm_fd: None, fd: None });
        }
        let before = self.state;
        let phase = match before.phase {
            Phase::Absent | Phase::Closed => Phase::Absent,
            _ => Phase::Closed,
        };
        self.state = KvmState {
            fd: before.fd,
            open: false,
            vm_fd: None,
            vcpu_fd: None,
            size: None,
            region: None,
            phase,
        };
        Ok(
            Released {
                region: before.region,
                vcpu_fd: before.vcpu_fd,
                vm_fd: before.vm_fd,
                fd: Some(before.fd),
            },
        )
    }

    /// The handle of the device.
    pub fn fd(&self) -> (fd: i32)
        ensures
            fd == self@.fd,
    {
        self.state.fd
    }

    /// Whether the device is still open.
    pub fn is_open(&self) -> (open: bool)
        ensures
            open == self@.open,
    {
        self.state.open
    }

    /// The handle of the machine, if one was created.
    pub fn vm_fd(&self) -> (fd: Option<i32>)
        ensures
            fd == self@.vm_fd,
    {
        self.state.vm_fd
    }

    /// The handle of the virtual CPU, if one was created.
    pub fn vcpu_fd(&self) -> (fd: Option<i32>)
        ensures
            fd == self@.vcpu_fd,
    {
        self.state.vcpu_fd
    }

    /// The mapping of the shared region, if it is mapped.
    pub fn region(&self) -> (region: Option<Region>)
        ensures
            region == self@.region,
    {
        self.state.region
    }

    /// Where the virtual CPU stands.
    pub fn phase(&self) -> (phase: Phase)
        ensures
            phase == self@.phase,
    {
        self.state.phase
    }

    /// The exit reason of the last run, from the time it came back until the
    /// next run is requested or the region given up.
    pub fn exit_reason(&self) -> (reason: Option<u32>)
        ensures
            reason == (match self@.phase {
                Phase::Exited(code) => Some(code),
                _ => None,
            }),
    {
        match self.state.phase {
            Phase::Exited(code) => Some(code),
            _ => None,
        }
    }

    /// All the handles at once, as a plain value.
    pub fn state(&self) -> (state: KvmState)
        ensures
            state == self@,
            state.wf(),
    {
        proof {
            use_type_invariant(self);
        }
        self.state
    }
}

} // verus!
