//! What holds of the rules whatever the kernel answers.

use vstd::prelude::*;
use kvm_bindings::{kvm_regs, kvm_sregs};
use crate::action::{Control, SizeQuery};
use crate::error::{KvmError, EBADF, EBUSY, EINVAL};
use crate::request::Operation;
use crate::rules::{control, handle_reply, size_reply};
use crate::state::{KvmState, Phase, Region, Released};

verus! {

/// One thing that happens to the handles: an answer of the kernel taken, or
/// a move of the caller.
pub enum Event {
    /// The kernel answered the creation of a machine.
    CreateVm(Result<i32, i32>),
    /// The kernel answered the creation of a virtual CPU.
    CreateVcpu(Result<i32, i32>),
    /// The kernel answered the size query.
    MmapSize(Result<i32, i32>),
    /// The kernel answered the mapping of so many bytes.
    MapRunState(usize, Result<usize, i32>),
    /// The caller gave up the shared region.
    UnmapRunState,
    /// The caller asked for the request that runs the virtual CPU.
    RunRequest,
    /// The kernel answered the run.
    Run(Result<u32, i32>),
    /// The caller closed the device.
    Close,
}

impl Event {
    /// The kernel's answer, where the event holds one, keeps the kernel's
    /// conventions.
    pub open spec fn admissible(self) -> bool {
        match self {
            Event::CreateVm(reply) => handle_reply(reply),
            Event::CreateVcpu(reply) => handle_reply(reply),
            Event::MmapSize(reply) => size_reply(reply),
            _ => true,
        }
    }
}

impl KvmState {
    /// The handles after one event.
    pub open spec fn step(self, event: Event) -> KvmState {
        match event {
            Event::CreateVm(reply) => self.after_create_vm(reply),
            Event::CreateVcpu(reply) => self.after_create_vcpu(reply),
            Event::MmapSize(reply) => self.after_mmap_size(reply),
            Event::MapRunState(size, reply) => self.after_map_run_state(size, reply),
            Event::UnmapRunState => self.after_unmap_run_state(),
            Event::RunRequest => self.after_run_request(),
            Event::Run(reply) => self.after_run(reply),
            Event::Close => self.after_close(),
        }
    }

    /// The handles after a sequence of events, the first of them first.
    pub open spec fn steps(self, events: Seq<Event>) -> KvmState
        decreases events.len(),
    {
        if events.len() == 0 {
            self
        } else {
            self.steps(events.drop_last()).step(events.last())
        }
    }
}

/// A freshly opened device is sound.
pub proof fn lemma_initial_is_sound(fd: i32)
    requires
        fd != -1,
    ensures
        KvmState::initial(fd).wf(),
{
}

/// No single event makes sound handles unsound.
pub proof fn lemma_step_keeps_sound(s: KvmState, event: Event)
    requires
        s.wf(),
        event.admissible(),
    ensures
        s.step(event).wf(),
{
}

/// No sequence of events makes sound handles unsound: what [`KvmState::wf`]
/// says holds at every moment of a control plane's life.
pub proof fn lemma_steps_keep_sound(s: KvmState, events: Seq<Event>)
    requires
        s.wf(),
        forall|i: int| 0 <= i < events.len() ==> (#[trigger] events[i]).admissible(),
    ensures
        s.steps(events).wf(),
    decreases events.len(),
{
    if events.len() > 0 {
        lemma_steps_keep_sound(s, events.drop_last());
        lemma_step_keeps_sound(s.steps(events.drop_last()), events.last());
    }
}

/// The size of the shared region is strictly positive, and asking twice gives
/// the same: once an answer was taken, the next query needs no request, and
/// whatever a second answer says, the first size is given again.
pub proof fn lemma_mmap_size_is_idempotent(
    s: KvmState,
    first: Result<i32, i32>,
    second: Result<i32, i32>,
)
    requires
        s.wf(),
        size_reply(first),
        s.mmap_size_result(first) is Ok,
    ensures
        s.mmap_size_result(first)->Ok_0 > 0,
        s.after_mmap_size(first).mmap_size_request() == Ok::<SizeQuery, KvmError>(
            SizeQuery::Known(s.mmap_size_result(first)->Ok_0),
        ),
        s.after_mmap_size(first).mmap_size_result(second) == s.mmap_size_result(first),
        s.after_mmap_size(first).after_mmap_size(second) == s.after_mmap_size(first),
{
}

/// The size once learnt stays the same for as long as the device is open,
/// whatever happens in between.
pub proof fn lemma_size_is_kept(s: KvmState, events: Seq<Event>)
    requires
        s.size is Some,
        s.steps(events).open,
    ensures
        s.steps(events).size == s.size,
    decreases events.len(),
{
    if events.len() > 0 {
        let before = s.steps(events.drop_last());
        assert(before.open) by {
            if !before.open {
                assert(before.step(events.last()).open == before.open);
            }
        }
        lemma_size_is_kept(s, events.drop_last());
    }
}

/// The size is asked of the device, never of the machine or the virtual CPU.
pub proof fn lemma_size_is_asked_of_the_device(s: KvmState)
    requires
        s.mmap_size_request() matches Ok(SizeQuery::Ask(_)),
    ensures
        s.mmap_size_request() == Ok::<SizeQuery, KvmError>(
            SizeQuery::Ask(control(s.fd, Operation::GetVcpuMmapSize, 0)),
        ),
{
}

/// A mapping shorter than the size that the device was queried for fails, and
/// so does one before the device was queried: no request is given out, the
/// kernel's answer is not taken, and the handles stay as they were.
pub proof fn lemma_short_mapping_fails(s: KvmState, size: usize, reply: Result<usize, i32>)
    requires
        s.wf(),
        s.size matches Some(n) ==> size < n,
    ensures
        s.map_run_state_request(size) matches Err(KvmError::MapFailed(_)),
        s.map_run_state_result(size, reply) matches Err(KvmError::MapFailed(_)),
        s.after_map_run_state(size, reply) == s,
{
}

/// A mapping that succeeds has the length asked for, and that is at least
/// the size that the device was queried for.
pub proof fn lemma_mapping_covers_size(s: KvmState, size: usize, reply: Result<usize, i32>)
    requires
        s.wf(),
        s.map_run_state_result(size, reply) is Ok,
    ensures
        s.size is Some,
        size >= s.size->Some_0,
        s.map_run_state_result(size, reply)->Ok_0.len == size,
        s.after_map_run_state(size, reply).region == Some(
            s.map_run_state_result(size, reply)->Ok_0,
        ),
        s.after_map_run_state(size, reply).phase == Phase::Runnable,
{
}

/// A register block comes through as it is: what the kernel filled in is
/// what the reading gives, on every virtual CPU that exists.
pub proof fn lemma_register_block_comes_through<T>(s: KvmState, block: T)
    requires
        s.vcpu_fd is Some,
    ensures
        s.register_result(Ok::<T, i32>(block)) == Ok::<T, KvmError>(block),
{
}

/// Without a machine no virtual CPU is created: no request is given out, the
/// kernel's answer is not taken, and the handles stay as they were.
pub proof fn lemma_vcpu_needs_machine(s: KvmState, id: i32, reply: Result<i32, i32>)
    requires
        s.vm_fd is None,
    ensures
        s.create_vcpu_request(id) == Err::<Control, KvmError>(
            KvmError::CreationFailed(EBADF),
        ),
        s.create_vcpu_result(reply) == Err::<Released, KvmError>(
            KvmError::CreationFailed(EBADF),
        ),
        s.after_create_vcpu(reply) == s,
{
}

/// Closing the device invalidates all that was made from it: on a closed
/// device every operation fails, with the failure of its kind, and no event
/// opens it again.
pub proof fn lemma_closed_device_refuses(s: KvmState, event: Event)
    requires
        s.wf(),
        !s.open,
    ensures
        s.create_vm_request() matches Err(KvmError::CreationFailed(_)),
        forall|id: i32| #[trigger] s.create_vcpu_request(id) matches Err(KvmError::CreationFailed(_)),
        s.mmap_size_request() matches Err(KvmError::QueryFailed(_)),
        forall|size: usize| #[trigger]
            s.map_run_state_request(size) matches Err(KvmError::MapFailed(_)),
        forall|op: Operation| #[trigger]
            s.register_request(op) matches Err(KvmError::RegisterAccessFailed(_)),
        s.run_request() matches Err(KvmError::RunFailed(_)),
        s.unmap_run_state_result() == Err::<Region, KvmError>(
            KvmError::UseAfterUnmap,
        ),
        s.step(event) == s,
{
}

/// A successful close leaves nothing behind and hands out all that was held.
pub proof fn lemma_close_releases_all(s: KvmState)
    requires
        s.wf(),
        s.open,
        !(s.phase is Running),
    ensures
        s.close_result() is Ok,
        s.close_result()->Ok_0.fd == Some(s.fd),
        s.close_result()->Ok_0.vm_fd == s.vm_fd,
        s.close_result()->Ok_0.vcpu_fd == s.vcpu_fd,
        s.close_result()->Ok_0.region == s.region,
        !s.after_close().open,
        s.after_close().vm_fd is None,
        s.after_close().vcpu_fd is None,
        s.after_close().region is None,
{
}

/// The virtual CPU is run only with its shared region mapped, and one run at
/// a time: a request to run is given out only where a mapping exists, and
/// until the kernel's answer is taken a second one is refused.
pub proof fn lemma_one_run_at_a_time(s: KvmState)
    requires
        s.wf(),
        s.run_request() is Ok,
    ensures
        s.region is Some,
        s.vcpu_fd is Some,
        s.run_request() == Ok::<Control, KvmError>(
            control(s.vcpu_fd->Some_0, Operation::Run, 0),
        ),
        s.after_run_request().phase == Phase::Running,
        s.after_run_request().run_request() == Err::<Control, KvmError>(
            KvmError::RunFailed(EBUSY),
        ),
{
}

/// While a run is outstanding the virtual CPU and its shared region stay as
/// they are: nothing but the kernel's answer to the run takes the virtual CPU
/// out of the run, and the region can be neither given up nor displaced nor
/// closed.
pub proof fn lemma_region_outlives_run(s: KvmState, event: Event)
    requires
        s.wf(),
        s.phase is Running,
        !(event is Run),
    ensures
        s.step(event).region == s.region,
        s.step(event).region is Some,
        s.step(event).vcpu_fd == s.vcpu_fd,
        s.step(event).phase is Running,
        s.step(event).open,
        s.unmap_run_state_result() == Err::<Region, KvmError>(KvmError::UseAfterUnmap),
        s.close_result() == Err::<Released, KvmError>(KvmError::UseAfterUnmap),
        forall|id: i32| #[trigger]
            s.create_vcpu_request(id) == Err::<Control, KvmError>(KvmError::UseAfterUnmap),
{
}

/// The kernel's answer to a run ends it: the virtual CPU has exited with the
/// reason given, or is runnable again after a failure, and in both cases can
/// be run once more on the same mapping.
pub proof fn lemma_run_comes_back(s: KvmState, reply: Result<u32, i32>)
    requires
        s.wf(),
        s.phase is Running,
    ensures
        reply matches Ok(reason) ==> s.after_run(reply).phase == Phase::Exited(reason)
            && s.run_result(reply) is Ok,
        reply matches Err(errno) ==> s.after_run(reply).phase == Phase::Runnable && s.run_result(
            reply,
        ) == Err::<(), KvmError>(KvmError::RunFailed(errno)),
        s.after_run(reply).region == s.region,
        s.after_run(reply).run_request() is Ok,
{
}

/// A run that was never requested has no answer to take.
pub proof fn lemma_unrequested_run_fails(s: KvmState, reply: Result<u32, i32>)
    requires
        !(s.phase is Running),
    ensures
        s.run_result(reply) == Err::<(), KvmError>(KvmError::RunFailed(EINVAL)),
        s.after_run(reply) == s,
{
}

/// The shared region is handed out for unmapping exactly once: giving it up
/// a second time fails, and so does running the virtual CPU on it.
pub proof fn lemma_region_is_unmapped_once(s: KvmState)
    requires
        s.wf(),
        s.unmap_run_state_result() is Ok,
    ensures
        s.unmap_run_state_result() == Ok::<Region, KvmError>(s.region->Some_0),
        s.after_unmap_run_state().region is None,
        s.after_unmap_run_state().unmap_run_state_result() == Err::<Region, KvmError>(
            KvmError::UseAfterUnmap,
        ),
        s.after_unmap_run_state().run_request() == Err::<Control, KvmError>(
            KvmError::RunFailed(EINVAL),
        ),
        s.after_unmap_run_state().wf(),
{
}

/// A creation loses nothing: the machine or virtual CPU that the new one
/// takes the place of is handed out for release, and what is handed out is no
/// longer held. A new machine displaces the machine alone; a new virtual CPU
/// displaces the virtual CPU and its mapping.
pub proof fn lemma_creation_hands_out_what_it_displaces(s: KvmState, reply: Result<i32, i32>)
    requires
        s.wf(),
        handle_reply(reply),
    ensures
        s.create_vm_result(reply) matches Ok(released) ==> {
            &&& released.vm_fd == s.vm_fd
            &&& released.vcpu_fd is None
            &&& released.region is None
            &&& released.fd is None
            &&& s.after_create_vm(reply) == KvmState { vm_fd: Some(reply->Ok_0), ..s }
        },
        s.create_vcpu_result(reply) matches Ok(released) ==> {
            &&& released.vm_fd is None
            &&& released.vcpu_fd == s.vcpu_fd
            &&& released.region == s.region
            &&& released.fd is None
            &&& s.after_create_vcpu(reply) == KvmState {
                vcpu_fd: Some(reply->Ok_0),
                region: None,
                phase: Phase::Created,
                ..s
            }
        },
        s.create_vm_result(reply) is Err ==> s.after_create_vm(reply) == s,
        s.create_vcpu_result(reply) is Err ==> s.after_create_vcpu(reply) == s,
{
}

/// On an open device the creation of a machine is never refused by the
/// library: a request is given out, and whether a machine comes of it is for
/// the kernel alone to say.
pub proof fn lemma_machine_is_the_kernels_to_refuse(s: KvmState, reply: Result<i32, i32>)
    requires
        s.open,
    ensures
        s.create_vm_request() == Ok::<Control, KvmError>(control(s.fd, Operation::CreateVm, 0)),
        reply matches Ok(fd) ==> s.create_vm_result(reply) is Ok && s.after_create_vm(
            reply,
        ).vm_fd == Some(fd),
        reply matches Err(errno) ==> s.create_vm_result(reply) == Err::<Released, KvmError>(
            KvmError::CreationFailed(errno),
        ),
{
}

/// The handles `s` with `machine` in the place of the machine.
pub open spec fn with_machine(s: KvmState, machine: i32) -> KvmState {
    KvmState { vm_fd: Some(machine), ..s }
}

/// What is handed out where a machine alone is displaced.
pub open spec fn machine_alone(vm_fd: Option<i32>) -> Released {
    Released { region: None, vcpu_fd: None, vm_fd, fd: None }
}

/// The failure of a creation that the kernel refused with `errno`.
pub open spec fn creation_failed(errno: i32) -> Result<Released, KvmError> {
    Err(KvmError::CreationFailed(errno))
}

/// A machine that is created without its virtual CPU leaves the virtual CPU
/// that was held where it was: after a new machine `machine` and the failed
/// creation of a virtual CPU on it, the new machine is held, the failure is
/// the kernel's, and the virtual CPU, its mapping, its phase and the device
/// are what they were before.
pub proof fn lemma_failed_vcpu_keeps_the_old_one(s: KvmState, machine: i32, errno: i32)
    requires
        s.wf(),
        s.open,
        !(s.phase is Running),
    ensures
        s.create_vm_result(Ok(machine)) == Ok::<Released, KvmError>(machine_alone(s.vm_fd)),
        s.after_create_vm(Ok(machine)).create_vcpu_result(Err(errno)) == creation_failed(errno),
        s.after_create_vm(Ok(machine)).after_create_vcpu(Err(errno)) == with_machine(s, machine),
        with_machine(s, machine).vcpu_fd == s.vcpu_fd,
        with_machine(s, machine).region == s.region,
        with_machine(s, machine).phase == s.phase,
        with_machine(s, machine).fd == s.fd,
{
}

/// Opens that gave different numbers give control planes that hold different
/// numbers: the library keeps the handle that the open returned.
pub proof fn lemma_opens_keep_their_numbers(a: i32, b: i32)
    requires
        a != b,
    ensures
        KvmState::initial(a).fd == a,
        KvmState::initial(b).fd == b,
        KvmState::initial(a).fd != KvmState::initial(b).fd,
{
}

/// The library's part in writing a register block and reading it back: the
/// write request carries the block as it was given, and where the kernel
/// answers the read with the block that the request carried, the read gives
/// that block.
pub proof fn lemma_registers_round_trip(s: KvmState, regs: kvm_regs, sregs: kvm_sregs)
    requires
        s.vcpu_fd is Some,
    ensures
        s.set_vcpu_regs_request(regs) is Ok,
        s.set_vcpu_regs_request(regs)->Ok_0.regs == regs,
        s.set_vcpu_sregs_request(sregs) is Ok,
        s.set_vcpu_sregs_request(sregs)->Ok_0.sregs == sregs,
        s.write_result(Ok(0)) is Ok,
        s.register_result(Ok::<kvm_regs, i32>(s.set_vcpu_regs_request(regs)->Ok_0.regs)) == Ok::<
            kvm_regs,
            KvmError,
        >(regs),
        s.register_result(Ok::<kvm_sregs, i32>(s.set_vcpu_sregs_request(sregs)->Ok_0.sregs))
            == Ok::<kvm_sregs, KvmError>(sregs),
{
}

} // verus!
