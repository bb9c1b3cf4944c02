use kvm_bindings::{kvm_regs, kvm_sregs};
use kvm_control::action::{Control, MapRequest, RegsWrite, SizeQuery, SregsWrite, Transfer};
use kvm_control::error::KvmError;
use kvm_control::kvm::Kvm;
use kvm_control::state::{KvmState, Phase, Region, Released};

const NOTHING: Released = Released { region: None, vcpu_fd: None, vm_fd: None, fd: None };

fn with_machine() -> Kvm {
    let mut k = Kvm::new(Ok(3)).unwrap();
    assert_eq!(k.create_vm(Ok(4)), Ok(NOTHING));
    k
}

fn with_vcpu() -> Kvm {
    let mut k = with_machine();
    assert_eq!(k.create_vcpu(Ok(5)), Ok(NOTHING));
    k
}

fn runnable() -> Kvm {
    let mut k = with_vcpu();
    assert_eq!(k.mmap_size(Ok(12288)), Ok(12288));
    assert_eq!(
        k.map_run_state(12288, Ok(0x7000_0000)),
        Ok(Region { addr: 0x7000_0000, len: 12288 })
    );
    k
}

#[test]
fn the_device_is_opened_by_its_path_for_reading_and_writing() {
    let req = Kvm::open_request();
    assert_eq!(req.path, "/dev/kvm");
    assert!(req.read);
    assert!(req.write);
}

#[test]
fn a_new_control_plane_holds_the_device_only() {
    let k = Kvm::new(Ok(3)).unwrap();
    assert_eq!(
        k.state(),
        KvmState {
            fd: 3,
            open: true,
            vm_fd: None,
            vcpu_fd: None,
            size: None,
            region: None,
            phase: Phase::Absent,
        }
    );
    assert_eq!(k.fd(), 3);
    assert!(k.is_open());
    assert_eq!(k.vm_fd(), None);
    assert_eq!(k.vcpu_fd(), None);
    assert_eq!(k.region(), None);
    assert_eq!(k.phase(), Phase::Absent);
    assert_eq!(k.exit_reason(), None);
}

#[test]
fn two_opens_keep_the_handles_they_were_given() {
    let a = Kvm::new(Ok(3)).unwrap();
    let b = Kvm::new(Ok(4)).unwrap();
    assert_eq!(a.fd(), 3);
    assert_eq!(b.fd(), 4);
    assert_ne!(a.fd(), b.fd());
}

#[test]
fn a_missing_device_is_unavailable() {
    assert_eq!(Kvm::new(Err(2)).unwrap_err(), KvmError::DeviceUnavailable(2));
}

#[test]
fn open_with_invalid_permissions_gives_no_handle() {
    let r = Kvm::new(Err(13));
    assert_eq!(r.unwrap_err(), KvmError::PermissionDenied(13));
}

#[test]
fn create_vm_asks_the_device_with_no_flags() {
    let k = Kvm::new(Ok(3)).unwrap();
    assert_eq!(k.create_vm_request(), Ok(Control { fd: 3, code: 0xAE01, arg: 0 }));
}

#[test]
fn create_vm_takes_the_new_handle() {
    let k = with_machine();
    assert_eq!(k.vm_fd(), Some(4));
    assert_eq!(k.vcpu_fd(), None);
    assert_eq!(k.phase(), Phase::Absent);
}

#[test]
fn create_vm_fails_with_the_error_number_of_the_kernel() {
    let mut k = Kvm::new(Ok(3)).unwrap();
    assert_eq!(k.create_vm(Err(12)), Err(KvmError::CreationFailed(12)));
    assert_eq!(k.vm_fd(), None);
}

#[test]
fn create_vm_on_a_closed_device_fails() {
    let mut k = Kvm::new(Ok(3)).unwrap();
    assert_eq!(
        k.close(),
        Ok(Released { region: None, vcpu_fd: None, vm_fd: None, fd: Some(3) })
    );
    assert_eq!(k.create_vm_request(), Err(KvmError::CreationFailed(9)));
    assert_eq!(k.create_vm(Ok(4)), Err(KvmError::CreationFailed(9)));
    assert_eq!(k.vm_fd(), None);
}

#[test]
fn create_vcpu_before_create_vm_fails_without_a_request() {
    let mut k = Kvm::new(Ok(3)).unwrap();
    assert_eq!(k.create_vcpu_request(0), Err(KvmError::CreationFailed(9)));
    assert_eq!(k.create_vcpu(Ok(5)), Err(KvmError::CreationFailed(9)));
    assert_eq!(k.vcpu_fd(), None);
    assert_eq!(k.phase(), Phase::Absent);
}

#[test]
fn create_vcpu_asks_the_machine_with_the_index() {
    let k = with_machine();
    assert_eq!(k.create_vcpu_request(0), Ok(Control { fd: 4, code: 0xAE41, arg: 0 }));
    assert_eq!(k.create_vcpu_request(2), Ok(Control { fd: 4, code: 0xAE41, arg: 2 }));
}

#[test]
fn create_vcpu_takes_the_new_handle() {
    let mut k = with_machine();
    assert_eq!(k.create_vcpu(Err(17)), Err(KvmError::CreationFailed(17)));
    assert_eq!(k.vcpu_fd(), None);
    assert_eq!(k.create_vcpu(Ok(5)), Ok(NOTHING));
    assert_eq!(k.vcpu_fd(), Some(5));
    assert_eq!(k.phase(), Phase::Created);
}

#[test]
fn a_second_machine_displaces_the_first_alone() {
    let mut k = runnable();
    assert_eq!(
        k.create_vm(Ok(7)),
        Ok(Released { region: None, vcpu_fd: None, vm_fd: Some(4), fd: None })
    );
    assert_eq!(k.vm_fd(), Some(7));
    assert_eq!(k.vcpu_fd(), Some(5));
    assert_eq!(k.region(), Some(Region { addr: 0x7000_0000, len: 12288 }));
    assert_eq!(k.phase(), Phase::Runnable);
    assert_eq!(k.fd(), 3);
}

#[test]
fn a_failed_vcpu_on_a_second_machine_keeps_the_first_vcpu() {
    let mut k = with_vcpu();
    assert_eq!(
        k.create_vm(Ok(6)),
        Ok(Released { region: None, vcpu_fd: None, vm_fd: Some(4), fd: None })
    );
    assert_eq!(k.create_vcpu_request(0), Ok(Control { fd: 6, code: 0xAE41, arg: 0 }));
    assert_eq!(k.create_vcpu(Err(12)), Err(KvmError::CreationFailed(12)));
    assert_eq!(k.fd(), 3);
    assert_eq!(k.vm_fd(), Some(6));
    assert_eq!(k.vcpu_fd(), Some(5));
    assert_eq!(k.phase(), Phase::Created);
    assert_eq!(
        k.close(),
        Ok(Released { region: None, vcpu_fd: Some(5), vm_fd: Some(6), fd: Some(3) })
    );
}

#[test]
fn a_vcpu_on_a_second_machine_displaces_the_first_vcpu() {
    let mut k = runnable();
    assert!(k.create_vm(Ok(6)).is_ok());
    assert_eq!(
        k.create_vcpu(Ok(7)),
        Ok(Released {
            region: Some(Region { addr: 0x7000_0000, len: 12288 }),
            vcpu_fd: Some(5),
            vm_fd: None,
            fd: None,
        })
    );
    assert_eq!(k.vm_fd(), Some(6));
    assert_eq!(k.vcpu_fd(), Some(7));
    assert_eq!(k.region(), None);
    assert_eq!(k.phase(), Phase::Created);
}

#[test]
fn a_failed_second_machine_changes_nothing() {
    let mut k = runnable();
    let before = k.state();
    assert_eq!(k.create_vm(Err(24)), Err(KvmError::CreationFailed(24)));
    assert_eq!(k.state(), before);
}

#[test]
fn a_second_vcpu_displaces_the_first() {
    let mut k = runnable();
    assert_eq!(
        k.create_vcpu(Ok(8)),
        Ok(Released {
            region: Some(Region { addr: 0x7000_0000, len: 12288 }),
            vcpu_fd: Some(5),
            vm_fd: None,
            fd: None,
        })
    );
    assert_eq!(k.vm_fd(), Some(4));
    assert_eq!(k.vcpu_fd(), Some(8));
    assert_eq!(k.region(), None);
    assert_eq!(k.phase(), Phase::Created);
}

#[test]
fn mmap_size_is_asked_of_the_device() {
    let k = with_vcpu();
    assert_eq!(
        k.mmap_size_request(),
        Ok(SizeQuery::Ask(Control { fd: 3, code: 0xAE04, arg: 0 }))
    );
}

#[test]
fn mmap_size_is_positive_and_the_same_when_asked_twice() {
    let mut k = Kvm::new(Ok(3)).unwrap();
    assert_eq!(k.mmap_size(Ok(12288)), Ok(12288));
    assert_eq!(k.mmap_size_request(), Ok(SizeQuery::Known(12288)));
    assert_eq!(k.mmap_size(Ok(4096)), Ok(12288));
    assert_eq!(k.mmap_size(Err(9)), Ok(12288));
    assert_eq!(k.state().size, Some(12288));
}

#[test]
fn mmap_size_takes_the_smallest_and_the_largest_size() {
    let mut k = Kvm::new(Ok(3)).unwrap();
    assert_eq!(k.mmap_size(Ok(1)), Ok(1));
    let mut k = Kvm::new(Ok(3)).unwrap();
    assert_eq!(k.mmap_size(Ok(i32::MAX)), Ok(2147483647));
}

#[test]
fn mmap_size_fails_with_the_error_number_of_the_kernel() {
    let mut k = Kvm::new(Ok(3)).unwrap();
    assert_eq!(k.mmap_size(Err(25)), Err(KvmError::QueryFailed(25)));
    assert_eq!(k.state().size, None);
    assert_eq!(k.mmap_size(Ok(8192)), Ok(8192));
}

#[test]
fn mmap_size_on_a_closed_device_fails() {
    let mut k = Kvm::new(Ok(3)).unwrap();
    assert_eq!(k.mmap_size(Ok(12288)), Ok(12288));
    assert!(k.close().is_ok());
    assert_eq!(k.mmap_size_request(), Err(KvmError::QueryFailed(9)));
    assert_eq!(k.mmap_size(Ok(12288)), Err(KvmError::QueryFailed(9)));
}

#[test]
fn map_run_state_asks_for_a_shared_mapping_from_the_start() {
    let mut k = with_vcpu();
    assert_eq!(k.mmap_size(Ok(12288)), Ok(12288));
    assert_eq!(
        k.map_run_state_request(12288),
        Ok(MapRequest { fd: 5, len: 12288, offset: 0, read: true, write: true, shared: true })
    );
    assert_eq!(
        k.map_run_state_request(16384),
        Ok(MapRequest { fd: 5, len: 16384, offset: 0, read: true, write: true, shared: true })
    );
}

#[test]
fn map_run_state_with_a_smaller_size_fails() {
    let mut k = with_vcpu();
    assert_eq!(k.mmap_size(Ok(12288)), Ok(12288));
    assert_eq!(k.map_run_state_request(12287), Err(KvmError::MapFailed(22)));
    assert_eq!(k.map_run_state(12287, Ok(0x7000_0000)), Err(KvmError::MapFailed(22)));
    assert_eq!(k.map_run_state_request(0), Err(KvmError::MapFailed(22)));
    assert_eq!(k.region(), None);
    assert_eq!(k.phase(), Phase::Created);
}

#[test]
fn map_run_state_before_the_size_query_fails() {
    let mut k = with_vcpu();
    assert_eq!(k.map_run_state_request(12288), Err(KvmError::MapFailed(22)));
    assert_eq!(k.map_run_state(12288, Ok(0x7000_0000)), Err(KvmError::MapFailed(22)));
    assert_eq!(k.region(), None);
}

#[test]
fn map_run_state_without_a_vcpu_fails() {
    let mut k = with_machine();
    assert_eq!(k.mmap_size(Ok(12288)), Ok(12288));
    assert_eq!(k.map_run_state_request(12288), Err(KvmError::MapFailed(9)));
    assert_eq!(k.map_run_state(12288, Ok(0x7000_0000)), Err(KvmError::MapFailed(9)));
}

#[test]
fn map_run_state_twice_fails() {
    let mut k = runnable();
    assert_eq!(k.map_run_state_request(12288), Err(KvmError::MapFailed(16)));
    assert_eq!(k.map_run_state(12288, Ok(0x7100_0000)), Err(KvmError::MapFailed(16)));
    assert_eq!(k.region(), Some(Region { addr: 0x7000_0000, len: 12288 }));
}

#[test]
fn map_run_state_fails_with_the_error_number_of_the_kernel() {
    let mut k = with_vcpu();
    assert_eq!(k.mmap_size(Ok(12288)), Ok(12288));
    assert_eq!(k.map_run_state(12288, Err(12)), Err(KvmError::MapFailed(12)));
    assert_eq!(k.region(), None);
    assert_eq!(k.phase(), Phase::Created);
}

#[test]
fn unmap_run_state_hands_the_mapping_out_once() {
    let mut k = runnable();
    assert_eq!(k.unmap_run_state(), Ok(Region { addr: 0x7000_0000, len: 12288 }));
    assert_eq!(k.region(), None);
    assert_eq!(k.phase(), Phase::Created);
    assert_eq!(k.unmap_run_state(), Err(KvmError::UseAfterUnmap));
    assert_eq!(k.run_request(), Err(KvmError::RunFailed(22)));
}

#[test]
fn unmap_run_state_during_a_run_is_refused() {
    let mut k = runnable();
    assert!(k.run_request().is_ok());
    assert_eq!(k.unmap_run_state(), Err(KvmError::UseAfterUnmap));
    assert_eq!(k.region(), Some(Region { addr: 0x7000_0000, len: 12288 }));
    assert_eq!(k.phase(), Phase::Running);
}

#[test]
fn the_region_can_be_mapped_again_after_it_was_given_up() {
    let mut k = runnable();
    assert!(k.unmap_run_state().is_ok());
    assert_eq!(
        k.map_run_state(12288, Ok(0x7200_0000)),
        Ok(Region { addr: 0x7200_0000, len: 12288 })
    );
    assert_eq!(k.phase(), Phase::Runnable);
}

#[test]
fn general_registers_come_back_as_they_were_set() {
    let k = with_vcpu();
    let x = kvm_regs { rax: 1, rbx: 2, rip: 0x1000, rflags: 2, ..Default::default() };
    assert_eq!(
        k.set_vcpu_regs_request(x),
        Ok(RegsWrite { fd: 5, code: 0x4090_AE82, regs: x })
    );
    assert_eq!(k.set_vcpu_regs(Ok(0)), Ok(()));
    assert_eq!(k.get_vcpu_regs_request(), Ok(Transfer { fd: 5, code: 0x8090_AE81 }));
    assert_eq!(k.get_vcpu_regs(Ok(x)), Ok(x));
}

#[test]
fn special_registers_come_back_as_they_were_set() {
    let k = with_vcpu();
    let mut x = kvm_sregs::default();
    x.cr0 = 0x11;
    x.cs.base = 0xF_0000;
    x.cs.selector = 0xF000;
    assert_eq!(
        k.set_vcpu_sregs_request(x),
        Ok(SregsWrite { fd: 5, code: 0x4138_AE84, sregs: x })
    );
    assert_eq!(k.set_vcpu_sregs(Ok(0)), Ok(()));
    assert_eq!(k.get_vcpu_sregs_request(), Ok(Transfer { fd: 5, code: 0x8138_AE83 }));
    assert_eq!(k.get_vcpu_sregs(Ok(x)), Ok(x));
}

#[test]
fn register_access_fails_with_the_error_number_of_the_kernel() {
    let k = with_vcpu();
    assert_eq!(k.get_vcpu_regs(Err(14)), Err(KvmError::RegisterAccessFailed(14)));
    assert_eq!(k.set_vcpu_regs(Err(22)), Err(KvmError::RegisterAccessFailed(22)));
    assert_eq!(k.get_vcpu_sregs(Err(14)), Err(KvmError::RegisterAccessFailed(14)));
    assert_eq!(k.set_vcpu_sregs(Err(22)), Err(KvmError::RegisterAccessFailed(22)));
}

#[test]
fn register_access_without_a_vcpu_fails() {
    let k = with_machine();
    let regs = kvm_regs::default();
    let sregs = kvm_sregs::default();
    assert_eq!(k.get_vcpu_regs_request(), Err(KvmError::RegisterAccessFailed(9)));
    assert_eq!(k.get_vcpu_regs(Ok(regs)), Err(KvmError::RegisterAccessFailed(9)));
    assert_eq!(k.set_vcpu_regs_request(regs), Err(KvmError::RegisterAccessFailed(9)));
    assert_eq!(k.set_vcpu_regs(Ok(0)), Err(KvmError::RegisterAccessFailed(9)));
    assert_eq!(k.get_vcpu_sregs_request(), Err(KvmError::RegisterAccessFailed(9)));
    assert_eq!(k.get_vcpu_sregs(Ok(sregs)), Err(KvmError::RegisterAccessFailed(9)));
    assert_eq!(k.set_vcpu_sregs_request(sregs), Err(KvmError::RegisterAccessFailed(9)));
    assert_eq!(k.set_vcpu_sregs(Ok(0)), Err(KvmError::RegisterAccessFailed(9)));
}

#[test]
fn open_create_map_and_run_once() {
    let mut k = Kvm::new(Ok(3)).unwrap();
    assert_eq!(k.create_vm_request(), Ok(Control { fd: 3, code: 0xAE01, arg: 0 }));
    assert_eq!(k.create_vm(Ok(4)), Ok(NOTHING));
    assert_eq!(k.create_vcpu_request(0), Ok(Control { fd: 4, code: 0xAE41, arg: 0 }));
    assert_eq!(k.create_vcpu(Ok(5)), Ok(NOTHING));
    assert_eq!(
        k.mmap_size_request(),
        Ok(SizeQuery::Ask(Control { fd: 3, code: 0xAE04, arg: 0 }))
    );
    let size = k.mmap_size(Ok(12288)).unwrap();
    assert_eq!(size, 12288);
    assert_eq!(
        k.map_run_state_request(size),
        Ok(MapRequest { fd: 5, len: 12288, offset: 0, read: true, write: true, shared: true })
    );
    assert_eq!(
        k.map_run_state(size, Ok(0x7000_0000)),
        Ok(Region { addr: 0x7000_0000, len: 12288 })
    );
    assert_eq!(k.phase(), Phase::Runnable);
    assert_eq!(k.run_request(), Ok(Control { fd: 5, code: 0xAE80, arg: 0 }));
    assert_eq!(k.phase(), Phase::Running);
    assert_eq!(k.exit_reason(), None);
    assert_eq!(k.run(Ok(8)), Ok(()));
    assert_eq!(k.phase(), Phase::Exited(8));
    assert_eq!(k.exit_reason(), Some(8));
    assert_eq!(
        k.close(),
        Ok(Released {
            region: Some(Region { addr: 0x7000_0000, len: 12288 }),
            vcpu_fd: Some(5),
            vm_fd: Some(4),
            fd: Some(3),
        })
    );
    assert_eq!(k.phase(), Phase::Closed);
}

#[test]
fn a_refused_run_leaves_the_vcpu_runnable() {
    let mut k = runnable();
    assert!(k.run_request().is_ok());
    assert_eq!(k.run(Err(22)), Err(KvmError::RunFailed(22)));
    assert_eq!(k.phase(), Phase::Runnable);
    assert_eq!(k.exit_reason(), None);
    assert_eq!(k.run_request(), Ok(Control { fd: 5, code: 0xAE80, arg: 0 }));
}

#[test]
fn an_exited_vcpu_runs_again() {
    let mut k = runnable();
    assert!(k.run_request().is_ok());
    assert_eq!(k.run(Ok(5)), Ok(()));
    assert_eq!(k.exit_reason(), Some(5));
    assert_eq!(k.run_request(), Ok(Control { fd: 5, code: 0xAE80, arg: 0 }));
    assert_eq!(k.exit_reason(), None);
    assert_eq!(k.run(Ok(2)), Ok(()));
    assert_eq!(k.phase(), Phase::Exited(2));
}

#[test]
fn one_run_at_a_time() {
    let mut k = runnable();
    assert!(k.run_request().is_ok());
    assert_eq!(k.run_request(), Err(KvmError::RunFailed(16)));
    assert_eq!(k.phase(), Phase::Running);
}

#[test]
fn run_needs_a_vcpu_and_its_region() {
    let mut k = Kvm::new(Ok(3)).unwrap();
    assert_eq!(k.run_request(), Err(KvmError::RunFailed(9)));
    let mut k = with_vcpu();
    assert_eq!(k.run_request(), Err(KvmError::RunFailed(22)));
    assert_eq!(k.phase(), Phase::Created);
}

#[test]
fn a_run_that_was_not_requested_has_no_answer() {
    let mut k = runnable();
    assert_eq!(k.run(Ok(8)), Err(KvmError::RunFailed(22)));
    assert_eq!(k.phase(), Phase::Runnable);
    assert_eq!(k.exit_reason(), None);
}

#[test]
fn the_vcpu_is_neither_displaced_nor_closed_during_a_run() {
    let mut k = runnable();
    assert!(k.run_request().is_ok());
    let before = k.state();
    assert_eq!(k.create_vcpu_request(0), Err(KvmError::UseAfterUnmap));
    assert_eq!(k.create_vcpu(Ok(8)), Err(KvmError::UseAfterUnmap));
    assert_eq!(k.close(), Err(KvmError::UseAfterUnmap));
    assert_eq!(k.state(), before);
}

#[test]
fn a_machine_created_during_a_run_leaves_the_run_alone() {
    let mut k = runnable();
    assert!(k.run_request().is_ok());
    assert_eq!(k.create_vm_request(), Ok(Control { fd: 3, code: 0xAE01, arg: 0 }));
    assert_eq!(
        k.create_vm(Ok(7)),
        Ok(Released { region: None, vcpu_fd: None, vm_fd: Some(4), fd: None })
    );
    assert_eq!(k.vcpu_fd(), Some(5));
    assert_eq!(k.region(), Some(Region { addr: 0x7000_0000, len: 12288 }));
    assert_eq!(k.phase(), Phase::Running);
    assert_eq!(k.run(Ok(8)), Ok(()));
    assert_eq!(k.exit_reason(), Some(8));
}

#[test]
fn close_is_final() {
    let mut k = runnable();
    assert!(k.close().is_ok());
    assert!(!k.is_open());
    assert_eq!(k.vm_fd(), None);
    assert_eq!(k.vcpu_fd(), None);
    assert_eq!(k.region(), None);
    assert_eq!(k.state().size, None);
    assert_eq!(k.close(), Ok(NOTHING));
    assert_eq!(k.create_vcpu_request(0), Err(KvmError::CreationFailed(9)));
    assert_eq!(k.map_run_state_request(12288), Err(KvmError::MapFailed(9)));
    assert_eq!(k.get_vcpu_regs_request(), Err(KvmError::RegisterAccessFailed(9)));
    assert_eq!(k.run_request(), Err(KvmError::RunFailed(9)));
    assert_eq!(k.unmap_run_state(), Err(KvmError::UseAfterUnmap));
}

#[test]
fn closing_a_device_without_a_vcpu_leaves_none_behind() {
    let mut k = with_machine();
    assert_eq!(
        k.close(),
        Ok(Released { region: None, vcpu_fd: None, vm_fd: Some(4), fd: Some(3) })
    );
    assert_eq!(k.phase(), Phase::Absent);
}
