//! The failures of the control plane, each with the error number of the
//! operating system that goes with it.

use vstd::prelude::*;

verus! {

/// Operation not permitted.
pub const EPERM: i32 = 1;

/// No such file or directory.
pub const ENOENT: i32 = 2;

/// Bad file descriptor: what a request on a handle that is absent or closed
/// fails with, whether the kernel is asked or not.
pub const EBADF: i32 = 9;

/// Permission denied.
pub const EACCES: i32 = 13;

/// Device or resource busy.
pub const EBUSY: i32 = 16;

/// Invalid argument.
pub const EINVAL: i32 = 22;

/// Why an operation did not succeed.
#[derive(Clone, Copy, Debug, PartialEq, Eq, Structural)]
pub enum KvmError {
    /// The device could not be opened, for any reason but a refusal.
    DeviceUnavailable(i32),
    /// Access to the device was refused.
    PermissionDenied(i32),
    /// No machine or virtual CPU was created.
    CreationFailed(i32),
    /// The size of the shared region could not be queried.
    QueryFailed(i32),
    /// The shared region was not mapped.
    MapFailed(i32),
    /// A register block was neither read nor written.
    RegisterAccessFailed(i32),
    /// The virtual CPU did not run.
    RunFailed(i32),
    /// The shared region is in use by an outstanding run, or is no longer
    /// mapped.
    UseAfterUnmap,
}

impl KvmError {
    /// The error number that the failure carries.
    pub open spec fn spec_errno(self) -> Option<i32> {
        match self {
            KvmError::DeviceUnavailable(e) => Some(e),
            KvmError::PermissionDenied(e) => Some(e),
            KvmError::CreationFailed(e) => Some(e),
            KvmError::QueryFailed(e) => Some(e),
            KvmError::MapFailed(e) => Some(e),
            KvmError::RegisterAccessFailed(e) => Some(e),
            KvmError::RunFailed(e) => Some(e),
            KvmError::UseAfterUnmap => None,
        }
    }

    /// The error number that the failure carries; a misuse of the shared
    /// region carries none.
    pub fn errno(&self) -> (code: Option<i32>)
        ensures
            code == self.spec_errno(),
    {
        match self {
            KvmError::DeviceUnavailable(e) => Some(*e),
            KvmError::PermissionDenied(e) => Some(*e),
            KvmError::CreationFailed(e) => Some(*e),
            KvmError::QueryFailed(e) => Some(*e),
            KvmError::MapFailed(e) => Some(*e),
            KvmError::RegisterAccessFailed(e) => Some(*e),
            KvmError::RunFailed(e) => Some(*e),
            KvmError::UseAfterUnmap => None,
        }
    }
}

/// The failure that an unsuccessful open of the device stands for: a refusal
/// where the error number says so, the device being unavailable otherwise.
pub open spec fn spec_open_error(errno: i32) -> KvmError {
    if errno == EACCES || errno == EPERM {
        KvmError::PermissionDenied(errno)
    } else {
        KvmError::DeviceUnavailable(errno)
    }
}

/// Classifies the error number of an unsuccessful open of the device.
pub fn open_error(errno: i32) -> (e: KvmError)
    ensures
        e == spec_open_error(errno),
{
    if errno == EACCES || errno == EPERM {
        KvmError::PermissionDenied(errno)
    } else {
        KvmError::DeviceUnavailable(errno)
    }
}

} // verus!
