//! What the library takes from `kvm_bindings`: the register blocks, carried
//! through as opaque values, and the constants of the request encoding.

use vstd::prelude::*;

verus! {

/// The general-purpose register block of one virtual CPU.
#[verifier::external_type_specification]
#[verifier::external_body]
pub struct ExKvmRegs(kvm_bindings::kvm_regs);

/// The special (segment, descriptor-table and control) register block of one
/// virtual CPU.
#[verifier::external_type_specification]
#[verifier::external_body]
pub struct ExKvmSregs(kvm_bindings::kvm_sregs);

/// The constant `kvm_bindings::KVMIO`: the group that every request of the
/// virtualization device belongs to. Its value, 0xAE, is taken on trust.
#[verifier::external_body]
pub(crate) fn kvmio() -> (group: u32)
    ensures
        group == 0xAE,
{
    kvm_bindings::KVMIO
}

/// `size_of::<kvm_bindings::kvm_regs>()`: eighteen 64-bit registers, 144
/// bytes on x86-64. The number is taken on trust.
#[verifier::external_body]
pub(crate) fn regs_size() -> (n: usize)
    ensures
        n == 144,
{
    core::mem::size_of::<kvm_bindings::kvm_regs>()
}

/// `size_of::<kvm_bindings::kvm_sregs>()`: 312 bytes on x86-64. The number is
/// taken on trust.
#[verifier::external_body]
pub(crate) fn sregs_size() -> (n: usize)
    ensures
        n == 312,
{
    core::mem::size_of::<kvm_bindings::kvm_sregs>()
}

} // verus!
