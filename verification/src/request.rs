//! The encoding of the requests that the virtualization device understands.
//!
//! A request code packs four fields into 32 bits: the direction in which the
//! payload travels, the payload's size, the group of the device and the
//! request's number within that group.

use vstd::prelude::*;
use crate::bindings::{kvmio, regs_size, sregs_size};

verus! {

/// The way the payload of a request travels, seen from the caller.
#[derive(Clone, Copy, Debug, PartialEq, Eq, Structural)]
pub enum Direction {
    /// No payload.
    Neither,
    /// The caller hands data to the kernel.
    Write,
    /// The kernel fills a buffer of the caller.
    Read,
}

/// What a request carries beside its code.
#[derive(Clone, Copy, Debug, PartialEq, Eq, Structural)]
pub enum Payload {
    /// Nothing but an integer argument.
    Nothing,
    /// A block of general-purpose registers.
    Regs,
    /// A block of special registers.
    Sregs,
}

/// The requests of the control plane.
#[derive(Clone, Copy, Debug, PartialEq, Eq, Structural)]
pub enum Operation {
    CreateVm,
    GetVcpuMmapSize,
    CreateVcpu,
    Run,
    GetRegs,
    SetRegs,
    GetSregs,
    SetSregs,
}

/// The group of the virtualization device.
pub open spec fn spec_group() -> u32 {
    0xAE
}

impl Direction {
    /// The two direction bits of a request code.
    pub open spec fn spec_bits(self) -> int {
        match self {
            Direction::Neither => 0,
            Direction::Write => 1,
            Direction::Read => 2,
        }
    }
}

impl Payload {
    /// The number of bytes that the payload takes.
    pub open spec fn spec_size(self) -> usize {
        match self {
            Payload::Nothing => 0,
            Payload::Regs => 144,
            Payload::Sregs => 312,
        }
    }

    /// The number of bytes that the payload takes.
    pub fn size(self) -> (n: usize)
        ensures
            n == self.spec_size(),
    {
        match self {
            Payload::Nothing => 0,
            Payload::Regs => regs_size(),
            Payload::Sregs => sregs_size(),
        }
    }
}

/// The code of a request: direction, size, group and number, each cut to the
/// width of its field (2, 14, 8 and 8 bits) and laid side by side, the number
/// lowest.
pub open spec fn spec_request_code(dir: Direction, group: u32, nr: u32, size: usize) -> int {
    dir.spec_bits() * 0x4000_0000 + (size % 0x4000) * 0x1_0000 + (group % 0x100) * 0x100 + (nr
        % 0x100)
}

/// Encodes a request.
pub fn request_code(dir: Direction, group: u32, nr: u32, size: usize) -> (code: u64)
    ensures
        code == spec_request_code(dir, group, nr, size),
        code <= 0xBFFF_FFFF,
{
    let d: u64 = match dir {
        Direction::Neither => 0,
        Direction::Write => 1,
        Direction::Read => 2,
    };
    let s: u64 = (size as u64) & 0x3FFF;
    let g: u64 = (group as u64) & 0xFF;
    let n: u64 = (nr as u64) & 0xFF;
    let code: u64 = (d << 30) | (s << 16) | (g << 8) | n;
    proof {
        let size64: u64 = size as u64;
        let group64: u64 = group as u64;
        let nr64: u64 = nr as u64;
        assert(s == size64 % 0x4000) by (bit_vector)
            requires
                s == size64 & 0x3FFF,
        ;
        assert(g == group64 % 0x100) by (bit_vector)
            requires
                g == group64 & 0xFF,
        ;
        assert(n == nr64 % 0x100) by (bit_vector)
            requires
                n == nr64 & 0xFF,
        ;
        assert(code == d * 0x4000_0000 + s * 0x1_0000 + g * 0x100 + n) by (bit_vector)
            requires
                code == (d << 30) | (s << 16) | (g << 8) | n,
                d <= 2,
                s < 0x4000,
                g < 0x100,
                n < 0x100,
        ;
    }
    code
}

impl Operation {
    /// The request's number within the group of the device.
    pub open spec fn spec_number(self) -> u32 {
        match self {
            Operation::CreateVm => 0x01,
            Operation::GetVcpuMmapSize => 0x04,
            Operation::CreateVcpu => 0x41,
            Operation::Run => 0x80,
            Operation::GetRegs => 0x81,
            Operation::SetRegs => 0x82,
            Operation::GetSregs => 0x83,
            Operation::SetSregs => 0x84,
        }
    }

    /// What travels with the request.
    pub open spec fn spec_payload(self) -> Payload {
        match self {
            Operation::GetRegs | Operation::SetRegs => Payload::Regs,
            Operation::GetSregs | Operation::SetSregs => Payload::Sregs,
            _ => Payload::Nothing,
        }
    }

    /// The way the payload travels.
    pub open spec fn spec_direction(self) -> Direction {
        match self {
            Operation::GetRegs | Operation::GetSregs => Direction::Read,
            Operation::SetRegs | Operation::SetSregs => Direction::Write,
            _ => Direction::Neither,
        }
    }

    /// The code that the kernel knows the request by.
    pub open spec fn spec_code(self) -> int {
        spec_request_code(
            self.spec_direction(),
            spec_group(),
            self.spec_number(),
            self.spec_payload().spec_size(),
        )
    }

    /// The request's number within the group of the device.
    pub fn number(self) -> (nr: u32)
        ensures
            nr == self.spec_number(),
    {
        match self {
            Operation::CreateVm => 0x01,
            Operation::GetVcpuMmapSize => 0x04,
            Operation::CreateVcpu => 0x41,
            Operation::Run => 0x80,
            Operation::GetRegs => 0x81,
            Operation::SetRegs => 0x82,
            Operation::GetSregs => 0x83,
            Operation::SetSregs => 0x84,
        }
    }

    /// What travels with the request.
    pub fn payload(self) -> (p: Payload)
        ensures
            p == self.spec_payload(),
    {
        match self {
            Operation::GetRegs | Operation::SetRegs => Payload::Regs,
            Operation::GetSregs | Operation::SetSregs => Payload::Sregs,
            _ => Payload::Nothing,
        }
    }

    /// The way the payload travels.
    pub fn direction(self) -> (d: Direction)
        ensures
            d == self.spec_direction(),
    {
        match self {
            Operation::GetRegs | Operation::GetSregs => Direction::Read,
            Operation::SetRegs | Operation::SetSregs => Direction::Write,
            _ => Direction::Neither,
        }
    }

    /// The code that the kernel knows the request by.
    pub fn code(self) -> (code: u64)
        ensures
            code == self.spec_code(),
    {
        request_code(self.direction(), kvmio(), self.number(), self.payload().size())
    }
}

/// The codes of the eight requests, as the kernel's interface publishes them.
pub proof fn lemma_known_codes()
    ensures
        Operation::CreateVm.spec_code() == 0xAE01,
        Operation::GetVcpuMmapSize.spec_code() == 0xAE04,
        Operation::CreateVcpu.spec_code() == 0xAE41,
        Operation::Run.spec_code() == 0xAE80,
        Operation::GetRegs.spec_code() == 0x8090_AE81,
        Operation::SetRegs.spec_code() == 0x4090_AE82,
        Operation::GetSregs.spec_code() == 0x8138_AE83,
        Operation::SetSregs.spec_code() == 0x4138_AE84,
{
}

/// Two requests with the same code are the same request.
pub proof fn lemma_codes_distinct(a: Operation, b: Operation)
    requires
        a.spec_code() == b.spec_code(),
    ensures
        a == b,
{
    lemma_known_codes();
}

} // verus!
