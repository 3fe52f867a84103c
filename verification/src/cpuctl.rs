//! The device-control flavour of the register read.
//!
//! On systems whose register device is driven by control operations, the
//! read is one fixed-size operation whose request holds a 32-bit register
//! id and a 64-bit data word.  Exactly one operation code is wired: the
//! register read.  A parallel write code exists in the device's interface
//! but is deliberately not wired here: this tool never writes the register.
//! The code's encoding is computed and pinned below so that the restriction
//! plan can name precisely the one operation that stays permitted.

use vstd::prelude::*;

verus! {

/// The per-core power-state status register this tool reads.
pub const PSTATE_STATUS_MSR: u32 = 0xC001_0293;

/// Size in bytes of the control operation's request: a 32-bit register id
/// and a 64-bit data word, with the padding their alignment forces.
pub const MSR_ARGS_SIZE: u64 = 16;

/// Direction bit: the operation copies data out of the kernel.
pub const IOC_OUT: u64 = 0x4000_0000;

/// Direction bit: the operation copies data into the kernel.
pub const IOC_IN: u64 = 0x8000_0000;

/// Mask bounding the encoded request size.
pub const IOCPARM_MASK: u64 = 0x1fff;

/// Group of the register-access device's operations, the byte 'c'.
pub const CPUCTL_GROUP: u8 = 0x63;

/// Operation number of the register read within its group.
pub const CPUCTL_RDMSR_NUM: u8 = 1;

/// The encoded register-read operation code.
pub const CPUCTL_RDMSR: u64 = 0xC010_6301;

/// The BSD encoding of a read-write control operation code: both direction
/// bits, the bounded request size, the group byte and the operation number.
pub open spec fn spec_ioc_readwrite(group: u8, num: u8, len: u64) -> u64 {
    (IOC_IN | IOC_OUT) | ((len & IOCPARM_MASK) << 16) | ((group as u64) << 8) | (num as u64)
}

/// Encodes a read-write control operation code.
pub fn ioc_readwrite(group: u8, num: u8, len: u64) -> (r: u64)
    ensures
        r == spec_ioc_readwrite(group, num, len),
{
    (IOC_IN | IOC_OUT) | ((len & IOCPARM_MASK) << 16) | ((group as u64) << 8) | (num as u64)
}

/// The one wired operation code, the register read, equals its encoding.
pub fn cpuctl_rdmsr_code() -> (r: u64)
    ensures
        r == spec_ioc_readwrite(CPUCTL_GROUP, CPUCTL_RDMSR_NUM, MSR_ARGS_SIZE),
        r == CPUCTL_RDMSR,
{
    proof {
        assert(spec_ioc_readwrite(CPUCTL_GROUP, CPUCTL_RDMSR_NUM, MSR_ARGS_SIZE)
            == CPUCTL_RDMSR) by (bit_vector);
    }
    ioc_readwrite(CPUCTL_GROUP, CPUCTL_RDMSR_NUM, MSR_ARGS_SIZE)
}

} // verus!
