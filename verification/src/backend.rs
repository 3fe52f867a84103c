//! The positioned-read flavour of the register access: a numbered
//! per-thread device node is opened read-only, and the register value is an
//! eight-byte read at the byte offset equal to the register id.
//!
//! Core-to-thread mapping: the register is per-core, every hardware thread
//! of a core observes the same value, so core `c` is served by its first
//! logical thread, index `c * threads_per_core`.

use vstd::prelude::*;

use crate::errors::Error;

verus! {

/// The OS error carried by the interface crate relied on below.
#[verifier::external_type_specification]
#[verifier::external_body]
pub struct ExErrno(nix::errno::Errno);

/// Relies on nix::fcntl::open: opens the device node whose path is the
/// prefix, the decimal index and the suffix, read-only, and returns its
/// descriptor, or the OS error when the node is missing or inaccessible.
#[verifier::external_body]
fn open_numbered_device(prefix: &str, index: usize, suffix: &str) -> (r: Result<
    i32,
    nix::errno::Errno,
>) {
    let path = format!("{}{}{}", prefix, index, suffix);
    nix::fcntl::open(
        path.as_str(),
        nix::fcntl::OFlag::O_RDONLY,
        nix::sys::stat::Mode::empty(),
    )
}

/// Relies on nix::sys::uio::pread: reads from the descriptor at the given
/// byte offset into the front of the buffer, whose length it never changes,
/// and on success returns how many bytes it placed there, at most the
/// buffer's length.
#[verifier::external_body]
fn pread_at(fd: i32, buf: &mut Vec<u8>, offset: u32) -> (r: Result<usize, nix::errno::Errno>)
    ensures
        final(buf)@.len() == old(buf)@.len(),
        r matches Ok(n) ==> n <= final(buf)@.len(),
{
    nix::sys::uio::pread(fd, buf.as_mut_slice(), offset as i64)
}

/// Logical hardware thread whose device node serves a physical core: the
/// first thread of that core.
pub fn thread_index(core: usize, threads_per_core: usize) -> (t: usize)
    requires
        core * threads_per_core <= usize::MAX,
    ensures
        t == core * threads_per_core,
{
    core * threads_per_core
}

/// The logical thread index of every physical core's device node, in
/// ascending core order: the whole set of nodes a run must open, and must
/// open before the privilege restriction is applied.
pub fn open_plan(cores: usize, threads_per_core: usize) -> (r: Vec<usize>)
    requires
        cores * threads_per_core <= usize::MAX,
    ensures
        r@.len() == cores,
        forall|c: int| 0 <= c < cores ==> r@[c] == c * threads_per_core,
{
    let mut r: Vec<usize> = Vec::new();
    let mut core: usize = 0;
    while core < cores
        invariant
            core <= cores,
            cores * threads_per_core <= usize::MAX,
            r@.len() == core,
            forall|c: int| 0 <= c < core ==> r@[c] == c * threads_per_core,
        decreases cores - core,
    {
        proof {
            assert(core * threads_per_core <= cores * threads_per_core)
                by (nonlinear_arith)
                requires
                    core <= cores,
                    threads_per_core >= 0,
            ;
        }
        r.push(thread_index(core, threads_per_core));
        core = core + 1;
    }
    r
}

/// Opens the register device node of one logical hardware thread, at this
/// backend's path convention: one byte-addressable node per thread.  A
/// missing or inaccessible node is a fatal open failure.
pub fn open_cpu(thread: usize) -> (r: Result<i32, Error>)
    ensures
        r is Err ==> r == Err::<i32, Error>(Error::OpenFailed),
{
    match open_numbered_device("/dev/cpu/", thread, "/msr") {
        Ok(fd) => Ok(fd),
        Err(_) => Err(Error::OpenFailed),
    }
}

/// Opens the control-capable register device node of one logical hardware
/// thread, at the device-control backend's path convention: one numbered
/// control node per thread.  A missing or inaccessible node is a fatal
/// open failure.
pub fn open_cpuctl(thread: usize) -> (r: Result<i32, Error>)
    ensures
        r is Err ==> r == Err::<i32, Error>(Error::OpenFailed),
{
    match open_numbered_device("/dev/cpuctl", thread, "") {
        Ok(fd) => Ok(fd),
        Err(_) => Err(Error::OpenFailed),
    }
}

/// The decision a read's outcome is held to: a count of exactly eight
/// accepts the buffer's little-endian assembly as the register value; any
/// other count is the fatal integrity failure, never padded and never
/// retried.
pub fn assemble_msr(n: usize, buf: &Vec<u8>) -> (r: Result<u64, Error>)
    requires
        buf@.len() == 8,
    ensures
        n == 8 ==> r == Ok::<u64, Error>(vstd::bytes::spec_u64_from_le_bytes(buf@)),
        n != 8 ==> r == Err::<u64, Error>(Error::ShortRead),
{
    if n == 8 {
        Ok(vstd::bytes::u64_from_le_bytes(buf.as_slice()))
    } else {
        Err(Error::ShortRead)
    }
}

/// Reads a register through an open descriptor: a positioned read of
/// exactly eight bytes at the byte offset equal to the register id, its
/// outcome held to `assemble_msr`.  A read the OS rejects is a fatal read
/// failure; a read of fewer than eight bytes is a fatal integrity failure.
/// Neither is retried.
pub fn read_msr(fd: i32, msr: u32) -> (r: Result<u64, Error>)
    ensures
        r is Err ==> (r == Err::<u64, Error>(Error::ReadFailed)
            || r == Err::<u64, Error>(Error::ShortRead)),
{
    let mut buf: Vec<u8> = Vec::new();
    let mut i: usize = 0;
    while i < 8
        invariant
            i <= 8,
            buf@.len() == i,
        decreases 8 - i,
    {
        buf.push(0u8);
        i = i + 1;
    }
    match pread_at(fd, &mut buf, msr) {
        Ok(n) => assemble_msr(n, &buf),
        Err(_) => Err(Error::ReadFailed),
    }
}

} // verus!
