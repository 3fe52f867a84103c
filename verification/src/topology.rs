//! Topology probe over the process-wide CPU counts the OS exposes.
//!
//! The probe must run before any privilege restriction: counting CPUs needs
//! an unrestricted process on at least one supported platform.  The
//! threads-per-core figure is the exact quotient of the logical count by
//! the physical count; a quotient of zero would leave the run with no
//! thread to map any core to, so it is rejected as a configuration failure
//! rather than carried on.

use vstd::prelude::*;

use crate::errors::Error;

verus! {

/// Relies on num_cpus::get: the number of logical CPUs available to the
/// process, always at least one.
#[verifier::external_body]
fn logical_cpu_count() -> (r: usize)
    ensures
        r >= 1,
{
    num_cpus::get()
}

/// Relies on num_cpus::get_physical: the number of physical cores, always
/// at least one.
#[verifier::external_body]
fn physical_cpu_count() -> (r: usize)
    ensures
        r >= 1,
{
    num_cpus::get_physical()
}

/// Number of physical cores, as the OS reports it; always positive.
pub fn get_num_cores() -> (r: usize)
    ensures
        r >= 1,
{
    physical_cpu_count()
}

/// Hardware threads per physical core from the two counts: their exact
/// quotient when it is positive, and a configuration failure when the
/// physical count is zero or exceeds the logical count, where the quotient
/// would map every core to thread zero.
pub fn derive_threads_per_core(logical: usize, physical: usize) -> (r: Result<usize, Error>)
    ensures
        physical == 0 ==> r == Err::<usize, Error>(Error::ConfigNotPositive),
        physical >= 1 && logical / physical == 0 ==> r == Err::<usize, Error>(
            Error::ConfigNotPositive,
        ),
        physical >= 1 && logical / physical >= 1 ==> r == Ok::<usize, Error>(logical / physical),
{
    if physical == 0 {
        Err(Error::ConfigNotPositive)
    } else {
        let t = logical / physical;
        if t == 0 {
            Err(Error::ConfigNotPositive)
        } else {
            Ok(t)
        }
    }
}

/// Hardware threads per physical core, as the OS reports it; positive when
/// it is reported at all.
pub fn get_num_threads_per_core() -> (r: Result<usize, Error>)
    ensures
        r matches Ok(t) ==> t >= 1,
{
    let logical = logical_cpu_count();
    let physical = physical_cpu_count();
    derive_threads_per_core(logical, physical)
}

} // verus!
