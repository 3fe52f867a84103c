//! Topology probe over the kernel's named configuration parameters.
//!
//! On systems that expose the SMP topology as typed key/value parameters,
//! the core count and the threads-per-core count are two named integer
//! lookups.  A name that is absent, a value of any type but the plain
//! integer, and a non-positive integer are each fatal: the probe infers
//! nothing and defaults nothing.  It must run before any privilege
//! restriction, which would cut the lookup interface off.

use vstd::prelude::*;

use crate::errors::Error;

verus! {

/// The configuration-parameter handle of the lookup crate relied on below.
#[verifier::external_type_specification]
#[verifier::external_body]
pub struct ExCtl(sysctl::Ctl);

/// The typed value a configuration parameter holds.
#[verifier::external_type_specification]
#[verifier::external_body]
pub struct ExCtlValue(sysctl::CtlValue);

/// The error type of the lookup crate.
#[verifier::external_type_specification]
#[verifier::external_body]
pub struct ExSysctlError(sysctl::SysctlError);

/// Relies on sysctl::Sysctl::new: resolves a parameter name to a handle,
/// failing when no parameter of that name exists.
#[verifier::external_body]
fn ctl_lookup(name: &str) -> (r: Result<sysctl::Ctl, sysctl::SysctlError>) {
    <sysctl::Ctl as sysctl::Sysctl>::new(name)
}

/// Relies on sysctl::Sysctl::value: reads the parameter's current typed
/// value.
#[verifier::external_body]
fn ctl_read(c: &sysctl::Ctl) -> (r: Result<sysctl::CtlValue, sysctl::SysctlError>) {
    sysctl::Sysctl::value(c)
}

/// Relies on the shape of sysctl::CtlValue: hands the payload of the plain
/// 32-bit integer variant out and maps every other variant to nothing.
#[verifier::external_body]
fn ctl_value_int(v: sysctl::CtlValue) -> (r: Option<i32>) {
    match v {
        sysctl::CtlValue::Int(x) => Some(x),
        _ => None,
    }
}

/// The probe's validation rule, exact on every lookup outcome: a value of
/// any type but the plain integer is a type failure, a non-positive
/// integer is a value failure, and a positive integer is the count itself
/// — never an inference, never a default.
pub fn validate_count(v: Option<i32>) -> (r: Result<usize, Error>)
    ensures
        v is None ==> r == Err::<usize, Error>(Error::ConfigWrongType),
        v matches Some(x) ==> {
            &&& x < 1 ==> r == Err::<usize, Error>(Error::ConfigNotPositive)
            &&& x >= 1 ==> r == Ok::<usize, Error>(x as usize)
        },
{
    match v {
        Some(x) => {
            if x >= 1 {
                Ok(x as usize)
            } else {
                Err(Error::ConfigNotPositive)
            }
        },
        None => Err(Error::ConfigWrongType),
    }
}

/// Looks one named integer configuration parameter up and validates it:
/// positive integer or a fatal configuration failure.  A name the system
/// does not carry, and a value it cannot read, are lookup failures.
pub fn lookup_positive_int(name: &str) -> (r: Result<usize, Error>)
    ensures
        r matches Ok(n) ==> n >= 1,
        r matches Err(e) ==> (e == Error::ConfigMissing || e == Error::ConfigWrongType
            || e == Error::ConfigNotPositive),
{
    let c = match ctl_lookup(name) {
        Ok(c) => c,
        Err(_) => {
            return Err(Error::ConfigMissing);
        },
    };
    let v = match ctl_read(&c) {
        Ok(v) => v,
        Err(_) => {
            return Err(Error::ConfigMissing);
        },
    };
    validate_count(ctl_value_int(v))
}

/// Number of physical cores from the kernel's SMP parameter tree.
pub fn get_num_cores() -> (r: Result<usize, Error>)
    ensures
        r matches Ok(n) ==> n >= 1,
{
    lookup_positive_int("kern.smp.cores")
}

/// Hardware threads per physical core from the kernel's SMP parameter tree.
pub fn get_num_threads_per_core() -> (r: Result<usize, Error>)
    ensures
        r matches Ok(t) ==> t >= 1,
{
    lookup_positive_int("kern.smp.threads_per_core")
}

} // verus!
