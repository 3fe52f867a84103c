use vstd::prelude::*;

verus! {

/// Every failure is fatal to the caller: a configuration lookup that is
/// absent, of the wrong type or non-positive, a device node that cannot be
/// opened, a register read the OS rejects, and a read that returned fewer
/// bytes than the register holds.
#[derive(Clone, Copy, Debug, PartialEq, Eq, Structural)]
pub enum Error {
    ConfigMissing,
    ConfigWrongType,
    ConfigNotPositive,
    OpenFailed,
    ReadFailed,
    ShortRead,
}

} // verus!
