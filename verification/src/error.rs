//! The error numbers that the library reports or passes on.
use vstd::prelude::*;

verus! {

/// Why a request could not be handled.
#[derive(Clone, Copy, Debug, PartialEq, Eq, Structural)]
pub enum HvErrorNum {
    /// The hardware did not answer as expected.
    EIO,
    /// The operation is not implemented.
    ENOSYS,
    /// Any other error, with its number. The library passes it on and never raises it.
    Other(i32),
}

} // verus!
