//! The direction of a message, as the trust callback receives it.
use vstd::prelude::*;

verus! {

/// Whether an identity is being checked for a message that is sent or one
/// that is received. C callers see it as an unsigned integer.
#[derive(Debug, Clone, Copy, PartialEq, Eq, Structural)]
pub enum FfiDirection {
    Sending,
    Receiving,
}

/// The integer that C code receives for a direction.
pub open spec fn direction_code(d: FfiDirection) -> u32 {
    match d {
        FfiDirection::Sending => 0,
        FfiDirection::Receiving => 1,
    }
}

impl FfiDirection {
    /// The integer that is handed to the trust callback.
    pub fn to_u32(&self) -> (code: u32)
        ensures
            code == direction_code(*self),
            *self == FfiDirection::Sending ==> code == 0,
            *self == FfiDirection::Receiving ==> code == 1,
    {
        match self {
            FfiDirection::Sending => 0,
            FfiDirection::Receiving => 1,
        }
    }
}

/// Two different directions never share an integer, so the callback can
/// always tell them apart.
pub proof fn direction_code_injective(a: FfiDirection, b: FfiDirection)
    ensures
        direction_code(a) == direction_code(b) ==> a == b,
{
}

} // verus!
