//! Why an animation curve could not be built.
use vstd::prelude::*;

use crate::value::ValueKind;

verus! {

#[derive(Clone, Copy, Debug, PartialEq, Eq, Structural)]
pub enum CapabilityError {
    /// No capability is registered for the type with this key.
    UnregisteredType(u64),
    /// An erased value holds another type than the capability animates.
    TypeMismatch { expected: ValueKind, found: ValueKind },
    /// Fewer than two keyframes, a progress beyond the unit interval, or
    /// progress values out of order.
    InvalidKeyframeSet,
}

} // verus!
