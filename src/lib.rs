//! Typed values animated through a uniform, type-erased interface.
//!
//! Each animatable type knows how to blend two of its values; a capability
//! per type builds transition and keyframe curves over erased values, and a
//! registry finds the capability by a type key.
//!
//! Progress along a curve is fixed point: it runs over `0..=UNIT`, where
//! `UNIT` stands for the end of the unit interval. Magnitudes of the
//! built-in types are integers in whatever sub-unit the host picks.
use vstd::prelude::*;

pub mod curve;
pub mod error;
pub mod progress;
pub mod reflect;
pub mod registry;
pub mod strategies;
pub mod value;

pub use curve::{Curve, Keyframe, KeyframeCurve, LinearCurve, Mapped, Mapping, TypedCurve, Wrap};
pub use error::CapabilityError;
pub use progress::{ease, lerp, Easing, UNIT};
pub use reflect::{ReflectAnimatable, ReflectCurve};
pub use registry::{
    CapabilityRegistry, ReflectAnimationsPlugin, COLOR_TYPE_KEY, DIMENSION_TYPE_KEY,
    SCALAR_TYPE_KEY,
};
pub use strategies::{dimension_interpolate, mix, Animatable};
pub use value::{Dimension, Rgba, Value, ValueKind};

verus! {

} // verus!
