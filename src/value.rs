//! The built-in animatable value types and the erased value that carries any of them.
use vstd::prelude::*;

use crate::progress::{lerp_spec, UNIT};

verus! {

/// A color as red, green, blue and alpha components in fixed point.
#[derive(Clone, Copy, Debug, PartialEq, Eq, Structural)]
pub struct Rgba {
    pub red: i32,
    pub green: i32,
    pub blue: i32,
    pub alpha: i32,
}

/// A length with its unit. `Auto` carries no magnitude.
///
/// Zero magnitudes are unit-polymorphic: any two of them compare equal.
#[derive(Clone, Copy, Debug)]
pub enum Dimension {
    Auto,
    Px(i32),
    Percent(i32),
    Vw(i32),
    Vh(i32),
    VMin(i32),
    VMax(i32),
}

/// The tag that tells the built-in value types apart.
#[derive(Clone, Copy, Debug, PartialEq, Eq, Structural)]
pub enum ValueKind {
    Scalar,
    Color,
    Dimension,
}

/// A value of one of the built-in types with its type erased.
#[derive(Clone, Copy, Debug, PartialEq)]
pub enum Value {
    Scalar(i32),
    Color(Rgba),
    Dimension(Dimension),
}

impl Value {
    pub open spec fn kind_spec(&self) -> ValueKind {
        match self {
            Value::Scalar(_) => ValueKind::Scalar,
            Value::Color(_) => ValueKind::Color,
            Value::Dimension(_) => ValueKind::Dimension,
        }
    }

    /// The type of the value inside.
    pub fn kind(&self) -> (r: ValueKind)
        ensures
            r == self.kind_spec(),
    {
        match self {
            Value::Scalar(_) => ValueKind::Scalar,
            Value::Color(_) => ValueKind::Color,
            Value::Dimension(_) => ValueKind::Dimension,
        }
    }
}

/// The magnitude of a dimension; `None` for `Auto`.
pub open spec fn magnitude_spec(d: Dimension) -> Option<int> {
    match d {
        Dimension::Auto => None,
        Dimension::Px(m) => Some(m as int),
        Dimension::Percent(m) => Some(m as int),
        Dimension::Vw(m) => Some(m as int),
        Dimension::Vh(m) => Some(m as int),
        Dimension::VMin(m) => Some(m as int),
        Dimension::VMax(m) => Some(m as int),
    }
}

/// `d`'s unit with magnitude `m`.
pub open spec fn with_magnitude_spec(d: Dimension, m: i32) -> Dimension {
    match d {
        Dimension::Auto => Dimension::Auto,
        Dimension::Px(_) => Dimension::Px(m),
        Dimension::Percent(_) => Dimension::Percent(m),
        Dimension::Vw(_) => Dimension::Vw(m),
        Dimension::Vh(_) => Dimension::Vh(m),
        Dimension::VMin(_) => Dimension::VMin(m),
        Dimension::VMax(_) => Dimension::VMax(m),
    }
}

pub open spec fn same_unit(a: Dimension, b: Dimension) -> bool {
    with_magnitude_spec(a, 0) == with_magnitude_spec(b, 0)
}

/// A zero magnitude in any unit.
pub open spec fn is_zero(d: Dimension) -> bool {
    magnitude_spec(d) == Some(0int)
}

/// The dimensions' own equality: same unit and magnitude, or both zero.
pub open spec fn dimension_eq(a: Dimension, b: Dimension) -> bool {
    a == b || (is_zero(a) && is_zero(b))
}

/// The value types' own equality on erased values.
pub open spec fn value_same(a: Value, b: Value) -> bool {
    match (a, b) {
        (Value::Dimension(x), Value::Dimension(y)) => dimension_eq(x, y),
        _ => a == b,
    }
}

/// Neither operand can be turned into the other's unit.
pub open spec fn units_mismatch(a: Dimension, b: Dimension) -> bool {
    !same_unit(a, b) && !(is_zero(a) && b !is Auto) && !(is_zero(b) && a !is Auto)
}

/// Unit-aware blend: same units blend their magnitudes; a zero length in
/// any unit takes the other operand's unit; mismatched units switch to `b` only at
/// the end of the interval.
pub open spec fn dimension_interp_spec(a: Dimension, b: Dimension, t: int) -> Dimension {
    if same_unit(a, b) {
        match (magnitude_spec(a), magnitude_spec(b)) {
            (Some(x), Some(y)) => with_magnitude_spec(a, lerp_spec(x, y, t) as i32),
            _ => a,
        }
    } else if is_zero(a) && b !is Auto {
        with_magnitude_spec(b, lerp_spec(0, magnitude_spec(b)->0, t) as i32)
    } else if is_zero(b) && a !is Auto {
        with_magnitude_spec(a, lerp_spec(magnitude_spec(a)->0, 0, t) as i32)
    } else if t >= UNIT {
        b
    } else {
        a
    }
}

impl Dimension {
    pub open spec fn zero_spec() -> Dimension {
        Dimension::Px(0)
    }

    /// The unit-agnostic zero length.
    pub fn zero() -> (r: Dimension)
        ensures
            r == Dimension::zero_spec(),
    {
        Dimension::Px(0)
    }

    /// The magnitude, or `None` for `Auto`.
    pub fn magnitude(&self) -> (r: Option<i32>)
        ensures
            r matches Some(m) ==> magnitude_spec(*self) == Some(m as int),
            r is None <==> magnitude_spec(*self) is None,
    {
        match *self {
            Dimension::Auto => None,
            Dimension::Px(m) => Some(m),
            Dimension::Percent(m) => Some(m),
            Dimension::Vw(m) => Some(m),
            Dimension::Vh(m) => Some(m),
            Dimension::VMin(m) => Some(m),
            Dimension::VMax(m) => Some(m),
        }
    }

    /// This dimension's unit with magnitude `m`.
    pub fn with_magnitude(&self, m: i32) -> (r: Dimension)
        ensures
            r == with_magnitude_spec(*self, m),
    {
        match *self {
            Dimension::Auto => Dimension::Auto,
            Dimension::Px(_) => Dimension::Px(m),
            Dimension::Percent(_) => Dimension::Percent(m),
            Dimension::Vw(_) => Dimension::Vw(m),
            Dimension::Vh(_) => Dimension::Vh(m),
            Dimension::VMin(_) => Dimension::VMin(m),
            Dimension::VMax(_) => Dimension::VMax(m),
        }
    }

    /// Whether the two share a unit.
    pub fn same_unit(&self, other: &Dimension) -> (r: bool)
        ensures
            r == same_unit(*self, *other),
    {
        match (*self, *other) {
            (Dimension::Auto, Dimension::Auto) => true,
            (Dimension::Px(_), Dimension::Px(_)) => true,
            (Dimension::Percent(_), Dimension::Percent(_)) => true,
            (Dimension::Vw(_), Dimension::Vw(_)) => true,
            (Dimension::Vh(_), Dimension::Vh(_)) => true,
            (Dimension::VMin(_), Dimension::VMin(_)) => true,
            (Dimension::VMax(_), Dimension::VMax(_)) => true,
            _ => false,
        }
    }

    /// Whether this is a zero length, in whatever unit.
    pub fn is_zero_length(&self) -> (r: bool)
        ensures
            r == is_zero(*self),
    {
        match self.magnitude() {
            Some(m) => m == 0,
            None => false,
        }
    }

    /// Whether blending `self` into `other` has to fall back to a discrete
    /// switch, which a host reports as a diagnostic.
    pub fn mismatches(&self, other: &Dimension) -> (r: bool)
        ensures
            r == units_mismatch(*self, *other),
    {
        !self.same_unit(other) && !(self.is_zero_length() && !matches!(other, Dimension::Auto))
            && !(other.is_zero_length() && !matches!(self, Dimension::Auto))
    }
}

impl PartialEq for Dimension {
    fn eq(&self, other: &Dimension) -> (r: bool) {
        match (self.magnitude(), other.magnitude()) {
            (Some(x), Some(y)) => (x == 0 && y == 0) || (self.same_unit(other) && x == y),
            (None, None) => true,
            _ => false,
        }
    }
}

impl vstd::std_specs::cmp::PartialEqSpecImpl for Dimension {
    open spec fn obeys_eq_spec() -> bool {
        true
    }

    open spec fn eq_spec(&self, other: &Dimension) -> bool {
        dimension_eq(*self, *other)
    }
}

} // verus!
