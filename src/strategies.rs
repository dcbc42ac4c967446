//! How each built-in type blends two of its values, and how it enters and
//! leaves the erased `Value`.
use vstd::prelude::*;

use crate::progress::{lerp, lerp_spec, lemma_lerp_bounds, UNIT};
use crate::value::{
    dimension_eq, dimension_interp_spec, magnitude_spec, units_mismatch, Dimension, Rgba, Value,
    ValueKind,
};

verus! {

/// A type whose values can be animated.
pub trait Animatable: Sized + Copy {
    /// What `interpolate` returns.
    spec fn interp_spec(a: Self, b: Self, t: int) -> Self;

    /// The type's own equality.
    spec fn same(a: Self, b: Self) -> bool;

    /// What `default_value` returns.
    spec fn default_spec() -> Self;

    /// The tag of the type inside a `Value`.
    spec fn kind_spec() -> ValueKind;

    /// The erased form of a value.
    spec fn wrap_spec(v: Self) -> Value;

    /// The value inside an erased value of this type's kind.
    spec fn unwrap_spec(v: Value) -> Self;

    fn kind() -> (r: ValueKind)
        ensures
            r == Self::kind_spec(),
    ;

    /// Blends `a` towards `b` at progress `t`.
    fn interpolate(a: &Self, b: &Self, t: u32) -> (r: Self)
        requires
            t <= UNIT,
        ensures
            r == Self::interp_spec(*a, *b, t as int),
    ;

    /// The start value of a transition that is given none.
    fn default_value() -> (r: Self)
        ensures
            r == Self::default_spec(),
    ;

    /// Erases the type of a value.
    fn wrap(v: Self) -> (r: Value)
        ensures
            r == Self::wrap_spec(v),
    ;

    /// Recovers a value of this type, or hands the erased value back.
    fn downcast(v: Value) -> (r: Result<Self, Value>)
        ensures
            v.kind_spec() == Self::kind_spec() ==> r == Ok::<Self, Value>(Self::unwrap_spec(v)),
            v.kind_spec() != Self::kind_spec() ==> r == Err::<Self, Value>(v),
    ;

    /// Wrapping and unwrapping undo each other.
    proof fn lemma_wrap_round_trip(x: Self, v: Value)
        ensures
            Self::wrap_spec(x).kind_spec() == Self::kind_spec(),
            Self::unwrap_spec(Self::wrap_spec(x)) == x,
            v.kind_spec() == Self::kind_spec() ==> Self::wrap_spec(Self::unwrap_spec(v)) == v,
    ;

    /// Blends start exactly at the first operand and end exactly at the second.
    proof fn lemma_interp_endpoints(a: Self, b: Self)
        ensures
            Self::same(Self::interp_spec(a, b, 0), a),
            Self::same(Self::interp_spec(a, b, UNIT as int), b),
    ;
}

/// Component-wise blend of two colors.
pub open spec fn mix_spec(a: Rgba, b: Rgba, t: int) -> Rgba {
    Rgba {
        red: lerp_spec(a.red as int, b.red as int, t) as i32,
        green: lerp_spec(a.green as int, b.green as int, t) as i32,
        blue: lerp_spec(a.blue as int, b.blue as int, t) as i32,
        alpha: lerp_spec(a.alpha as int, b.alpha as int, t) as i32,
    }
}

/// Mixes two colors component by component.
pub fn mix(a: &Rgba, b: &Rgba, t: u32) -> (r: Rgba)
    requires
        t <= UNIT,
    ensures
        r == mix_spec(*a, *b, t as int),
{
    Rgba {
        red: lerp(a.red, b.red, t),
        green: lerp(a.green, b.green, t),
        blue: lerp(a.blue, b.blue, t),
        alpha: lerp(a.alpha, b.alpha, t),
    }
}

proof fn lemma_lerp_fits(a: i32, b: i32, t: int)
    requires
        0 <= t <= UNIT,
    ensures
        lerp_spec(a as int, b as int, t) as i32 == lerp_spec(a as int, b as int, t),
        lerp_spec(a as int, b as int, 0) == a,
        lerp_spec(a as int, b as int, UNIT as int) == b,
{
    lemma_lerp_bounds(a as int, b as int, t);
}

/// Blends two dimensions with regard to their units.
pub fn dimension_interpolate(a: &Dimension, b: &Dimension, t: u32) -> (r: Dimension)
    requires
        t <= UNIT,
    ensures
        r == dimension_interp_spec(*a, *b, t as int),
{
    if a.same_unit(b) {
        match (a.magnitude(), b.magnitude()) {
            (Some(x), Some(y)) => a.with_magnitude(lerp(x, y, t)),
            _ => *a,
        }
    } else if a.is_zero_length() && !matches!(b, Dimension::Auto) {
        match b.magnitude() {
            Some(y) => b.with_magnitude(lerp(0, y, t)),
            None => *b,
        }
    } else if b.is_zero_length() && !matches!(a, Dimension::Auto) {
        match a.magnitude() {
            Some(x) => a.with_magnitude(lerp(x, 0, t)),
            None => *a,
        }
    } else if t >= UNIT {
        *b
    } else {
        *a
    }
}

/// Between mismatched units a blend holds the start value until the end of
/// the interval, where it takes the end value.
pub proof fn lemma_mismatch_switches(a: Dimension, b: Dimension, t: int)
    requires
        units_mismatch(a, b),
        0 <= t <= UNIT,
    ensures
        t < UNIT ==> dimension_interp_spec(a, b, t) == a,
        t == UNIT ==> dimension_interp_spec(a, b, t) == b,
{
}

impl Animatable for i32 {
    open spec fn interp_spec(a: i32, b: i32, t: int) -> i32 {
        lerp_spec(a as int, b as int, t) as i32
    }

    open spec fn same(a: i32, b: i32) -> bool {
        a == b
    }

    open spec fn default_spec() -> i32 {
        0
    }

    open spec fn kind_spec() -> ValueKind {
        ValueKind::Scalar
    }

    open spec fn wrap_spec(v: i32) -> Value {
        Value::Scalar(v)
    }

    open spec fn unwrap_spec(v: Value) -> i32 {
        v->Scalar_0
    }

    fn kind() -> ValueKind {
        ValueKind::Scalar
    }

    fn interpolate(a: &i32, b: &i32, t: u32) -> i32 {
        lerp(*a, *b, t)
    }

    fn default_value() -> i32 {
        0
    }

    fn wrap(v: i32) -> Value {
        Value::Scalar(v)
    }

    fn downcast(v: Value) -> Result<i32, Value> {
        match v {
            Value::Scalar(x) => Ok(x),
            _ => Err(v),
        }
    }

    proof fn lemma_wrap_round_trip(x: i32, v: Value) {
    }

    proof fn lemma_interp_endpoints(a: i32, b: i32) {
        lemma_lerp_fits(a, b, 0);
    }
}

impl Animatable for Rgba {
    open spec fn interp_spec(a: Rgba, b: Rgba, t: int) -> Rgba {
        mix_spec(a, b, t)
    }

    open spec fn same(a: Rgba, b: Rgba) -> bool {
        a == b
    }

    /// Transparent black.
    open spec fn default_spec() -> Rgba {
        Rgba { red: 0, green: 0, blue: 0, alpha: 0 }
    }

    open spec fn kind_spec() -> ValueKind {
        ValueKind::Color
    }

    open spec fn wrap_spec(v: Rgba) -> Value {
        Value::Color(v)
    }

    open spec fn unwrap_spec(v: Value) -> Rgba {
        v->Color_0
    }

    fn kind() -> ValueKind {
        ValueKind::Color
    }

    fn interpolate(a: &Rgba, b: &Rgba, t: u32) -> Rgba {
        mix(a, b, t)
    }

    fn default_value() -> Rgba {
        Rgba { red: 0, green: 0, blue: 0, alpha: 0 }
    }

    fn wrap(v: Rgba) -> Value {
        Value::Color(v)
    }

    fn downcast(v: Value) -> Result<Rgba, Value> {
        match v {
            Value::Color(x) => Ok(x),
            _ => Err(v),
        }
    }

    proof fn lemma_wrap_round_trip(x: Rgba, v: Value) {
    }

    proof fn lemma_interp_endpoints(a: Rgba, b: Rgba) {
        lemma_lerp_fits(a.red, b.red, 0);
        lemma_lerp_fits(a.green, b.green, 0);
        lemma_lerp_fits(a.blue, b.blue, 0);
        lemma_lerp_fits(a.alpha, b.alpha, 0);
    }
}

impl Animatable for Dimension {
    open spec fn interp_spec(a: Dimension, b: Dimension, t: int) -> Dimension {
        dimension_interp_spec(a, b, t)
    }

    open spec fn same(a: Dimension, b: Dimension) -> bool {
        dimension_eq(a, b)
    }

    /// The zero length.
    open spec fn default_spec() -> Dimension {
        Dimension::zero_spec()
    }

    open spec fn kind_spec() -> ValueKind {
        ValueKind::Dimension
    }

    open spec fn wrap_spec(v: Dimension) -> Value {
        Value::Dimension(v)
    }

    open spec fn unwrap_spec(v: Value) -> Dimension {
        v->Dimension_0
    }

    fn kind() -> ValueKind {
        ValueKind::Dimension
    }

    fn interpolate(a: &Dimension, b: &Dimension, t: u32) -> Dimension {
        dimension_interpolate(a, b, t)
    }

    fn default_value() -> Dimension {
        Dimension::zero()
    }

    fn wrap(v: Dimension) -> Value {
        Value::Dimension(v)
    }

    fn downcast(v: Value) -> Result<Dimension, Value> {
        match v {
            Value::Dimension(x) => Ok(x),
            _ => Err(v),
        }
    }

    proof fn lemma_wrap_round_trip(x: Dimension, v: Value) {
    }

    proof fn lemma_interp_endpoints(a: Dimension, b: Dimension) {
        match magnitude_spec(a) {
            Some(x) => lemma_lerp_fits(x as i32, 0, 0),
            None => {},
        }
        match magnitude_spec(b) {
            Some(y) => lemma_lerp_fits(0, y as i32, 0),
            None => {},
        }
        match (magnitude_spec(a), magnitude_spec(b)) {
            (Some(x), Some(y)) => lemma_lerp_fits(x as i32, y as i32, 0),
            _ => {},
        }
    }
}

} // verus!
