//! The erased layer: per-type capabilities that build curves over erased
//! values, and the registry that finds them by type key.
use vstd::prelude::*;

use crate::curve::{
    keyframes_at, keyframes_valid, Curve, Keyframe, KeyframeCurve, LinearCurve, Mapped,
    TypedCurve, Wrap,
};
use crate::error::CapabilityError;
use crate::progress::{Easing, UNIT};
use crate::strategies::Animatable;
use crate::value::{value_same, Dimension, Rgba, Value, ValueKind};

verus! {

/// The error for an erased value of kind `found` where `expected` is needed.
pub open spec fn mismatch(expected: ValueKind, found: Value) -> CapabilityError {
    CapabilityError::TypeMismatch { expected, found: found.kind_spec() }
}

/// Recovers a `T` from an erased value, or reports both types.
pub fn downcast_value<T: Animatable>(value: Value) -> (r: Result<T, CapabilityError>)
    ensures
        value.kind_spec() == T::kind_spec() ==> r == Ok::<T, CapabilityError>(
            T::unwrap_spec(value),
        ),
        value.kind_spec() != T::kind_spec() ==> r == Err::<T, CapabilityError>(
            mismatch(T::kind_spec(), value),
        ),
{
    match T::downcast(value) {
        Ok(v) => Ok(v),
        Err(v) => Err(CapabilityError::TypeMismatch { expected: T::kind(), found: v.kind() }),
    }
}

/// The error, if any, in building a transition of kind `kind`: the start
/// value is checked before the end value.
pub open spec fn transition_error(
    kind: ValueKind,
    start: Option<Value>,
    end: Value,
) -> Option<CapabilityError> {
    if start is Some && start->0.kind_spec() != kind {
        Some(mismatch(kind, start->0))
    } else if end.kind_spec() != kind {
        Some(mismatch(kind, end))
    } else {
        None
    }
}

/// A transition's erased sample at `t`; without a start value it starts
/// at the type's default.
pub open spec fn transition_sample<T: Animatable>(
    start: Option<Value>,
    end: Value,
    t: u32,
) -> Option<Value> {
    if t <= UNIT {
        let s = match start {
            Some(v) => T::unwrap_spec(v),
            None => T::default_spec(),
        };
        Some(T::wrap_spec(T::interp_spec(s, T::unwrap_spec(end), t as int)))
    } else {
        None
    }
}

/// The keyframes with their values unwrapped to `T`.
pub open spec fn unwrap_keyframes<T: Animatable>(k: Seq<Keyframe<Value>>) -> Seq<Keyframe<T>> {
    k.map_values(|e: Keyframe<Value>| (e.0, T::unwrap_spec(e.1), e.2))
}

/// Keyframe `i` is the first whose value is not of kind `kind`.
pub open spec fn first_mismatch(k: Seq<Keyframe<Value>>, kind: ValueKind, i: int) -> bool {
    &&& 0 <= i < k.len()
    &&& k[i].1.kind_spec() != kind
    &&& forall|j: int| 0 <= j < i ==> #[trigger] k[j].1.kind_spec() == kind
}

/// Every keyframe value is of kind `kind`.
pub open spec fn all_of_kind(k: Seq<Keyframe<Value>>, kind: ValueKind) -> bool {
    forall|j: int| 0 <= j < k.len() ==> #[trigger] k[j].1.kind_spec() == kind
}

/// A keyframe curve's erased sample at `t`.
pub open spec fn keyframes_sample<T: Animatable>(k: Seq<Keyframe<Value>>, t: u32) -> Option<
    Value,
> {
    if t <= UNIT {
        Some(T::wrap_spec(keyframes_at(unwrap_keyframes::<T>(k), t as int)))
    } else {
        None
    }
}

/// Builds a transition of `T` from erased end points.
pub fn create_property_transition_with<T: Animatable>(start: Option<Value>, end: Value) -> (r:
    Result<Mapped<TypedCurve<T>, Wrap<T>>, CapabilityError>)
    ensures
        transition_error(T::kind_spec(), start, end) matches Some(e) ==> r == Err::<
            Mapped<TypedCurve<T>, Wrap<T>>,
            CapabilityError,
        >(e),
        transition_error(T::kind_spec(), start, end) is None ==> (r matches Ok(c) && forall|t: u32|
            c.sample_spec(t) == transition_sample::<T>(start, end, t)),
{
    let s = match start {
        Some(v) => match downcast_value::<T>(v) {
            Ok(x) => x,
            Err(e) => return Err(e),
        },
        None => T::default_value(),
    };
    let e = match downcast_value::<T>(end) {
        Ok(x) => x,
        Err(e) => return Err(e),
    };
    let curve = TypedCurve::Transition(LinearCurve { start: s, end: e });
    Ok(Mapped::new(curve, Wrap::new()))
}

/// Builds a keyframe curve of `T` from erased keyframes.
pub fn create_keyframe_animation_with<T: Animatable>(keyframes: &[Keyframe<Value>]) -> (r: Result<
    Mapped<TypedCurve<T>, Wrap<T>>,
    CapabilityError,
>)
    ensures
        forall|i: int|
            first_mismatch(keyframes@, T::kind_spec(), i) ==> r == Err::<
                Mapped<TypedCurve<T>, Wrap<T>>,
                CapabilityError,
            >(mismatch(T::kind_spec(), keyframes@[i].1)),
        all_of_kind(keyframes@, T::kind_spec()) && !keyframes_valid(keyframes@) ==> r == Err::<
            Mapped<TypedCurve<T>, Wrap<T>>,
            CapabilityError,
        >(CapabilityError::InvalidKeyframeSet),
        all_of_kind(keyframes@, T::kind_spec()) && keyframes_valid(keyframes@) ==> (r matches Ok(
            c,
        ) && forall|t: u32| c.sample_spec(t) == keyframes_sample::<T>(keyframes@, t)),
{
    let n = keyframes.len();
    let mut samples: Vec<Keyframe<T>> = Vec::new();
    let mut i: usize = 0;
    while i < n
        invariant
            n == keyframes@.len(),
            i <= n,
            forall|j: int| 0 <= j < i ==> #[trigger] keyframes@[j].1.kind_spec() == T::kind_spec(),
            samples@ == unwrap_keyframes::<T>(keyframes@.take(i as int)),
        decreases n - i,
    {
        let (p, v, e) = keyframes[i];
        match downcast_value::<T>(v) {
            Ok(x) => {
                samples.push((p, x, e));
            },
            Err(err) => {
                proof {
                    assert forall|j: int| first_mismatch(keyframes@, T::kind_spec(), j) implies j
                        == i by {
                        if j < i {
                        } else if j > i {
                            assert(keyframes@[i as int].1.kind_spec() == T::kind_spec());
                        }
                    }
                }
                return Err(err);
            },
        }
        proof {
            assert(keyframes@.take(i + 1) == keyframes@.take(i as int).push(keyframes@[i as int]));
            assert(unwrap_keyframes::<T>(keyframes@.take(i + 1)) =~= unwrap_keyframes::<T>(
                keyframes@.take(i as int),
            ).push((p, T::unwrap_spec(v), e)));
        }
        i = i + 1;
    }
    proof {
        assert(keyframes@.take(n as int) == keyframes@);
        assert forall|j: int| !first_mismatch(keyframes@, T::kind_spec(), j) by {}
        assert(keyframes_valid(samples@) == keyframes_valid(keyframes@)) by {
            assert forall|j: int| 0 <= j < n implies samples@[j].0 == keyframes@[j].0 by {}
        }
    }
    match KeyframeCurve::new(samples) {
        Ok(c) => Ok(Mapped::new(TypedCurve::Keyframes(c), Wrap::new())),
        Err(e) => Err(e),
    }
}

/// A curve over erased values, whatever type it animates.
pub enum ReflectCurve {
    Scalar(Mapped<TypedCurve<i32>, Wrap<i32>>),
    Color(Mapped<TypedCurve<Rgba>, Wrap<Rgba>>),
    Dimension(Mapped<TypedCurve<Dimension>, Wrap<Dimension>>),
}

impl Curve for ReflectCurve {
    type Output = Value;

    open spec fn sample_spec(&self, t: u32) -> Option<Value> {
        match self {
            ReflectCurve::Scalar(c) => c.sample_spec(t),
            ReflectCurve::Color(c) => c.sample_spec(t),
            ReflectCurve::Dimension(c) => c.sample_spec(t),
        }
    }

    fn sample(&self, t: u32) -> Option<Value> {
        match self {
            ReflectCurve::Scalar(c) => c.sample(t),
            ReflectCurve::Color(c) => c.sample(t),
            ReflectCurve::Dimension(c) => c.sample(t),
        }
    }
}

/// `transition_sample` for the type of kind `kind`.
pub open spec fn transition_sample_of(
    kind: ValueKind,
    start: Option<Value>,
    end: Value,
    t: u32,
) -> Option<Value> {
    match kind {
        ValueKind::Scalar => transition_sample::<i32>(start, end, t),
        ValueKind::Color => transition_sample::<Rgba>(start, end, t),
        ValueKind::Dimension => transition_sample::<Dimension>(start, end, t),
    }
}

/// `keyframes_sample` for the type of kind `kind`.
pub open spec fn keyframes_sample_of(kind: ValueKind, k: Seq<Keyframe<Value>>, t: u32) -> Option<
    Value,
> {
    match kind {
        ValueKind::Scalar => keyframes_sample::<i32>(k, t),
        ValueKind::Color => keyframes_sample::<Rgba>(k, t),
        ValueKind::Dimension => keyframes_sample::<Dimension>(k, t),
    }
}

/// What animating a type takes: its capability to build transition and
/// keyframe curves over erased values, selected by the type's kind.
#[derive(Clone, Copy, Debug, PartialEq, Eq, Structural)]
pub struct ReflectAnimatable {
    pub kind: ValueKind,
}

impl ReflectAnimatable {
    /// The capability of the animatable type `T`.
    pub fn from_type<T: Animatable>() -> (r: ReflectAnimatable)
        ensures
            r.kind == T::kind_spec(),
    {
        ReflectAnimatable { kind: T::kind() }
    }

    /// A transition from `start` (the type's default when `None`) to `end`
    /// over the unit interval.
    pub fn create_property_transition_curve(&self, start: Option<Value>, end: Value) -> (r: Result<
        ReflectCurve,
        CapabilityError,
    >)
        ensures
            transition_error(self.kind, start, end) matches Some(e) ==> r == Err::<
                ReflectCurve,
                CapabilityError,
            >(e),
            transition_error(self.kind, start, end) is None ==> (r matches Ok(c) && forall|t: u32|
                c.sample_spec(t) == transition_sample_of(self.kind, start, end, t)),
    {
        match self.kind {
            ValueKind::Scalar => match create_property_transition_with::<i32>(start, end) {
                Ok(c) => Ok(ReflectCurve::Scalar(c)),
                Err(e) => Err(e),
            },
            ValueKind::Color => match create_property_transition_with::<Rgba>(start, end) {
                Ok(c) => Ok(ReflectCurve::Color(c)),
                Err(e) => Err(e),
            },
            ValueKind::Dimension => match create_property_transition_with::<Dimension>(
                start,
                end,
            ) {
                Ok(c) => Ok(ReflectCurve::Dimension(c)),
                Err(e) => Err(e),
            },
        }
    }

    /// A curve through the given keyframes.
    pub fn create_keyframes_animation_curve(&self, keyframes: &[Keyframe<Value>]) -> (r: Result<
        ReflectCurve,
        CapabilityError,
    >)
        ensures
            forall|i: int|
                first_mismatch(keyframes@, self.kind, i) ==> r == Err::<
                    ReflectCurve,
                    CapabilityError,
                >(mismatch(self.kind, keyframes@[i].1)),
            all_of_kind(keyframes@, self.kind) && !keyframes_valid(keyframes@) ==> r == Err::<
                ReflectCurve,
                CapabilityError,
            >(CapabilityError::InvalidKeyframeSet),
            all_of_kind(keyframes@, self.kind) && keyframes_valid(keyframes@) ==> (r matches Ok(
                c,
            ) && forall|t: u32| c.sample_spec(t) == keyframes_sample_of(self.kind, keyframes@, t)),
    {
        match self.kind {
            ValueKind::Scalar => match create_keyframe_animation_with::<i32>(keyframes) {
                Ok(c) => Ok(ReflectCurve::Scalar(c)),
                Err(e) => Err(e),
            },
            ValueKind::Color => match create_keyframe_animation_with::<Rgba>(keyframes) {
                Ok(c) => Ok(ReflectCurve::Color(c)),
                Err(e) => Err(e),
            },
            ValueKind::Dimension => match create_keyframe_animation_with::<Dimension>(keyframes) {
                Ok(c) => Ok(ReflectCurve::Dimension(c)),
                Err(e) => Err(e),
            },
        }
    }
}

/// The default start value of the type of kind `kind`, erased.
pub open spec fn default_of(kind: ValueKind) -> Value {
    match kind {
        ValueKind::Scalar => <i32 as Animatable>::wrap_spec(<i32 as Animatable>::default_spec()),
        ValueKind::Color => <Rgba as Animatable>::wrap_spec(<Rgba as Animatable>::default_spec()),
        ValueKind::Dimension => <Dimension as Animatable>::wrap_spec(
            <Dimension as Animatable>::default_spec(),
        ),
    }
}

/// A transition between two values of one type starts exactly at the first
/// and ends exactly at the second, by the type's own equality.
pub proof fn lemma_transition_exact(a: Value, b: Value)
    requires
        a.kind_spec() == b.kind_spec(),
    ensures
        transition_sample_of(a.kind_spec(), Some(a), b, 0) matches Some(v) && value_same(v, a),
        transition_sample_of(a.kind_spec(), Some(a), b, UNIT) matches Some(v) && value_same(v, b),
{
    match (a, b) {
        (Value::Scalar(x), Value::Scalar(y)) => {
            <i32 as Animatable>::lemma_interp_endpoints(x, y);
        },
        (Value::Color(x), Value::Color(y)) => {
            <Rgba as Animatable>::lemma_interp_endpoints(x, y);
        },
        (Value::Dimension(x), Value::Dimension(y)) => {
            <Dimension as Animatable>::lemma_interp_endpoints(x, y);
        },
        _ => {},
    }
}

/// A transition without a start value starts at the type's default.
pub proof fn lemma_transition_default_start(b: Value)
    ensures
        transition_sample_of(b.kind_spec(), None, b, 0) matches Some(v) && value_same(
            v,
            default_of(b.kind_spec()),
        ),
{
    match b {
        Value::Scalar(y) => {
            <i32 as Animatable>::lemma_interp_endpoints(0, y);
        },
        Value::Color(y) => {
            <Rgba as Animatable>::lemma_interp_endpoints(<Rgba as Animatable>::default_spec(), y);
        },
        Value::Dimension(y) => {
            <Dimension as Animatable>::lemma_interp_endpoints(Dimension::zero_spec(), y);
        },
    }
}

} // verus!
