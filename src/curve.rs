//! Curves over the unit interval: linear transitions, keyframes, and
//! post-mapping of a curve's output.
use vstd::prelude::*;

use crate::error::CapabilityError;
use crate::progress::{ease, ease_spec, lemma_ease_bounds, Easing, UNIT};
use crate::strategies::Animatable;
use crate::value::Value;

verus! {

/// A pure function from progress to a value, defined on `0..=UNIT`.
pub trait Curve {
    type Output;

    /// What `sample` returns at `t`.
    spec fn sample_spec(&self, t: u32) -> Option<Self::Output>;

    /// The value at progress `t`; `None` outside the domain.
    fn sample(&self, t: u32) -> (r: Option<Self::Output>)
        ensures
            r == self.sample_spec(t),
    ;
}

/// A pure function applied to each sample of a curve.
pub trait Mapping {
    type Input;

    type Output;

    spec fn apply_spec(&self, x: Self::Input) -> Self::Output;

    fn apply(&self, x: Self::Input) -> (r: Self::Output)
        ensures
            r == self.apply_spec(x),
    ;
}

/// A curve whose samples pass through a mapping.
pub struct Mapped<C, M> {
    pub curve: C,
    pub mapping: M,
}

impl<C: Curve, M: Mapping<Input = C::Output>> Mapped<C, M> {
    /// The curve `curve` followed by `mapping`.
    pub fn new(curve: C, mapping: M) -> (r: Self)
        ensures
            r.curve == curve,
            r.mapping == mapping,
    {
        Mapped { curve, mapping }
    }
}

impl<C: Curve, M: Mapping<Input = C::Output>> Curve for Mapped<C, M> {
    type Output = M::Output;

    open spec fn sample_spec(&self, t: u32) -> Option<M::Output> {
        match self.curve.sample_spec(t) {
            Some(v) => Some(self.mapping.apply_spec(v)),
            None => None,
        }
    }

    fn sample(&self, t: u32) -> Option<M::Output> {
        match self.curve.sample(t) {
            Some(v) => Some(self.mapping.apply(v)),
            None => None,
        }
    }
}

/// Sampling a mapped curve is sampling the curve and applying the mapping:
/// the domain is kept and each sample is mapped exactly.
pub proof fn lemma_map_sample<C: Curve, M: Mapping<Input = C::Output>>(
    curve: C,
    mapping: M,
    t: u32,
)
    ensures
        (Mapped { curve, mapping }).sample_spec(t) is None <==> curve.sample_spec(t) is None,
        forall|v: C::Output|
            curve.sample_spec(t) == Some(v) ==> (Mapped { curve, mapping }).sample_spec(t) == Some(
                mapping.apply_spec(v),
            ),
{
}

/// The mapping that erases the type of a value.
pub struct Wrap<T> {
    pub marker: core::marker::PhantomData<T>,
}

impl<T: Animatable> Wrap<T> {
    pub fn new() -> (r: Self) {
        Wrap { marker: core::marker::PhantomData }
    }
}

impl<T: Animatable> Mapping for Wrap<T> {
    type Input = T;

    type Output = Value;

    open spec fn apply_spec(&self, x: T) -> Value {
        T::wrap_spec(x)
    }

    fn apply(&self, x: T) -> Value {
        T::wrap(x)
    }
}

/// A direct blend from `start` to `end`.
#[derive(Debug)]
pub struct LinearCurve<T> {
    pub start: T,
    pub end: T,
}

impl<T: Animatable> Curve for LinearCurve<T> {
    type Output = T;

    open spec fn sample_spec(&self, t: u32) -> Option<T> {
        if t <= UNIT {
            Some(T::interp_spec(self.start, self.end, t as int))
        } else {
            None
        }
    }

    fn sample(&self, t: u32) -> Option<T> {
        if t <= UNIT {
            Some(T::interpolate(&self.start, &self.end, t))
        } else {
            None
        }
    }
}

/// One keyframe: its progress, its value, and the easing of the segment
/// that it starts.
pub type Keyframe<T> = (u32, T, Easing);

/// At least two keyframes, each within the unit interval, in order of
/// progress.
pub open spec fn keyframes_valid<T>(k: Seq<Keyframe<T>>) -> bool {
    &&& k.len() >= 2
    &&& forall|i: int| 0 <= i < k.len() ==> #[trigger] k[i].0 <= UNIT
    &&& forall|i: int, j: int| 0 <= i <= j < k.len() ==> #[trigger] k[i].0 <= #[trigger] k[j].0
}

/// `t` lies in the segment from keyframe `i` to keyframe `i + 1`.
pub open spec fn in_segment<T>(k: Seq<Keyframe<T>>, i: int, t: int) -> bool {
    0 <= i < k.len() - 1 && k[i].0 <= t < k[i + 1].0
}

/// Progress within segment `i` at `t`, out of `UNIT`.
pub open spec fn local_progress<T>(k: Seq<Keyframe<T>>, i: int, t: int) -> int {
    (t - k[i].0) * (UNIT as int) / (k[i + 1].0 - k[i].0)
}

/// The keyframes' value at `t`: the first value before the first keyframe,
/// the last from the last keyframe on, and in between the eased blend of the
/// segment's two values.
pub open spec fn keyframes_at<T: Animatable>(k: Seq<Keyframe<T>>, t: int) -> T {
    if t < k[0].0 {
        k[0].1
    } else if t >= k.last().0 {
        k.last().1
    } else {
        let i = choose|i: int| in_segment(k, i, t);
        T::interp_spec(k[i].1, k[i + 1].1, ease_spec(k[i].2, local_progress(k, i, t)))
    }
}

proof fn lemma_segment_unique<T>(k: Seq<Keyframe<T>>, i: int, j: int, t: int)
    requires
        keyframes_valid(k),
        in_segment(k, i, t),
        in_segment(k, j, t),
    ensures
        i == j,
{
    if i < j {
        assert(k[i + 1].0 <= k[j].0);
    } else if j < i {
        assert(k[j + 1].0 <= k[i].0);
    }
}

/// Values at ordered progress points, each segment with its own easing.
pub struct KeyframeCurve<T> {
    keyframes: Vec<Keyframe<T>>,
}

impl<T> View for KeyframeCurve<T> {
    type V = Seq<Keyframe<T>>;

    closed spec fn view(&self) -> Seq<Keyframe<T>> {
        self.keyframes@
    }
}

impl<T> KeyframeCurve<T> {
    #[verifier::type_invariant]
    spec fn wf(&self) -> bool {
        keyframes_valid(self.keyframes@)
    }
}

impl<T: Animatable> KeyframeCurve<T> {
    /// Takes the keyframes if they form a valid set.
    pub fn new(keyframes: Vec<Keyframe<T>>) -> (r: Result<Self, CapabilityError>)
        ensures
            keyframes_valid(keyframes@) ==> (r matches Ok(c) && c@ == keyframes@),
            !keyframes_valid(keyframes@) ==> r == Err::<Self, CapabilityError>(
                CapabilityError::InvalidKeyframeSet,
            ),
    {
        let n = keyframes.len();
        if n < 2 {
            return Err(CapabilityError::InvalidKeyframeSet);
        }
        let mut i: usize = 0;
        while i < n
            invariant
                n == keyframes@.len(),
                i <= n,
                forall|a: int| 0 <= a < i ==> #[trigger] keyframes@[a].0 <= UNIT,
                forall|a: int, b: int|
                    0 <= a <= b < i ==> #[trigger] keyframes@[a].0 <= #[trigger] keyframes@[b].0,
            decreases n - i,
        {
            if keyframes[i].0 > UNIT {
                return Err(CapabilityError::InvalidKeyframeSet);
            }
            if i > 0 && keyframes[i - 1].0 > keyframes[i].0 {
                assert(!keyframes_valid(keyframes@)) by {
                    assert(keyframes@[i - 1].0 > keyframes@[i as int].0);
                }
                return Err(CapabilityError::InvalidKeyframeSet);
            }
            proof {
                assert forall|a: int, b: int|
                    0 <= a <= b < i + 1 implies #[trigger] keyframes@[a].0
                        <= #[trigger] keyframes@[b].0 by {
                    if b == i && a < i {
                        assert(keyframes@[a].0 <= keyframes@[i - 1].0);
                    }
                }
            }
            i = i + 1;
        }
        Ok(KeyframeCurve { keyframes })
    }
}

impl<T: Animatable> Curve for KeyframeCurve<T> {
    type Output = T;

    open spec fn sample_spec(&self, t: u32) -> Option<T> {
        if t <= UNIT {
            Some(keyframes_at(self@, t as int))
        } else {
            None
        }
    }

    fn sample(&self, t: u32) -> Option<T> {
        if t > UNIT {
            return None;
        }
        proof {
            use_type_invariant(self);
        }
        let k = &self.keyframes;
        let n = k.len();
        if t < k[0].0 {
            return Some(k[0].1);
        }
        if t >= k[n - 1].0 {
            return Some(k[n - 1].1);
        }
        let mut i: usize = 0;
        while t >= k[i + 1].0
            invariant
                n == k@.len(),
                keyframes_valid(k@),
                0 <= i < n - 1,
                k@[i as int].0 <= t,
                t < k@[n - 1].0,
            decreases n - i,
        {
            i = i + 1;
        }
        let p0 = k[i].0;
        let p1 = k[i + 1].0;
        proof {
            let j = choose|j: int| in_segment(k@, j, t as int);
            assert(in_segment(k@, i as int, t as int));
            lemma_segment_unique(k@, i as int, j, t as int);
            let d = (p1 - p0) as int;
            assert((t - p0) * (UNIT as int) <= d * (UNIT as int)) by (nonlinear_arith)
                requires
                    t - p0 <= d,
            ;
            vstd::arithmetic::div_mod::lemma_div_is_ordered(
                (t - p0) * (UNIT as int),
                d * (UNIT as int),
                d,
            );
            vstd::arithmetic::div_mod::lemma_div_multiples_vanish(UNIT as int, d);
            assert(d * (UNIT as int) == (UNIT as int) * d) by (nonlinear_arith);
            assert(0 <= (t - p0) * (UNIT as int)) by (nonlinear_arith)
                requires
                    t >= p0,
            ;
            vstd::arithmetic::div_mod::lemma_div_is_ordered(0, (t - p0) * (UNIT as int), d);
        }
        let u: u64 = ((t - p0) as u64) * (UNIT as u64) / ((p1 - p0) as u64);
        let eased = ease(k[i].2, u as u32);
        Some(T::interpolate(&k[i].1, &k[i + 1].1, eased))
    }
}

/// A curve of one concrete type, of either kind.
pub enum TypedCurve<T> {
    Transition(LinearCurve<T>),
    Keyframes(KeyframeCurve<T>),
}

impl<T: Animatable> Curve for TypedCurve<T> {
    type Output = T;

    open spec fn sample_spec(&self, t: u32) -> Option<T> {
        match self {
            TypedCurve::Transition(c) => c.sample_spec(t),
            TypedCurve::Keyframes(c) => c.sample_spec(t),
        }
    }

    fn sample(&self, t: u32) -> Option<T> {
        match self {
            TypedCurve::Transition(c) => c.sample(t),
            TypedCurve::Keyframes(c) => c.sample(t),
        }
    }
}

} // verus!
