//! The table from type keys to capabilities, and the entry points that build
//! curves through it.
use vstd::prelude::*;

use crate::curve::{keyframes_valid, Curve, Keyframe};
use crate::error::CapabilityError;
use crate::reflect::{
    all_of_kind, first_mismatch, keyframes_sample_of, mismatch, transition_error,
    transition_sample_of, ReflectAnimatable, ReflectCurve,
};
use crate::value::{Dimension, Rgba, Value, ValueKind};

verus! {

/// The key under which the scalar type is registered.
pub const SCALAR_TYPE_KEY: u64 = 1;

/// The key under which the color type is registered.
pub const COLOR_TYPE_KEY: u64 = 2;

/// The key under which the dimension type is registered.
pub const DIMENSION_TYPE_KEY: u64 = 3;

/// Capabilities by type key; a type without an entry is not animatable.
pub struct CapabilityRegistry {
    entries: Vec<(u64, ReflectAnimatable)>,
}

impl CapabilityRegistry {
    /// No key has two entries.
    pub closed spec fn wf(&self) -> bool {
        forall|i: int, j: int|
            #![trigger self.entries@[i], self.entries@[j]]
            0 <= i < self.entries@.len() && 0 <= j < self.entries@.len() && self.entries@[i].0
                == self.entries@[j].0 ==> i == j
    }

    spec fn index_of(&self, key: u64) -> int {
        choose|i: int| 0 <= i < self.entries@.len() && self.entries@[i].0 == key
    }
}

impl View for CapabilityRegistry {
    type V = Map<u64, ReflectAnimatable>;

    closed spec fn view(&self) -> Map<u64, ReflectAnimatable> {
        Map::new(
            |k: u64| exists|i: int| 0 <= i < self.entries@.len() && self.entries@[i].0 == k,
            |k: u64| self.entries@[self.index_of(k)].1,
        )
    }
}

impl CapabilityRegistry {
    /// A registry with no entries.
    pub fn new() -> (r: CapabilityRegistry)
        ensures
            r.wf(),
            r@ == Map::<u64, ReflectAnimatable>::empty(),
    {
        let r = CapabilityRegistry { entries: Vec::new() };
        assert(r@ =~= Map::<u64, ReflectAnimatable>::empty());
        r
    }

    fn position(&self, key: u64) -> (r: Option<usize>)
        requires
            self.wf(),
        ensures
            r matches Some(i) ==> i < self.entries@.len() && self.entries@[i as int].0 == key
                && self.index_of(key) == i,
            r is None ==> forall|i: int|
                0 <= i < self.entries@.len() ==> #[trigger] self.entries@[i].0 != key,
    {
        let mut i: usize = 0;
        while i < self.entries.len()
            invariant
                self.wf(),
                i <= self.entries@.len(),
                forall|j: int| 0 <= j < i ==> #[trigger] self.entries@[j].0 != key,
            decreases self.entries@.len() - i,
        {
            if self.entries[i].0 == key {
                proof {
                    let w = i as int;
                    assert(0 <= w < self.entries@.len() && self.entries@[w].0 == key);
                    assert(self.entries@[self.index_of(key)].0 == key);
                }
                return Some(i);
            }
            i = i + 1;
        }
        None
    }

    /// Registers `capability` for `key`, replacing any earlier entry.
    pub fn register(&mut self, key: u64, capability: ReflectAnimatable)
        requires
            old(self).wf(),
        ensures
            final(self).wf(),
            final(self)@ == old(self)@.insert(key, capability),
    {
        let ghost before = self@;
        match self.position(key) {
            Some(i) => {
                let ghost old_entries = self.entries@;
                self.entries.set(i, (key, capability));
                proof {
                    assert forall|k: u64| #[trigger] self@.contains_key(k) == before.insert(
                        key,
                        capability,
                    ).contains_key(k) by {
                        if exists|j: int| 0 <= j < old_entries.len() && old_entries[j].0 == k {
                            let j = choose|j: int| 0 <= j < old_entries.len() && old_entries[j].0 == k;
                            assert(self.entries@[j].0 == k);
                        }
                        if exists|j: int| 0 <= j < self.entries@.len() && self.entries@[j].0 == k {
                            let j = choose|j: int| 0 <= j < self.entries@.len() && self.entries@[j].0 == k;
                            assert(old_entries[j].0 == k);
                        }
                    }
                    assert forall|k: u64| #[trigger] self@.contains_key(k) implies self@[k]
                        == before.insert(key, capability)[k] by {
                        let j = self.index_of(k);
                        assert(self.entries@[j].0 == k);
                        if k != key {
                            let oj = choose|oj: int| 0 <= oj < old_entries.len() && old_entries[oj].0 == k;
                            assert(old_entries[j].0 == k);
                            assert(old_entries[oj].0 == k);
                        } else {
                            assert(old_entries[j].0 == key);
                            assert(old_entries[i as int].0 == key);
                        }
                    }
                    assert(self@ =~= before.insert(key, capability));
                }
            },
            None => {
                let ghost old_entries = self.entries@;
                self.entries.push((key, capability));
                proof {
                    let n = old_entries.len();
                    assert(self.entries@[n as int].0 == key);
                    assert forall|k: u64| #[trigger] self@.contains_key(k) == before.insert(
                        key,
                        capability,
                    ).contains_key(k) by {
                        if exists|j: int| 0 <= j < old_entries.len() && old_entries[j].0 == k {
                            let j = choose|j: int| 0 <= j < old_entries.len() && old_entries[j].0 == k;
                            assert(self.entries@[j].0 == k);
                        }
                        if exists|j: int| 0 <= j < self.entries@.len() && self.entries@[j].0 == k {
                            let j = choose|j: int| 0 <= j < self.entries@.len() && self.entries@[j].0 == k;
                            if j < n {
                                assert(old_entries[j].0 == k);
                            }
                        }
                    }
                    assert forall|k: u64| #[trigger] self@.contains_key(k) implies self@[k]
                        == before.insert(key, capability)[k] by {
                        let j = self.index_of(k);
                        assert(self.entries@[j].0 == k);
                        if k != key {
                            let oj = choose|oj: int| 0 <= oj < old_entries.len() && old_entries[oj].0 == k;
                            assert(old_entries[oj].0 == k);
                            assert(self.entries@[oj].0 == k);
                            if j == n {
                            } else {
                                assert(old_entries[j].0 == k);
                            }
                        } else if j < n {
                            assert(old_entries[j].0 == key);
                        }
                    }
                    assert(self@ =~= before.insert(key, capability));
                }
            },
        }
    }

    /// The capability registered for `key`; the registry is not changed.
    pub fn lookup(&self, key: u64) -> (r: Result<ReflectAnimatable, CapabilityError>)
        requires
            self.wf(),
        ensures
            self@.contains_key(key) ==> r == Ok::<ReflectAnimatable, CapabilityError>(self@[key]),
            !self@.contains_key(key) ==> r == Err::<ReflectAnimatable, CapabilityError>(
                CapabilityError::UnregisteredType(key),
            ),
    {
        match self.position(key) {
            Some(i) => Ok(self.entries[i].1),
            None => Err(CapabilityError::UnregisteredType(key)),
        }
    }

    /// A transition for the type registered under `key`.
    pub fn create_transition_curve(&self, key: u64, start: Option<Value>, end: Value) -> (r:
        Result<ReflectCurve, CapabilityError>)
        requires
            self.wf(),
        ensures
            !self@.contains_key(key) ==> r == Err::<ReflectCurve, CapabilityError>(
                CapabilityError::UnregisteredType(key),
            ),
            self@.contains_key(key) ==> match transition_error(self@[key].kind, start, end) {
                Some(e) => r == Err::<ReflectCurve, CapabilityError>(e),
                None => r matches Ok(c) && forall|t: u32|
                    c.sample_spec(t) == transition_sample_of(self@[key].kind, start, end, t),
            },
    {
        match self.lookup(key) {
            Ok(capability) => capability.create_property_transition_curve(start, end),
            Err(e) => Err(e),
        }
    }

    /// A keyframe curve for the type registered under `key`.
    pub fn create_keyframe_curve(&self, key: u64, keyframes: &[Keyframe<Value>]) -> (r: Result<
        ReflectCurve,
        CapabilityError,
    >)
        requires
            self.wf(),
        ensures
            !self@.contains_key(key) ==> r == Err::<ReflectCurve, CapabilityError>(
                CapabilityError::UnregisteredType(key),
            ),
            self@.contains_key(key) ==> {
                let kind = self@[key].kind;
                &&& forall|i: int|
                    first_mismatch(keyframes@, kind, i) ==> r == Err::<
                        ReflectCurve,
                        CapabilityError,
                    >(mismatch(kind, keyframes@[i].1))
                &&& all_of_kind(keyframes@, kind) && !keyframes_valid(keyframes@) ==> r == Err::<
                    ReflectCurve,
                    CapabilityError,
                >(CapabilityError::InvalidKeyframeSet)
                &&& all_of_kind(keyframes@, kind) && keyframes_valid(keyframes@) ==> (r matches Ok(
                    c,
                ) && forall|t: u32| c.sample_spec(t) == keyframes_sample_of(kind, keyframes@, t))
            },
    {
        match self.lookup(key) {
            Ok(capability) => capability.create_keyframes_animation_curve(keyframes),
            Err(e) => Err(e),
        }
    }
}

/// Registers the built-in animatable types: scalars, colors and dimensions.
pub struct ReflectAnimationsPlugin;

impl ReflectAnimationsPlugin {
    /// Adds the capability of each built-in type under its key.
    pub fn build(&self, registry: &mut CapabilityRegistry)
        requires
            old(registry).wf(),
        ensures
            final(registry).wf(),
            final(registry)@ == old(registry)@.insert(
                SCALAR_TYPE_KEY,
                ReflectAnimatable { kind: ValueKind::Scalar },
            ).insert(COLOR_TYPE_KEY, ReflectAnimatable { kind: ValueKind::Color }).insert(
                DIMENSION_TYPE_KEY,
                ReflectAnimatable { kind: ValueKind::Dimension },
            ),
    {
        registry.register(SCALAR_TYPE_KEY, ReflectAnimatable::from_type::<i32>());
        registry.register(COLOR_TYPE_KEY, ReflectAnimatable::from_type::<Rgba>());
        registry.register(DIMENSION_TYPE_KEY, ReflectAnimatable::from_type::<Dimension>());
    }
}

} // verus!
