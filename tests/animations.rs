use flair_animations::{
    dimension_interpolate, ease, lerp, mix, CapabilityError, CapabilityRegistry, Curve, Dimension,
    Easing, KeyframeCurve, LinearCurve, Mapped, ReflectAnimatable, ReflectAnimationsPlugin, Rgba,
    Value, ValueKind, Wrap, COLOR_TYPE_KEY, DIMENSION_TYPE_KEY, SCALAR_TYPE_KEY, UNIT,
};

const HALF: u32 = UNIT / 2;

fn red() -> Rgba {
    Rgba { red: 1000, green: 0, blue: 0, alpha: 1000 }
}

fn blue() -> Rgba {
    Rgba { red: 0, green: 0, blue: 1000, alpha: 1000 }
}

fn transition(kind: ValueKind, start: Option<Value>, end: Value) -> flair_animations::ReflectCurve {
    ReflectAnimatable { kind }.create_property_transition_curve(start, end).unwrap()
}

#[test]
fn transition_is_exact_at_both_ends() {
    let pairs = [
        (Value::Scalar(-7), Value::Scalar(42)),
        (Value::Color(red()), Value::Color(blue())),
        (Value::Dimension(Dimension::Px(3)), Value::Dimension(Dimension::Px(-9))),
        (Value::Dimension(Dimension::Vw(30)), Value::Dimension(Dimension::VMax(1))),
        (Value::Dimension(Dimension::Auto), Value::Dimension(Dimension::Percent(8))),
    ];
    for (a, b) in pairs {
        let c = transition(a.kind(), Some(a), b);
        assert_eq!(c.sample(0), Some(a));
        assert_eq!(c.sample(UNIT), Some(b));
    }
}

#[test]
fn zero_coercion_is_exact_by_dimension_equality() {
    let a = Value::Dimension(Dimension::zero());
    let b = Value::Dimension(Dimension::Percent(50));
    let c = transition(ValueKind::Dimension, Some(a), b);
    assert_eq!(c.sample(0), Some(a));
    assert_eq!(c.sample(UNIT), Some(b));
}

#[test]
fn transition_without_start_uses_default() {
    let c = transition(ValueKind::Scalar, None, Value::Scalar(10));
    assert_eq!(c.sample(0), Some(Value::Scalar(0)));
    let c = transition(ValueKind::Color, None, Value::Color(red()));
    assert_eq!(c.sample(0), Some(Value::Color(Rgba { red: 0, green: 0, blue: 0, alpha: 0 })));
    let c = transition(ValueKind::Dimension, None, Value::Dimension(Dimension::Px(10)));
    assert_eq!(c.sample(0), Some(Value::Dimension(Dimension::zero())));
    assert_eq!(c.sample(HALF), Some(Value::Dimension(Dimension::Px(5))));
}

#[test]
fn scalar_midpoint() {
    let c = transition(ValueKind::Scalar, Some(Value::Scalar(0)), Value::Scalar(10));
    assert_eq!(c.sample(HALF), Some(Value::Scalar(5)));
}

#[test]
fn color_midpoint() {
    let c = transition(ValueKind::Color, Some(Value::Color(red())), Value::Color(blue()));
    let expected = Rgba { red: 500, green: 0, blue: 500, alpha: 1000 };
    assert_eq!(c.sample(HALF), Some(Value::Color(expected)));
    assert_eq!(mix(&red(), &blue(), HALF), expected);
}

#[test]
fn dimension_same_unit_midpoint() {
    let c = transition(
        ValueKind::Dimension,
        Some(Value::Dimension(Dimension::Px(0))),
        Value::Dimension(Dimension::Px(10)),
    );
    assert_eq!(c.sample(HALF), Some(Value::Dimension(Dimension::Px(5))));
}

#[test]
fn dimension_zero_coercion() {
    let c = transition(
        ValueKind::Dimension,
        Some(Value::Dimension(Dimension::zero())),
        Value::Dimension(Dimension::Percent(50)),
    );
    assert_eq!(c.sample(HALF), Some(Value::Dimension(Dimension::Percent(25))));
    let back = dimension_interpolate(&Dimension::Vh(40), &Dimension::zero(), HALF);
    assert_eq!(back, Dimension::Vh(20));
    assert!(matches!(back, Dimension::Vh(20)));
}

#[test]
fn dimension_mismatched_units_switch_at_the_end() {
    let a = Value::Dimension(Dimension::Px(10));
    let b = Value::Dimension(Dimension::Percent(50));
    let c = transition(ValueKind::Dimension, Some(a), b);
    assert_eq!(c.sample(0), Some(a));
    assert_eq!(c.sample(UNIT), Some(b));
    assert_eq!(c.sample(HALF), Some(a));
    assert_eq!(c.sample(UNIT - 1), Some(a));
    assert!(matches!(c.sample(HALF), Some(Value::Dimension(Dimension::Px(10)))));
    assert!(Dimension::Px(10).mismatches(&Dimension::Percent(50)));
    assert!(!Dimension::zero().mismatches(&Dimension::Percent(50)));
    assert!(!Dimension::Px(1).mismatches(&Dimension::Px(9)));
}

#[test]
fn keyframes_triangle() {
    let k = [
        (0, Value::Scalar(0), Easing::Linear),
        (HALF, Value::Scalar(10), Easing::Linear),
        (UNIT, Value::Scalar(0), Easing::Linear),
    ];
    let c = ReflectAnimatable { kind: ValueKind::Scalar }.create_keyframes_animation_curve(&k).unwrap();
    assert_eq!(c.sample(UNIT / 4), Some(Value::Scalar(5)));
    assert_eq!(c.sample(3 * UNIT / 4), Some(Value::Scalar(5)));
    assert_eq!(c.sample(UNIT), Some(Value::Scalar(0)));
    assert_eq!(c.sample(HALF), Some(Value::Scalar(10)));
    assert_eq!(c.sample(UNIT + 1), None);
}

#[test]
fn single_keyframe_is_rejected() {
    let k = [(0, Value::Scalar(1), Easing::Linear)];
    let r = ReflectAnimatable { kind: ValueKind::Scalar }.create_keyframes_animation_curve(&k);
    assert!(matches!(r, Err(CapabilityError::InvalidKeyframeSet)));
    let r = ReflectAnimatable { kind: ValueKind::Scalar }.create_keyframes_animation_curve(&[]);
    assert!(matches!(r, Err(CapabilityError::InvalidKeyframeSet)));
}

#[test]
fn out_of_range_or_unordered_keyframes_are_rejected() {
    let beyond = [
        (0, Value::Scalar(1), Easing::Linear),
        (UNIT + 1, Value::Scalar(2), Easing::Linear),
    ];
    let r = ReflectAnimatable { kind: ValueKind::Scalar }.create_keyframes_animation_curve(&beyond);
    assert!(matches!(r, Err(CapabilityError::InvalidKeyframeSet)));
    let unordered = [
        (HALF, Value::Scalar(1), Easing::Linear),
        (0, Value::Scalar(2), Easing::Linear),
    ];
    let r = ReflectAnimatable { kind: ValueKind::Scalar }.create_keyframes_animation_curve(&unordered);
    assert!(matches!(r, Err(CapabilityError::InvalidKeyframeSet)));
    let r = KeyframeCurve::new(vec![(HALF, 1i32, Easing::Linear), (0, 2i32, Easing::Linear)]);
    assert!(matches!(r, Err(CapabilityError::InvalidKeyframeSet)));
}

#[test]
fn keyframes_clamp_outside_their_span() {
    let c = KeyframeCurve::new(vec![
        (UNIT / 4, 7i32, Easing::Linear),
        (HALF, 9i32, Easing::Linear),
    ])
    .unwrap();
    assert_eq!(c.sample(0), Some(7));
    assert_eq!(c.sample(UNIT / 8), Some(7));
    assert_eq!(c.sample(3 * UNIT / 8), Some(8));
    assert_eq!(c.sample(UNIT), Some(9));
    assert_eq!(c.sample(UNIT + 5), None);
}

#[test]
fn keyframes_use_the_easing_of_the_earlier_keyframe() {
    let c = KeyframeCurve::new(vec![
        (0, 0i32, Easing::QuadraticIn),
        (HALF, 100i32, Easing::Linear),
        (UNIT, 200i32, Easing::Linear),
    ])
    .unwrap();
    assert_eq!(c.sample(UNIT / 4), Some(25));
    assert_eq!(c.sample(3 * UNIT / 4), Some(150));
}

#[test]
fn keyframes_with_equal_progress() {
    let c = KeyframeCurve::new(vec![
        (0, 1i32, Easing::Linear),
        (HALF, 2i32, Easing::Linear),
        (HALF, 3i32, Easing::Linear),
        (UNIT, 4i32, Easing::Linear),
    ])
    .unwrap();
    assert_eq!(c.sample(HALF), Some(3));
    assert_eq!(c.sample(HALF - 1), Some(1));
}

#[test]
fn type_mismatch_is_reported() {
    let cap = ReflectAnimatable { kind: ValueKind::Color };
    let r = cap.create_property_transition_curve(Some(Value::Scalar(1)), Value::Color(red()));
    assert_eq!(
        r.err(),
        Some(CapabilityError::TypeMismatch { expected: ValueKind::Color, found: ValueKind::Scalar })
    );
    let r = cap.create_property_transition_curve(None, Value::Dimension(Dimension::Auto));
    assert_eq!(
        r.err(),
        Some(CapabilityError::TypeMismatch {
            expected: ValueKind::Color,
            found: ValueKind::Dimension
        })
    );
    let k = [
        (0, Value::Color(red()), Easing::Linear),
        (HALF, Value::Scalar(3), Easing::Linear),
        (UNIT, Value::Dimension(Dimension::Auto), Easing::Linear),
    ];
    assert_eq!(
        cap.create_keyframes_animation_curve(&k).err(),
        Some(CapabilityError::TypeMismatch { expected: ValueKind::Color, found: ValueKind::Scalar })
    );
}

#[test]
fn unregistered_lookup_fails_and_changes_nothing() {
    let mut registry = CapabilityRegistry::new();
    assert_eq!(registry.lookup(SCALAR_TYPE_KEY).err(), Some(CapabilityError::UnregisteredType(1)));
    ReflectAnimationsPlugin.build(&mut registry);
    assert_eq!(registry.lookup(99).err(), Some(CapabilityError::UnregisteredType(99)));
    assert_eq!(registry.lookup(SCALAR_TYPE_KEY).ok(), Some(ReflectAnimatable { kind: ValueKind::Scalar }));
    assert_eq!(registry.lookup(COLOR_TYPE_KEY).ok(), Some(ReflectAnimatable { kind: ValueKind::Color }));
    assert_eq!(
        registry.lookup(DIMENSION_TYPE_KEY).ok(),
        Some(ReflectAnimatable { kind: ValueKind::Dimension })
    );
    let r = registry.create_transition_curve(99, None, Value::Scalar(1));
    assert!(matches!(r, Err(CapabilityError::UnregisteredType(99))));
    let r = registry.create_keyframe_curve(42, &[]);
    assert!(matches!(r, Err(CapabilityError::UnregisteredType(42))));
}

#[test]
fn registration_overwrites() {
    let mut registry = CapabilityRegistry::new();
    registry.register(7, ReflectAnimatable::from_type::<i32>());
    registry.register(7, ReflectAnimatable::from_type::<Dimension>());
    assert_eq!(registry.lookup(7).ok(), Some(ReflectAnimatable { kind: ValueKind::Dimension }));
    let c = registry
        .create_transition_curve(7, None, Value::Dimension(Dimension::Percent(10)))
        .unwrap();
    assert_eq!(c.sample(HALF), Some(Value::Dimension(Dimension::Percent(5))));
}

#[test]
fn registry_builds_keyframe_curves() {
    let mut registry = CapabilityRegistry::new();
    ReflectAnimationsPlugin.build(&mut registry);
    let k = [
        (0, Value::Color(red()), Easing::Linear),
        (UNIT, Value::Color(blue()), Easing::Linear),
    ];
    let c = registry.create_keyframe_curve(COLOR_TYPE_KEY, &k).unwrap();
    assert_eq!(c.sample(HALF), Some(Value::Color(Rgba { red: 500, green: 0, blue: 500, alpha: 1000 })));
}

#[test]
fn map_samples_the_curve_and_applies_the_mapping() {
    let inner = LinearCurve { start: 0i32, end: 10i32 };
    let expected = [inner.sample(0), inner.sample(HALF), inner.sample(UNIT), inner.sample(UNIT + 1)];
    let mapped = Mapped::new(inner, Wrap::<i32>::new());
    let ts = [0, HALF, UNIT, UNIT + 1];
    for (t, e) in ts.iter().zip(expected.iter()) {
        assert_eq!(mapped.sample(*t), e.map(Value::Scalar));
    }
    assert_eq!(mapped.sample(UNIT + 1), None);
}

#[test]
fn lerp_is_exact_and_rounds_towards_start() {
    assert_eq!(lerp(0, 10, HALF), 5);
    assert_eq!(lerp(10, 0, HALF), 5);
    assert_eq!(lerp(0, 3, HALF), 1);
    assert_eq!(lerp(3, 0, HALF), 2);
    assert_eq!(lerp(i32::MIN, i32::MAX, UNIT), i32::MAX);
    assert_eq!(lerp(i32::MAX, i32::MIN, 0), i32::MAX);
    assert_eq!(lerp(-100, 100, UNIT / 4), -50);
}

#[test]
fn easing_values() {
    assert_eq!(ease(Easing::Linear, 123), 123);
    assert_eq!(ease(Easing::QuadraticIn, HALF), 250_000);
    assert_eq!(ease(Easing::QuadraticOut, HALF), 750_000);
    assert_eq!(ease(Easing::SmoothStep, HALF), 500_000);
    assert_eq!(ease(Easing::SmoothStep, UNIT / 4), 156_250);
    for e in [Easing::Linear, Easing::QuadraticIn, Easing::QuadraticOut, Easing::SmoothStep] {
        assert_eq!(ease(e, 0), 0);
        assert_eq!(ease(e, UNIT), UNIT);
    }
}

#[test]
fn dimension_equality_treats_zeros_alike() {
    assert_eq!(Dimension::Px(0), Dimension::Percent(0));
    assert_eq!(Dimension::Auto, Dimension::Auto);
    assert_ne!(Dimension::Px(1), Dimension::Percent(1));
    assert_ne!(Dimension::Auto, Dimension::Px(0));
    assert_eq!(Dimension::Vw(4), Dimension::Vw(4));
}

#[test]
fn auto_against_zero_switches() {
    let d = dimension_interpolate(&Dimension::zero(), &Dimension::Auto, HALF);
    assert!(matches!(d, Dimension::Px(0)));
    let d = dimension_interpolate(&Dimension::zero(), &Dimension::Auto, UNIT);
    assert!(matches!(d, Dimension::Auto));
}

#[test]
fn zero_in_any_unit_takes_the_other_unit() {
    assert_eq!(
        dimension_interpolate(&Dimension::Vw(0), &Dimension::Percent(50), HALF),
        Dimension::Percent(25)
    );
    assert!(matches!(
        dimension_interpolate(&Dimension::Vw(0), &Dimension::Percent(50), HALF),
        Dimension::Percent(25)
    ));
    assert!(matches!(
        dimension_interpolate(&Dimension::Percent(40), &Dimension::VMin(0), HALF),
        Dimension::Percent(20)
    ));
    assert!(!Dimension::Vw(0).mismatches(&Dimension::Percent(50)));
    assert!(!Dimension::Percent(40).mismatches(&Dimension::VMin(0)));
    assert!(Dimension::Vw(0).mismatches(&Dimension::Auto));
    let a = Value::Dimension(Dimension::Vh(0));
    let b = Value::Dimension(Dimension::Px(80));
    let c = transition(ValueKind::Dimension, Some(a), b);
    assert!(matches!(c.sample(UNIT / 4), Some(Value::Dimension(Dimension::Px(20)))));
    assert_eq!(c.sample(0), Some(a));
    assert_eq!(c.sample(UNIT), Some(b));
}
