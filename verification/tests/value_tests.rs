use enhanced_input::action_value::{ActionValue, ActionValueDim};
use enhanced_input::fixed::{Fixed3, FIX_MAX, FIX_ONE};
use enhanced_input::modifier::{DeltaScale, InputModifier, Scale};

#[test]
fn scaling() {
    // The factor 2.0 and the axis value 1.0 in fixed-point thousandths.
    let modifier = Scale::splat(2 * FIX_ONE);

    assert_eq!(
        modifier.apply(ActionValue::Bool(true)),
        ActionValue::Axis1D(2 * FIX_ONE)
    );
    assert_eq!(
        modifier.apply(ActionValue::Bool(false)),
        ActionValue::Axis1D(0)
    );
    assert_eq!(
        modifier.apply(ActionValue::Axis1D(FIX_ONE)),
        ActionValue::Axis1D(2 * FIX_ONE)
    );
    assert_eq!(
        modifier.apply(ActionValue::Axis2D(FIX_ONE, FIX_ONE)),
        ActionValue::Axis2D(2 * FIX_ONE, 2 * FIX_ONE)
    );
    assert_eq!(
        modifier.apply(ActionValue::Axis3D(FIX_ONE, FIX_ONE, FIX_ONE)),
        ActionValue::Axis3D(2 * FIX_ONE, 2 * FIX_ONE, 2 * FIX_ONE)
    );
}

#[test]
fn delta_scale_scaling() {
    // 500 milliseconds of elapsed time: 0.5 in fixed-point seconds.
    let delta = 500;

    assert_eq!(
        DeltaScale.apply(delta, ActionValue::Bool(true)),
        ActionValue::Axis1D(500)
    );
    assert_eq!(
        DeltaScale.apply(delta, ActionValue::Bool(false)),
        ActionValue::Axis1D(0)
    );
    assert_eq!(
        DeltaScale.apply(delta, ActionValue::Axis1D(500)),
        ActionValue::Axis1D(250)
    );
    assert_eq!(
        DeltaScale.apply(delta, ActionValue::Axis2D(FIX_ONE, FIX_ONE)),
        ActionValue::Axis2D(500, 500)
    );
    assert_eq!(
        DeltaScale.apply(delta, ActionValue::Axis3D(FIX_ONE, FIX_ONE, FIX_ONE)),
        ActionValue::Axis3D(500, 500, 500)
    );
}

#[test]
fn scale_bool_round_trips_the_factor() {
    // A pressed boolean scaled by any factor f is exactly Axis1D(f).
    for f in [1, 250, FIX_ONE, 1_234_567, -750] {
        assert_eq!(
            Scale::splat(f).apply(ActionValue::Bool(true)),
            ActionValue::Axis1D(f)
        );
        assert_eq!(
            Scale::splat(f).apply(ActionValue::Bool(false)),
            ActionValue::Axis1D(0)
        );
    }
}

#[test]
fn delta_scale_bool_yields_elapsed_time() {
    // A pressed boolean delta-scaled by elapsed time t is exactly Axis1D(t),
    // and a unit two-dimensional axis becomes (t, t).
    for t in [0, 1, 16, 500, FIX_ONE, 90_000] {
        assert_eq!(
            DeltaScale.apply(t, ActionValue::Bool(true)),
            ActionValue::Axis1D(t)
        );
        assert_eq!(
            DeltaScale.apply(t, ActionValue::Axis2D(FIX_ONE, FIX_ONE)),
            ActionValue::Axis2D(t, t)
        );
    }
}

#[test]
fn conversion_rules() {
    // Bool -> Axis1D: true -> one unit, false -> zero.
    assert_eq!(
        ActionValue::Bool(true).convert(ActionValueDim::Axis1D),
        ActionValue::Axis1D(FIX_ONE)
    );
    assert_eq!(
        ActionValue::Bool(false).convert(ActionValueDim::Axis1D),
        ActionValue::Axis1D(0)
    );
    // Nonzero -> true.
    assert_eq!(
        ActionValue::Axis1D(-3).convert(ActionValueDim::Bool),
        ActionValue::Bool(true)
    );
    assert_eq!(
        ActionValue::Axis1D(0).convert(ActionValueDim::Bool),
        ActionValue::Bool(false)
    );
    // Widening zero-fills the new components.
    assert_eq!(
        ActionValue::Axis1D(42).convert(ActionValueDim::Axis2D),
        ActionValue::Axis2D(42, 0)
    );
    assert_eq!(
        ActionValue::Axis1D(42).convert(ActionValueDim::Axis3D),
        ActionValue::Axis3D(42, 0, 0)
    );
    assert_eq!(
        ActionValue::Axis2D(7, 8).convert(ActionValueDim::Axis3D),
        ActionValue::Axis3D(7, 8, 0)
    );
    // Narrowing keeps the first components and discards the rest.
    assert_eq!(
        ActionValue::Axis3D(1, 2, 3).convert(ActionValueDim::Axis1D),
        ActionValue::Axis1D(1)
    );
    assert_eq!(
        ActionValue::Axis3D(1, 2, 3).convert(ActionValueDim::Axis2D),
        ActionValue::Axis2D(1, 2)
    );
    assert_eq!(
        ActionValue::Axis2D(0, 9).convert(ActionValueDim::Axis1D),
        ActionValue::Axis1D(0)
    );
    // Identity conversions change nothing.
    assert_eq!(
        ActionValue::Axis2D(5, 6).convert(ActionValueDim::Axis2D),
        ActionValue::Axis2D(5, 6)
    );
    assert_eq!(
        ActionValue::Bool(true).convert(ActionValueDim::Bool),
        ActionValue::Bool(true)
    );
}

#[test]
fn dimension_tags() {
    assert_eq!(ActionValue::Bool(true).dim(), ActionValueDim::Bool);
    assert_eq!(ActionValue::Axis1D(1).dim(), ActionValueDim::Axis1D);
    assert_eq!(ActionValue::Axis2D(1, 2).dim(), ActionValueDim::Axis2D);
    assert_eq!(ActionValue::Axis3D(1, 2, 3).dim(), ActionValueDim::Axis3D);
    assert_eq!(
        ActionValue::zero(ActionValueDim::Axis2D),
        ActionValue::Axis2D(0, 0)
    );
    assert!(ActionValue::Axis2D(1, 0).as_bool());
    assert!(!ActionValue::Axis2D(0, 5).as_bool());
}

#[test]
fn multiplication_saturates_at_the_range_bound() {
    let modifier = Scale::splat(FIX_MAX);
    assert_eq!(
        modifier.apply(ActionValue::Axis1D(FIX_MAX)),
        ActionValue::Axis1D(FIX_MAX)
    );
    assert_eq!(
        modifier.apply(ActionValue::Axis1D(-FIX_MAX)),
        ActionValue::Axis1D(-FIX_MAX)
    );
    // Truncation is toward zero in either sign.
    assert_eq!(
        Scale::splat(1).apply(ActionValue::Axis1D(1500)),
        ActionValue::Axis1D(1)
    );
    assert_eq!(
        Scale::splat(1).apply(ActionValue::Axis1D(-1500)),
        ActionValue::Axis1D(-1)
    );
}

#[test]
fn modifier_chain_applies_in_order() {
    let chain = vec![
        InputModifier::Scale(Scale::new(Fixed3 {
            x: 2 * FIX_ONE,
            y: FIX_ONE,
            z: FIX_ONE,
        })),
        InputModifier::DeltaScale(DeltaScale),
    ];
    // First the per-axis scale doubles x, then delta time halves everything.
    let mut value = ActionValue::Axis2D(FIX_ONE, FIX_ONE);
    for m in &chain {
        value = m.apply(500, value);
    }
    assert_eq!(value, ActionValue::Axis2D(FIX_ONE, 500));
}
