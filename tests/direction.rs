use quantities::direction::{has_direction, quadrant_correction, QuadrantCorrection, Sign};

#[test]
fn zero_vector_has_no_direction() {
    assert!(!has_direction(Sign::Zero, Sign::Zero));
    assert_eq!(None, quadrant_correction(Sign::Zero, Sign::Zero));
}

#[test]
fn any_nonzero_component_gives_a_direction() {
    assert!(has_direction(Sign::Zero, Sign::Positive));
    assert!(has_direction(Sign::Negative, Sign::Zero));
    assert!(has_direction(Sign::Positive, Sign::Negative));
}

#[test]
fn upper_half_keeps_base_arctangent() {
    // (0, 1), (1, 1), (-1, 1)
    assert_eq!(Some(QuadrantCorrection::Keep), quadrant_correction(Sign::Zero, Sign::Positive));
    assert_eq!(Some(QuadrantCorrection::Keep), quadrant_correction(Sign::Positive, Sign::Positive));
    assert_eq!(Some(QuadrantCorrection::Keep), quadrant_correction(Sign::Negative, Sign::Positive));
}

#[test]
fn horizontal_axis_keeps_base_arctangent() {
    // (1, 0) and (-1, 0)
    assert_eq!(Some(QuadrantCorrection::Keep), quadrant_correction(Sign::Positive, Sign::Zero));
    assert_eq!(Some(QuadrantCorrection::Keep), quadrant_correction(Sign::Negative, Sign::Zero));
}

#[test]
fn lower_half_with_nonnegative_x_adds_half_turn() {
    // (1, -1) and (0, -1)
    assert_eq!(
        Some(QuadrantCorrection::AddHalfTurn),
        quadrant_correction(Sign::Positive, Sign::Negative)
    );
    assert_eq!(
        Some(QuadrantCorrection::AddHalfTurn),
        quadrant_correction(Sign::Zero, Sign::Negative)
    );
}

#[test]
fn third_quadrant_subtracts_half_turn() {
    // (-1, -1)
    assert_eq!(
        Some(QuadrantCorrection::SubtractHalfTurn),
        quadrant_correction(Sign::Negative, Sign::Negative)
    );
}
