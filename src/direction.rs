//! The rules that decide whether a vector has a direction, and how its
//! angle is read off from the arctangent of `x / y`.
//!
//! Angles follow the clockwise-from-north convention of screen coordinates:
//! a vector along positive `y` points at 0°, one along positive `x` at 90°.
use vstd::prelude::*;

verus! {

/// Where a vector component lies relative to zero. A component that is not
/// a number counts as positive: it is neither below nor equal to zero.
#[derive(Debug, PartialEq, Eq, Structural, Clone, Copy)]
pub enum Sign {
    Negative,
    Zero,
    Positive,
}

/// How the base arctangent of `x / y` is adjusted to give a vector's angle.
#[derive(Debug, PartialEq, Eq, Structural, Clone, Copy)]
pub enum QuadrantCorrection {
    /// The base arctangent is the angle.
    Keep,
    /// The angle is the base arctangent plus a half turn.
    AddHalfTurn,
    /// The angle is the base arctangent less a half turn.
    SubtractHalfTurn,
}

/// A vector has a direction unless both of its components are zero.
pub fn has_direction(x: Sign, y: Sign) -> (r: bool)
    ensures
        r == !(x == Sign::Zero && y == Sign::Zero),
{
    !(x == Sign::Zero && y == Sign::Zero)
}

/// The correction that turns the base arctangent of `x / y` into the angle
/// of a vector with components of these signs; `None` for the zero vector,
/// whose direction is undefined.
///
/// Both components negative: subtract a half turn. Only `y` negative: add a
/// half turn. Otherwise the base arctangent stands.
pub fn quadrant_correction(x: Sign, y: Sign) -> (r: Option<QuadrantCorrection>)
    ensures
        r is None <==> (x == Sign::Zero && y == Sign::Zero),
        r == Some(QuadrantCorrection::SubtractHalfTurn) <==> (x == Sign::Negative && y
            == Sign::Negative),
        r == Some(QuadrantCorrection::AddHalfTurn) <==> (x != Sign::Negative && y
            == Sign::Negative),
{
    if !has_direction(x, y) {
        None
    } else if x == Sign::Negative && y == Sign::Negative {
        Some(QuadrantCorrection::SubtractHalfTurn)
    } else if y == Sign::Negative {
        Some(QuadrantCorrection::AddHalfTurn)
    } else {
        Some(QuadrantCorrection::Keep)
    }
}

} // verus!
