//! How quantities render as text once their numbers have been formatted.
//!
//! A container formats each number at the precision asked for (the
//! formatting of the number itself belongs to the numeric type); these
//! functions put the unit symbol and the vector brackets around it.
use vstd::prelude::*;
use vstd::string::*;

use crate::units::Unit;

verus! {

/// Decimal digits shown when the caller does not ask for a precision.
pub const DEFAULT_PRECISION: usize = 2;

/// The precision asked for, or the default one.
pub fn precision_or_default(precision: Option<usize>) -> (r: usize)
    ensures
        r == match precision {
            Some(p) => p,
            None => DEFAULT_PRECISION,
        },
{
    match precision {
        Some(p) => p,
        None => DEFAULT_PRECISION,
    }
}

/// A scalar's text: its number, then a space and the unit symbol where the
/// unit has one.
pub open spec fn scalar_text(number: Seq<char>, symbol: Option<Seq<char>>) -> Seq<char> {
    match symbol {
        Some(s) => number + seq![' '] + s,
        None => number,
    }
}

/// A vector's text: its two component texts in parentheses, separated by a
/// comma and a space.
pub open spec fn vector_text(x: Seq<char>, y: Seq<char>) -> Seq<char> {
    seq!['('] + x + seq![',', ' '] + y + seq![')']
}

/// Renders a scalar of unit `U` whose number has been formatted as `number`.
pub fn render_scalar<U: Unit>(number: &str) -> (r: String)
    ensures
        r@ == scalar_text(number@, U::spec_symbol()),
{
    let mut text = String::from_str(number);
    match U::symbol() {
        Some(symbol) => {
            proof {
                reveal_strlit(" ");
            }
            text.append(" ");
            text.append(symbol);
        },
        None => {},
    }
    text
}

/// Renders a vector of unit `U` whose components have been formatted as
/// `x_number` and `y_number`.
pub fn render_vector<U: Unit>(x_number: &str, y_number: &str) -> (r: String)
    ensures
        r@ == vector_text(
            scalar_text(x_number@, U::spec_symbol()),
            scalar_text(y_number@, U::spec_symbol()),
        ),
{
    let x = render_scalar::<U>(x_number);
    let y = render_scalar::<U>(y_number);
    proof {
        reveal_strlit("(");
        reveal_strlit(", ");
        reveal_strlit(")");
    }
    let mut text = String::from_str("(");
    text.append(x.as_str());
    text.append(", ");
    text.append(y.as_str());
    text.append(")");
    assert(text@ =~= vector_text(x@, y@));
    text
}

} // verus!
