//! The closed table of legal unit products and quotients.
//!
//! Each relation `A = B × C` is registered in all of its forms: `A / B = C`,
//! `A / C = B`, `C × B = A` and `B × C = A`; a square `A² = A × A` is
//! registered as `A × A = A²` and `A² / A = A`. A registration carries a proof
//! that the result unit has the dimension that the operation gives, so a
//! wrong entry in the table does not verify. A combination that is not
//! registered has no impl, and code that tries it does not compile.
use vstd::prelude::*;

use crate::units::{
    Dimensionless, Joules, JoulesPerKilogram, JoulesPerSecond, Kilograms, KilogramsPerMeterCubed,
    KilogramsPerSecond, Meters, MetersCubed, MetersPerPixel, MetersPerSecond,
    MetersPerSecondSquared, MetersSquared, Newtons, Pixels, Radians, RadiansPerSecond, Seconds,
    SecondsSquared, Unit,
};

verus! {

/// Registers `Self × Rhs` as a legal product of units, with `Output` as the
/// unit of the result.
pub trait Product<Rhs: Unit>: Unit {
    type Output: Unit;

    /// The product's unit has the summed dimension of its factors.
    proof fn lemma_dimension()
        ensures
            Self::Output::dimension() == Self::dimension().times(Rhs::dimension()),
    ;
}

/// Registers `Self / Rhs` as a legal quotient of units, with `Output` as the
/// unit of the result.
pub trait Quotient<Rhs: Unit>: Unit {
    type Output: Unit;

    /// The quotient's unit has the dimension of the numerator less that of
    /// the denominator.
    proof fn lemma_dimension()
        ensures
            Self::Output::dimension() == Self::dimension().per(Rhs::dimension()),
    ;
}

/// Marks a quotient that also applies to each component of a vector: a
/// vector of `Self` divided by a scalar of `Rhs`.
pub trait VectorQuotient<Rhs: Unit>: Quotient<Rhs> {
}

/// Marks a product that also applies to each component of a vector: a
/// vector of `Self` times a scalar of `Rhs`, in either operand order.
pub trait VectorProduct<Rhs: Unit>: Product<Rhs> {
}

/// A product divided by its right factor has the dimension of the left
/// factor: `(L × R) / R` is `L`.
pub proof fn lemma_product_then_quotient<L: Product<R>, R: Unit>()
    where
        <L as Product<R>>::Output: Quotient<R>,
    ensures
        <<L as Product<R>>::Output as Quotient<R>>::Output::dimension() == L::dimension(),
{
    L::lemma_dimension();
    <<L as Product<R>>::Output as Quotient<R>>::lemma_dimension();
}

/// A quotient multiplied by its denominator has the dimension of the
/// numerator: `(N / D) × D` is `N`.
pub proof fn lemma_quotient_then_product<N: Quotient<D>, D: Unit>()
    where
        <N as Quotient<D>>::Output: Product<D>,
    ensures
        <<N as Quotient<D>>::Output as Product<D>>::Output::dimension() == N::dimension(),
{
    N::lemma_dimension();
    <<N as Quotient<D>>::Output as Product<D>>::lemma_dimension();
}

/// Where both operand orders of a product are registered, they give units
/// of one dimension: `L × R` is `R × L`.
pub proof fn lemma_product_commutes<L: Product<R>, R: Product<L>>()
    ensures
        <L as Product<R>>::Output::dimension() == <R as Product<L>>::Output::dimension(),
{
    L::lemma_dimension();
    R::lemma_dimension();
}

/// Dividing a value by another of its own unit leaves a plain number, and
/// scaling by a plain number keeps the unit.
pub proof fn lemma_ratio_is_dimensionless<U: Unit>()
    ensures
        U::dimension().per(U::dimension()) == Dimensionless::dimension(),
        U::dimension().times(Dimensionless::dimension()) == U::dimension(),
{
}

// Length is speed times time.

impl Quotient<Seconds> for Meters {
    type Output = MetersPerSecond;

    proof fn lemma_dimension() {
    }
}

impl Quotient<MetersPerSecond> for Meters {
    type Output = Seconds;

    proof fn lemma_dimension() {
    }
}

impl Product<Seconds> for MetersPerSecond {
    type Output = Meters;

    proof fn lemma_dimension() {
    }
}

impl Product<MetersPerSecond> for Seconds {
    type Output = Meters;

    proof fn lemma_dimension() {
    }
}

// Speed is acceleration times time.

impl Quotient<Seconds> for MetersPerSecond {
    type Output = MetersPerSecondSquared;

    proof fn lemma_dimension() {
    }
}

impl Quotient<MetersPerSecondSquared> for MetersPerSecond {
    type Output = Seconds;

    proof fn lemma_dimension() {
    }
}

impl Product<Seconds> for MetersPerSecondSquared {
    type Output = MetersPerSecond;

    proof fn lemma_dimension() {
    }
}

impl Product<MetersPerSecondSquared> for Seconds {
    type Output = MetersPerSecond;

    proof fn lemma_dimension() {
    }
}

// Force is mass times acceleration.

impl Quotient<Kilograms> for Newtons {
    type Output = MetersPerSecondSquared;

    proof fn lemma_dimension() {
    }
}

impl Quotient<MetersPerSecondSquared> for Newtons {
    type Output = Kilograms;

    proof fn lemma_dimension() {
    }
}

impl Product<Kilograms> for MetersPerSecondSquared {
    type Output = Newtons;

    proof fn lemma_dimension() {
    }
}

impl Product<MetersPerSecondSquared> for Kilograms {
    type Output = Newtons;

    proof fn lemma_dimension() {
    }
}

// Length is acceleration times squared time.

impl Quotient<SecondsSquared> for Meters {
    type Output = MetersPerSecondSquared;

    proof fn lemma_dimension() {
    }
}

impl Quotient<MetersPerSecondSquared> for Meters {
    type Output = SecondsSquared;

    proof fn lemma_dimension() {
    }
}

impl Product<SecondsSquared> for MetersPerSecondSquared {
    type Output = Meters;

    proof fn lemma_dimension() {
    }
}

impl Product<MetersPerSecondSquared> for SecondsSquared {
    type Output = Meters;

    proof fn lemma_dimension() {
    }
}

// Energy is force times length.

impl Quotient<Meters> for Joules {
    type Output = Newtons;

    proof fn lemma_dimension() {
    }
}

impl Quotient<Newtons> for Joules {
    type Output = Meters;

    proof fn lemma_dimension() {
    }
}

impl Product<Meters> for Newtons {
    type Output = Joules;

    proof fn lemma_dimension() {
    }
}

impl Product<Newtons> for Meters {
    type Output = Joules;

    proof fn lemma_dimension() {
    }
}

// Energy is mass times energy density.

impl Quotient<Kilograms> for Joules {
    type Output = JoulesPerKilogram;

    proof fn lemma_dimension() {
    }
}

impl Quotient<JoulesPerKilogram> for Joules {
    type Output = Kilograms;

    proof fn lemma_dimension() {
    }
}

impl Product<Kilograms> for JoulesPerKilogram {
    type Output = Joules;

    proof fn lemma_dimension() {
    }
}

impl Product<JoulesPerKilogram> for Kilograms {
    type Output = Joules;

    proof fn lemma_dimension() {
    }
}

// Energy is power times time.

impl Quotient<Seconds> for Joules {
    type Output = JoulesPerSecond;

    proof fn lemma_dimension() {
    }
}

impl Quotient<JoulesPerSecond> for Joules {
    type Output = Seconds;

    proof fn lemma_dimension() {
    }
}

impl Product<Seconds> for JoulesPerSecond {
    type Output = Joules;

    proof fn lemma_dimension() {
    }
}

impl Product<JoulesPerSecond> for Seconds {
    type Output = Joules;

    proof fn lemma_dimension() {
    }
}

// Power is energy density times mass rate.

impl Quotient<JoulesPerKilogram> for JoulesPerSecond {
    type Output = KilogramsPerSecond;

    proof fn lemma_dimension() {
    }
}

impl Quotient<KilogramsPerSecond> for JoulesPerSecond {
    type Output = JoulesPerKilogram;

    proof fn lemma_dimension() {
    }
}

impl Product<JoulesPerKilogram> for KilogramsPerSecond {
    type Output = JoulesPerSecond;

    proof fn lemma_dimension() {
    }
}

impl Product<KilogramsPerSecond> for JoulesPerKilogram {
    type Output = JoulesPerSecond;

    proof fn lemma_dimension() {
    }
}

// Mass is mass rate times time.

impl Quotient<Seconds> for Kilograms {
    type Output = KilogramsPerSecond;

    proof fn lemma_dimension() {
    }
}

impl Quotient<KilogramsPerSecond> for Kilograms {
    type Output = Seconds;

    proof fn lemma_dimension() {
    }
}

impl Product<Seconds> for KilogramsPerSecond {
    type Output = Kilograms;

    proof fn lemma_dimension() {
    }
}

impl Product<KilogramsPerSecond> for Seconds {
    type Output = Kilograms;

    proof fn lemma_dimension() {
    }
}

// Volume is area times length.

impl Quotient<Meters> for MetersCubed {
    type Output = MetersSquared;

    proof fn lemma_dimension() {
    }
}

impl Quotient<MetersSquared> for MetersCubed {
    type Output = Meters;

    proof fn lemma_dimension() {
    }
}

impl Product<Meters> for MetersSquared {
    type Output = MetersCubed;

    proof fn lemma_dimension() {
    }
}

impl Product<MetersSquared> for Meters {
    type Output = MetersCubed;

    proof fn lemma_dimension() {
    }
}

// Mass is density times volume.

impl Quotient<MetersCubed> for Kilograms {
    type Output = KilogramsPerMeterCubed;

    proof fn lemma_dimension() {
    }
}

impl Quotient<KilogramsPerMeterCubed> for Kilograms {
    type Output = MetersCubed;

    proof fn lemma_dimension() {
    }
}

impl Product<MetersCubed> for KilogramsPerMeterCubed {
    type Output = Kilograms;

    proof fn lemma_dimension() {
    }
}

impl Product<KilogramsPerMeterCubed> for MetersCubed {
    type Output = Kilograms;

    proof fn lemma_dimension() {
    }
}

// Length is screen scale times pixels.

impl Quotient<Pixels> for Meters {
    type Output = MetersPerPixel;

    proof fn lemma_dimension() {
    }
}

impl Quotient<MetersPerPixel> for Meters {
    type Output = Pixels;

    proof fn lemma_dimension() {
    }
}

impl Product<Pixels> for MetersPerPixel {
    type Output = Meters;

    proof fn lemma_dimension() {
    }
}

impl Product<MetersPerPixel> for Pixels {
    type Output = Meters;

    proof fn lemma_dimension() {
    }
}

// Angle is angular speed times time.

impl Quotient<Seconds> for Radians {
    type Output = RadiansPerSecond;

    proof fn lemma_dimension() {
    }
}

impl Quotient<RadiansPerSecond> for Radians {
    type Output = Seconds;

    proof fn lemma_dimension() {
    }
}

impl Product<Seconds> for RadiansPerSecond {
    type Output = Radians;

    proof fn lemma_dimension() {
    }
}

impl Product<RadiansPerSecond> for Seconds {
    type Output = Radians;

    proof fn lemma_dimension() {
    }
}

// Area is length squared.

impl Product<Meters> for Meters {
    type Output = MetersSquared;

    proof fn lemma_dimension() {
    }
}

impl Quotient<Meters> for MetersSquared {
    type Output = Meters;

    proof fn lemma_dimension() {
    }
}

// Squared time is time squared.

impl Product<Seconds> for Seconds {
    type Output = SecondsSquared;

    proof fn lemma_dimension() {
    }
}

impl Quotient<Seconds> for SecondsSquared {
    type Output = Seconds;

    proof fn lemma_dimension() {
    }
}

// Relations that also hold for vectors.

impl VectorQuotient<Seconds> for Meters {
}

impl VectorProduct<Seconds> for MetersPerSecond {
}

impl VectorQuotient<Seconds> for MetersPerSecond {
}

impl VectorProduct<Seconds> for MetersPerSecondSquared {
}

impl VectorQuotient<Pixels> for Meters {
}

impl VectorProduct<Pixels> for MetersPerPixel {
}

impl VectorQuotient<Seconds> for Radians {
}

impl VectorProduct<Seconds> for RadiansPerSecond {
}

impl VectorQuotient<MetersPerPixel> for Meters {
}

impl VectorProduct<MetersPerPixel> for Pixels {
}

} // verus!
