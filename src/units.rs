//! Unit tags: one zero-size marker type per physical unit, each with its
//! display symbol and the dimension it measures.
use vstd::prelude::*;

verus! {

/// Exponents of the base dimensions that a unit is built from.
///
/// Angle and pixel count are kept as dimensions of their own, so that
/// radians and pixels never unify with dimensionless numbers or with each
/// other.
pub struct Dimension {
    pub length: int,
    pub mass: int,
    pub time: int,
    pub temperature: int,
    pub angle: int,
    pub pixel: int,
}

impl Dimension {
    /// The dimension of a product: exponents add.
    pub open spec fn times(self, rhs: Dimension) -> Dimension {
        Dimension {
            length: self.length + rhs.length,
            mass: self.mass + rhs.mass,
            time: self.time + rhs.time,
            temperature: self.temperature + rhs.temperature,
            angle: self.angle + rhs.angle,
            pixel: self.pixel + rhs.pixel,
        }
    }

    /// The dimension of a quotient: exponents subtract.
    pub open spec fn per(self, rhs: Dimension) -> Dimension {
        Dimension {
            length: self.length - rhs.length,
            mass: self.mass - rhs.mass,
            time: self.time - rhs.time,
            temperature: self.temperature - rhs.temperature,
            angle: self.angle - rhs.angle,
            pixel: self.pixel - rhs.pixel,
        }
    }
}

/// A dimension given by its exponents, in the order length, mass, time,
/// temperature, angle, pixel.
pub open spec fn exponents(
    length: int,
    mass: int,
    time: int,
    temperature: int,
    angle: int,
    pixel: int,
) -> Dimension {
    Dimension { length, mass, time, temperature, angle, pixel }
}

/// The text of an optional symbol.
pub open spec fn symbol_text(symbol: Option<&str>) -> Option<Seq<char>> {
    match symbol {
        Some(s) => Some(s@),
        None => None,
    }
}

/// A physical unit: a marker type with no runtime state that tags a quantity.
pub trait Unit: Copy + PartialEq + Default + Send + Sync + 'static {
    /// The symbol shown after a value of this unit, if any.
    spec fn spec_symbol() -> Option<Seq<char>>;

    /// The exponents of the base dimensions that make up this unit.
    spec fn dimension() -> Dimension;

    /// Returns the unit's display symbol, or `None` for an unsymboled unit.
    fn symbol() -> (r: Option<&'static str>)
        ensures
            symbol_text(r) == Self::spec_symbol(),
    ;
}

/// Plain numbers: ratios of two values of one unit, and unit vectors.
#[derive(Debug, Default, PartialEq, Copy, Clone, PartialOrd)]
pub struct Dimensionless;

impl Unit for Dimensionless {
    open spec fn spec_symbol() -> Option<Seq<char>> {
        None
    }

    open spec fn dimension() -> Dimension {
        exponents(0, 0, 0, 0, 0, 0)
    }

    fn symbol() -> (r: Option<&'static str>) {
        None
    }
}

/// Time in seconds.
#[derive(Debug, Default, PartialEq, Copy, Clone, PartialOrd)]
pub struct Seconds;

impl Unit for Seconds {
    open spec fn spec_symbol() -> Option<Seq<char>> {
        Some(seq!['s'])
    }

    open spec fn dimension() -> Dimension {
        exponents(0, 0, 1, 0, 0, 0)
    }

    fn symbol() -> (r: Option<&'static str>) {
        proof {
            reveal_strlit("s");
        }
        Some("s")
    }
}

/// Squared time, in seconds squared.
#[derive(Debug, Default, PartialEq, Copy, Clone, PartialOrd)]
pub struct SecondsSquared;

impl Unit for SecondsSquared {
    open spec fn spec_symbol() -> Option<Seq<char>> {
        Some(seq!['s', '²'])
    }

    open spec fn dimension() -> Dimension {
        exponents(0, 0, 2, 0, 0, 0)
    }

    fn symbol() -> (r: Option<&'static str>) {
        proof {
            reveal_strlit("s²");
        }
        Some("s²")
    }
}

/// Mass in kilograms.
#[derive(Debug, Default, PartialEq, Copy, Clone, PartialOrd)]
pub struct Kilograms;

impl Unit for Kilograms {
    open spec fn spec_symbol() -> Option<Seq<char>> {
        Some(seq!['k', 'g'])
    }

    open spec fn dimension() -> Dimension {
        exponents(0, 1, 0, 0, 0, 0)
    }

    fn symbol() -> (r: Option<&'static str>) {
        proof {
            reveal_strlit("kg");
        }
        Some("kg")
    }
}

/// Length in meters.
#[derive(Debug, Default, PartialEq, Copy, Clone, PartialOrd)]
pub struct Meters;

impl Unit for Meters {
    open spec fn spec_symbol() -> Option<Seq<char>> {
        Some(seq!['m'])
    }

    open spec fn dimension() -> Dimension {
        exponents(1, 0, 0, 0, 0, 0)
    }

    fn symbol() -> (r: Option<&'static str>) {
        proof {
            reveal_strlit("m");
        }
        Some("m")
    }
}

/// Area in square meters.
#[derive(Debug, Default, PartialEq, Copy, Clone, PartialOrd)]
pub struct MetersSquared;

impl Unit for MetersSquared {
    open spec fn spec_symbol() -> Option<Seq<char>> {
        Some(seq!['m', '²'])
    }

    open spec fn dimension() -> Dimension {
        exponents(2, 0, 0, 0, 0, 0)
    }

    fn symbol() -> (r: Option<&'static str>) {
        proof {
            reveal_strlit("m²");
        }
        Some("m²")
    }
}

/// Volume in cubic meters.
#[derive(Debug, Default, PartialEq, Copy, Clone, PartialOrd)]
pub struct MetersCubed;

impl Unit for MetersCubed {
    open spec fn spec_symbol() -> Option<Seq<char>> {
        Some(seq!['m', '³'])
    }

    open spec fn dimension() -> Dimension {
        exponents(3, 0, 0, 0, 0, 0)
    }

    fn symbol() -> (r: Option<&'static str>) {
        proof {
            reveal_strlit("m³");
        }
        Some("m³")
    }
}

/// Speed in meters per second.
#[derive(Debug, Default, PartialEq, Copy, Clone, PartialOrd)]
pub struct MetersPerSecond;

impl Unit for MetersPerSecond {
    open spec fn spec_symbol() -> Option<Seq<char>> {
        Some(seq!['m', '/', 's'])
    }

    open spec fn dimension() -> Dimension {
        exponents(1, 0, -1, 0, 0, 0)
    }

    fn symbol() -> (r: Option<&'static str>) {
        proof {
            reveal_strlit("m/s");
        }
        Some("m/s")
    }
}

/// Acceleration in meters per second squared.
#[derive(Debug, Default, PartialEq, Copy, Clone, PartialOrd)]
pub struct MetersPerSecondSquared;

impl Unit for MetersPerSecondSquared {
    open spec fn spec_symbol() -> Option<Seq<char>> {
        Some(seq!['m', '/', 's', '²'])
    }

    open spec fn dimension() -> Dimension {
        exponents(1, 0, -2, 0, 0, 0)
    }

    fn symbol() -> (r: Option<&'static str>) {
        proof {
            reveal_strlit("m/s²");
        }
        Some("m/s²")
    }
}

/// Temperature in kelvin.
#[derive(Debug, Default, PartialEq, Copy, Clone, PartialOrd)]
pub struct Kelvin;

impl Unit for Kelvin {
    open spec fn spec_symbol() -> Option<Seq<char>> {
        Some(seq!['K'])
    }

    open spec fn dimension() -> Dimension {
        exponents(0, 0, 0, 1, 0, 0)
    }

    fn symbol() -> (r: Option<&'static str>) {
        proof {
            reveal_strlit("K");
        }
        Some("K")
    }
}

/// Force in newtons.
#[derive(Debug, Default, PartialEq, Copy, Clone, PartialOrd)]
pub struct Newtons;

impl Unit for Newtons {
    open spec fn spec_symbol() -> Option<Seq<char>> {
        Some(seq!['N'])
    }

    open spec fn dimension() -> Dimension {
        exponents(1, 1, -2, 0, 0, 0)
    }

    fn symbol() -> (r: Option<&'static str>) {
        proof {
            reveal_strlit("N");
        }
        Some("N")
    }
}

/// Energy in joules.
#[derive(Debug, Default, PartialEq, Copy, Clone, PartialOrd)]
pub struct Joules;

impl Unit for Joules {
    open spec fn spec_symbol() -> Option<Seq<char>> {
        Some(seq!['J'])
    }

    open spec fn dimension() -> Dimension {
        exponents(2, 1, -2, 0, 0, 0)
    }

    fn symbol() -> (r: Option<&'static str>) {
        proof {
            reveal_strlit("J");
        }
        Some("J")
    }
}

/// Energy density in joules per kilogram.
#[derive(Debug, Default, PartialEq, Copy, Clone, PartialOrd)]
pub struct JoulesPerKilogram;

impl Unit for JoulesPerKilogram {
    open spec fn spec_symbol() -> Option<Seq<char>> {
        Some(seq!['J', '/', 'k', 'g'])
    }

    open spec fn dimension() -> Dimension {
        exponents(2, 0, -2, 0, 0, 0)
    }

    fn symbol() -> (r: Option<&'static str>) {
        proof {
            reveal_strlit("J/kg");
        }
        Some("J/kg")
    }
}

/// Power in joules per second.
#[derive(Debug, Default, PartialEq, Copy, Clone, PartialOrd)]
pub struct JoulesPerSecond;

impl Unit for JoulesPerSecond {
    open spec fn spec_symbol() -> Option<Seq<char>> {
        Some(seq!['J', '/', 's'])
    }

    open spec fn dimension() -> Dimension {
        exponents(2, 1, -3, 0, 0, 0)
    }

    fn symbol() -> (r: Option<&'static str>) {
        proof {
            reveal_strlit("J/s");
        }
        Some("J/s")
    }
}

/// Mass rate in kilograms per second.
#[derive(Debug, Default, PartialEq, Copy, Clone, PartialOrd)]
pub struct KilogramsPerSecond;

impl Unit for KilogramsPerSecond {
    open spec fn spec_symbol() -> Option<Seq<char>> {
        Some(seq!['k', 'g', '/', 's'])
    }

    open spec fn dimension() -> Dimension {
        exponents(0, 1, -1, 0, 0, 0)
    }

    fn symbol() -> (r: Option<&'static str>) {
        proof {
            reveal_strlit("kg/s");
        }
        Some("kg/s")
    }
}

/// Density in kilograms per cubic meter.
#[derive(Debug, Default, PartialEq, Copy, Clone, PartialOrd)]
pub struct KilogramsPerMeterCubed;

impl Unit for KilogramsPerMeterCubed {
    open spec fn spec_symbol() -> Option<Seq<char>> {
        Some(seq!['k', 'g', '/', 'm', '³'])
    }

    open spec fn dimension() -> Dimension {
        exponents(-3, 1, 0, 0, 0, 0)
    }

    fn symbol() -> (r: Option<&'static str>) {
        proof {
            reveal_strlit("kg/m³");
        }
        Some("kg/m³")
    }
}

/// Screen distance in pixels.
#[derive(Debug, Default, PartialEq, Copy, Clone, PartialOrd)]
pub struct Pixels;

impl Unit for Pixels {
    open spec fn spec_symbol() -> Option<Seq<char>> {
        Some(seq!['p', 'x'])
    }

    open spec fn dimension() -> Dimension {
        exponents(0, 0, 0, 0, 0, 1)
    }

    fn symbol() -> (r: Option<&'static str>) {
        proof {
            reveal_strlit("px");
        }
        Some("px")
    }
}

/// Screen scale in meters per pixel.
#[derive(Debug, Default, PartialEq, Copy, Clone, PartialOrd)]
pub struct MetersPerPixel;

impl Unit for MetersPerPixel {
    open spec fn spec_symbol() -> Option<Seq<char>> {
        Some(seq!['m', '/', 'p', 'x'])
    }

    open spec fn dimension() -> Dimension {
        exponents(1, 0, 0, 0, 0, -1)
    }

    fn symbol() -> (r: Option<&'static str>) {
        proof {
            reveal_strlit("m/px");
        }
        Some("m/px")
    }
}

/// Angle in radians.
#[derive(Debug, Default, PartialEq, Copy, Clone, PartialOrd)]
pub struct Radians;

impl Unit for Radians {
    open spec fn spec_symbol() -> Option<Seq<char>> {
        Some(seq!['r', 'a', 'd'])
    }

    open spec fn dimension() -> Dimension {
        exponents(0, 0, 0, 0, 1, 0)
    }

    fn symbol() -> (r: Option<&'static str>) {
        proof {
            reveal_strlit("rad");
        }
        Some("rad")
    }
}

/// Angular speed in radians per second.
#[derive(Debug, Default, PartialEq, Copy, Clone, PartialOrd)]
pub struct RadiansPerSecond;

impl Unit for RadiansPerSecond {
    open spec fn spec_symbol() -> Option<Seq<char>> {
        Some(seq!['r', 'a', 'd', '/', 's'])
    }

    open spec fn dimension() -> Dimension {
        exponents(0, 0, -1, 0, 1, 0)
    }

    fn symbol() -> (r: Option<&'static str>) {
        proof {
            reveal_strlit("rad/s");
        }
        Some("rad/s")
    }
}

} // verus!
