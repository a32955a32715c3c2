use quantities::units::{
    Dimensionless, Joules, JoulesPerKilogram, JoulesPerSecond, Kelvin, Kilograms,
    KilogramsPerMeterCubed, KilogramsPerSecond, Meters, MetersCubed, MetersPerPixel,
    MetersPerSecond, MetersPerSecondSquared, MetersSquared, Newtons, Pixels, Radians,
    RadiansPerSecond, Seconds, SecondsSquared, Unit,
};

#[test]
fn dimensionless_has_no_symbol() {
    assert_eq!(None, Dimensionless::symbol());
}

#[test]
fn base_unit_symbols() {
    assert_eq!(Some("s"), Seconds::symbol());
    assert_eq!(Some("kg"), Kilograms::symbol());
    assert_eq!(Some("m"), Meters::symbol());
    assert_eq!(Some("K"), Kelvin::symbol());
    assert_eq!(Some("px"), Pixels::symbol());
    assert_eq!(Some("rad"), Radians::symbol());
}

#[test]
fn power_unit_symbols() {
    assert_eq!(Some("s²"), SecondsSquared::symbol());
    assert_eq!(Some("m²"), MetersSquared::symbol());
    assert_eq!(Some("m³"), MetersCubed::symbol());
}

#[test]
fn derived_unit_symbols() {
    assert_eq!(Some("m/s"), MetersPerSecond::symbol());
    assert_eq!(Some("m/s²"), MetersPerSecondSquared::symbol());
    assert_eq!(Some("N"), Newtons::symbol());
    assert_eq!(Some("J"), Joules::symbol());
    assert_eq!(Some("J/kg"), JoulesPerKilogram::symbol());
    assert_eq!(Some("J/s"), JoulesPerSecond::symbol());
    assert_eq!(Some("kg/s"), KilogramsPerSecond::symbol());
    assert_eq!(Some("kg/m³"), KilogramsPerMeterCubed::symbol());
    assert_eq!(Some("m/px"), MetersPerPixel::symbol());
    assert_eq!(Some("rad/s"), RadiansPerSecond::symbol());
}

#[test]
fn unit_tags_take_no_space() {
    assert_eq!(0, std::mem::size_of::<Seconds>());
    assert_eq!(0, std::mem::size_of::<Dimensionless>());
}
