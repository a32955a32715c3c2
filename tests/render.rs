use quantities::render::{precision_or_default, render_scalar, render_vector, DEFAULT_PRECISION};
use quantities::units::{Dimensionless, Meters, MetersPerSecond, Seconds};

#[test]
fn scalars_display() {
    let number = format!("{:.*}", precision_or_default(None), 1.25f32);
    assert_eq!("1.25 s", render_scalar::<Seconds>(&number));
    assert_eq!("1.25", render_scalar::<Dimensionless>(&number));
}

#[test]
fn scalars_display_precision() {
    let number = format!("{:.*}", precision_or_default(Some(2)), 1.111111f32);
    assert_eq!("1.11 s", render_scalar::<Seconds>(&number));
}

#[test]
fn vectors_display() {
    let p = precision_or_default(None);
    let x = format!("{:.*}", p, 1.5f32);
    let y = format!("{:.*}", p, 2.5f32);
    assert_eq!("(1.50 m, 2.50 m)", render_vector::<Meters>(&x, &y));
}

#[test]
fn vectors_display_precision() {
    let p = precision_or_default(Some(1));
    let x = format!("{:.*}", p, 1.44444f32);
    let y = format!("{:.*}", p, 2.555555f32);
    assert_eq!("(1.4 m, 2.6 m)", render_vector::<Meters>(&x, &y));
}

#[test]
fn default_precision_is_two_digits() {
    assert_eq!(2, DEFAULT_PRECISION);
    assert_eq!(2, precision_or_default(None));
    assert_eq!(5, precision_or_default(Some(5)));
    assert_eq!(0, precision_or_default(Some(0)));
}

#[test]
fn dimensionless_vector_has_bare_components() {
    assert_eq!("(0.60, 0.80)", render_vector::<Dimensionless>("0.60", "0.80"));
}

#[test]
fn exponential_components_keep_their_symbol() {
    let x = format!("{:.*e}", 2, 1500.0f32);
    let y = format!("{:.*e}", 2, -0.25f32);
    assert_eq!("(1.50e3 m/s, -2.50e-1 m/s)", render_vector::<MetersPerSecond>(&x, &y));
}

#[test]
fn empty_number_text_is_kept_as_given() {
    assert_eq!(" s", render_scalar::<Seconds>(""));
    assert_eq!("", render_scalar::<Dimensionless>(""));
}

#[test]
fn symbols_beyond_ascii_render_whole() {
    assert_eq!("2.00 m²", render_scalar::<quantities::units::MetersSquared>("2.00"));
    assert_eq!("(1.0 kg/m³, 2.0 kg/m³)", render_vector::<quantities::units::KilogramsPerMeterCubed>("1.0", "2.0"));
}
