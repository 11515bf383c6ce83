use lib::pad::Pad;
use lib::values::ValueError;

fn bits(value: f32) -> u32 {
    value.to_bits()
}

#[test]
fn constructor_and_validation_cover_legacy_public_fields() {
    let pad = Pad::new(bits(-0.0), bits(0.25), bits(-1.0)).unwrap();
    assert_eq!(pad.pleasure, 0.0f32.to_bits());
    assert_eq!(pad.validate(), Ok(()));

    let invalid = Pad {
        pleasure: bits(1.1),
        ..Pad::default()
    };
    assert_eq!(invalid.validate(), Err(ValueError::OutOfRange));
}

#[test]
fn pad_errors_come_from_the_first_invalid_axis() {
    assert_eq!(
        Pad::new(bits(f32::NAN), bits(2.0), bits(0.0)),
        Err(ValueError::NonFinite)
    );
    assert_eq!(
        Pad::new(bits(0.5), bits(2.0), bits(f32::NAN)),
        Err(ValueError::OutOfRange)
    );
    let default = Pad::default();
    assert_eq!((default.pleasure, default.arousal, default.dominance), (0, 0, 0));
    assert_eq!(default.validate(), Ok(()));
}
