use libra::ArgumentRange;
use libra::ConditionalArgumentRange;
use libra::DifferentVariant;
use libra::InvalidDate;
use libra::LibraError;
use libra::error::to_decimal;

#[test]
fn decimal_rendering() {
    assert_eq!(to_decimal(0), "0");
    assert_eq!(to_decimal(7), "7");
    assert_eq!(to_decimal(109572), "109572");
    assert_eq!(to_decimal(-1), "-1");
    assert_eq!(to_decimal(-1899), "-1899");
    assert_eq!(to_decimal(i64::MAX), "9223372036854775807");
    assert_eq!(to_decimal(i64::MIN), "-9223372036854775808");
}

#[test]
fn argument_range_message() {
    let err = ArgumentRange {
        name: "year",
        min: 1900,
        max: 2199,
        value: 1899,
        conditional_message: None,
    };
    assert_eq!(err.message(), "year must be in the range 1900..=2199, but 1899 was provided");

    let err = ArgumentRange {
        name: "day",
        min: 1,
        max: 28,
        value: 30,
        conditional_message: Some("February 2005 has 28 days".to_string()),
    };
    assert_eq!(
        err.message(),
        "day must be in the range 1..=28, but 30 was provided: February 2005 has 28 days"
    );
}

#[test]
fn conditional_argument_range_message() {
    let err = ConditionalArgumentRange {
        name: "day",
        min: 1,
        max: 30,
        value: 31,
        conditional_message: "June 2005 has 30 days".to_string(),
    };
    assert_eq!(
        err.message(),
        "day must be in the range 1..=30, but 31 was provided: June 2005 has 30 days"
    );
}

#[test]
fn fixed_messages() {
    assert_eq!(InvalidDate.message(), "an invalid date was provided");
    assert_eq!(DifferentVariant.message(), "value was of a different variant than required");
}

#[test]
fn narrowing_to_the_right_variant() {
    let err = LibraError::ArgumentRange(ArgumentRange {
        name: "year",
        min: 1900,
        max: 2199,
        value: 2300,
        conditional_message: None,
    });
    let narrowed = err.into_argument_range().unwrap();
    assert_eq!(narrowed.name, "year");
    assert_eq!(narrowed.value, 2300);

    let err = LibraError::InvalidDate(InvalidDate);
    assert!(matches!(err.into_invalid_date(), Ok(InvalidDate)));
}

#[test]
fn narrowing_to_a_different_variant_fails() {
    let err = LibraError::InvalidDate(InvalidDate);
    assert!(matches!(err.into_argument_range(), Err(DifferentVariant)));

    let err = LibraError::ArgumentRange(ArgumentRange {
        name: "day",
        min: 1,
        max: 31,
        value: 0,
        conditional_message: None,
    });
    assert!(matches!(err.clone().into_invalid_date(), Err(DifferentVariant)));
    assert!(matches!(err.into_different_variant(), Err(DifferentVariant)));

    let err = LibraError::DifferentVariant(DifferentVariant);
    assert!(matches!(err.into_different_variant(), Ok(DifferentVariant)));
}

#[test]
fn libra_error_messages() {
    let err = LibraError::ArgumentRange(ArgumentRange {
        name: "serial_number",
        min: 0,
        max: 109572,
        value: 200000,
        conditional_message: None,
    });
    assert_eq!(
        err.message(),
        "serial_number must be in the range 0..=109572, but 200000 was provided"
    );
    assert_eq!(
        LibraError::InvalidDate(InvalidDate).message(),
        "an invalid date was provided"
    );
    assert_eq!(
        LibraError::DifferentVariant(DifferentVariant).message(),
        "value was of a different variant than required"
    );
}
