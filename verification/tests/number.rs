use tortuga::{Number, ParseNumberError};

fn value(number: &Number) -> f64 {
    let fraction = (number.numerator as f64) / (number.radix as f64).powf(number.fraction_digits as f64);

    (number.integer as f64) + fraction
}

fn validate_number<I: Into<f64>>(number: &str, expected: I) {
    let parsed = Number::parse(number).unwrap();

    assert_eq!(value(&parsed), expected.into(), "{}", number);
}

#[test]
fn number_parse_number() {
    validate_number("0", 0);
    validate_number("0.0", 0);
    validate_number(".0", 0);
    validate_number("0.", 0);
    validate_number("2", 2);
    validate_number("4", 4);
    validate_number("21", 21);
    validate_number("100", 100);
    validate_number(".1", 0.1);
    validate_number(".5", 0.5);
    validate_number("1.0", 1.0);
    validate_number("4.5", 4.5);
    validate_number("0.5", 0.5);
    validate_number("10000.5002", 10000.5002);
    validate_number("7.002", 7.002);

    validate_number("2#0", 0);
    validate_number("16#F", 15);
    validate_number("3#21", 7);
    validate_number("2#100", 4);
    validate_number("2#.1", 0.5);
    validate_number("10#.5", 0.5);
    validate_number("12#1.0", 1.0);
    validate_number("20#4.5", 4.25);
    validate_number("30#0.5", 0.16666666666666666);
    validate_number("36#10000.5002", 1679616.1388900797);
    validate_number("32#7.002", 7.00006103515625);
}

fn invalidate_number(number: &str) {
    assert_eq!(Number::parse(number), Err(ParseNumberError::from(number)));
}

#[test]
fn parse_invalid_number() {
    invalidate_number(".");
    invalidate_number("20#.");
    invalidate_number("008#1.0");
    invalidate_number("0#1.0");
    invalidate_number("0008");
    invalidate_number(".1000");
    invalidate_number("2#.100");
    invalidate_number("37#1.0");
    invalidate_number("2#4.0");
    invalidate_number("#1.0");
    invalidate_number("#.");
}

#[test]
fn exact_number_parts() {
    assert_eq!(
        Number::parse("36#Z.1"),
        Ok(Number { integer: 35, numerator: 1, radix: 36, fraction_digits: 1 })
    );
    assert_eq!(
        Number::parse("12"),
        Ok(Number { integer: 12, numerator: 0, radix: 10, fraction_digits: 1 })
    );
    assert_eq!(ParseNumberError::from("x").lexeme(), "x");
}

#[test]
fn number_too_large_for_u128() {
    let digits = "1".repeat(40);

    assert_eq!(Number::parse(&digits), Err(ParseNumberError::from(digits.as_str())));
    assert!(Number::parse(&"9".repeat(38)).is_ok());
}
