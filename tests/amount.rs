use kakebo::amount::{format_value, format_value_with, parse_value, ParseFailure};

#[test]
fn parse_examples() {
    assert_eq!(parse_value("12.50"), Ok(1250));
    assert_eq!(parse_value("3"), Ok(300));
    assert_eq!(parse_value("1,5"), Ok(150));
    assert_eq!(parse_value(""), Ok(0));
    assert_eq!(parse_value("12.555"), Err(ParseFailure));
}

#[test]
fn parse_signs_and_separators() {
    assert_eq!(parse_value("-1.5"), Ok(-150));
    assert_eq!(parse_value("+7"), Ok(700));
    assert_eq!(parse_value("-0.05"), Ok(-5));
    assert_eq!(parse_value(".5"), Ok(50));
    assert_eq!(parse_value(","), Ok(0));
    assert_eq!(parse_value("4."), Ok(400));
}

#[test]
fn parse_rejects_malformed_text() {
    assert_eq!(parse_value("-"), Err(ParseFailure));
    assert_eq!(parse_value("-.5"), Err(ParseFailure));
    assert_eq!(parse_value("1.2.3"), Err(ParseFailure));
    assert_eq!(parse_value("12a"), Err(ParseFailure));
    assert_eq!(parse_value("1.a"), Err(ParseFailure));
    assert_eq!(parse_value(" 1"), Err(ParseFailure));
}

#[test]
fn parse_range_limits() {
    assert_eq!(parse_value("21474835.99"), Ok(2147483599));
    assert_eq!(parse_value("-21474835.99"), Ok(-2147483599));
    assert_eq!(parse_value("21474836"), Err(ParseFailure));
    assert_eq!(parse_value("99999999999999999999"), Err(ParseFailure));
}

#[test]
fn format_examples() {
    assert_eq!(format_value(1250), "12.50");
    assert_eq!(format_value(0), "0.00");
    assert_eq!(format_value(5), "0.05");
    assert_eq!(format_value(-5), "-0.05");
    assert_eq!(format_value(-150), "-1.50");
    assert_eq!(format_value(123456789), "1234567.89");
    assert_eq!(format_value(i32::MIN), "-21474836.48");
    assert_eq!(format_value(i32::MAX), "21474836.47");
}

#[test]
fn format_then_parse_round_trips() {
    for v in [0, 1, -1, 9, 10, 99, 100, 1250, -1250, 2147483599, -2147483599, 31415] {
        assert_eq!(parse_value(&format_value(v)), Ok(v));
    }
}

#[test]
fn format_with_comma_round_trips() {
    assert_eq!(format_value_with(1250, ','), "12,50");
    assert_eq!(format_value_with(-7, ','), "-0,07");
    for v in [0, 150, -150, 2147483599] {
        assert_eq!(parse_value(&format_value_with(v, ',')), Ok(v));
    }
}
