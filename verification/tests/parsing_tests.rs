use flappy::error_basics::{square, squareDealErr};
use flappy::parsing::{parse_number, ParseIntError};

#[test]
fn test_parse_number() {
    assert_eq!(parse_number("42"), Ok(42));
    assert!(parse_number("not_a_number").is_err());
}

#[test]
fn parse_signs_and_bounds() {
    assert_eq!(parse_number("+7"), Ok(7));
    assert_eq!(parse_number("-7"), Ok(-7));
    assert_eq!(parse_number("0"), Ok(0));
    assert_eq!(parse_number("2147483647"), Ok(2147483647));
    assert_eq!(parse_number("-2147483648"), Ok(-2147483648));
    assert_eq!(parse_number("0000000000000042"), Ok(42));
}

#[test]
fn parse_error_classes() {
    assert_eq!(parse_number(""), Err(ParseIntError::Empty));
    assert_eq!(parse_number("+"), Err(ParseIntError::InvalidDigit));
    assert_eq!(parse_number("-"), Err(ParseIntError::InvalidDigit));
    assert_eq!(parse_number("12x"), Err(ParseIntError::InvalidDigit));
    assert_eq!(parse_number(" 1"), Err(ParseIntError::InvalidDigit));
    assert_eq!(parse_number("2147483648"), Err(ParseIntError::PosOverflow));
    assert_eq!(parse_number("-2147483649"), Err(ParseIntError::NegOverflow));
    assert_eq!(
        parse_number("99999999999999999999"),
        Err(ParseIntError::PosOverflow)
    );
}

#[test]
fn square_parses_and_squares() {
    assert_eq!(square("32"), Ok(1024));
    assert_eq!(square("-3"), Ok(9));
    assert!(square("RT").is_err());
}

#[test]
fn square_deal_err_returns_parse_result() {
    assert_eq!(squareDealErr("32"), Ok(32));
    assert!(squareDealErr("RT").is_err());
}
