use discord_bot_api::number::{get_id, parse_i64, parse_u16, IdError};
use discord_bot_api::server::get_server_port;

#[test]
fn get_id_reads_plain_and_signed_numbers() {
    assert_eq!(get_id("42"), Ok(42));
    assert_eq!(get_id("+7"), Ok(7));
    assert_eq!(get_id("-12"), Ok(-12));
    assert_eq!(get_id("-0"), Ok(0));
    assert_eq!(get_id("007"), Ok(7));
}

#[test]
fn get_id_reaches_both_ends_of_i64() {
    assert_eq!(get_id("9223372036854775807"), Ok(i64::MAX));
    assert_eq!(get_id("-9223372036854775808"), Ok(i64::MIN));
}

#[test]
fn get_id_reports_each_error() {
    assert_eq!(get_id(""), Err(IdError::Empty));
    assert_eq!(get_id("+"), Err(IdError::InvalidDigit));
    assert_eq!(get_id("-"), Err(IdError::InvalidDigit));
    assert_eq!(get_id("1x"), Err(IdError::InvalidDigit));
    assert_eq!(get_id(" 1"), Err(IdError::InvalidDigit));
    assert_eq!(get_id("+-1"), Err(IdError::InvalidDigit));
    assert_eq!(get_id("١"), Err(IdError::InvalidDigit));
    assert_eq!(get_id("9223372036854775808"), Err(IdError::Overflow));
    assert_eq!(get_id("-9223372036854775809"), Err(IdError::Overflow));
    assert_eq!(get_id("123456789012345678901234567890"), Err(IdError::Overflow));
}

#[test]
fn parse_i64_agrees_with_std() {
    let inputs = [
        "0", "1", "-1", "+1", "", "+", "-", "--1", "++1", "1-", "12a", "a12",
        "9223372036854775807", "9223372036854775808", "-9223372036854775808",
        "-9223372036854775809", "00000000000000000000000000001", "1 ", "é", "-+3",
    ];
    for s in inputs.iter() {
        let ours = parse_i64(s);
        let theirs = s.parse::<i64>();
        assert_eq!(ours.is_ok(), theirs.is_ok(), "input {:?}", s);
        if let (Ok(a), Ok(b)) = (ours, theirs) {
            assert_eq!(a, b);
        }
    }
}

#[test]
fn parse_u16_agrees_with_std() {
    let inputs = ["0", "65535", "65536", "-0", "-1", "+80", "", "+", "8o", "0080", "99999999999999999999"];
    for s in inputs.iter() {
        let ours = parse_u16(s);
        let theirs = s.parse::<u16>();
        assert_eq!(ours.is_ok(), theirs.is_ok(), "input {:?}", s);
        if let (Ok(a), Ok(b)) = (ours, theirs) {
            assert_eq!(a, b);
        }
    }
    assert_eq!(parse_u16("65536"), Err(IdError::Overflow));
    assert_eq!(parse_u16("-1"), Err(IdError::InvalidDigit));
}

#[test]
fn server_port_defaults_to_8080() {
    assert_eq!(get_server_port(None), 8080);
    assert_eq!(get_server_port(Some("3000")), 3000);
    assert_eq!(get_server_port(Some("70000")), 8080);
    assert_eq!(get_server_port(Some("-1")), 8080);
    assert_eq!(get_server_port(Some("")), 8080);
    assert_eq!(get_server_port(Some("0")), 0);
}
