use debug_commands::parse_bool;
use debug_commands::parse_u32_from_str;
use debug_commands::CommandError;
use debug_commands::NumericError;

#[test]
fn parse_u32_hex() {
    assert_eq!(parse_u32_from_str("0x1A"), Ok(26));
}

#[test]
fn parse_u32_decimal() {
    assert_eq!(parse_u32_from_str("26"), Ok(26));
}

#[test]
fn parse_u32_hex_is_case_insensitive_in_digits() {
    assert_eq!(parse_u32_from_str("0x1a"), Ok(26));
    assert_eq!(parse_u32_from_str("0xFF"), Ok(255));
    assert_eq!(parse_u32_from_str("0xff"), Ok(255));
}

#[test]
fn parse_u32_rejects_bad_hex_digits() {
    assert_eq!(
        parse_u32_from_str("0xZZ"),
        Err(CommandError::MalformedNumeric {
            cause: NumericError::InvalidDigit
        })
    );
}

#[test]
fn parse_u32_rejects_empty_token() {
    assert_eq!(
        parse_u32_from_str(""),
        Err(CommandError::MalformedNumeric {
            cause: NumericError::Empty
        })
    );
}

#[test]
fn parse_u32_rejects_empty_remainder_after_prefix() {
    assert_eq!(
        parse_u32_from_str("0x"),
        Err(CommandError::MalformedNumeric {
            cause: NumericError::Empty
        })
    );
}

#[test]
fn parse_u32_rejects_letters_in_decimal() {
    assert_eq!(
        parse_u32_from_str("12a"),
        Err(CommandError::MalformedNumeric {
            cause: NumericError::InvalidDigit
        })
    );
}

#[test]
fn parse_u32_accepts_u32_max() {
    assert_eq!(parse_u32_from_str("4294967295"), Ok(u32::MAX));
    assert_eq!(parse_u32_from_str("0xFFFFFFFF"), Ok(u32::MAX));
}

#[test]
fn parse_u32_rejects_overflow() {
    assert_eq!(
        parse_u32_from_str("4294967296"),
        Err(CommandError::MalformedNumeric {
            cause: NumericError::Overflow
        })
    );
    assert_eq!(
        parse_u32_from_str("0x100000000"),
        Err(CommandError::MalformedNumeric {
            cause: NumericError::Overflow
        })
    );
}

#[test]
fn parse_u32_prefix_is_stripped_once() {
    assert_eq!(
        parse_u32_from_str("0x0x1A"),
        Err(CommandError::MalformedNumeric {
            cause: NumericError::InvalidDigit
        })
    );
}

#[test]
fn parse_u32_uppercase_prefix_is_no_prefix() {
    assert_eq!(
        parse_u32_from_str("0X1A"),
        Err(CommandError::MalformedNumeric {
            cause: NumericError::InvalidDigit
        })
    );
}

#[test]
fn parse_bool_true() {
    assert_eq!(parse_bool("true"), Ok(true));
}

#[test]
fn parse_bool_false() {
    assert_eq!(parse_bool("false"), Ok(false));
}

#[test]
fn parse_bool_rejects_digits() {
    assert_eq!(parse_bool("1"), Err(CommandError::MalformedBoolean));
    assert_eq!(parse_bool("0"), Err(CommandError::MalformedBoolean));
}

#[test]
fn parse_bool_is_case_sensitive() {
    assert_eq!(parse_bool("True"), Err(CommandError::MalformedBoolean));
    assert_eq!(parse_bool("FALSE"), Err(CommandError::MalformedBoolean));
}

#[test]
fn parse_bool_rejects_empty() {
    assert_eq!(parse_bool(""), Err(CommandError::MalformedBoolean));
}
