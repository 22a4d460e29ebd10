use hjson_errors::Cause;
use hjson_errors::Error;
use hjson_errors::ErrorCode;
use hjson_errors::decimal::decimal_string;
use hjson_errors::decimal::push_decimal;

#[test]
fn fixed_category_messages() {
    let table = [
        (ErrorCode::EOFWhileParsingList, "EOF while parsing a list"),
        (ErrorCode::EOFWhileParsingObject, "EOF while parsing an object"),
        (ErrorCode::EOFWhileParsingString, "EOF while parsing a string"),
        (ErrorCode::EOFWhileParsingValue, "EOF while parsing a value"),
        (ErrorCode::ExpectedColon, "expected `:`"),
        (ErrorCode::ExpectedListCommaOrEnd, "expected `,` or `]`"),
        (ErrorCode::ExpectedObjectCommaOrEnd, "expected `,` or `}`"),
        (ErrorCode::ExpectedSomeIdent, "expected ident"),
        (ErrorCode::ExpectedSomeValue, "expected value"),
        (ErrorCode::InvalidEscape, "invalid escape"),
        (ErrorCode::InvalidNumber, "invalid number"),
        (ErrorCode::InvalidUnicodeCodePoint, "invalid unicode code point"),
        (ErrorCode::KeyMustBeAString, "key must be a string"),
        (
            ErrorCode::LoneLeadingSurrogateInHexEscape,
            "lone leading surrogate in hex escape",
        ),
        (ErrorCode::TrailingCharacters, "trailing characters"),
        (
            ErrorCode::UnexpectedEndOfHexEscape,
            "unexpected end of hex escape",
        ),
        (
            ErrorCode::PunctuatorInQlString,
            "found a punctuator character when expecting a quoteless string",
        ),
    ];
    for (code, expected) in table {
        assert_eq!(code.message(), expected);
    }
}

#[test]
fn custom_message_verbatim() {
    let code = ErrorCode::Custom(String::from("anything goes here"));
    assert_eq!(code.message(), "anything goes here");
}

#[test]
fn custom_constructor_shape() {
    let err = Error::custom(String::from("boom"));
    match err {
        Error::Syntax(code, line, col) => {
            assert!(code == ErrorCode::Custom(String::from("boom")));
            assert_eq!(line, 0);
            assert_eq!(col, 0);
        }
        _ => panic!("custom must build the Syntax shape"),
    }
}

#[test]
fn cause_none_for_syntax() {
    let cases = [
        Error::Syntax(ErrorCode::ExpectedColon, 4, 7),
        Error::Syntax(ErrorCode::Custom(String::from("odd")), 0, 0),
        Error::Syntax(ErrorCode::TrailingCharacters, 120, 3),
    ];
    for err in &cases {
        assert!(err.cause().is_none());
    }
}

#[test]
fn io_round_trip() {
    let original = std::io::Error::new(std::io::ErrorKind::NotFound, "stream went away");
    let err = Error::from(original);
    match err.cause() {
        Some(Cause::Io(inner)) => {
            assert_eq!(inner.kind(), std::io::ErrorKind::NotFound);
            assert_eq!(inner.to_string(), "stream went away");
        }
        _ => panic!("an I/O failure must come back out as the I/O cause"),
    }
}

#[test]
fn utf8_round_trip() {
    let bad = vec![0u8, 159, 146, 150];
    let original = String::from_utf8(bad.clone()).unwrap_err();
    let err = Error::from(original);
    match err.cause() {
        Some(Cause::FromUtf8(inner)) => {
            assert_eq!(inner.as_bytes(), &bad[..]);
        }
        _ => panic!("a UTF-8 failure must come back out as the UTF-8 cause"),
    }
}

#[test]
fn parse_int_round_trip() {
    let original = "not a number".parse::<i64>().unwrap_err();
    let err = Error::from(original.clone());
    match err.cause() {
        Some(Cause::ParseInt(inner)) => {
            assert!(*inner == original);
        }
        _ => panic!("an integer-parsing failure must come back out as its cause"),
    }
}

#[test]
fn expected_colon_diagnostic() {
    let err = Error::Syntax(ErrorCode::ExpectedColon, 4, 7);
    assert_eq!(err.display_string(), "expected `:` at line 4 column 7");
}

#[test]
fn custom_diagnostic_zero_position() {
    let err = Error::custom(String::from("went sideways"));
    assert_eq!(err.display_string(), "went sideways at line 0 column 0");
}

#[test]
fn wrapped_display_delegates() {
    let err = Error::from(std::io::Error::new(
        std::io::ErrorKind::PermissionDenied,
        "no access",
    ));
    let twin = std::io::Error::new(std::io::ErrorKind::PermissionDenied, "no access");
    assert_eq!(err.display_string(), twin.to_string());

    let bad = vec![0xffu8, 0xfe];
    let utf8_err = Error::from(String::from_utf8(bad.clone()).unwrap_err());
    let utf8_twin = String::from_utf8(bad).unwrap_err();
    assert_eq!(utf8_err.display_string(), utf8_twin.to_string());

    let parse = "??".parse::<u32>().unwrap_err();
    let parse_err = Error::from(parse.clone());
    assert_eq!(parse_err.display_string(), parse.to_string());
}

#[test]
#[allow(deprecated)]
fn descriptions() {
    let syntax = Error::Syntax(ErrorCode::InvalidNumber, 2, 9);
    assert_eq!(syntax.description(), "syntax error");
    let zero = Error::custom(String::from("m"));
    assert_eq!(zero.description(), "syntax error");

    let parse = "zz".parse::<u8>().unwrap_err();
    let wrapped = Error::from(parse.clone());
    assert_eq!(
        wrapped.description(),
        std::error::Error::description(&parse)
    );
}

#[test]
fn code_equality() {
    assert!(ErrorCode::ExpectedColon == ErrorCode::ExpectedColon);
    assert!(ErrorCode::ExpectedColon != ErrorCode::ExpectedSomeValue);
    assert!(ErrorCode::Custom(String::from("a")) == ErrorCode::Custom(String::from("a")));
    assert!(ErrorCode::Custom(String::from("a")) != ErrorCode::Custom(String::from("b")));
    assert!(ErrorCode::Custom(String::from("expected `:`")) != ErrorCode::ExpectedColon);
    assert!(ErrorCode::EOFWhileParsingList != ErrorCode::EOFWhileParsingObject);
}

#[test]
fn decimal_rendering() {
    assert_eq!(decimal_string(0), "0");
    assert_eq!(decimal_string(7), "7");
    assert_eq!(decimal_string(10), "10");
    assert_eq!(decimal_string(408), "408");
    assert_eq!(decimal_string(usize::MAX), usize::MAX.to_string());

    let mut s = String::from("line ");
    push_decimal(205, &mut s);
    assert_eq!(s, "line 205");
}

#[test]
fn message_independent_of_position() {
    for (line, col) in [(0usize, 0usize), (1, 1), (88, 12)] {
        let err = Error::Syntax(ErrorCode::KeyMustBeAString, line, col);
        let expected = format!("key must be a string at line {} column {}", line, col);
        assert_eq!(err.display_string(), expected);
    }
}

#[test]
fn result_alias_carries_error() {
    let failing: hjson_errors::error::Result<u32> =
        Err(Error::Syntax(ErrorCode::ExpectedSomeValue, 1, 1));
    match failing {
        Err(Error::Syntax(code, _, _)) => assert!(code == ErrorCode::ExpectedSomeValue),
        _ => panic!("the alias must carry the unified error"),
    }
}
