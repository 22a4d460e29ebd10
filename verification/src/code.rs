//! The closed taxonomy of syntax-failure reasons.

use vstd::prelude::*;
use vstd::string::StringExecFns;

verus! {

/// The reasons a syntax failure can be reported while reading or writing
/// relaxed-JSON text.
///
/// The set is closed: every distinguishable grammar violation has its own
/// fixed tag with a fixed message, and anything outside the list travels
/// through `Custom` with a caller-supplied message.
#[derive(Clone)]
pub enum ErrorCode {
    /// Catchall for syntax error messages.
    Custom(String),
    /// EOF while parsing a list.
    EOFWhileParsingList,
    /// EOF while parsing an object.
    EOFWhileParsingObject,
    /// EOF while parsing a string.
    EOFWhileParsingString,
    /// EOF while parsing a value.
    EOFWhileParsingValue,
    /// Expected this character to be a `':'`.
    ExpectedColon,
    /// Expected this character to be either a `','` or a `]`.
    ExpectedListCommaOrEnd,
    /// Expected this character to be either a `','` or a `}`.
    ExpectedObjectCommaOrEnd,
    /// Expected to parse either a `true`, `false`, or a `null`.
    ExpectedSomeIdent,
    /// Expected this character to start a value.
    ExpectedSomeValue,
    /// Invalid hex escape code.
    InvalidEscape,
    /// Invalid number.
    InvalidNumber,
    /// Invalid unicode code point.
    InvalidUnicodeCodePoint,
    /// Object key is not a string.
    KeyMustBeAString,
    /// Lone leading surrogate in hex escape.
    LoneLeadingSurrogateInHexEscape,
    /// Non-whitespace trailing characters after the value.
    TrailingCharacters,
    /// Unexpected end of hex escape.
    UnexpectedEndOfHexEscape,
    /// Found a punctuator character when expecting a quoteless string.
    PunctuatorInQlString,
}

/// The fixed rendering of each code: the table message for a fixed tag,
/// and the stored text verbatim for `Custom`. Positions play no part.
pub open spec fn code_message(c: ErrorCode) -> Seq<char> {
    match c {
        ErrorCode::Custom(msg) => msg@,
        ErrorCode::EOFWhileParsingList => "EOF while parsing a list"@,
        ErrorCode::EOFWhileParsingObject => "EOF while parsing an object"@,
        ErrorCode::EOFWhileParsingString => "EOF while parsing a string"@,
        ErrorCode::EOFWhileParsingValue => "EOF while parsing a value"@,
        ErrorCode::ExpectedColon => "expected `:`"@,
        ErrorCode::ExpectedListCommaOrEnd => "expected `,` or `]`"@,
        ErrorCode::ExpectedObjectCommaOrEnd => "expected `,` or `}`"@,
        ErrorCode::ExpectedSomeIdent => "expected ident"@,
        ErrorCode::ExpectedSomeValue => "expected value"@,
        ErrorCode::InvalidEscape => "invalid escape"@,
        ErrorCode::InvalidNumber => "invalid number"@,
        ErrorCode::InvalidUnicodeCodePoint => "invalid unicode code point"@,
        ErrorCode::KeyMustBeAString => "key must be a string"@,
        ErrorCode::LoneLeadingSurrogateInHexEscape => "lone leading surrogate in hex escape"@,
        ErrorCode::TrailingCharacters => "trailing characters"@,
        ErrorCode::UnexpectedEndOfHexEscape => "unexpected end of hex escape"@,
        ErrorCode::PunctuatorInQlString => (
        "found a punctuator character when expecting a quoteless string"@),
    }
}

/// When two codes are equal: the same tag and, for `Custom`, the same
/// message text. Equality lives on codes alone; the position stored on a
/// whole error is informational and takes no part in it.
pub open spec fn code_eq(a: ErrorCode, b: ErrorCode) -> bool {
    match (a, b) {
        (ErrorCode::Custom(x), ErrorCode::Custom(y)) => x@ == y@,
        (ErrorCode::EOFWhileParsingList, ErrorCode::EOFWhileParsingList) => true,
        (ErrorCode::EOFWhileParsingObject, ErrorCode::EOFWhileParsingObject) => true,
        (ErrorCode::EOFWhileParsingString, ErrorCode::EOFWhileParsingString) => true,
        (ErrorCode::EOFWhileParsingValue, ErrorCode::EOFWhileParsingValue) => true,
        (ErrorCode::ExpectedColon, ErrorCode::ExpectedColon) => true,
        (ErrorCode::ExpectedListCommaOrEnd, ErrorCode::ExpectedListCommaOrEnd) => true,
        (ErrorCode::ExpectedObjectCommaOrEnd, ErrorCode::ExpectedObjectCommaOrEnd) => true,
        (ErrorCode::ExpectedSomeIdent, ErrorCode::ExpectedSomeIdent) => true,
        (ErrorCode::ExpectedSomeValue, ErrorCode::ExpectedSomeValue) => true,
        (ErrorCode::InvalidEscape, ErrorCode::InvalidEscape) => true,
        (ErrorCode::InvalidNumber, ErrorCode::InvalidNumber) => true,
        (ErrorCode::InvalidUnicodeCodePoint, ErrorCode::InvalidUnicodeCodePoint) => true,
        (ErrorCode::KeyMustBeAString, ErrorCode::KeyMustBeAString) => true,
        (
            ErrorCode::LoneLeadingSurrogateInHexEscape,
            ErrorCode::LoneLeadingSurrogateInHexEscape,
        ) => true,
        (ErrorCode::TrailingCharacters, ErrorCode::TrailingCharacters) => true,
        (ErrorCode::UnexpectedEndOfHexEscape, ErrorCode::UnexpectedEndOfHexEscape) => true,
        (ErrorCode::PunctuatorInQlString, ErrorCode::PunctuatorInQlString) => true,
        _ => false,
    }
}

impl PartialEq for ErrorCode {
    /// Two codes are equal exactly when [`code_eq`] holds of them.
    fn eq(&self, other: &ErrorCode) -> (r: bool)
        ensures
            r == code_eq(*self, *other),
    {
        match (self, other) {
            (ErrorCode::Custom(x), ErrorCode::Custom(y)) => *x == *y,
            (ErrorCode::EOFWhileParsingList, ErrorCode::EOFWhileParsingList) => true,
            (ErrorCode::EOFWhileParsingObject, ErrorCode::EOFWhileParsingObject) => true,
            (ErrorCode::EOFWhileParsingString, ErrorCode::EOFWhileParsingString) => true,
            (ErrorCode::EOFWhileParsingValue, ErrorCode::EOFWhileParsingValue) => true,
            (ErrorCode::ExpectedColon, ErrorCode::ExpectedColon) => true,
            (ErrorCode::ExpectedListCommaOrEnd, ErrorCode::ExpectedListCommaOrEnd) => true,
            (ErrorCode::ExpectedObjectCommaOrEnd, ErrorCode::ExpectedObjectCommaOrEnd) => true,
            (ErrorCode::ExpectedSomeIdent, ErrorCode::ExpectedSomeIdent) => true,
            (ErrorCode::ExpectedSomeValue, ErrorCode::ExpectedSomeValue) => true,
            (ErrorCode::InvalidEscape, ErrorCode::InvalidEscape) => true,
            (ErrorCode::InvalidNumber, ErrorCode::InvalidNumber) => true,
            (ErrorCode::InvalidUnicodeCodePoint, ErrorCode::InvalidUnicodeCodePoint) => true,
            (ErrorCode::KeyMustBeAString, ErrorCode::KeyMustBeAString) => true,
            (
                ErrorCode::LoneLeadingSurrogateInHexEscape,
                ErrorCode::LoneLeadingSurrogateInHexEscape,
            ) => true,
            (ErrorCode::TrailingCharacters, ErrorCode::TrailingCharacters) => true,
            (ErrorCode::UnexpectedEndOfHexEscape, ErrorCode::UnexpectedEndOfHexEscape) => true,
            (ErrorCode::PunctuatorInQlString, ErrorCode::PunctuatorInQlString) => true,
            _ => false,
        }
    }
}

impl vstd::std_specs::cmp::PartialEqSpecImpl for ErrorCode {
    open spec fn obeys_eq_spec() -> bool {
        true
    }

    open spec fn eq_spec(&self, other: &ErrorCode) -> bool {
        code_eq(*self, *other)
    }
}

impl ErrorCode {
    /// Renders this code as its human-readable message: exactly
    /// [`code_message`], for any code.
    pub fn message(&self) -> (s: String)
        ensures
            s@ == code_message(*self),
    {
        match self {
            ErrorCode::Custom(msg) => msg.clone(),
            ErrorCode::EOFWhileParsingList => String::from_str("EOF while parsing a list"),
            ErrorCode::EOFWhileParsingObject => String::from_str("EOF while parsing an object"),
            ErrorCode::EOFWhileParsingString => String::from_str("EOF while parsing a string"),
            ErrorCode::EOFWhileParsingValue => String::from_str("EOF while parsing a value"),
            ErrorCode::ExpectedColon => String::from_str("expected `:`"),
            ErrorCode::ExpectedListCommaOrEnd => String::from_str("expected `,` or `]`"),
            ErrorCode::ExpectedObjectCommaOrEnd => String::from_str("expected `,` or `}`"),
            ErrorCode::ExpectedSomeIdent => String::from_str("expected ident"),
            ErrorCode::ExpectedSomeValue => String::from_str("expected value"),
            ErrorCode::InvalidEscape => String::from_str("invalid escape"),
            ErrorCode::InvalidNumber => String::from_str("invalid number"),
            ErrorCode::InvalidUnicodeCodePoint => String::from_str("invalid unicode code point"),
            ErrorCode::KeyMustBeAString => String::from_str("key must be a string"),
            ErrorCode::LoneLeadingSurrogateInHexEscape => String::from_str(
                "lone leading surrogate in hex escape",
            ),
            ErrorCode::TrailingCharacters => String::from_str("trailing characters"),
            ErrorCode::UnexpectedEndOfHexEscape => String::from_str("unexpected end of hex escape"),
            ErrorCode::PunctuatorInQlString => String::from_str(
                "found a punctuator character when expecting a quoteless string",
            ),
        }
    }
}

} // verus!
