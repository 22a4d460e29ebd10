//! The unified error type: a syntax failure with a position, or a wrapped
//! I/O, UTF-8, or integer-parsing failure.

use vstd::prelude::*;
use vstd::string::StringExecFns;
use crate::code::ErrorCode;
use crate::code::code_message;
use crate::decimal::decimal_seq;
use crate::decimal::push_decimal;

verus! {

/// Makes `std::io::Error` usable in signatures and fields; its values are
/// opaque to verification.
#[verifier::external_type_specification]
#[verifier::external_body]
pub struct ExIoError(std::io::Error);

/// Makes `std::string::FromUtf8Error` usable in signatures and fields;
/// its values are opaque to verification.
#[verifier::external_type_specification]
#[verifier::external_body]
pub struct ExFromUtf8Error(std::string::FromUtf8Error);

/// Makes `std::num::ParseIntError` usable in signatures and fields; its
/// values are opaque to verification.
#[verifier::external_type_specification]
#[verifier::external_body]
pub struct ExParseIntError(std::num::ParseIntError);

/// Every failure that can occur when reading or writing relaxed-JSON
/// text. Exactly one shape is active per value, and a value is immutable
/// once built.
pub enum Error {
    /// The text had a syntactic error: the code, then the line and column
    /// where it was detected. (0, 0) is reserved to mean "no position
    /// available".
    Syntax(ErrorCode, usize, usize),
    /// Some I/O error occurred while reading or writing the underlying
    /// byte stream.
    Io(std::io::Error),
    /// Bytes were not valid UTF-8 where text was expected.
    FromUtf8(std::string::FromUtf8Error),
    /// Numeric text did not parse as an integer.
    ParseIntError(std::num::ParseIntError),
}

/// A borrowed view of the foreign failure wrapped inside an [`Error`],
/// handed out by [`Error::cause`].
pub enum Cause<'a> {
    /// The wrapped I/O failure.
    Io(&'a std::io::Error),
    /// The wrapped UTF-8 decoding failure.
    FromUtf8(&'a std::string::FromUtf8Error),
    /// The wrapped integer-parsing failure.
    ParseInt(&'a std::num::ParseIntError),
}

/// Shorthand for the outcome of an operation that may fail with the
/// unified [`Error`]: the one failure channel the surrounding reader and
/// writer report through.
pub type Result<T> = core::result::Result<T, Error>;

/// The full diagnostic rendering of a syntax failure: the code's message,
/// then the line and column in decimal.
pub open spec fn syntax_display(code: ErrorCode, line: nat, col: nat) -> Seq<char> {
    code_message(code) + " at line "@ + decimal_seq(line) + " column "@ + decimal_seq(col)
}

impl Error {
    /// Builds the error that a framework's generic "custom message" hook
    /// must produce: always the Syntax shape, carrying the `Custom` code
    /// with the given text, at position (0, 0).
    pub fn custom(msg: String) -> (r: Error)
        ensures
            r == Error::Syntax(ErrorCode::Custom(msg), 0usize, 0usize),
    {
        Error::Syntax(ErrorCode::Custom(msg), 0, 0)
    }

    /// The wrapped foreign failure, unchanged, for the three wrapped
    /// shapes; a syntax failure has no deeper cause, so `None` for every
    /// Syntax-shaped error, whatever its code and position.
    pub fn cause<'a>(&'a self) -> (r: Option<Cause<'a>>)
        ensures
            match *self {
                Error::Syntax(_, _, _) => r is None,
                Error::Io(e) => r matches Some(c) && c matches Cause::Io(x) && *x == e,
                Error::FromUtf8(e) => r matches Some(c) && c matches Cause::FromUtf8(x) && *x
                    == e,
                Error::ParseIntError(e) => r matches Some(c) && c matches Cause::ParseInt(x)
                    && *x == e,
            },
    {
        match self {
            Error::Syntax(_, _, _) => None,
            Error::Io(e) => Some(Cause::Io(e)),
            Error::FromUtf8(e) => Some(Cause::FromUtf8(e)),
            Error::ParseIntError(e) => Some(Cause::ParseInt(e)),
        }
    }

    /// A short label for the error: the fixed text "syntax error" for a
    /// syntax failure; for a wrapped failure, whatever short description
    /// the wrapped error itself gives.
    pub fn description(&self) -> (s: String)
        ensures
            *self matches Error::Syntax(_, _, _) ==> s@ == "syntax error"@,
    {
        match self {
            Error::Syntax(_, _, _) => String::from_str("syntax error"),
            Error::Io(e) => io_error_description(e),
            Error::FromUtf8(e) => from_utf8_error_description(e),
            Error::ParseIntError(e) => parse_int_error_description(e),
        }
    }

    /// The full human-readable diagnostic. For a syntax failure it is
    /// exactly [`syntax_display`]: `<message> at line <line> column
    /// <column>`; for a wrapped failure it is the wrapped error's own
    /// rendering, taken verbatim.
    pub fn display_string(&self) -> (s: String)
        ensures
            *self matches Error::Syntax(code, line, col) ==> s@ == syntax_display(
                code,
                line as nat,
                col as nat,
            ),
    {
        match self {
            Error::Syntax(code, line, col) => {
                let mut s = code.message();
                s.append(" at line ");
                push_decimal(*line, &mut s);
                s.append(" column ");
                push_decimal(*col, &mut s);
                s
            },
            Error::Io(e) => io_error_display(e),
            Error::FromUtf8(e) => from_utf8_error_display(e),
            Error::ParseIntError(e) => parse_int_error_display(e),
        }
    }
}

impl From<std::io::Error> for Error {
    /// Lifts an I/O failure into the unified error, preserving it
    /// unchanged inside the `Io` shape.
    fn from(e: std::io::Error) -> (r: Error) {
        Error::Io(e)
    }
}

impl vstd::std_specs::convert::FromSpecImpl<std::io::Error> for Error {
    open spec fn obeys_from_spec() -> bool {
        true
    }

    open spec fn from_spec(e: std::io::Error) -> Error {
        Error::Io(e)
    }
}

impl From<std::string::FromUtf8Error> for Error {
    /// Lifts a UTF-8 decoding failure into the unified error, preserving
    /// it unchanged inside the `FromUtf8` shape.
    fn from(e: std::string::FromUtf8Error) -> (r: Error) {
        Error::FromUtf8(e)
    }
}

impl vstd::std_specs::convert::FromSpecImpl<std::string::FromUtf8Error> for Error {
    open spec fn obeys_from_spec() -> bool {
        true
    }

    open spec fn from_spec(e: std::string::FromUtf8Error) -> Error {
        Error::FromUtf8(e)
    }
}

impl From<std::num::ParseIntError> for Error {
    /// Lifts an integer-parsing failure into the unified error,
    /// preserving it unchanged inside the `ParseIntError` shape.
    fn from(e: std::num::ParseIntError) -> (r: Error) {
        Error::ParseIntError(e)
    }
}

impl vstd::std_specs::convert::FromSpecImpl<std::num::ParseIntError> for Error {
    open spec fn obeys_from_spec() -> bool {
        true
    }

    open spec fn from_spec(e: std::num::ParseIntError) -> Error {
        Error::ParseIntError(e)
    }
}

/// Round trip: lifting an I/O failure into the unified error (what the
/// `From` impl ensures) and retrieving the cause of the result (what
/// [`Error::cause`] ensures for the `Io` shape) hands back exactly the
/// original failure, with nothing added or dropped.
pub proof fn lemma_io_round_trip<'a>(original: std::io::Error, converted: Error, got: Cause<'a>)
    requires
        converted == Error::Io(original),
        match converted {
            Error::Io(payload) => got matches Cause::Io(x) && *x == payload,
            _ => false,
        },
    ensures
        got matches Cause::Io(x) && *x == original,
{
}

/// Round trip: lifting a UTF-8 decoding failure into the unified error
/// and retrieving the cause of the result hands back exactly the
/// original failure, with nothing added or dropped.
pub proof fn lemma_from_utf8_round_trip<'a>(
    original: std::string::FromUtf8Error,
    converted: Error,
    got: Cause<'a>,
)
    requires
        converted == Error::FromUtf8(original),
        match converted {
            Error::FromUtf8(payload) => got matches Cause::FromUtf8(x) && *x == payload,
            _ => false,
        },
    ensures
        got matches Cause::FromUtf8(x) && *x == original,
{
}

/// Round trip: lifting an integer-parsing failure into the unified error
/// and retrieving the cause of the result hands back exactly the
/// original failure, with nothing added or dropped.
pub proof fn lemma_parse_int_round_trip<'a>(
    original: std::num::ParseIntError,
    converted: Error,
    got: Cause<'a>,
)
    requires
        converted == Error::ParseIntError(original),
        match converted {
            Error::ParseIntError(payload) => got matches Cause::ParseInt(x) && *x == payload,
            _ => false,
        },
    ensures
        got matches Cause::ParseInt(x) && *x == original,
{
}

/// Relies on the `std::error::Error` impl of `std::io::Error` for the
/// wrapped failure's own short description.
#[verifier::external_body]
#[allow(deprecated)]
fn io_error_description(e: &std::io::Error) -> String {
    std::error::Error::description(e).to_string()
}

/// Relies on the `std::error::Error` impl of `std::string::FromUtf8Error`
/// for the wrapped failure's own short description.
#[verifier::external_body]
#[allow(deprecated)]
fn from_utf8_error_description(e: &std::string::FromUtf8Error) -> String {
    std::error::Error::description(e).to_string()
}

/// Relies on the `std::error::Error` impl of `std::num::ParseIntError`
/// for the wrapped failure's own short description.
#[verifier::external_body]
#[allow(deprecated)]
fn parse_int_error_description(e: &std::num::ParseIntError) -> String {
    std::error::Error::description(e).to_string()
}

/// Relies on the `Display` impl of `std::io::Error` for the wrapped
/// failure's own diagnostic rendering.
#[verifier::external_body]
fn io_error_display(e: &std::io::Error) -> String {
    format!("{}", e)
}

/// Relies on the `Display` impl of `std::string::FromUtf8Error` for the
/// wrapped failure's own diagnostic rendering.
#[verifier::external_body]
fn from_utf8_error_display(e: &std::string::FromUtf8Error) -> String {
    format!("{}", e)
}

/// Relies on the `Display` impl of `std::num::ParseIntError` for the
/// wrapped failure's own diagnostic rendering.
#[verifier::external_body]
fn parse_int_error_display(e: &std::num::ParseIntError) -> String {
    format!("{}", e)
}

} // verus!
