//! The errors of the auditor, the exit code that each one stands for, and
//! their conversion from I/O and JSON failures.

use vstd::prelude::*;
use vstd::string::StringExecFns;
use crate::text::{decimal, push_decimal};
use serde_json::error::ErrorCode;
use serde_json::error::Error as JsonError;

verus! {

#[verifier::external_type_specification]
#[verifier::external_body]
pub struct ExIoError(std::io::Error);

#[verifier::external_type_specification]
#[verifier::external_body]
pub struct ExJsonErrorCode(serde_json::error::ErrorCode);

#[verifier::external_type_specification]
#[verifier::external_body]
pub struct ExJsonError(JsonError);

/// A JSON failure taken apart by kind.
pub enum JsonFailure {
    /// A syntax error, with its code, line and column.
    Syntax(ErrorCode, usize, usize),
    /// An I/O failure while reading or writing JSON.
    Io(std::io::Error),
    /// The bytes were not valid UTF-8.
    Utf8,
}

/// The kind of a `serde_json::error::Error`, with the fields the library
/// keeps: it depends on the error alone.
pub uninterp spec fn json_failure_of(err: JsonError) -> JsonFailure;

/// The text that the `Debug` impl of `serde_json::error::ErrorCode` writes
/// for a code: it depends on the code alone.
pub uninterp spec fn code_debug_text(code: ErrorCode) -> Seq<char>;

/// Tells the kinds of `serde_json::error::Error` apart (its variants
/// `Syntax`, `Io` and `FromUtf8`), moving the fields that the library keeps.
/// The result is named `json_failure_of(err)`.
#[verifier::external_body]
fn json_failure(err: JsonError) -> (r: JsonFailure)
    ensures
        r == json_failure_of(err),
{
    match err {
        JsonError::Syntax(code, line, column) => JsonFailure::Syntax(code, line, column),
        JsonError::Io(e) => JsonFailure::Io(e),
        JsonError::FromUtf8(_) => JsonFailure::Utf8,
    }
}

/// The text that the `Debug` impl of `serde_json::error::ErrorCode` writes
/// for a code, named `code_debug_text(code)`.
#[verifier::external_body]
fn error_code_text(code: &ErrorCode) -> (r: String)
    ensures
        r@ == code_debug_text(*code),
{
    format!("{:?}", code)
}

/// The description of an I/O error (`std::error::Error::description`).
/// It depends on the kind of the error and the platform, and is not stated.
#[verifier::external_body]
#[allow(deprecated)]
fn io_error_description(e: &std::io::Error) -> &str {
    std::error::Error::description(e)
}

/// A JSON syntax error, with a readable description.
#[derive(Debug)]
pub struct JSONError {
    code: ErrorCode,
    description: String,
    line: usize,
    column: usize,
}

/// The tail of a JSON error's description: where in the input it was found.
pub open spec fn position_text(line: usize, column: usize) -> Seq<char> {
    " at line "@ + decimal(line as nat) + " column "@ + decimal(column as nat)
}

impl JSONError {
    /// The code of the syntax error.
    pub closed spec fn code_of(&self) -> ErrorCode {
        self.code
    }

    /// The line at which the error was found.
    pub closed spec fn line_of(&self) -> usize {
        self.line
    }

    /// The column at which the error was found.
    pub closed spec fn column_of(&self) -> usize {
        self.column
    }

    /// The description of the error.
    pub closed spec fn text(&self) -> Seq<char> {
        self.description@
    }

    /// The error for `code` at `line` and `column`, described by the code's
    /// text followed by its position.
    pub fn new(code: ErrorCode, line: usize, column: usize) -> (e: JSONError)
        ensures
            e.code_of() == code,
            e.line_of() == line,
            e.column_of() == column,
            e.text() == code_debug_text(code) + position_text(line, column),
    {
        let text = error_code_text(&code);
        JSONError::with_code_text(code, text, line, column)
    }

    /// The error for `code` at `line` and `column`, where `code_text` is how
    /// the code reads.
    pub fn with_code_text(code: ErrorCode, code_text: String, line: usize, column: usize) -> (e:
        JSONError)
        ensures
            e.code_of() == code,
            e.line_of() == line,
            e.column_of() == column,
            e.text() == code_text@ + position_text(line, column),
    {
        let mut description = code_text;
        description.append(" at line ");
        push_decimal(&mut description, line);
        description.append(" column ");
        push_decimal(&mut description, column);
        JSONError { code, description, line, column }
    }

    /// The description of the error.
    pub fn description(&self) -> (r: &str)
        ensures
            r@ == self.text(),
    {
        self.description.as_str()
    }
}

/// An error of the auditor.
#[derive(Debug)]
pub enum Error {
    AppNotExists,
    ParseError,
    JSONError(JSONError),
    CodeNotFound,
    Config,
    IOError(std::io::Error),
    Unknown,
}

/// Result of an operation of the auditor.
pub type Result<T> = std::result::Result<T, Error>;

/// The process exit code that stands for an error.
pub open spec fn exit_code(e: Error) -> i32 {
    match e {
        Error::AppNotExists => 10,
        Error::ParseError => 20,
        Error::JSONError(_) => 30,
        Error::CodeNotFound => 40,
        Error::Config => 50,
        Error::IOError(_) => 100,
        Error::Unknown => 1,
    }
}

impl Into<i32> for Error {
    /// The process exit code that stands for the error.
    fn into(self) -> (r: i32) {
        match self {
            Error::AppNotExists => 10,
            Error::ParseError => 20,
            Error::JSONError(_) => 30,
            Error::CodeNotFound => 40,
            Error::Config => 50,
            Error::IOError(_) => 100,
            Error::Unknown => 1,
        }
    }
}

impl vstd::std_specs::convert::IntoSpecImpl<i32> for Error {
    open spec fn obeys_into_spec() -> bool {
        true
    }

    open spec fn into_spec(self) -> i32 {
        exit_code(self)
    }
}

impl From<std::io::Error> for Error {
    fn from(err: std::io::Error) -> (r: Error) {
        Error::IOError(err)
    }
}

impl vstd::std_specs::convert::FromSpecImpl<std::io::Error> for Error {
    open spec fn obeys_from_spec() -> bool {
        true
    }

    open spec fn from_spec(v: std::io::Error) -> Error {
        Error::IOError(v)
    }
}

/// `r` is the error for the JSON failure `f`: a syntax error becomes a JSON
/// error with the same code and position, described by the code's text
/// followed by the position; an I/O failure stays an I/O error; invalid
/// UTF-8 becomes a parse error.
pub open spec fn converts_json_failure(f: JsonFailure, r: Error) -> bool {
    match f {
        JsonFailure::Syntax(code, line, column) => match r {
            Error::JSONError(j) => {
                &&& j.code_of() == code
                &&& j.line_of() == line
                &&& j.column_of() == column
                &&& j.text() == code_debug_text(code) + position_text(line, column)
            },
            _ => false,
        },
        JsonFailure::Io(e) => r == Error::IOError(e),
        JsonFailure::Utf8 => r == Error::ParseError,
    }
}

impl Error {
    /// The error for a JSON failure of the given kind: a syntax error keeps its
    /// code and position, an I/O failure stays an I/O error, and invalid
    /// UTF-8 is a parse error.
    pub fn from_json_failure(f: JsonFailure) -> (r: Error)
        ensures
            converts_json_failure(f, r),
    {
        match f {
            JsonFailure::Syntax(code, line, column) => Error::JSONError(
                JSONError::new(code, line, column),
            ),
            JsonFailure::Io(e) => Error::IOError(e),
            JsonFailure::Utf8 => Error::ParseError,
        }
    }

    /// The description of the error.
    pub fn description(&self) -> (r: &str)
        ensures
            match self {
                Error::AppNotExists => r@ == "the application has not been found"@,
                Error::ParseError => r@ == "there was an error in some parsing process"@,
                Error::JSONError(j) => r@ == j.text(),
                Error::CodeNotFound => r@ == "the code was not found in the file"@,
                Error::Config => r@ == "there was an error in the configuration"@,
                Error::IOError(_) => true,
                Error::Unknown => r@ == "an unknown error occurred"@,
            },
    {
        match self {
            Error::AppNotExists => "the application has not been found",
            Error::ParseError => "there was an error in some parsing process",
            Error::JSONError(j) => j.description(),
            Error::CodeNotFound => "the code was not found in the file",
            Error::Config => "there was an error in the configuration",
            Error::IOError(e) => io_error_description(e),
            Error::Unknown => "an unknown error occurred",
        }
    }

    /// The I/O error underneath, where there is one.
    pub fn cause(&self) -> (r: Option<&std::io::Error>)
        ensures
            match self {
                Error::IOError(e) => r == Some(e),
                _ => r is None,
            },
    {
        match self {
            Error::IOError(e) => Some(e),
            _ => None,
        }
    }
}

impl From<JsonError> for Error {
    /// A syntax error becomes a JSON error with the same code and position,
    /// described by the code's text and the position; an I/O failure stays an
    /// I/O error; invalid UTF-8 becomes a parse error.
    fn from(err: JsonError) -> (r: Error)
        ensures
            converts_json_failure(json_failure_of(err), r),
    {
        Error::from_json_failure(json_failure(err))
    }
}

/// A converted JSON error holds a `String` that no spec value of `Error` can
/// name, so no conversion is claimed through this spec; the `ensures` of
/// `from` above states its result.
impl vstd::std_specs::convert::FromSpecImpl<JsonError> for Error {
    open spec fn obeys_from_spec() -> bool {
        false
    }

    open spec fn from_spec(v: JsonError) -> Error {
        vstd::pervasive::arbitrary()
    }
}

} // verus!
