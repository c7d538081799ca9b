//! The closed set of failures that every operation of the library reports.

use vstd::prelude::*;
use vstd::string::StringExecFns;
use crate::text::{decimal, push_decimal, push_decimal_nat};
use crate::util::{bytes_view, decoded, len_view, text_view};

verus! {

/// Why an operation failed.
#[derive(Debug, Clone, PartialEq, Eq)]
pub enum CpdbError {
    /// A required native pointer was null.
    NullPointer,
    /// The native side does not know the printer.
    InvalidPrinter,
    /// A print job could not be created, submitted or cancelled.
    JobFailed(String),
    /// The print backend, or a printer reached through it, reported a failure.
    BackendError(String),
    /// The discovery and connection context reported a failure.
    FrontendError(String),
    /// An option could not be read or written.
    OptionError(String),
    /// A status code of the print system itself.
    CupsError(i32),
    /// A native string was not valid UTF-8: the number of bytes in front
    /// that are, and the length of the invalid sequence behind them, or
    /// nothing where the string ends in the middle of a character.
    Utf8Error(usize, Option<usize>),
    /// A host string holds a zero byte, at the given position, and so cannot
    /// be handed over as a terminated string.
    NulError(usize),
    /// Reading or writing a file failed.
    IoError(String),
    /// A status code outside the documented set.
    InvalidStatus(i32),
    /// The native library has no such operation.
    Unsupported,
    /// The discovery stream was stopped and holds nothing more.
    ChannelClosed,
}

/// The mathematical value of a [`CpdbError`]: each detail as its characters.
pub ghost enum ErrorModel {
    NullPointer,
    InvalidPrinter,
    JobFailed(Seq<char>),
    BackendError(Seq<char>),
    FrontendError(Seq<char>),
    OptionError(Seq<char>),
    CupsError(int),
    Utf8Error(nat, Option<nat>),
    NulError(nat),
    IoError(Seq<char>),
    InvalidStatus(int),
    Unsupported,
    ChannelClosed,
}

impl View for CpdbError {
    type V = ErrorModel;

    open spec fn view(&self) -> ErrorModel {
        match *self {
            CpdbError::NullPointer => ErrorModel::NullPointer,
            CpdbError::InvalidPrinter => ErrorModel::InvalidPrinter,
            CpdbError::JobFailed(detail) => ErrorModel::JobFailed(detail@),
            CpdbError::BackendError(detail) => ErrorModel::BackendError(detail@),
            CpdbError::FrontendError(detail) => ErrorModel::FrontendError(detail@),
            CpdbError::OptionError(detail) => ErrorModel::OptionError(detail@),
            CpdbError::CupsError(code) => ErrorModel::CupsError(code as int),
            CpdbError::Utf8Error(at, len) => ErrorModel::Utf8Error(at as nat, len_view(len)),
            CpdbError::NulError(at) => ErrorModel::NulError(at as nat),
            CpdbError::IoError(detail) => ErrorModel::IoError(detail@),
            CpdbError::InvalidStatus(code) => ErrorModel::InvalidStatus(code as int),
            CpdbError::Unsupported => ErrorModel::Unsupported,
            CpdbError::ChannelClosed => ErrorModel::ChannelClosed,
        }
    }
}

/// The error that stands for a native status code reported while doing
/// `context`: the three documented codes each have a kind of their own, any
/// other code is a backend failure that carries the code and the context.
pub open spec fn status_error(status: int, context: Seq<char>) -> ErrorModel {
    if status == 0 {
        ErrorModel::NullPointer
    } else if status == 1 {
        ErrorModel::InvalidPrinter
    } else if status == 2 {
        ErrorModel::JobFailed(context)
    } else {
        ErrorModel::BackendError("Unknown error ("@ + decimal(status) + "): "@ + context)
    }
}

/// The line of text that describes an error to a person.
pub open spec fn message_of(e: ErrorModel) -> Seq<char> {
    match e {
        ErrorModel::NullPointer => "Null pointer encountered"@,
        ErrorModel::InvalidPrinter => "Invalid printer object"@,
        ErrorModel::JobFailed(detail) => "Print job failed: "@ + detail,
        ErrorModel::BackendError(detail) => "Backend error: "@ + detail,
        ErrorModel::FrontendError(detail) => "Frontend error: "@ + detail,
        ErrorModel::OptionError(detail) => "Option parsing error: "@ + detail,
        ErrorModel::CupsError(code) => "CUPS error: "@ + decimal(code),
        ErrorModel::Utf8Error(at, len) => "Invalid UTF-8 string: "@ + match len {
            Some(n) => "invalid utf-8 sequence of "@ + decimal(n as int) + " bytes from index "@
                + decimal(at as int),
            None => "incomplete utf-8 byte sequence from index "@ + decimal(at as int),
        },
        ErrorModel::NulError(at) => "Nul byte in string: nul byte found in provided data at position: "@
            + decimal(at as int),
        ErrorModel::IoError(detail) => "IO error: "@ + detail,
        ErrorModel::InvalidStatus(code) => "Invalid status code: "@ + decimal(code),
        ErrorModel::Unsupported => "Unsupported operation"@,
        ErrorModel::ChannelClosed => "Discovery channel closed"@,
    }
}

/// The failure that a result reports, if it reports one.
pub open spec fn failure<T>(r: Result<T, CpdbError>) -> Option<ErrorModel> {
    match r {
        Ok(_) => None,
        Err(e) => Some(e@),
    }
}

/// `prefix` followed by `detail`.
pub(crate) fn joined(prefix: &str, detail: &str) -> (out: String)
    ensures
        out@ == prefix@ + detail@,
{
    let mut out = String::from_str(prefix);
    out.append(detail);
    out
}

/// `prefix` followed by the decimal numeral of `n`.
pub(crate) fn numbered(prefix: &str, n: i64) -> (out: String)
    ensures
        out@ == prefix@ + decimal(n as int),
{
    let mut out = String::from_str(prefix);
    push_decimal(&mut out, n);
    out
}

impl CpdbError {
    /// Translates a native status code, reported while doing `context`, into
    /// an error.
    pub fn from_status(status: i32, context: &str) -> (e: CpdbError)
        ensures
            e@ == status_error(status as int, context@),
    {
        if status == 0 {
            CpdbError::NullPointer
        } else if status == 1 {
            CpdbError::InvalidPrinter
        } else if status == 2 {
            CpdbError::JobFailed(String::from_str(context))
        } else {
            let mut detail = numbered("Unknown error (", status as i64);
            detail.append("): ");
            detail.append(context);
            CpdbError::BackendError(detail)
        }
    }

    /// The line of text that describes this error to a person.
    pub fn message(&self) -> (out: String)
        ensures
            out@ == message_of(self@),
    {
        match self {
            CpdbError::NullPointer => String::from_str("Null pointer encountered"),
            CpdbError::InvalidPrinter => String::from_str("Invalid printer object"),
            CpdbError::JobFailed(detail) => joined("Print job failed: ", detail.as_str()),
            CpdbError::BackendError(detail) => joined("Backend error: ", detail.as_str()),
            CpdbError::FrontendError(detail) => joined("Frontend error: ", detail.as_str()),
            CpdbError::OptionError(detail) => joined("Option parsing error: ", detail.as_str()),
            CpdbError::CupsError(code) => numbered("CUPS error: ", *code as i64),
            CpdbError::Utf8Error(at, len) => {
                let mut out = String::from_str("Invalid UTF-8 string: ");
                match len {
                    Some(n) => {
                        out.append("invalid utf-8 sequence of ");
                        push_decimal_nat(&mut out, *n as u64);
                        out.append(" bytes from index ");
                    },
                    None => {
                        out.append("incomplete utf-8 byte sequence from index ");
                    },
                }
                push_decimal_nat(&mut out, *at as u64);
                assert(out@ =~= message_of(self@));
                out
            },
            CpdbError::NulError(at) => {
                let mut out = String::from_str(
                    "Nul byte in string: nul byte found in provided data at position: ",
                );
                push_decimal_nat(&mut out, *at as u64);
                out
            },
            CpdbError::IoError(detail) => joined("IO error: ", detail.as_str()),
            CpdbError::InvalidStatus(code) => numbered("Invalid status code: ", *code as i64),
            CpdbError::Unsupported => String::from_str("Unsupported operation"),
            CpdbError::ChannelClosed => String::from_str("Discovery channel closed"),
        }
    }

    /// Copies a native string into a host string.
    pub fn cstr_to_string(ptr: Option<&[u8]>) -> (r: Result<String, CpdbError>)
        ensures
            text_view(r) == decoded(bytes_view(ptr)),
    {
        crate::util::cstr_to_string(ptr)
    }
}

} // verus!
