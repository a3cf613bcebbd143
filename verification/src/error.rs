//! Errors of encoding, decoding and the library as a whole.

use vstd::prelude::*;
use crate::errcodes::{ExtendedErrCode, PrimaryErrCode, SqliteError, codes_are_busy, code_is_unique_violation, sqlite_error_text};
use crate::text::{decimal, push_decimal, push_signed, push_str_verified, signed_decimal};
use crate::type_info::{SqliteDataType, canonical_name};
use crate::value::Value;

verus! {

/// Errors encountered while decoding values.
#[derive(Debug)]
pub enum DecodeError {
    /// Incompatible source SQLite type.
    IncompatibleDataType(SqliteDataType),
    /// Conversion error from SQLite value to Rust type.
    Conversion(String),
}

/// Errors encountered while encoding values.
#[derive(Debug)]
pub enum EncodeError {
    /// Conversion error from Rust type to SQLite value.
    Conversion(String),
}

/// The content of a [`DecodeError`].
pub enum DecodeErrorView {
    /// Incompatible source SQLite type.
    IncompatibleDataType(SqliteDataType),
    /// A conversion error with its message.
    Conversion(Seq<char>),
}

impl View for DecodeError {
    type V = DecodeErrorView;

    open spec fn view(&self) -> DecodeErrorView {
        match self {
            DecodeError::IncompatibleDataType(t) => DecodeErrorView::IncompatibleDataType(*t),
            DecodeError::Conversion(m) => DecodeErrorView::Conversion(m@),
        }
    }
}

impl DecodeError {
    /// The displayed text of this error.
    pub fn message(&self) -> (r: String)
        ensures
            r@ == match *self {
                DecodeError::IncompatibleDataType(t) => "incompatible source data type: "@
                    + canonical_name(t),
                DecodeError::Conversion(m) => "decoding conversion error: "@ + m@,
            },
    {
        let mut s = String::new();
        match self {
            DecodeError::IncompatibleDataType(t) => {
                push_str_verified(&mut s, "incompatible source data type: ");
                push_str_verified(&mut s, t.name());
            },
            DecodeError::Conversion(m) => {
                push_str_verified(&mut s, "decoding conversion error: ");
                push_str_verified(&mut s, m.as_str());
            },
        }
        s
    }
}

impl EncodeError {
    /// The displayed text of this error.
    pub fn message(&self) -> (r: String)
        ensures
            r@ == match *self {
                EncodeError::Conversion(m) => "encoding conversion error: "@ + m@,
            },
    {
        let mut s = String::new();
        match self {
            EncodeError::Conversion(m) => {
                push_str_verified(&mut s, "encoding conversion error: ");
                push_str_verified(&mut s, m.as_str());
            },
        }
        s
    }
}

/// Represents all the ways a method can fail.
#[derive(Debug)]
#[non_exhaustive]
pub enum Error {
    /// Error returned from the database.
    Sqlite(SqliteError),
    /// Error communicating with the database backend.
    Io(String),
    /// Unexpected or invalid data encountered while communicating with the database.
    Protocol(String),
    /// Invalid builder option or connection configuration.
    Configuration(String),
    /// Invalid query composition or bind arguments.
    Query(String),
    /// No rows returned by a query that expected to return at least one row.
    RowNotFound,
    /// Type in query doesn't exist.
    TypeNotFound {
        /// Name of the missing type.
        missing_type: String,
    },
    /// Column index was out of bounds.
    ColumnIndexOutOfBounds {
        /// Out-of-range index.
        index: usize,
        /// Available column count.
        len: usize,
    },
    /// No column found for the given name.
    ColumnNotFound(String),
    /// Encountered an unknown column type code.
    UnknownColumnType(i32),
    /// Error occurred while decoding a value from a specific column.
    ColumnDecode {
        /// Column index or label.
        index: String,
        /// Column name.
        column_name: String,
        /// Raw SQLite value.
        value: Value,
        /// Underlying decode error.
        source: DecodeError,
    },
    /// Error occurred while decoding a value.
    Decode(DecodeError),
    /// Error occurred while encoding a value.
    Encode(EncodeError),
    /// A pool acquire timed out.
    PoolTimedOut,
    /// The pool was closed while waiting in acquire.
    PoolClosed,
    /// A background worker has crashed.
    WorkerCrashed,
    /// A commit or rollback was requested after SQLite had already rolled the
    /// transaction back (for example after an interrupt).
    TransactionAborted,
}

/// The displayed text of a decode error.
pub open spec fn decode_error_text(e: DecodeErrorView) -> Seq<char> {
    match e {
        DecodeErrorView::IncompatibleDataType(t) => "incompatible source data type: "@ + canonical_name(t),
        DecodeErrorView::Conversion(m) => "decoding conversion error: "@ + m,
    }
}

/// The displayed text of an error; `value_text` is the debug form of the
/// value of a column decode error, the one variant that shows one.
pub open spec fn error_text(e: Error, value_text: Seq<char>) -> Seq<char> {
    match e {
        Error::Sqlite(x) => sqlite_error_text(x.primary, x.extended, x.offset, x.message@),
        Error::Io(m) => "error communicating with database: "@ + m@,
        Error::Protocol(m) => "encountered unexpected or invalid data: "@ + m@,
        Error::Configuration(m) => m@,
        Error::Query(m) => m@,
        Error::RowNotFound => "no rows returned by a query that expected to return at least one row"@,
        Error::TypeNotFound { missing_type } => "type named "@ + missing_type@ + " not found"@,
        Error::ColumnIndexOutOfBounds { index, len } => "column index out of bounds: the len is "@
            + decimal(len as nat) + ", but the index is "@ + decimal(index as nat),
        Error::ColumnNotFound(n) => "no column found for name: "@ + n@,
        Error::UnknownColumnType(c) => "unknown column type: "@ + signed_decimal(c as int),
        Error::ColumnDecode { index, column_name, source, .. } => "error occurred while decoding column "@
            + column_name@ + " at index "@ + index@ + " (value: "@ + value_text + "): "@
            + decode_error_text(source@),
        Error::Decode(d) => "error occurred while decoding: "@ + decode_error_text(d@),
        Error::Encode(EncodeError::Conversion(m)) => "error occurred while encoding: "@
            + "encoding conversion error: "@ + m@,
        Error::PoolTimedOut => "pool timed out while waiting for an open connection"@,
        Error::PoolClosed => "attempted to acquire a connection on a closed pool"@,
        Error::WorkerCrashed => "attempted to communicate with a crashed background worker"@,
        Error::TransactionAborted => "the transaction was rolled back by SQLite and cannot be committed"@,
    }
}

/// A `Result` whose error is [`Error`].
pub type Result<T> = core::result::Result<T, Error>;

impl Error {
    /// Return a reference to the inner SQLite error when this error came from SQLite.
    pub fn as_sqlite(&self) -> (r: Option<&SqliteError>)
        ensures
            match *self {
                Error::Sqlite(e) => r == Some(&e),
                _ => r is None,
            },
    {
        match self {
            Error::Sqlite(error) => Some(error),
            _ => None,
        }
    }

    /// Return the primary and extended SQLite codes without consuming the error.
    pub fn sqlite_codes(&self) -> (r: Option<(PrimaryErrCode, Option<ExtendedErrCode>)>)
        ensures
            match *self {
                Error::Sqlite(e) => r == Some((e.primary, e.extended)),
                _ => r is None,
            },
    {
        match self {
            Error::Sqlite(error) => Some(error.codes()),
            _ => None,
        }
    }

    /// The displayed text of this error. A column decode error shows its
    /// value, whose debug form the caller passes as `value_text`.
    pub fn message(&self, value_text: &str) -> (r: String)
        ensures
            r@ == error_text(*self, value_text@),
    {
        let mut s = String::new();
        match self {
            Error::Sqlite(x) => {
                s = x.describe();
            },
            Error::Io(m) => {
                push_str_verified(&mut s, "error communicating with database: ");
                push_str_verified(&mut s, m.as_str());
            },
            Error::Protocol(m) => {
                push_str_verified(&mut s, "encountered unexpected or invalid data: ");
                push_str_verified(&mut s, m.as_str());
            },
            Error::Configuration(m) => push_str_verified(&mut s, m.as_str()),
            Error::Query(m) => push_str_verified(&mut s, m.as_str()),
            Error::RowNotFound => push_str_verified(
                &mut s,
                "no rows returned by a query that expected to return at least one row",
            ),
            Error::TypeNotFound { missing_type } => {
                push_str_verified(&mut s, "type named ");
                push_str_verified(&mut s, missing_type.as_str());
                push_str_verified(&mut s, " not found");
            },
            Error::ColumnIndexOutOfBounds { index, len } => {
                push_str_verified(&mut s, "column index out of bounds: the len is ");
                push_decimal(&mut s, *len);
                push_str_verified(&mut s, ", but the index is ");
                push_decimal(&mut s, *index);
            },
            Error::ColumnNotFound(n) => {
                push_str_verified(&mut s, "no column found for name: ");
                push_str_verified(&mut s, n.as_str());
            },
            Error::UnknownColumnType(c) => {
                push_str_verified(&mut s, "unknown column type: ");
                push_signed(&mut s, *c as i64);
            },
            Error::ColumnDecode { index, column_name, source, .. } => {
                push_str_verified(&mut s, "error occurred while decoding column ");
                push_str_verified(&mut s, column_name.as_str());
                push_str_verified(&mut s, " at index ");
                push_str_verified(&mut s, index.as_str());
                push_str_verified(&mut s, " (value: ");
                push_str_verified(&mut s, value_text);
                push_str_verified(&mut s, "): ");
                let d = source.message();
                push_str_verified(&mut s, d.as_str());
            },
            Error::Decode(d) => {
                push_str_verified(&mut s, "error occurred while decoding: ");
                let t = d.message();
                push_str_verified(&mut s, t.as_str());
            },
            Error::Encode(e) => {
                push_str_verified(&mut s, "error occurred while encoding: ");
                let t = e.message();
                push_str_verified(&mut s, t.as_str());
            },
            Error::PoolTimedOut => push_str_verified(
                &mut s,
                "pool timed out while waiting for an open connection",
            ),
            Error::PoolClosed => push_str_verified(
                &mut s,
                "attempted to acquire a connection on a closed pool",
            ),
            Error::WorkerCrashed => push_str_verified(
                &mut s,
                "attempted to communicate with a crashed background worker",
            ),
            Error::TransactionAborted => push_str_verified(
                &mut s,
                "the transaction was rolled back by SQLite and cannot be committed",
            ),
        }
        proof {
            assert(s@ =~= error_text(*self, value_text@));
        }
        s
    }

    /// Returns `true` if this error represents a busy SQLite database.
    pub fn is_busy(&self) -> (r: bool)
        ensures
            r == (*self matches Error::Sqlite(e) && codes_are_busy(e.primary, e.extended)),
    {
        match self {
            Error::Sqlite(error) => error.is_busy(),
            _ => false,
        }
    }

    /// Returns `true` if this error represents a SQLite unique-value conflict.
    pub fn is_unique_violation(&self) -> (r: bool)
        ensures
            r == (*self matches Error::Sqlite(e) && code_is_unique_violation(e.extended)),
    {
        match self {
            Error::Sqlite(error) => error.is_unique_violation(),
            _ => false,
        }
    }
}

} // verus!
