//! Owned SQLite values.

use vstd::prelude::*;
use crate::error::DecodeError;
use crate::text::string_from_chars;
use crate::type_info::SqliteDataType;

verus! {

/// Owned representation of a SQLite value.
///
/// Each variant stores the underlying value along with an optional
/// [`SqliteDataType`] describing how SQLite declared the column. When the type
/// information is omitted the variant's natural type is used. A double is
/// held as the IEEE-754 bit pattern of the `f64`.
#[derive(Clone, Debug)]
#[non_exhaustive]
pub enum Value {
    /// A NULL value.
    Null {
        /// Declared column type, if known.
        type_info: Option<SqliteDataType>,
    },
    /// A 64-bit signed integer.
    Integer {
        /// The raw integer value.
        value: i64,
        /// Declared column type, if known.
        type_info: Option<SqliteDataType>,
    },
    /// A double precision floating point number, as its bit pattern.
    Double {
        /// The bits of the `f64` value (`f64::to_bits`).
        bits: u64,
        /// Declared column type, if known.
        type_info: Option<SqliteDataType>,
    },
    /// A UTF-8 text value.
    Text {
        /// String value.
        value: String,
        /// Declared column type, if known.
        type_info: Option<SqliteDataType>,
    },
    /// An arbitrary blob of bytes.
    Blob {
        /// Bytes contained in the blob.
        value: Vec<u8>,
        /// Declared column type, if known.
        type_info: Option<SqliteDataType>,
    },
}

/// The mathematical content of a [`Value`].
pub enum ValueView {
    /// NULL.
    Null { type_info: Option<SqliteDataType> },
    /// An integer.
    Integer { value: i64, type_info: Option<SqliteDataType> },
    /// A double's bit pattern.
    Double { bits: u64, type_info: Option<SqliteDataType> },
    /// Text.
    Text { value: Seq<char>, type_info: Option<SqliteDataType> },
    /// Bytes.
    Blob { value: Seq<u8>, type_info: Option<SqliteDataType> },
}

impl View for Value {
    type V = ValueView;

    open spec fn view(&self) -> ValueView {
        match self {
            Value::Null { type_info } => ValueView::Null { type_info: *type_info },
            Value::Integer { value, type_info } => ValueView::Integer {
                value: *value,
                type_info: *type_info,
            },
            Value::Double { bits, type_info } => ValueView::Double {
                bits: *bits,
                type_info: *type_info,
            },
            Value::Text { value, type_info } => ValueView::Text {
                value: value@,
                type_info: *type_info,
            },
            Value::Blob { value, type_info } => ValueView::Blob {
                value: value@,
                type_info: *type_info,
            },
        }
    }
}

/// The declared type of a value, or its natural type when none was recorded.
pub open spec fn value_type(v: ValueView) -> SqliteDataType {
    match v {
        ValueView::Null { type_info } => match type_info {
            Some(t) => t,
            None => SqliteDataType::Null,
        },
        ValueView::Integer { type_info, .. } => match type_info {
            Some(t) => t,
            None => SqliteDataType::Int,
        },
        ValueView::Double { type_info, .. } => match type_info {
            Some(t) => t,
            None => SqliteDataType::Float,
        },
        ValueView::Text { type_info, .. } => match type_info {
            Some(t) => t,
            None => SqliteDataType::Text,
        },
        ValueView::Blob { type_info, .. } => match type_info {
            Some(t) => t,
            None => SqliteDataType::Blob,
        },
    }
}

/// The bytes of a value as [`Value::blob`] gives them: a blob's bytes, the
/// UTF-8 encoding of a text, and no bytes for any other value.
pub open spec fn blob_bytes(v: ValueView) -> Seq<u8> {
    match v {
        ValueView::Blob { value, .. } => value,
        ValueView::Text { value, .. } => vstd::utf8::encode_utf8(value),
        _ => Seq::empty(),
    }
}

/// A decode error carrying the conversion message `m`.
pub open spec fn is_conversion(e: DecodeError, m: Seq<char>) -> bool {
    e matches DecodeError::Conversion(s) && s@ == m
}

/// The conversion error `msg`.
pub fn conversion(msg: &str) -> (r: DecodeError)
    ensures
        is_conversion(r, msg@),
{
    let chars = crate::text::chars_of(msg);
    DecodeError::Conversion(string_from_chars(&chars))
}

impl Value {
    /// A copy of this value with the same content.
    pub fn duplicate(&self) -> (r: Value)
        ensures
            r@ == self@,
    {
        match self {
            Value::Null { type_info } => Value::Null { type_info: *type_info },
            Value::Integer { value, type_info } => Value::Integer {
                value: *value,
                type_info: *type_info,
            },
            Value::Double { bits, type_info } => Value::Double {
                bits: *bits,
                type_info: *type_info,
            },
            Value::Text { value, type_info } => Value::Text {
                value: value.clone(),
                type_info: *type_info,
            },
            Value::Blob { value, type_info } => Value::Blob {
                value: vstd::slice::slice_to_vec(value.as_slice()),
                type_info: *type_info,
            },
        }
    }

    /// Returns the value as `i32` if it is an integer and fits in the range.
    pub fn int32(&self) -> (r: core::result::Result<i32, DecodeError>)
        ensures
            match self@ {
                ValueView::Integer { value, .. } => if i32::MIN <= value <= i32::MAX {
                    r == Ok::<i32, DecodeError>(value as i32)
                } else {
                    r matches Err(e) && is_conversion(
                        e,
                        "out of range integral type conversion attempted"@,
                    )
                },
                ValueView::Null { .. } => r matches Err(e) && is_conversion(e, "unexpected NULL"@),
                _ => r matches Err(e) && is_conversion(e, "not an integer or out of range"@),
            },
    {
        match self {
            Value::Integer { value, .. } => {
                if i32::MIN as i64 <= *value && *value <= i32::MAX as i64 {
                    Ok(*value as i32)
                } else {
                    Err(conversion("out of range integral type conversion attempted"))
                }
            },
            Value::Null { .. } => Err(conversion("unexpected NULL")),
            _ => Err(conversion("not an integer or out of range")),
        }
    }

    /// Returns the value as `i64` if it is stored as an integer.
    pub fn int64(&self) -> (r: core::result::Result<i64, DecodeError>)
        ensures
            match self@ {
                ValueView::Integer { value, .. } => r == Ok::<i64, DecodeError>(value),
                ValueView::Null { .. } => r matches Err(e) && is_conversion(e, "unexpected NULL"@),
                _ => r matches Err(e) && is_conversion(e, "not an integer"@),
            },
    {
        match self {
            Value::Integer { value, .. } => Ok(*value),
            Value::Null { .. } => Err(conversion("unexpected NULL")),
            _ => Err(conversion("not an integer")),
        }
    }

    /// Returns the raw bytes contained in a blob, or the UTF-8 bytes of a text.
    /// For any other variant an empty slice is returned.
    pub fn blob(&self) -> (r: core::result::Result<&[u8], DecodeError>)
        ensures
            r matches Ok(b) && b@ == blob_bytes(self@),
    {
        match self {
            Value::Blob { value, .. } => Ok(value.as_slice()),
            Value::Text { value, .. } => Ok(value.as_str().as_bytes()),
            _ => {
                let empty: &[u8] = &[];
                assert(empty@ =~= Seq::<u8>::empty());
                Ok(empty)
            },
        }
    }

    /// Returns the text of a [`Value::Text`].
    pub fn text(&self) -> (r: core::result::Result<&str, DecodeError>)
        ensures
            match self@ {
                ValueView::Text { value, .. } => r matches Ok(t) && t@ == value,
                ValueView::Null { .. } => r matches Err(e) && is_conversion(e, "unexpected NULL"@),
                _ => r matches Err(e) && is_conversion(e, "not text"@),
            },
    {
        match self {
            Value::Text { value, .. } => Ok(value.as_str()),
            Value::Null { .. } => Err(conversion("unexpected NULL")),
            _ => Err(conversion("not text")),
        }
    }

    /// Returns the [`SqliteDataType`] associated with this value: the recorded
    /// declared type, or the variant's natural type.
    pub fn type_info(&self) -> (r: SqliteDataType)
        ensures
            r == value_type(self@),
    {
        match self {
            Value::Null { type_info } => match type_info {
                Some(t) => *t,
                None => SqliteDataType::Null,
            },
            Value::Integer { type_info, .. } => match type_info {
                Some(t) => *t,
                None => SqliteDataType::Int,
            },
            Value::Double { type_info, .. } => match type_info {
                Some(t) => *t,
                None => SqliteDataType::Float,
            },
            Value::Text { type_info, .. } => match type_info {
                Some(t) => *t,
                None => SqliteDataType::Text,
            },
            Value::Blob { type_info, .. } => match type_info {
                Some(t) => *t,
                None => SqliteDataType::Blob,
            },
        }
    }

    /// Returns `true` if the value is [`Value::Null`].
    pub fn is_null(&self) -> (r: bool)
        ensures
            r == (self@ is Null),
    {
        match self {
            Value::Null { .. } => true,
            _ => false,
        }
    }
}

} // verus!
