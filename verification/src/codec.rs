//! Conversions between Rust values and SQLite values.

use vstd::prelude::*;
use crate::error::{DecodeError, DecodeErrorView, EncodeError};
use crate::text::{chars_of, string_from_chars};
use crate::type_info::SqliteDataType;
use crate::value::{Value, ValueView, blob_bytes, conversion, is_conversion, value_type};

verus! {

/// An encoding failure with message `m`.
pub open spec fn encode_failed(r: core::result::Result<Value, EncodeError>, m: Seq<char>) -> bool {
    r matches Err(EncodeError::Conversion(s)) && s@ == m
}

/// Encode a single value to be sent to the database.
pub trait Encode {
    /// The value this encodes to, or the message of the conversion error.
    spec fn encoding(&self) -> core::result::Result<ValueView, Seq<char>>;

    /// Convert `self` into a [`Value`] without consuming it.
    fn encode(&self) -> (r: core::result::Result<Value, EncodeError>)
        ensures
            match self.encoding() {
                Ok(v) => r matches Ok(x) && x@ == v,
                Err(m) => encode_failed(r, m),
            },
    ;
}

/// A unit value that encodes as SQL NULL.
pub struct Null;

/// An untyped NULL.
pub open spec fn null_view() -> ValueView {
    ValueView::Null { type_info: None }
}

/// An integer without a declared type.
pub open spec fn int_view(v: int) -> ValueView {
    ValueView::Integer { value: v as i64, type_info: None }
}

impl Encode for Null {
    open spec fn encoding(&self) -> core::result::Result<ValueView, Seq<char>> {
        Ok(null_view())
    }

    fn encode(&self) -> (r: core::result::Result<Value, EncodeError>) {
        Ok(Value::Null { type_info: None })
    }
}

impl Encode for bool {
    open spec fn encoding(&self) -> core::result::Result<ValueView, Seq<char>> {
        Ok(int_view(if *self { 1 } else { 0 }))
    }

    fn encode(&self) -> (r: core::result::Result<Value, EncodeError>) {
        Ok(Value::Integer { value: if *self { 1 } else { 0 }, type_info: None })
    }
}

impl Encode for i8 {
    open spec fn encoding(&self) -> core::result::Result<ValueView, Seq<char>> {
        Ok(int_view(*self as int))
    }

    fn encode(&self) -> (r: core::result::Result<Value, EncodeError>) {
        Ok(Value::Integer { value: *self as i64, type_info: None })
    }
}

impl Encode for i16 {
    open spec fn encoding(&self) -> core::result::Result<ValueView, Seq<char>> {
        Ok(int_view(*self as int))
    }

    fn encode(&self) -> (r: core::result::Result<Value, EncodeError>) {
        Ok(Value::Integer { value: *self as i64, type_info: None })
    }
}

impl Encode for i32 {
    open spec fn encoding(&self) -> core::result::Result<ValueView, Seq<char>> {
        Ok(int_view(*self as int))
    }

    fn encode(&self) -> (r: core::result::Result<Value, EncodeError>) {
        Ok(Value::Integer { value: *self as i64, type_info: None })
    }
}

impl Encode for i64 {
    open spec fn encoding(&self) -> core::result::Result<ValueView, Seq<char>> {
        Ok(int_view(*self as int))
    }

    fn encode(&self) -> (r: core::result::Result<Value, EncodeError>) {
        Ok(Value::Integer { value: *self, type_info: None })
    }
}

impl Encode for u8 {
    open spec fn encoding(&self) -> core::result::Result<ValueView, Seq<char>> {
        Ok(int_view(*self as int))
    }

    fn encode(&self) -> (r: core::result::Result<Value, EncodeError>) {
        Ok(Value::Integer { value: *self as i64, type_info: None })
    }
}

impl Encode for u16 {
    open spec fn encoding(&self) -> core::result::Result<ValueView, Seq<char>> {
        Ok(int_view(*self as int))
    }

    fn encode(&self) -> (r: core::result::Result<Value, EncodeError>) {
        Ok(Value::Integer { value: *self as i64, type_info: None })
    }
}

impl Encode for u32 {
    open spec fn encoding(&self) -> core::result::Result<ValueView, Seq<char>> {
        Ok(int_view(*self as int))
    }

    fn encode(&self) -> (r: core::result::Result<Value, EncodeError>) {
        Ok(Value::Integer { value: *self as i64, type_info: None })
    }
}

/// The message of an unsigned value that does not fit SQLite's signed integers.
pub open spec fn unsigned_overflow_message() -> Seq<char> {
    "unsigned integer is too large for a signed 64-bit SQLite INTEGER"@
}

impl Encode for u64 {
    open spec fn encoding(&self) -> core::result::Result<ValueView, Seq<char>> {
        if *self <= i64::MAX {
            Ok(int_view(*self as int))
        } else {
            Err(unsigned_overflow_message())
        }
    }

    fn encode(&self) -> (r: core::result::Result<Value, EncodeError>) {
        if *self <= i64::MAX as u64 {
            Ok(Value::Integer { value: *self as i64, type_info: None })
        } else {
            let m = chars_of("unsigned integer is too large for a signed 64-bit SQLite INTEGER");
            Err(EncodeError::Conversion(string_from_chars(&m)))
        }
    }
}

impl Encode for usize {
    open spec fn encoding(&self) -> core::result::Result<ValueView, Seq<char>> {
        if *self <= i64::MAX {
            Ok(int_view(*self as int))
        } else {
            Err(unsigned_overflow_message())
        }
    }

    fn encode(&self) -> (r: core::result::Result<Value, EncodeError>) {
        if *self as u64 <= i64::MAX as u64 {
            Ok(Value::Integer { value: *self as i64, type_info: None })
        } else {
            let m = chars_of("unsigned integer is too large for a signed 64-bit SQLite INTEGER");
            Err(EncodeError::Conversion(string_from_chars(&m)))
        }
    }
}

impl Encode for String {
    open spec fn encoding(&self) -> core::result::Result<ValueView, Seq<char>> {
        Ok(ValueView::Text { value: self@, type_info: None })
    }

    fn encode(&self) -> (r: core::result::Result<Value, EncodeError>) {
        Ok(Value::Text { value: self.clone(), type_info: None })
    }
}

impl<'a> Encode for &'a str {
    open spec fn encoding(&self) -> core::result::Result<ValueView, Seq<char>> {
        Ok(ValueView::Text { value: (*self)@, type_info: None })
    }

    fn encode(&self) -> (r: core::result::Result<Value, EncodeError>) {
        let s: &str = *self;
        let cs = chars_of(s);
        Ok(Value::Text { value: string_from_chars(&cs), type_info: None })
    }
}

impl<'a, T: Encode> Encode for &'a T {
    open spec fn encoding(&self) -> core::result::Result<ValueView, Seq<char>> {
        (**self).encoding()
    }

    fn encode(&self) -> (r: core::result::Result<Value, EncodeError>) {
        let t: &T = *self;
        t.encode()
    }
}

impl Encode for Vec<u8> {
    open spec fn encoding(&self) -> core::result::Result<ValueView, Seq<char>> {
        Ok(ValueView::Blob { value: self@, type_info: None })
    }

    fn encode(&self) -> (r: core::result::Result<Value, EncodeError>) {
        Ok(Value::Blob { value: vstd::slice::slice_to_vec(self.as_slice()), type_info: None })
    }
}

impl<'a> Encode for &'a [u8] {
    open spec fn encoding(&self) -> core::result::Result<ValueView, Seq<char>> {
        Ok(ValueView::Blob { value: (*self)@, type_info: None })
    }

    fn encode(&self) -> (r: core::result::Result<Value, EncodeError>) {
        let s: &[u8] = *self;
        Ok(Value::Blob { value: vstd::slice::slice_to_vec(s), type_info: None })
    }
}

impl Encode for std::sync::Arc<String> {
    open spec fn encoding(&self) -> core::result::Result<ValueView, Seq<char>> {
        Ok(ValueView::Text { value: (**self)@, type_info: None })
    }

    fn encode(&self) -> (r: core::result::Result<Value, EncodeError>) {
        let s: &String = &**self;
        Ok(Value::Text { value: s.clone(), type_info: None })
    }
}

impl Encode for std::sync::Arc<Vec<u8>> {
    open spec fn encoding(&self) -> core::result::Result<ValueView, Seq<char>> {
        Ok(ValueView::Blob { value: (**self)@, type_info: None })
    }

    fn encode(&self) -> (r: core::result::Result<Value, EncodeError>) {
        let b: &Vec<u8> = &**self;
        Ok(Value::Blob { value: vstd::slice::slice_to_vec(b.as_slice()), type_info: None })
    }
}

impl<T: Encode> Encode for Option<T> {
    open spec fn encoding(&self) -> core::result::Result<ValueView, Seq<char>> {
        match self {
            Some(v) => v.encoding(),
            None => Ok(null_view()),
        }
    }

    fn encode(&self) -> (r: core::result::Result<Value, EncodeError>) {
        match self {
            Some(v) => v.encode(),
            None => Ok(Value::Null { type_info: None }),
        }
    }
}

/// `t` is not NULL and not one of the accepted declared types.
pub open spec fn incompatible(t: SqliteDataType, accepted: Seq<SqliteDataType>) -> bool {
    t != SqliteDataType::Null && !accepted.contains(t)
}

/// The error of reading `v` as an integer that must fit in the target
/// type: out of range for an integer, else as [`Value::int64`] reports it.
pub open spec fn int_range_error(v: ValueView) -> DecodeErrorView {
    match v {
        ValueView::Integer { .. } => DecodeErrorView::Conversion(
            "out of range integral type conversion attempted"@,
        ),
        ValueView::Null { .. } => DecodeErrorView::Conversion("unexpected NULL"@),
        _ => DecodeErrorView::Conversion("not an integer"@),
    }
}

/// The error of reading `v` as an `i32`, as [`Value::int32`] reports it.
pub open spec fn int32_error(v: ValueView) -> DecodeErrorView {
    match v {
        ValueView::Integer { .. } => DecodeErrorView::Conversion(
            "out of range integral type conversion attempted"@,
        ),
        ValueView::Null { .. } => DecodeErrorView::Conversion("unexpected NULL"@),
        _ => DecodeErrorView::Conversion("not an integer or out of range"@),
    }
}

/// The error of reading `v` as text of a declared type among `accepted`:
/// an incompatible declared type, else as [`Value::text`] reports it.
pub open spec fn text_error(v: ValueView, accepted: Seq<SqliteDataType>) -> DecodeErrorView {
    if incompatible(value_type(v), accepted) {
        DecodeErrorView::IncompatibleDataType(value_type(v))
    } else if v is Null {
        DecodeErrorView::Conversion("unexpected NULL"@)
    } else {
        DecodeErrorView::Conversion("not text"@)
    }
}

/// A type that can be decoded from the database.
pub trait Decode<'r>: Sized {
    /// Decoding `v` succeeds.
    spec fn decodes(v: ValueView) -> bool;

    /// `out` is what decoding `v` gives.
    spec fn decoded_as(v: ValueView, out: Self) -> bool;

    /// The error that decoding `v` gives when it fails.
    spec fn decode_error(v: ValueView) -> DecodeErrorView;

    /// Decode a new value of this type using a raw value from the database.
    fn decode(value: &'r Value) -> (r: core::result::Result<Self, DecodeError>)
        ensures
            r is Ok <==> Self::decodes(value@),
            r matches Ok(x) ==> Self::decoded_as(value@, x),
            r matches Err(e) ==> e@ == Self::decode_error(value@),
    ;
}

impl<'r> Decode<'r> for i64 {
    open spec fn decodes(v: ValueView) -> bool {
        v is Integer
    }

    open spec fn decoded_as(v: ValueView, out: Self) -> bool {
        v matches ValueView::Integer { value, .. } && out == value
    }

    open spec fn decode_error(v: ValueView) -> DecodeErrorView {
        int_range_error(v)
    }

    fn decode(value: &'r Value) -> (r: core::result::Result<Self, DecodeError>) {
        value.int64()
    }
}

impl<'r> Decode<'r> for i32 {
    open spec fn decodes(v: ValueView) -> bool {
        v matches ValueView::Integer { value, .. } && i32::MIN <= value <= i32::MAX
    }

    open spec fn decoded_as(v: ValueView, out: Self) -> bool {
        v matches ValueView::Integer { value, .. } && out == value
    }

    open spec fn decode_error(v: ValueView) -> DecodeErrorView {
        int32_error(v)
    }

    fn decode(value: &'r Value) -> (r: core::result::Result<Self, DecodeError>) {
        value.int32()
    }
}

impl<'r> Decode<'r> for bool {
    open spec fn decodes(v: ValueView) -> bool {
        !incompatible(
            value_type(v),
            seq![SqliteDataType::Bool, SqliteDataType::Int, SqliteDataType::Int64, SqliteDataType::Numeric],
        ) && (v matches ValueView::Integer { value, .. } && i32::MIN <= value <= i32::MAX)
    }

    open spec fn decoded_as(v: ValueView, out: Self) -> bool {
        v matches ValueView::Integer { value, .. } && out == (value != 0)
    }

    open spec fn decode_error(v: ValueView) -> DecodeErrorView {
        if incompatible(
            value_type(v),
            seq![SqliteDataType::Bool, SqliteDataType::Int, SqliteDataType::Int64, SqliteDataType::Numeric],
        ) {
            DecodeErrorView::IncompatibleDataType(value_type(v))
        } else {
            int32_error(v)
        }
    }

    fn decode(value: &'r Value) -> (r: core::result::Result<Self, DecodeError>) {
        let t = value.type_info();
        let accepted = match t {
            SqliteDataType::Null | SqliteDataType::Bool | SqliteDataType::Int
            | SqliteDataType::Int64 | SqliteDataType::Numeric => true,
            _ => false,
        };
        proof {
            let acc = seq![SqliteDataType::Bool, SqliteDataType::Int, SqliteDataType::Int64, SqliteDataType::Numeric];
            if accepted {
                if t != SqliteDataType::Null {
                    assert(acc.contains(t)) by {
                        if t == SqliteDataType::Bool {
                            assert(acc[0] == t);
                        } else if t == SqliteDataType::Int {
                            assert(acc[1] == t);
                        } else if t == SqliteDataType::Int64 {
                            assert(acc[2] == t);
                        } else {
                            assert(acc[3] == t);
                        }
                    }
                }
            } else {
                assert(!acc.contains(t));
            }
        }
        if !accepted {
            return Err(DecodeError::IncompatibleDataType(t));
        }
        let i = value.int32()?;
        Ok(i != 0)
    }
}

impl<'r> Decode<'r> for String {
    open spec fn decodes(v: ValueView) -> bool {
        !incompatible(value_type(v), seq![SqliteDataType::Text]) && (v is Text)
    }

    open spec fn decoded_as(v: ValueView, out: Self) -> bool {
        v matches ValueView::Text { value, .. } && out@ == value
    }

    open spec fn decode_error(v: ValueView) -> DecodeErrorView {
        text_error(v, seq![SqliteDataType::Text])
    }

    fn decode(value: &'r Value) -> (r: core::result::Result<Self, DecodeError>) {
        let t = value.type_info();
        match t {
            SqliteDataType::Null | SqliteDataType::Text => {},
            _ => {
                assert(!seq![SqliteDataType::Text].contains(t));
                return Err(DecodeError::IncompatibleDataType(t));
            },
        }
        assert(t == SqliteDataType::Null || seq![SqliteDataType::Text][0] == t);
        let s = value.text()?;
        let cs = chars_of(s);
        Ok(string_from_chars(&cs))
    }
}

impl<'r> Decode<'r> for i8 {
    open spec fn decodes(v: ValueView) -> bool {
        v matches ValueView::Integer { value, .. } && i32::MIN <= value <= i32::MAX && i8::MIN <= value
            && value <= i8::MAX
    }

    open spec fn decoded_as(v: ValueView, out: Self) -> bool {
        v matches ValueView::Integer { value, .. } && out == value
    }

    open spec fn decode_error(v: ValueView) -> DecodeErrorView {
        int32_error(v)
    }

    fn decode(value: &'r Value) -> (r: core::result::Result<Self, DecodeError>) {
        let w = value.int32()?;
        if i8::MIN as i32 <= w && w <= i8::MAX as i32 {
            Ok(w as i8)
        } else {
            Err(conversion("out of range integral type conversion attempted"))
        }
    }
}

impl<'r> Decode<'r> for i16 {
    open spec fn decodes(v: ValueView) -> bool {
        v matches ValueView::Integer { value, .. } && i32::MIN <= value <= i32::MAX && i16::MIN <= value
            && value <= i16::MAX
    }

    open spec fn decoded_as(v: ValueView, out: Self) -> bool {
        v matches ValueView::Integer { value, .. } && out == value
    }

    open spec fn decode_error(v: ValueView) -> DecodeErrorView {
        int32_error(v)
    }

    fn decode(value: &'r Value) -> (r: core::result::Result<Self, DecodeError>) {
        let w = value.int32()?;
        if i16::MIN as i32 <= w && w <= i16::MAX as i32 {
            Ok(w as i16)
        } else {
            Err(conversion("out of range integral type conversion attempted"))
        }
    }
}

impl<'r> Decode<'r> for u8 {
    open spec fn decodes(v: ValueView) -> bool {
        v matches ValueView::Integer { value, .. } && i32::MIN <= value <= i32::MAX && 0 <= value
            && value <= u8::MAX
    }

    open spec fn decoded_as(v: ValueView, out: Self) -> bool {
        v matches ValueView::Integer { value, .. } && out == value
    }

    open spec fn decode_error(v: ValueView) -> DecodeErrorView {
        int32_error(v)
    }

    fn decode(value: &'r Value) -> (r: core::result::Result<Self, DecodeError>) {
        let w = value.int32()?;
        if 0 as i32 <= w && w <= u8::MAX as i32 {
            Ok(w as u8)
        } else {
            Err(conversion("out of range integral type conversion attempted"))
        }
    }
}

impl<'r> Decode<'r> for u16 {
    open spec fn decodes(v: ValueView) -> bool {
        v matches ValueView::Integer { value, .. } && i32::MIN <= value <= i32::MAX && 0 <= value
            && value <= u16::MAX
    }

    open spec fn decoded_as(v: ValueView, out: Self) -> bool {
        v matches ValueView::Integer { value, .. } && out == value
    }

    open spec fn decode_error(v: ValueView) -> DecodeErrorView {
        int32_error(v)
    }

    fn decode(value: &'r Value) -> (r: core::result::Result<Self, DecodeError>) {
        let w = value.int32()?;
        if 0 as i32 <= w && w <= u16::MAX as i32 {
            Ok(w as u16)
        } else {
            Err(conversion("out of range integral type conversion attempted"))
        }
    }
}

impl<'r> Decode<'r> for u32 {
    open spec fn decodes(v: ValueView) -> bool {
        v matches ValueView::Integer { value, .. } && i64::MIN <= value <= i64::MAX && 0 <= value
            && value <= u32::MAX
    }

    open spec fn decoded_as(v: ValueView, out: Self) -> bool {
        v matches ValueView::Integer { value, .. } && out == value
    }

    open spec fn decode_error(v: ValueView) -> DecodeErrorView {
        int_range_error(v)
    }

    fn decode(value: &'r Value) -> (r: core::result::Result<Self, DecodeError>) {
        let w = value.int64()?;
        if 0 as i64 <= w && w <= u32::MAX as i64 {
            Ok(w as u32)
        } else {
            Err(conversion("out of range integral type conversion attempted"))
        }
    }
}

impl<'r> Decode<'r> for u64 {
    open spec fn decodes(v: ValueView) -> bool {
        v matches ValueView::Integer { value, .. } && i64::MIN <= value <= i64::MAX && 0 <= value
            && value <= i64::MAX
    }

    open spec fn decoded_as(v: ValueView, out: Self) -> bool {
        v matches ValueView::Integer { value, .. } && out == value
    }

    open spec fn decode_error(v: ValueView) -> DecodeErrorView {
        int_range_error(v)
    }

    fn decode(value: &'r Value) -> (r: core::result::Result<Self, DecodeError>) {
        let w = value.int64()?;
        if 0 <= w {
            Ok(w as u64)
        } else {
            Err(conversion("out of range integral type conversion attempted"))
        }
    }
}

impl<'r> Decode<'r> for usize {
    open spec fn decodes(v: ValueView) -> bool {
        v matches ValueView::Integer { value, .. } && i64::MIN <= value <= i64::MAX && 0 <= value
            && value <= usize::MAX
    }

    open spec fn decoded_as(v: ValueView, out: Self) -> bool {
        v matches ValueView::Integer { value, .. } && out == value
    }

    open spec fn decode_error(v: ValueView) -> DecodeErrorView {
        int_range_error(v)
    }

    fn decode(value: &'r Value) -> (r: core::result::Result<Self, DecodeError>) {
        let w = value.int64()?;
        if 0 <= w && (w as u64) <= usize::MAX as u64 {
            Ok(w as usize)
        } else {
            Err(conversion("out of range integral type conversion attempted"))
        }
    }
}

impl<'r> Decode<'r> for Vec<u8> {
    open spec fn decodes(v: ValueView) -> bool {
        !incompatible(value_type(v), seq![SqliteDataType::Blob, SqliteDataType::Text])
    }

    open spec fn decoded_as(v: ValueView, out: Self) -> bool {
        out@ == blob_bytes(v)
    }

    open spec fn decode_error(v: ValueView) -> DecodeErrorView {
        DecodeErrorView::IncompatibleDataType(value_type(v))
    }

    fn decode(value: &'r Value) -> (r: core::result::Result<Self, DecodeError>) {
        let t = value.type_info();
        match t {
            SqliteDataType::Null | SqliteDataType::Blob | SqliteDataType::Text => {},
            _ => {
                assert(!seq![SqliteDataType::Blob, SqliteDataType::Text].contains(t));
                return Err(DecodeError::IncompatibleDataType(t));
            },
        }
        assert(t == SqliteDataType::Null || seq![SqliteDataType::Blob, SqliteDataType::Text][0]
            == t || seq![SqliteDataType::Blob, SqliteDataType::Text][1] == t);
        let b = value.blob()?;
        Ok(vstd::slice::slice_to_vec(b))
    }
}

impl<'r> Decode<'r> for &'r str {
    open spec fn decodes(v: ValueView) -> bool {
        !incompatible(value_type(v), seq![SqliteDataType::Text]) && (v is Text)
    }

    open spec fn decoded_as(v: ValueView, out: Self) -> bool {
        v matches ValueView::Text { value, .. } && out@ == value
    }

    open spec fn decode_error(v: ValueView) -> DecodeErrorView {
        text_error(v, seq![SqliteDataType::Text])
    }

    fn decode(value: &'r Value) -> (r: core::result::Result<Self, DecodeError>) {
        let t = value.type_info();
        match t {
            SqliteDataType::Null | SqliteDataType::Text => {},
            _ => {
                assert(!seq![SqliteDataType::Text].contains(t));
                return Err(DecodeError::IncompatibleDataType(t));
            },
        }
        assert(t == SqliteDataType::Null || seq![SqliteDataType::Text][0] == t);
        value.text()
    }
}

impl<'r> Decode<'r> for std::sync::Arc<String> {
    open spec fn decodes(v: ValueView) -> bool {
        <String as Decode<'r>>::decodes(v)
    }

    open spec fn decoded_as(v: ValueView, out: Self) -> bool {
        <String as Decode<'r>>::decoded_as(v, *out)
    }

    open spec fn decode_error(v: ValueView) -> DecodeErrorView {
        <String as Decode<'r>>::decode_error(v)
    }

    fn decode(value: &'r Value) -> (r: core::result::Result<Self, DecodeError>) {
        let s = <String as Decode<'r>>::decode(value)?;
        Ok(std::sync::Arc::new(s))
    }
}

impl<'r> Decode<'r> for std::sync::Arc<Vec<u8>> {
    open spec fn decodes(v: ValueView) -> bool {
        <Vec<u8> as Decode<'r>>::decodes(v)
    }

    open spec fn decoded_as(v: ValueView, out: Self) -> bool {
        <Vec<u8> as Decode<'r>>::decoded_as(v, *out)
    }

    open spec fn decode_error(v: ValueView) -> DecodeErrorView {
        <Vec<u8> as Decode<'r>>::decode_error(v)
    }

    fn decode(value: &'r Value) -> (r: core::result::Result<Self, DecodeError>) {
        let b = <Vec<u8> as Decode<'r>>::decode(value)?;
        Ok(std::sync::Arc::new(b))
    }
}

impl<'r, T: Decode<'r>> Decode<'r> for Option<T> {
    open spec fn decodes(v: ValueView) -> bool {
        v is Null || T::decodes(v)
    }

    open spec fn decoded_as(v: ValueView, out: Self) -> bool {
        if v is Null {
            out is None
        } else {
            out matches Some(x) && T::decoded_as(v, x)
        }
    }

    open spec fn decode_error(v: ValueView) -> DecodeErrorView {
        T::decode_error(v)
    }

    fn decode(value: &'r Value) -> (r: core::result::Result<Self, DecodeError>) {
        if value.is_null() {
            Ok(None)
        } else {
            let x = T::decode(value)?;
            Ok(Some(x))
        }
    }
}

/// A boolean column holds an integer: an integer in the `i32` range that
/// is untyped or declared `BOOLEAN`, `INTEGER`, `INT8` or `NUMERIC` decodes
/// as a `bool`, true exactly when it is not zero.
pub proof fn lemma_bool_decodes_integers(value: i64, t: Option<SqliteDataType>)
    requires
        i32::MIN <= value <= i32::MAX,
        t matches Some(d) ==> (d == SqliteDataType::Bool || d == SqliteDataType::Int || d
            == SqliteDataType::Int64 || d == SqliteDataType::Numeric),
    ensures
        <bool as Decode<'static>>::decodes(ValueView::Integer { value, type_info: t }),
        <bool as Decode<'static>>::decoded_as(ValueView::Integer { value, type_info: t }, value != 0),
        !<bool as Decode<'static>>::decoded_as(ValueView::Integer { value, type_info: t }, value == 0),
{
    let acc = seq![SqliteDataType::Bool, SqliteDataType::Int, SqliteDataType::Int64, SqliteDataType::Numeric];
    if let Some(d) = t {
        if d == SqliteDataType::Bool {
            assert(acc[0] == d);
        } else if d == SqliteDataType::Int {
            assert(acc[1] == d);
        } else if d == SqliteDataType::Int64 {
            assert(acc[2] == d);
        } else {
            assert(acc[3] == d);
        }
    }
}

/// Round trip: every integer, boolean, string and byte vector (and every
/// `u64` that fits SQLite's signed integers) decodes, as its own type, from
/// what it encodes to, giving the same value back.
pub proof fn lemma_round_trip(
    a: i8,
    b: i16,
    c: i32,
    d: i64,
    e: u8,
    f: u16,
    g: u32,
    h: u64,
    t: bool,
    s: String,
    v: Vec<u8>,
)
    requires
        h <= i64::MAX,
    ensures
        <i8 as Decode<'static>>::decodes(a.encoding()->Ok_0) && <i8 as Decode<'static>>::decoded_as(a.encoding()->Ok_0, a),
        <i16 as Decode<'static>>::decodes(b.encoding()->Ok_0) && <i16 as Decode<'static>>::decoded_as(b.encoding()->Ok_0, b),
        <i32 as Decode<'static>>::decodes(c.encoding()->Ok_0) && <i32 as Decode<'static>>::decoded_as(c.encoding()->Ok_0, c),
        <i64 as Decode<'static>>::decodes(d.encoding()->Ok_0) && <i64 as Decode<'static>>::decoded_as(d.encoding()->Ok_0, d),
        <u8 as Decode<'static>>::decodes(e.encoding()->Ok_0) && <u8 as Decode<'static>>::decoded_as(e.encoding()->Ok_0, e),
        <u16 as Decode<'static>>::decodes(f.encoding()->Ok_0) && <u16 as Decode<'static>>::decoded_as(f.encoding()->Ok_0, f),
        <u32 as Decode<'static>>::decodes(g.encoding()->Ok_0) && <u32 as Decode<'static>>::decoded_as(g.encoding()->Ok_0, g),
        h.encoding() is Ok && <u64 as Decode<'static>>::decodes(h.encoding()->Ok_0) && <u64 as Decode<'static>>::decoded_as(h.encoding()->Ok_0, h),
        <bool as Decode<'static>>::decodes(t.encoding()->Ok_0) && <bool as Decode<'static>>::decoded_as(t.encoding()->Ok_0, t),
        <String as Decode<'static>>::decodes(s.encoding()->Ok_0) && <String as Decode<'static>>::decoded_as(s.encoding()->Ok_0, s),
        <Vec<u8> as Decode<'static>>::decodes(v.encoding()->Ok_0) && <Vec<u8> as Decode<'static>>::decoded_as(v.encoding()->Ok_0, v),
{
    assert(seq![SqliteDataType::Bool, SqliteDataType::Int, SqliteDataType::Int64, SqliteDataType::Numeric][2]
        == SqliteDataType::Int64);
    assert(seq![SqliteDataType::Text][0] == SqliteDataType::Text);
    assert(seq![SqliteDataType::Blob, SqliteDataType::Text][0] == SqliteDataType::Blob);
}

/// `None` encodes as an untyped SQL NULL, which decodes as `None`; `Some`
/// round-trips whenever its content does and does not encode as NULL.
pub proof fn lemma_option_round_trip<T: Encode + Decode<'static>>(x: Option<T>)
    requires
        x matches Some(y) ==> y.encoding() is Ok && !(y.encoding()->Ok_0 is Null) && T::decodes(
            y.encoding()->Ok_0,
        ) && T::decoded_as(y.encoding()->Ok_0, y),
    ensures
        x is None ==> x.encoding() == Ok::<ValueView, Seq<char>>(null_view()),
        <Option<T> as Decode<'static>>::decodes(x.encoding()->Ok_0),
        <Option<T> as Decode<'static>>::decoded_as(x.encoding()->Ok_0, x),
{
}

/// An `int8` vector stored as a BLOB.
///
/// sqlite-vec requires an explicit SQL wrapper to set the subtype for int8
/// vectors. Use `vec_int8(?)` around bound parameters.
#[derive(Debug, Clone, PartialEq, Eq)]
pub struct VecInt8(pub Vec<i8>);

/// A packed bit vector stored as a BLOB.
///
/// sqlite-vec requires an explicit SQL wrapper to set the subtype for bit
/// vectors. Use `vec_bit(?)` around bound parameters.
#[derive(Debug, Clone, PartialEq, Eq)]
pub struct VecBit(pub Vec<u8>);

/// The two's-complement bytes of signed bytes.
pub open spec fn i8_bytes(v: Seq<i8>) -> Seq<u8> {
    v.map_values(|x: i8| x as u8)
}

/// The signed bytes of raw bytes.
pub open spec fn bytes_i8(v: Seq<u8>) -> Seq<i8> {
    v.map_values(|x: u8| x as i8)
}

/// `bytemuck::cast_slice::<i8, u8>`: reinterprets each signed byte as the
/// unsigned byte with the same bits; the contract claims exactly that, element
/// by element, and the same length.
#[verifier::external_body]
fn cast_i8_to_u8(v: &[i8]) -> (r: Vec<u8>)
    ensures
        r@ == i8_bytes(v@),
{
    bytemuck::cast_slice::<i8, u8>(v).to_vec()
}

impl Encode for VecInt8 {
    open spec fn encoding(&self) -> core::result::Result<ValueView, Seq<char>> {
        Ok(ValueView::Blob { value: i8_bytes(self.0@), type_info: None })
    }

    fn encode(&self) -> (r: core::result::Result<Value, EncodeError>) {
        Ok(Value::Blob { value: cast_i8_to_u8(self.0.as_slice()), type_info: None })
    }
}

impl<'r> Decode<'r> for VecInt8 {
    open spec fn decodes(v: ValueView) -> bool {
        !incompatible(value_type(v), seq![SqliteDataType::Blob])
    }

    open spec fn decoded_as(v: ValueView, out: Self) -> bool {
        out.0@ == bytes_i8(blob_bytes(v))
    }

    open spec fn decode_error(v: ValueView) -> DecodeErrorView {
        DecodeErrorView::IncompatibleDataType(value_type(v))
    }

    fn decode(value: &'r Value) -> (r: core::result::Result<Self, DecodeError>) {
        let t = value.type_info();
        match t {
            SqliteDataType::Null | SqliteDataType::Blob => {},
            _ => {
                assert(!seq![SqliteDataType::Blob].contains(t));
                return Err(DecodeError::IncompatibleDataType(t));
            },
        }
        assert(t == SqliteDataType::Null || seq![SqliteDataType::Blob][0] == t);
        let b = value.blob()?;
        let mut out: Vec<i8> = Vec::new();
        let mut k: usize = 0;
        while k < b.len()
            invariant
                k <= b.len(),
                out@ == bytes_i8(b@.take(k as int)),
            decreases b.len() - k,
        {
            out.push(b[k] as i8);
            k = k + 1;
            assert(bytes_i8(b@.take(k as int)) =~= bytes_i8(b@.take(k - 1)).push(b@[k - 1] as i8));
        }
        assert(b@.take(b.len() as int) =~= b@);
        Ok(VecInt8(out))
    }
}

impl Encode for VecBit {
    open spec fn encoding(&self) -> core::result::Result<ValueView, Seq<char>> {
        Ok(ValueView::Blob { value: self.0@, type_info: None })
    }

    fn encode(&self) -> (r: core::result::Result<Value, EncodeError>) {
        Ok(Value::Blob { value: vstd::slice::slice_to_vec(self.0.as_slice()), type_info: None })
    }
}

impl<'r> Decode<'r> for VecBit {
    open spec fn decodes(v: ValueView) -> bool {
        !incompatible(value_type(v), seq![SqliteDataType::Blob])
    }

    open spec fn decoded_as(v: ValueView, out: Self) -> bool {
        out.0@ == blob_bytes(v)
    }

    open spec fn decode_error(v: ValueView) -> DecodeErrorView {
        DecodeErrorView::IncompatibleDataType(value_type(v))
    }

    fn decode(value: &'r Value) -> (r: core::result::Result<Self, DecodeError>) {
        let t = value.type_info();
        match t {
            SqliteDataType::Null | SqliteDataType::Blob => {},
            _ => {
                assert(!seq![SqliteDataType::Blob].contains(t));
                return Err(DecodeError::IncompatibleDataType(t));
            },
        }
        assert(t == SqliteDataType::Null || seq![SqliteDataType::Blob][0] == t);
        let b = value.blob()?;
        Ok(VecBit(vstd::slice::slice_to_vec(b)))
    }
}

/// Round trip: a signed-byte vector decodes back to itself after encoding.
pub proof fn lemma_vec_int8_round_trip(v: Seq<i8>)
    ensures
        bytes_i8(i8_bytes(v)) == v,
{
    assert forall|k: int| 0 <= k < v.len() implies #[trigger] bytes_i8(i8_bytes(v))[k] == v[k] by {
        let x = v[k];
        assert((x as u8) as i8 == x) by (bit_vector);
    }
    assert(bytes_i8(i8_bytes(v)) =~= v);
}

} // verus!
