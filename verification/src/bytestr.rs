//! Byte strings of the `bstr` crate stored as BLOBs.

use vstd::prelude::*;
use bstr::{BStr, BString};
use crate::codec::{Decode, Encode, incompatible};
use crate::error::{DecodeError, DecodeErrorView, EncodeError};
use crate::type_info::SqliteDataType;
use crate::value::{Value, ValueView, blob_bytes, value_type};

verus! {

/// The owned byte string of the `bstr` crate.
#[verifier::external_type_specification]
#[verifier::external_body]
pub struct ExBString(BString);

/// The borrowed byte string of the `bstr` crate.
#[verifier::external_type_specification]
#[verifier::external_body]
pub struct ExBStr(BStr);

/// The bytes an owned byte string holds.
pub uninterp spec fn bstring_bytes(b: BString) -> Seq<u8>;

/// The bytes a borrowed byte string holds.
pub uninterp spec fn bstr_bytes(b: &BStr) -> Seq<u8>;

/// `BString::from(Vec<u8>)`: a byte string holding exactly these bytes.
#[verifier::external_body]
fn bstring_from_vec(v: Vec<u8>) -> (r: BString)
    ensures
        bstring_bytes(r) == v@,
{
    BString::from(v)
}

/// `<BString as AsRef<[u8]>>::as_ref`: the bytes of an owned byte string.
#[verifier::external_body]
fn bstring_as_bytes(b: &BString) -> (r: &[u8])
    ensures
        r@ == bstring_bytes(*b),
{
    AsRef::<[u8]>::as_ref(b)
}

/// `<BStr as AsRef<[u8]>>::as_ref`: the bytes of a borrowed byte string.
#[verifier::external_body]
fn bstr_as_bytes(b: &BStr) -> (r: &[u8])
    ensures
        r@ == bstr_bytes(b),
{
    AsRef::<[u8]>::as_ref(b)
}

impl Encode for BStr {
    open spec fn encoding(&self) -> core::result::Result<ValueView, Seq<char>> {
        Ok(ValueView::Blob { value: bstr_bytes(self), type_info: None })
    }

    fn encode(&self) -> (r: core::result::Result<Value, EncodeError>) {
        Ok(Value::Blob { value: vstd::slice::slice_to_vec(bstr_as_bytes(self)), type_info: None })
    }
}

impl Encode for BString {
    open spec fn encoding(&self) -> core::result::Result<ValueView, Seq<char>> {
        Ok(ValueView::Blob { value: bstring_bytes(*self), type_info: None })
    }

    fn encode(&self) -> (r: core::result::Result<Value, EncodeError>) {
        Ok(Value::Blob { value: vstd::slice::slice_to_vec(bstring_as_bytes(self)), type_info: None })
    }
}

impl<'r> Decode<'r> for BString {
    open spec fn decodes(v: ValueView) -> bool {
        !incompatible(value_type(v), seq![SqliteDataType::Blob, SqliteDataType::Text])
    }

    open spec fn decoded_as(v: ValueView, out: Self) -> bool {
        bstring_bytes(out) == blob_bytes(v)
    }

    open spec fn decode_error(v: ValueView) -> DecodeErrorView {
        DecodeErrorView::IncompatibleDataType(value_type(v))
    }

    fn decode(value: &'r Value) -> (r: core::result::Result<Self, DecodeError>) {
        let t = value.type_info();
        match t {
            SqliteDataType::Null | SqliteDataType::Blob | SqliteDataType::Text => {},
            _ => {
                assert(!seq![SqliteDataType::Blob, SqliteDataType::Text].contains(t));
                return Err(DecodeError::IncompatibleDataType(t));
            },
        }
        assert(t == SqliteDataType::Null || seq![SqliteDataType::Blob, SqliteDataType::Text][0]
            == t || seq![SqliteDataType::Blob, SqliteDataType::Text][1] == t);
        let b = value.blob()?;
        Ok(bstring_from_vec(vstd::slice::slice_to_vec(b)))
    }
}

} // verus!
