//! User-defined scalar functions, collations and change hooks: their SQLite
//! flags and codes.

use vstd::prelude::*;
use crate::row::ColumnCell;
use crate::type_info::SqliteDataType;
use crate::value::{Value, ValueView};

verus! {

/// Flags for a user-defined scalar function.
///
/// `direct_only` is the default. With trusted schema off, only an
/// `innocuous` function may appear in an index, view, or trigger.
#[derive(Debug, Clone, Copy, PartialEq, Eq, Structural)]
pub struct FunctionFlags {
    /// SQLite may assume the function is deterministic.
    pub deterministic: bool,
    /// The function may not run from schema objects such as indexes.
    pub direct_only: bool,
    /// The function is safe to use in schema objects when trusted schema is off.
    pub innocuous: bool,
}

impl Default for FunctionFlags {
    fn default() -> (r: FunctionFlags)
        ensures
            r == (FunctionFlags { deterministic: false, direct_only: true, innocuous: false }),
    {
        FunctionFlags { deterministic: false, direct_only: true, innocuous: false }
    }
}

/// The SQLite `eTextRep` flags of a function: `SQLITE_UTF8`, plus
/// `SQLITE_DETERMINISTIC`, `SQLITE_DIRECTONLY` and `SQLITE_INNOCUOUS` for
/// the flags that are set.
pub open spec fn function_flags_spec(f: FunctionFlags) -> i32 {
    (1 + (if f.deterministic {
        2048int
    } else {
        0int
    }) + (if f.direct_only {
        524288int
    } else {
        0int
    }) + (if f.innocuous {
        2097152int
    } else {
        0int
    })) as i32
}

impl FunctionFlags {
    /// SQLite `eTextRep` flags for this function.
    pub fn sqlite_flags(self) -> (r: i32)
        ensures
            r == function_flags_spec(self),
    {
        let mut flags: i32 = 1;
        if self.deterministic {
            assert(flags | 2048i32 == flags + 2048) by (bit_vector)
                requires
                    flags == 1i32,
            ;
            flags = flags | 2048;
        }
        if self.direct_only {
            assert(flags | 524288i32 == flags + 524288) by (bit_vector)
                requires
                    flags == 1i32 || flags == 2049i32,
            ;
            flags = flags | 524288;
        }
        if self.innocuous {
            assert(flags | 2097152i32 == flags + 2097152) by (bit_vector)
                requires
                    flags == 1i32 || flags == 2049i32 || flags == 524289i32 || flags == 526337i32,
            ;
            flags = flags | 2097152;
        }
        flags
    }
}

/// The lexicographic comparison of two byte strings: negative, zero or
/// positive as `a` sorts before, equal to, or after `b`.
pub open spec fn byte_order(a: Seq<u8>, b: Seq<u8>) -> int
    decreases a.len(),
{
    if a.len() == 0 && b.len() == 0 {
        0
    } else if a.len() == 0 {
        -1
    } else if b.len() == 0 {
        1
    } else if a[0] < b[0] {
        -1
    } else if a[0] > b[0] {
        1
    } else {
        byte_order(a.drop_first(), b.drop_first())
    }
}

/// Compare two byte strings lexicographically, as a collation result:
/// `-1`, `0` or `1`. This is how texts that are not valid UTF-8 are
/// collated.
pub fn compare_bytes(a: &[u8], b: &[u8]) -> (r: i32)
    ensures
        r == byte_order(a@, b@),
{
    let mut k: usize = 0;
    assert(a@.skip(0) =~= a@);
    assert(b@.skip(0) =~= b@);
    while k < a.len() && k < b.len()
        invariant
            k <= a@.len(),
            k <= b@.len(),
            byte_order(a@, b@) == byte_order(a@.skip(k as int), b@.skip(k as int)),
        decreases a@.len() - k,
    {
        let x = a[k];
        let y = b[k];
        assert(a@.skip(k as int)[0] == x);
        assert(b@.skip(k as int)[0] == y);
        if x < y {
            return -1;
        }
        if x > y {
            return 1;
        }
        assert(a@.skip(k as int).drop_first() =~= a@.skip(k + 1));
        assert(b@.skip(k as int).drop_first() =~= b@.skip(k + 1));
        k = k + 1;
    }
    if a.len() == b.len() {
        0
    } else if k == a.len() {
        -1
    } else {
        1
    }
}

/// Comparing a byte string with itself gives equality, and swapping the
/// operands flips the sign.
pub proof fn lemma_byte_order_antisymmetric(a: Seq<u8>, b: Seq<u8>)
    ensures
        byte_order(a, a) == 0,
        byte_order(a, b) == -byte_order(b, a),
        byte_order(a, b) == 0 <==> a == b,
    decreases a.len(),
{
    if a.len() > 0 {
        lemma_byte_order_antisymmetric(a.drop_first(), a.drop_first());
    }
    if a.len() > 0 && b.len() > 0 {
        lemma_byte_order_antisymmetric(a.drop_first(), b.drop_first());
        if a[0] == b[0] && a.drop_first() == b.drop_first() {
            assert(a =~= seq![a[0]] + a.drop_first());
            assert(b =~= seq![b[0]] + b.drop_first());
        }
    }
    if a.len() == 0 && b.len() == 0 {
        assert(a =~= b);
    }
}

/// The value of a function argument that SQLite reports as `cell`: it
/// carries no declared type, and an unknown storage class reads as NULL.
pub open spec fn argument_view(cell: ColumnCell) -> ValueView {
    match cell {
        ColumnCell::Integer(v) => ValueView::Integer { value: v, type_info: None },
        ColumnCell::Float(b) => ValueView::Double { bits: b, type_info: None },
        ColumnCell::Text(s) => ValueView::Text { value: s@, type_info: None },
        ColumnCell::Blob(b) => ValueView::Blob { value: b@, type_info: None },
        _ => ValueView::Null { type_info: None },
    }
}

/// Converts one argument of a user-defined function call to a [`Value`].
pub fn argument_value(cell: ColumnCell) -> (v: Value)
    ensures
        v@ == argument_view(cell),
{
    match cell {
        ColumnCell::Integer(value) => Value::Integer { value, type_info: None },
        ColumnCell::Float(bits) => Value::Double { bits, type_info: None },
        ColumnCell::Text(value) => Value::Text { value, type_info: None },
        ColumnCell::Blob(value) => Value::Blob { value, type_info: None },
        ColumnCell::Null => Value::Null { type_info: None },
        ColumnCell::Unknown(_) => Value::Null { type_info: None },
    }
}

/// A row change kind delivered by the update hook.
#[derive(Debug, Clone, Copy, PartialEq, Eq, Structural)]
pub enum UpdateOp {
    /// `INSERT`.
    Insert,
    /// `UPDATE`.
    Update,
    /// `DELETE`.
    Delete,
}

/// One row change delivered by the update hook.
#[derive(Debug, Clone)]
pub struct UpdateEvent {
    /// Insert, update, or delete.
    pub op: UpdateOp,
    /// Database name, usually `main`.
    pub database: String,
    /// Table name.
    pub table: String,
    /// Rowid of the changed row.
    pub rowid: i64,
}

/// The change kind of an update-hook operation code (`SQLITE_INSERT`,
/// `SQLITE_UPDATE`, `SQLITE_DELETE`); other codes are ignored.
pub fn update_op(op: i32) -> (r: Option<UpdateOp>)
    ensures
        op == 18 ==> r == Some(UpdateOp::Insert),
        op == 23 ==> r == Some(UpdateOp::Update),
        op == 9 ==> r == Some(UpdateOp::Delete),
        op != 18 && op != 23 && op != 9 ==> r is None,
{
    if op == 18 {
        Some(UpdateOp::Insert)
    } else if op == 23 {
        Some(UpdateOp::Update)
    } else if op == 9 {
        Some(UpdateOp::Delete)
    } else {
        None
    }
}

/// Metadata about a result column.
#[derive(Debug, Clone)]
pub struct Column {
    /// Declared or inferred SQLite type information.
    pub type_info: SqliteDataType,
}

impl Column {
    /// The column's type information.
    pub fn type_info(&self) -> (r: SqliteDataType)
        ensures
            r == self.type_info,
    {
        self.type_info
    }
}

} // verus!
