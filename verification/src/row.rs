//! Result rows: their values, column metadata and typed access.

use vstd::prelude::*;
use crate::codec::Decode;
use crate::error::{Error, Result};
use crate::function::Column;
use crate::text::{chars_of, decimal, push_decimal, range_eq, string_from_chars};
use crate::type_info::SqliteDataType;
use crate::value::{Value, ValueView};

verus! {

/// A column of the current row as SQLite reports it.
#[derive(Debug)]
pub enum ColumnCell {
    /// `SQLITE_NULL`.
    Null,
    /// `SQLITE_INTEGER`.
    Integer(i64),
    /// `SQLITE_FLOAT`, as the bit pattern of the `f64`.
    Float(u64),
    /// `SQLITE_TEXT`, already checked to be UTF-8.
    Text(String),
    /// `SQLITE_BLOB`.
    Blob(Vec<u8>),
    /// Any other storage class code.
    Unknown(i32),
}

/// The type information a value carries for a column declared as `t`:
/// none for an undeclared (NULL) column type.
pub open spec fn declared_info(t: SqliteDataType) -> Option<SqliteDataType> {
    if t == SqliteDataType::Null {
        None
    } else {
        Some(t)
    }
}

/// The value of a cell in a column declared as `t`; `None` for an unknown
/// storage class.
pub open spec fn cell_value(cell: ColumnCell, t: SqliteDataType) -> Option<ValueView> {
    let ti = declared_info(t);
    match cell {
        ColumnCell::Null => Some(ValueView::Null { type_info: ti }),
        ColumnCell::Integer(v) => Some(ValueView::Integer { value: v, type_info: ti }),
        ColumnCell::Float(b) => Some(ValueView::Double { bits: b, type_info: ti }),
        ColumnCell::Text(s) => Some(ValueView::Text { value: s@, type_info: ti }),
        ColumnCell::Blob(b) => Some(ValueView::Blob { value: b@, type_info: ti }),
        ColumnCell::Unknown(_) => None,
    }
}

/// One row of a query result.
#[derive(Debug)]
pub struct Row {
    /// Values for each column in the row.
    pub values: Vec<Value>,
    /// Column metadata.
    pub columns: Vec<Column>,
    /// Column names and their indices.
    pub column_names: Vec<(String, usize)>,
}

/// The name given to column `index`: the first name that maps to it, or
/// `unknown`.
pub open spec fn column_name_of(names: Seq<(Seq<char>, usize)>, index: usize) -> Seq<char>
    decreases names.len(),
{
    if names.len() == 0 {
        "unknown"@
    } else if names[0].1 == index {
        names[0].0
    } else {
        column_name_of(names.drop_first(), index)
    }
}

/// The index of the first column named `name`.
pub open spec fn column_index_of(names: Seq<(Seq<char>, usize)>, name: Seq<char>) -> Option<usize>
    decreases names.len(),
{
    if names.len() == 0 {
        None
    } else if names[0].0 == name {
        Some(names[0].1)
    } else {
        column_index_of(names.drop_first(), name)
    }
}

/// The character view of column names.
pub open spec fn names_view(names: Seq<(String, usize)>) -> Seq<(Seq<char>, usize)> {
    names.map_values(|p: (String, usize)| (p.0@, p.1))
}

/// The outcome of decoding column `index` of a row with these values and
/// column names as a `T`.
pub open spec fn decoded_column<'r, T: Decode<'r>>(
    values: Seq<ValueView>,
    names: Seq<(Seq<char>, usize)>,
    index: usize,
    r: Result<T>,
) -> bool {
    if index >= values.len() {
        r matches Err(Error::ColumnIndexOutOfBounds { index: i, len }) && i == index && len
            == values.len()
    } else {
        &&& (r is Ok <==> T::decodes(values[index as int]))
        &&& r matches Ok(x) ==> T::decoded_as(values[index as int], x)
        &&& r is Err ==> (r matches Err(Error::ColumnDecode { index: s, column_name, value, source })
            && s@ == decimal(index as nat) && column_name@ == column_name_of(names, index)
            && value@ == values[index as int] && source@ == T::decode_error(values[index as int]))
    }
}

impl Row {
    /// The values of the row.
    pub open spec fn value_views(&self) -> Seq<ValueView> {
        self.values@.map_values(|v: Value| v@)
    }

    /// Build the row from the cells of the current statement position and
    /// the column metadata; an unknown storage class is an error.
    pub fn current(cells: Vec<ColumnCell>, columns: Vec<Column>, column_names: Vec<(String, usize)>) -> (r: Result<Row>)
        requires
            cells@.len() == columns@.len(),
        ensures
            (exists|i: int| 0 <= i < cells@.len() && #[trigger] cell_value(cells@[i], columns@[i].type_info) is None)
                ==> r matches Err(Error::UnknownColumnType(_)),
            forall|i: int|
                0 <= i < cells@.len() && #[trigger] cells@[i] is Unknown && (forall|j: int|
                    0 <= j < i ==> !(cells@[j] is Unknown)) ==> (r matches Err(
                    Error::UnknownColumnType(c),
                ) && c == cells@[i]->Unknown_0),
            (forall|i: int| 0 <= i < cells@.len() ==> #[trigger] cell_value(cells@[i], columns@[i].type_info) is Some)
                ==> (r matches Ok(row) && row.columns@ == columns@ && row.column_names@ == column_names@
                && row.value_views().len() == cells@.len()
                && forall|i: int| 0 <= i < cells@.len() ==> Some(#[trigger] row.value_views()[i])
                    == cell_value(cells@[i], columns@[i].type_info)),
    {
        let ghost cs = cells@;
        let n = cells.len();
        let mut values: Vec<Value> = Vec::new();
        let mut rest = cells;
        let mut i: usize = 0;
        while rest.len() > 0
            invariant
                i + rest@.len() == cs.len(),
                cs.len() == n,
                cs == cells@,
                rest@ == cs.skip(i as int),
                cs.len() == columns@.len(),
                values@.len() == i,
                forall|j: int| 0 <= j < i ==> #[trigger] cell_value(cs[j], columns@[j].type_info) is Some,
                forall|j: int| 0 <= j < i ==> Some((#[trigger] values@[j])@) == cell_value(cs[j], columns@[j].type_info),
            decreases rest@.len(),
        {
            let cell = rest.remove(0);
            assert(cell == cs[i as int]);
            assert(rest@ =~= cs.skip(i + 1));
            let t = columns[i].type_info;
            let ti = if t == SqliteDataType::Null {
                None
            } else {
                Some(t)
            };
            let v = match cell {
                ColumnCell::Null => Value::Null { type_info: ti },
                ColumnCell::Integer(value) => Value::Integer { value, type_info: ti },
                ColumnCell::Float(bits) => Value::Double { bits, type_info: ti },
                ColumnCell::Text(value) => Value::Text { value, type_info: ti },
                ColumnCell::Blob(value) => Value::Blob { value, type_info: ti },
                ColumnCell::Unknown(code) => {
                    assert(cell_value(cs[i as int], columns@[i as int].type_info) is None);
                    assert forall|k: int|
                        0 <= k < cs.len() && #[trigger] cs[k] is Unknown && (forall|j: int|
                            0 <= j < k ==> !(cs[j] is Unknown)) implies k == i by {
                        if k < i {
                            assert(cell_value(cs[k], columns@[k].type_info) is Some);
                        }
                    }
                    return Err(Error::UnknownColumnType(code));
                },
            };
            values.push(v);
            i = i + 1;
        }
        assert forall|k: int| 0 <= k < cs.len() implies !(#[trigger] cs[k] is Unknown) by {
            assert(cell_value(cs[k], columns@[k].type_info) is Some);
        }
        let row = Row { values, columns, column_names };
        assert forall|j: int| 0 <= j < cs.len() implies Some(#[trigger] row.value_views()[j])
            == cell_value(cs[j], row.columns@[j].type_info) by {
            assert(row.value_views()[j] == row.values@[j]@);
        }
        Ok(row)
    }

    /// Returns `true` if this row has no columns.
    pub fn is_empty(&self) -> (r: bool)
        ensures
            r == (self.columns@.len() == 0),
    {
        self.columns.len() == 0
    }

    /// The name of column `index` for error reports.
    fn name_of(&self, index: usize) -> (r: String)
        ensures
            r@ == column_name_of(names_view(self.column_names@), index),
    {
        let ghost nv = names_view(self.column_names@);
        let mut k: usize = 0;
        assert(nv.skip(0) =~= nv);
        while k < self.column_names.len()
            invariant
                k <= self.column_names@.len(),
                nv == names_view(self.column_names@),
                column_name_of(nv, index) == column_name_of(nv.skip(k as int), index),
            decreases self.column_names@.len() - k,
        {
            assert(nv.skip(k as int).drop_first() =~= nv.skip(k + 1));
            assert(nv.skip(k as int)[0] == (self.column_names@[k as int].0@, self.column_names@[k as int].1));
            if self.column_names[k].1 == index {
                return self.column_names[k].0.clone();
            }
            k = k + 1;
        }
        let chars = chars_of("unknown");
        string_from_chars(&chars)
    }

    /// Get a single value from the row by column index.
    pub fn get_value_idx<'r, T: Decode<'r>>(&'r self, index: usize) -> (r: Result<T>)
        ensures
            decoded_column(self.value_views(), names_view(self.column_names@), index, r),
    {
        if index >= self.values.len() {
            return Err(Error::ColumnIndexOutOfBounds { index, len: self.values.len() });
        }
        let value = &self.values[index];
        match T::decode(value) {
            Ok(x) => Ok(x),
            Err(source) => {
                let mut s = String::new();
                push_decimal(&mut s, index);
                Err(
                    Error::ColumnDecode {
                        index: s,
                        column_name: self.name_of(index),
                        value: value.duplicate(),
                        source,
                    },
                )
            },
        }
    }

    /// Get a single value from the row by column name.
    pub fn get_value<'r, T: Decode<'r>>(&'r self, column: &str) -> (r: Result<T>)
        ensures
            match column_index_of(names_view(self.column_names@), column@) {
                None => r matches Err(Error::ColumnNotFound(s)) && s@ == column@,
                Some(index) => decoded_column(
                    self.value_views(),
                    names_view(self.column_names@),
                    index,
                    r,
                ),
            },
    {
        let ghost nv = names_view(self.column_names@);
        let key = chars_of(column);
        let mut k: usize = 0;
        assert(nv.skip(0) =~= nv);
        while k < self.column_names.len()
            invariant
                k <= self.column_names@.len(),
                nv == names_view(self.column_names@),
                key@ == column@,
                column_index_of(nv, column@) == column_index_of(nv.skip(k as int), column@),
            decreases self.column_names@.len() - k,
        {
            assert(nv.skip(k as int).drop_first() =~= nv.skip(k + 1));
            assert(nv.skip(k as int)[0] == (self.column_names@[k as int].0@, self.column_names@[k as int].1));
            let name = chars_of(self.column_names[k].0.as_str());
            if range_eq(&name, 0, name.len(), &key) {
                assert(name@.subrange(0, name@.len() as int) =~= name@);
                return self.get_value_idx(self.column_names[k].1);
            }
            assert(name@.subrange(0, name@.len() as int) =~= name@);
            k = k + 1;
        }
        Err(Error::ColumnNotFound(string_from_chars(&key)))
    }
}

} // verus!
