//! Declared-type affinity of SQLite columns.

use vstd::prelude::*;
use crate::text::{ascii_lower_seq, chars_eq, chars_of, lower_chars, occurs_at, occurs_in, occurs_in_exec};

verus! {

/// Fundamental datatype code `SQLITE_INTEGER` of the SQLite C interface.
pub const SQLITE_INTEGER: i32 = 1;
/// Fundamental datatype code `SQLITE_FLOAT`.
pub const SQLITE_FLOAT: i32 = 2;
/// Fundamental datatype code `SQLITE_TEXT`.
pub const SQLITE_TEXT: i32 = 3;
/// Fundamental datatype code `SQLITE_BLOB`.
pub const SQLITE_BLOB: i32 = 4;
/// Fundamental datatype code `SQLITE_NULL`.
pub const SQLITE_NULL: i32 = 5;

/// Data types supported by SQLite.
#[derive(Debug, Copy, Clone, PartialEq, Eq, Hash, Structural)]
#[non_exhaustive]
pub enum SqliteDataType {
    /// NULL value.
    Null,
    /// Integer value.
    Int,
    /// Floating-point value.
    Float,
    /// Text value.
    Text,
    /// Blob value.
    Blob,
    /// Values that follow SQLite's `NUMERIC` affinity.
    Numeric,
    /// Boolean value.
    Bool,
    /// 64-bit integer value.
    Int64,
    /// Date value.
    Date,
    /// Time value.
    Time,
    /// Datetime value.
    Datetime,
}

/// The canonical SQLite name of each type.
pub open spec fn canonical_name(t: SqliteDataType) -> Seq<char> {
    match t {
        SqliteDataType::Null => seq!['N', 'U', 'L', 'L'],
        SqliteDataType::Text => seq!['T', 'E', 'X', 'T'],
        SqliteDataType::Float => seq!['R', 'E', 'A', 'L'],
        SqliteDataType::Blob => seq!['B', 'L', 'O', 'B'],
        SqliteDataType::Int | SqliteDataType::Int64 => seq!['I', 'N', 'T', 'E', 'G', 'E', 'R'],
        SqliteDataType::Numeric => seq!['N', 'U', 'M', 'E', 'R', 'I', 'C'],
        SqliteDataType::Bool => seq!['B', 'O', 'O', 'L', 'E', 'A', 'N'],
        SqliteDataType::Date => seq!['D', 'A', 'T', 'E'],
        SqliteDataType::Time => seq!['T', 'I', 'M', 'E'],
        SqliteDataType::Datetime => seq!['D', 'A', 'T', 'E', 'T', 'I', 'M', 'E'],
    }
}

/// SQLite's affinity rules applied to an already lower-cased declared type name
/// (<https://www.sqlite.org/datatype3.html#affname>), with the non-standard
/// exact names checked first.
pub open spec fn affinity_of_lower(l: Seq<char>) -> Option<SqliteDataType> {
    if l == seq!['i', 'n', 't', '4'] {
        Some(SqliteDataType::Int)
    } else if l == seq!['i', 'n', 't', '8'] {
        Some(SqliteDataType::Int64)
    } else if l == seq!['b', 'o', 'o', 'l', 'e', 'a', 'n'] || l == seq!['b', 'o', 'o', 'l'] {
        Some(SqliteDataType::Bool)
    } else if l == seq!['d', 'a', 't', 'e'] {
        Some(SqliteDataType::Date)
    } else if l == seq!['t', 'i', 'm', 'e'] {
        Some(SqliteDataType::Time)
    } else if l == seq!['d', 'a', 't', 'e', 't', 'i', 'm', 'e'] || l == seq![
        't',
        'i',
        'm',
        'e',
        's',
        't',
        'a',
        'm',
        'p',
    ] {
        Some(SqliteDataType::Datetime)
    } else if occurs_in(l, seq!['i', 'n', 't']) {
        Some(SqliteDataType::Int64)
    } else if occurs_in(l, seq!['c', 'h', 'a', 'r']) || occurs_in(l, seq!['c', 'l', 'o', 'b'])
        || occurs_in(l, seq!['t', 'e', 'x', 't']) {
        Some(SqliteDataType::Text)
    } else if occurs_in(l, seq!['b', 'l', 'o', 'b']) {
        Some(SqliteDataType::Blob)
    } else if occurs_in(l, seq!['r', 'e', 'a', 'l']) || occurs_in(l, seq!['f', 'l', 'o', 'a'])
        || occurs_in(l, seq!['d', 'o', 'u', 'b']) {
        Some(SqliteDataType::Float)
    } else if occurs_in(l, seq!['n', 'u', 'm']) || occurs_in(l, seq!['d', 'e', 'c']) {
        Some(SqliteDataType::Numeric)
    } else {
        None
    }
}

/// The data type a declared type name maps to, compared case-insensitively.
pub open spec fn affinity_of(s: Seq<char>) -> Option<SqliteDataType> {
    affinity_of_lower(ascii_lower_seq(s))
}

/// The data type of a fundamental SQLite datatype code.
pub open spec fn type_of_code(code: i32) -> Option<SqliteDataType> {
    if code == SQLITE_INTEGER {
        Some(SqliteDataType::Int)
    } else if code == SQLITE_FLOAT {
        Some(SqliteDataType::Float)
    } else if code == SQLITE_BLOB {
        Some(SqliteDataType::Blob)
    } else if code == SQLITE_NULL {
        Some(SqliteDataType::Null)
    } else if code == SQLITE_TEXT {
        Some(SqliteDataType::Text)
    } else {
        None
    }
}

impl SqliteDataType {
    /// Returns `true` if this is the NULL type.
    pub fn is_null(&self) -> (r: bool)
        ensures
            r == (*self == SqliteDataType::Null),
    {
        match self {
            SqliteDataType::Null => true,
            _ => false,
        }
    }

    /// Return the canonical SQLite type name.
    pub fn name(&self) -> (r: &'static str)
        ensures
            r@ == canonical_name(*self),
    {
        proof {
            reveal_strlit("NULL");
            reveal_strlit("TEXT");
            reveal_strlit("REAL");
            reveal_strlit("BLOB");
            reveal_strlit("INTEGER");
            reveal_strlit("NUMERIC");
            reveal_strlit("BOOLEAN");
            reveal_strlit("DATE");
            reveal_strlit("TIME");
            reveal_strlit("DATETIME");
        }
        match self {
            SqliteDataType::Null => "NULL",
            SqliteDataType::Text => "TEXT",
            SqliteDataType::Float => "REAL",
            SqliteDataType::Blob => "BLOB",
            SqliteDataType::Int | SqliteDataType::Int64 => "INTEGER",
            SqliteDataType::Numeric => "NUMERIC",
            SqliteDataType::Bool => "BOOLEAN",
            SqliteDataType::Date => "DATE",
            SqliteDataType::Time => "TIME",
            SqliteDataType::Datetime => "DATETIME",
        }
    }

    /// Parse a declared SQL type name using SQLite affinity rules.
    ///
    /// See <https://www.sqlite.org/datatype3.html#affname>.
    pub fn from_str(s: &str) -> (r: Option<SqliteDataType>)
        ensures
            r == affinity_of(s@),
    {
        let chars = chars_of(s);
        let l = lower_chars(&chars);
        if chars_eq(&l, &['i', 'n', 't', '4']) {
            Some(SqliteDataType::Int)
        } else if chars_eq(&l, &['i', 'n', 't', '8']) {
            Some(SqliteDataType::Int64)
        } else if chars_eq(&l, &['b', 'o', 'o', 'l', 'e', 'a', 'n']) || chars_eq(&l, &['b', 'o', 'o', 'l']) {
            Some(SqliteDataType::Bool)
        } else if chars_eq(&l, &['d', 'a', 't', 'e']) {
            Some(SqliteDataType::Date)
        } else if chars_eq(&l, &['t', 'i', 'm', 'e']) {
            Some(SqliteDataType::Time)
        } else if chars_eq(&l, &['d', 'a', 't', 'e', 't', 'i', 'm', 'e']) || chars_eq(
            &l,
            &['t', 'i', 'm', 'e', 's', 't', 'a', 'm', 'p'],
        ) {
            Some(SqliteDataType::Datetime)
        } else if occurs_in_exec(&l, &['i', 'n', 't']) {
            Some(SqliteDataType::Int64)
        } else if occurs_in_exec(&l, &['c', 'h', 'a', 'r']) || occurs_in_exec(&l, &['c', 'l', 'o', 'b'])
            || occurs_in_exec(&l, &['t', 'e', 'x', 't']) {
            Some(SqliteDataType::Text)
        } else if occurs_in_exec(&l, &['b', 'l', 'o', 'b']) {
            Some(SqliteDataType::Blob)
        } else if occurs_in_exec(&l, &['r', 'e', 'a', 'l']) || occurs_in_exec(&l, &['f', 'l', 'o', 'a'])
            || occurs_in_exec(&l, &['d', 'o', 'u', 'b']) {
            Some(SqliteDataType::Float)
        } else if occurs_in_exec(&l, &['n', 'u', 'm']) || occurs_in_exec(&l, &['d', 'e', 'c']) {
            Some(SqliteDataType::Numeric)
        } else {
            None
        }
    }

    /// Convert a fundamental SQLite datatype code into a data type.
    pub fn from_code(code: i32) -> (r: Option<SqliteDataType>)
        ensures
            r == type_of_code(code),
    {
        if code == SQLITE_INTEGER {
            Some(SqliteDataType::Int)
        } else if code == SQLITE_FLOAT {
            Some(SqliteDataType::Float)
        } else if code == SQLITE_BLOB {
            Some(SqliteDataType::Blob)
        } else if code == SQLITE_NULL {
            Some(SqliteDataType::Null)
        } else if code == SQLITE_TEXT {
            Some(SqliteDataType::Text)
        } else {
            None
        }
    }
}

/// No occurrence of `p` in `s` can start where its first character is
/// missing.
proof fn lemma_no_start(s: Seq<char>, p: Seq<char>)
    requires
        p.len() > 0,
        forall|i: int| 0 <= i && i + p.len() <= s.len() ==> s[i] != p[0],
    ensures
        !occurs_in(s, p),
{
    assert forall|i: int| !occurs_at(s, p, i) by {
        if occurs_at(s, p, i) {
            assert(s.subrange(i, i + p.len())[0] == s[i]);
        }
    }
}

/// Lower-casing twice is lower-casing once.
proof fn lemma_ascii_lower_idempotent(s: Seq<char>)
    ensures
        ascii_lower_seq(ascii_lower_seq(s)) == ascii_lower_seq(s),
{
    assert(ascii_lower_seq(ascii_lower_seq(s)) =~= ascii_lower_seq(s));
}

/// Parsing a declared type ignores ASCII case: lower-casing the name first
/// gives the same type.
pub proof fn lemma_affinity_ignores_case(s: Seq<char>)
    ensures
        affinity_of(ascii_lower_seq(s)) == affinity_of(s),
{
    lemma_ascii_lower_idempotent(s);
}

/// The canonical name of a type parses back to it, except that `INTEGER`
/// parses as [`SqliteDataType::Int64`] (so `Int` does not come back) and
/// `NULL` names no type.
pub proof fn lemma_name_round_trip(t: SqliteDataType)
    ensures
        t != SqliteDataType::Int && t != SqliteDataType::Null ==> affinity_of(canonical_name(t))
            == Some(t),
        t == SqliteDataType::Int ==> affinity_of(canonical_name(t)) == Some(SqliteDataType::Int64),
        t == SqliteDataType::Null ==> affinity_of(canonical_name(t)) is None,
{
    let l = ascii_lower_seq(canonical_name(t));
    let p_int = seq!['i', 'n', 't'];
    let chr = seq!['c', 'h', 'a', 'r'];
    let clob = seq!['c', 'l', 'o', 'b'];
    let text = seq!['t', 'e', 'x', 't'];
    let blob = seq!['b', 'l', 'o', 'b'];
    let p_real = seq!['r', 'e', 'a', 'l'];
    let floa = seq!['f', 'l', 'o', 'a'];
    let doub = seq!['d', 'o', 'u', 'b'];
    let num = seq!['n', 'u', 'm'];
    let dec = seq!['d', 'e', 'c'];
    match t {
        SqliteDataType::Null => {
            assert(l =~= seq!['n', 'u', 'l', 'l']);
            assert(l[0] != seq!['t', 'i', 'm', 'e'][0]);
            assert(l[0] != seq!['d', 'a', 't', 'e'][0]);
            lemma_no_start(l, p_int);
            lemma_no_start(l, chr);
            lemma_no_start(l, clob);
            lemma_no_start(l, text);
            lemma_no_start(l, blob);
            lemma_no_start(l, p_real);
            lemma_no_start(l, floa);
            lemma_no_start(l, doub);
            lemma_no_start(l, dec);
            assert(!occurs_in(l, num)) by {
                assert forall|i: int| !occurs_at(l, num, i) by {
                    if occurs_at(l, num, i) {
                        assert(l.subrange(i, i + 3)[0] == l[i]);
                        assert(l.subrange(i, i + 3)[2] == l[i + 2]);
                    }
                }
            }
        },
        SqliteDataType::Int | SqliteDataType::Int64 => {
            assert(l =~= seq!['i', 'n', 't', 'e', 'g', 'e', 'r']);
            assert(l.subrange(0, 3) =~= p_int);
            assert(occurs_at(l, p_int, 0));
        },
        SqliteDataType::Float => {
            assert(l =~= p_real);
            assert(l[0] != seq!['t', 'i', 'm', 'e'][0]);
            assert(l[0] != seq!['d', 'a', 't', 'e'][0]);
            lemma_no_start(l, p_int);
            lemma_no_start(l, chr);
            lemma_no_start(l, clob);
            lemma_no_start(l, text);
            lemma_no_start(l, blob);
            assert(l.subrange(0, 4) =~= p_real);
            assert(occurs_at(l, p_real, 0));
        },
        SqliteDataType::Text => {
            assert(l =~= text);
            assert(l[0] != seq!['d', 'a', 't', 'e'][0]);
            assert(l[1] != seq!['t', 'i', 'm', 'e'][1]);
            lemma_no_start(l, p_int);
            lemma_no_start(l, chr);
            lemma_no_start(l, clob);
            assert(l.subrange(0, 4) =~= text);
            assert(occurs_at(l, text, 0));
        },
        SqliteDataType::Blob => {
            assert(l =~= blob);
            assert(l[0] != seq!['t', 'i', 'm', 'e'][0]);
            assert(l[0] != seq!['d', 'a', 't', 'e'][0]);
            assert(l[1] != seq!['b', 'o', 'o', 'l'][1]);
            lemma_no_start(l, p_int);
            lemma_no_start(l, chr);
            lemma_no_start(l, clob);
            lemma_no_start(l, text);
            assert(l.subrange(0, 4) =~= blob);
            assert(occurs_at(l, blob, 0));
        },
        SqliteDataType::Numeric => {
            assert(l =~= seq!['n', 'u', 'm', 'e', 'r', 'i', 'c']);
            lemma_no_start(l, p_int);
            lemma_no_start(l, chr);
            lemma_no_start(l, clob);
            lemma_no_start(l, text);
            lemma_no_start(l, blob);
            lemma_no_start(l, p_real);
            lemma_no_start(l, floa);
            lemma_no_start(l, doub);
            assert(l.subrange(0, 3) =~= num);
            assert(occurs_at(l, num, 0));
        },
        SqliteDataType::Bool => {
            assert(l =~= seq!['b', 'o', 'o', 'l', 'e', 'a', 'n']);
        },
        SqliteDataType::Date => {
            assert(l =~= seq!['d', 'a', 't', 'e']);
            assert(l[0] != seq!['i', 'n', 't', '4'][0]);
            assert(l[0] != seq!['b', 'o', 'o', 'l'][0]);
        },
        SqliteDataType::Time => {
            assert(l =~= seq!['t', 'i', 'm', 'e']);
            assert(l[0] != seq!['i', 'n', 't', '4'][0]);
            assert(l[0] != seq!['b', 'o', 'o', 'l'][0]);
            assert(l[0] != seq!['d', 'a', 't', 'e'][0]);
        },
        SqliteDataType::Datetime => {
            assert(l =~= seq!['d', 'a', 't', 'e', 't', 'i', 'm', 'e']);
        },
    }
}

/// The exact declared type names, in any ASCII case: `INT4` is `Int`,
/// `INT8` is `Int64`, `BOOLEAN` and `BOOL` are `Bool`, `DATE` is `Date`,
/// `TIME` is `Time`, and `DATETIME` and `TIMESTAMP` are `Datetime`.
pub proof fn lemma_exact_type_names(s: Seq<char>)
    ensures
        ascii_lower_seq(s) == "int4"@ ==> affinity_of(s) == Some(SqliteDataType::Int),
        ascii_lower_seq(s) == "int8"@ ==> affinity_of(s) == Some(SqliteDataType::Int64),
        ascii_lower_seq(s) == "boolean"@ ==> affinity_of(s) == Some(SqliteDataType::Bool),
        ascii_lower_seq(s) == "bool"@ ==> affinity_of(s) == Some(SqliteDataType::Bool),
        ascii_lower_seq(s) == "date"@ ==> affinity_of(s) == Some(SqliteDataType::Date),
        ascii_lower_seq(s) == "time"@ ==> affinity_of(s) == Some(SqliteDataType::Time),
        ascii_lower_seq(s) == "datetime"@ ==> affinity_of(s) == Some(SqliteDataType::Datetime),
        ascii_lower_seq(s) == "timestamp"@ ==> affinity_of(s) == Some(SqliteDataType::Datetime),
{
    reveal_strlit("int4");
    reveal_strlit("int8");
    reveal_strlit("boolean");
    reveal_strlit("bool");
    reveal_strlit("date");
    reveal_strlit("time");
    reveal_strlit("datetime");
    reveal_strlit("timestamp");
    let l = ascii_lower_seq(s);
    let int4 = seq!['i', 'n', 't', '4'];
    let int8 = seq!['i', 'n', 't', '8'];
    let boolean = seq!['b', 'o', 'o', 'l', 'e', 'a', 'n'];
    let bool4 = seq!['b', 'o', 'o', 'l'];
    let date = seq!['d', 'a', 't', 'e'];
    let time = seq!['t', 'i', 'm', 'e'];
    let datetime = seq!['d', 'a', 't', 'e', 't', 'i', 'm', 'e'];
    let timestamp = seq!['t', 'i', 'm', 'e', 's', 't', 'a', 'm', 'p'];
    assert("int4"@ =~= int4);
    assert("int8"@ =~= int8);
    assert("boolean"@ =~= boolean);
    assert("bool"@ =~= bool4);
    assert("date"@ =~= date);
    assert("time"@ =~= time);
    assert("datetime"@ =~= datetime);
    assert("timestamp"@ =~= timestamp);
    if l == int8 {
        assert(l[3] != int4[3]);
    }
    if l == date {
        assert(l[0] != int4[0] && l[0] != int8[0] && l[0] != bool4[0]);
    }
    if l == time {
        assert(l[0] != int4[0] && l[0] != int8[0] && l[0] != bool4[0] && l[0] != date[0]);
    }
    if l == bool4 {
        assert(l[0] != int4[0] && l[0] != int8[0]);
    }
}

} // verus!
