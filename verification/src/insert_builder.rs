//! `INSERT INTO` statements from column/value pairs.

use vstd::prelude::*;
use crate::arguments::{Arguments, values_view};
use crate::codec::Encode;
use crate::error::{Error, Result};
use crate::query::{Query, QueryStatement, query_sql, query_with, quote_identifier, quoted_ident};
use crate::query_builder::{join, lemma_join_push, placeholders, lemma_placeholders_next};
use crate::text::{chars_of, push_char, push_str_verified, string_from_chars};

verus! {

/// Builder for constructing `INSERT INTO` queries.
#[derive(Debug)]
pub struct InsertInto {
    /// The quoted table name.
    pub table: String,
    /// The quoted column names, in order.
    pub columns: Vec<String>,
    /// The bound values, in column order.
    pub arguments: Arguments,
}

/// The column names of an insert, as characters.
pub open spec fn column_views(columns: Seq<String>) -> Seq<Seq<char>> {
    columns.map_values(|c: String| c@)
}

/// The SQL of an insert into the quoted `table` of the quoted `columns`.
pub open spec fn insert_sql(table: Seq<char>, columns: Seq<Seq<char>>) -> Seq<char> {
    "INSERT INTO "@ + table + " ("@ + join(columns, ", "@) + ") VALUES ("@ + placeholders(
        columns.len(),
    ) + ")"@
}

/// Create a new [`InsertInto`] builder for the given table.
pub fn insert_into(table: &str) -> (r: InsertInto)
    ensures
        r.table@ == quoted_ident(table@),
        r.columns@.len() == 0,
        r.arguments.wf(),
        r.arguments.values@.len() == 0,
        r.arguments.named@.len() == 0,
{
    InsertInto { table: quote_identifier(table), columns: Vec::new(), arguments: Arguments::new() }
}

impl InsertInto {
    /// Add a column/value pair to the `INSERT` statement. A value that fails
    /// to encode is left out, its column is not.
    pub fn value<T: Encode>(self, column: &str, value: T) -> (r: InsertInto)
        requires
            self.arguments.wf(),
        ensures
            r.table == self.table,
            column_views(r.columns@) == column_views(self.columns@).push(quoted_ident(column@)),
            r.arguments.wf(),
            r.arguments.named@ == self.arguments.named@,
            match value.encoding() {
                Ok(v) => values_view(r.arguments.values@) == values_view(
                    self.arguments.values@,
                ).push(v),
                Err(_) => r.arguments.values@ == self.arguments.values@,
            },
    {
        let mut s = self;
        let ghost before = s.columns@;
        s.columns.push(quote_identifier(column));
        assert(column_views(s.columns@) =~= column_views(before).push(quoted_ident(column@)));
        let _ = s.arguments.add(value);
        s
    }

    /// Build the final [`Query`]:
    /// `INSERT INTO table (a, b) VALUES (?, ?)` with the bound values.
    pub fn query(self) -> (r: Result<Query>)
        ensures
            self.columns@.len() == 0 ==> (r matches Err(Error::Protocol(m)) && m@
                == "Insert query has no values"@),
            self.columns@.len() > 0 ==> (r matches Ok(q) && query_sql(&q) == insert_sql(
                self.table@,
                column_views(self.columns@),
            ) && q.arguments == Some(self.arguments) && !q.tainted),
    {
        if self.columns.len() == 0 {
            let msg = chars_of("Insert query has no values");
            return Err(Error::Protocol(string_from_chars(&msg)));
        }
        let ghost cv = column_views(self.columns@);
        let mut columns = String::new();
        let mut placeholder_list = String::new();
        let mut k: usize = 0;
        while k < self.columns.len()
            invariant
                k <= self.columns@.len(),
                cv == column_views(self.columns@),
                columns@ == join(cv.take(k as int), ", "@),
                placeholder_list@ == placeholders(k as nat),
            decreases self.columns@.len() - k,
        {
            if k > 0 {
                push_str_verified(&mut columns, ", ");
                push_str_verified(&mut placeholder_list, ", ");
            }
            push_str_verified(&mut columns, self.columns[k].as_str());
            push_char(&mut placeholder_list, '?');
            proof {
                assert(cv.take(k + 1) =~= cv.take(k as int).push(cv[k as int]));
                lemma_join_push(cv.take(k as int), ", "@, cv[k as int]);
                lemma_placeholders_next(k as nat);
            }
            k = k + 1;
        }
        assert(cv.take(cv.len() as int) =~= cv);
        let mut sql = String::new();
        push_str_verified(&mut sql, "INSERT INTO ");
        push_str_verified(&mut sql, self.table.as_str());
        push_str_verified(&mut sql, " (");
        push_str_verified(&mut sql, columns.as_str());
        push_str_verified(&mut sql, ") VALUES (");
        push_str_verified(&mut sql, placeholder_list.as_str());
        push_str_verified(&mut sql, ")");
        assert(sql@ =~= insert_sql(self.table@, cv));
        Ok(query_with(sql.as_str(), self.arguments))
    }
}

} // verus!
