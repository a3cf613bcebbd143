//! Queries: SQL text or a prepared statement, with arguments.

use vstd::prelude::*;
use crate::arguments::{Arguments, lookup_index, named_view, trim_bind_prefix, values_view};
use crate::codec::Encode;
use crate::scan::{ScanState, SqlSpan, scan, scan_from, scan_step};
use crate::text::{chars_of, push_char, string_from_chars};

verus! {

/// An explicitly prepared statement: its SQL text.
#[derive(Debug, Clone)]
pub struct Statement {
    /// SQL string for the prepared statement.
    pub sql: String,
}

impl Statement {
    /// Return the SQL string for this statement.
    pub fn sql(&self) -> (r: &str)
        ensures
            r@ == self.sql@,
    {
        self.sql.as_str()
    }

    /// A copy of this statement.
    pub fn duplicate(&self) -> (r: Statement)
        ensures
            r.sql@ == self.sql@,
    {
        Statement { sql: self.sql.clone() }
    }
}

/// A prepared statement without exposed metadata.
#[derive(Debug, Clone)]
pub struct Prepared {
    /// Prepared statement with metadata.
    pub statement: Statement,
}

impl Prepared {
    /// Return the SQL string for this statement.
    pub fn sql(&self) -> (r: &str)
        ensures
            r@ == self.statement.sql@,
    {
        self.statement.sql()
    }

    /// Create a query from this prepared statement.
    pub fn query(&self) -> (r: Query)
        ensures
            r.statement matches QueryStatement::Prepared(s) && s.sql@ == self.statement.sql@,
            r.arguments matches Some(a) && a.values@.len() == 0 && a.named@.len() == 0,
            !r.tainted,
    {
        query_statement(&self.statement)
    }

    /// Create a query from this prepared statement with arguments.
    pub fn query_with(&self, arguments: Arguments) -> (r: Query)
        ensures
            r.statement matches QueryStatement::Prepared(s) && s.sql@ == self.statement.sql@,
            r.arguments == Some(arguments),
            !r.tainted,
    {
        query_statement_with(&self.statement, arguments)
    }
}

/// What a query runs: SQL text, or a prepared statement.
#[derive(Debug)]
pub enum QueryStatement {
    /// SQL text, prepared on first use.
    Sql(String),
    /// An explicitly prepared statement.
    Prepared(Statement),
}

/// Raw SQL query with bind parameters.
#[derive(Debug)]
pub struct Query {
    /// The SQL text or prepared statement.
    pub statement: QueryStatement,
    /// Bound arguments, until they are taken for execution.
    pub arguments: Option<Arguments>,
    /// Whether the query includes raw SQL.
    pub tainted: bool,
}

/// The SQL text of a query.
pub open spec fn query_sql(q: &Query) -> Seq<char> {
    match q.statement {
        QueryStatement::Sql(s) => s@,
        QueryStatement::Prepared(st) => st.sql@,
    }
}

impl Query {
    /// The SQL text of this query.
    pub fn sql(&self) -> (r: &str)
        ensures
            r@ == query_sql(self),
    {
        match &self.statement {
            QueryStatement::Prepared(statement) => statement.sql(),
            QueryStatement::Sql(sql) => sql.as_str(),
        }
    }

    /// The prepared statement, when this query was made from one.
    pub fn statement(&self) -> (r: Option<&Statement>)
        ensures
            match self.statement {
                QueryStatement::Prepared(s) => r == Some(&s),
                QueryStatement::Sql(_) => r is None,
            },
    {
        match &self.statement {
            QueryStatement::Prepared(statement) => Some(statement),
            QueryStatement::Sql(_) => None,
        }
    }

    /// Take the bound arguments, leaving none.
    pub fn take_arguments(&mut self) -> (r: Option<Arguments>)
        ensures
            r == old(self).arguments,
            final(self).arguments is None,
            final(self).statement == old(self).statement,
            final(self).tainted == old(self).tainted,
    {
        self.arguments.take()
    }

    /// Bind a value for use with this SQL query. A value that fails to encode
    /// is not bound.
    pub fn bind<T: Encode>(self, value: T) -> (r: Self)
        requires
            self.arguments matches Some(a) ==> a.wf(),
        ensures
            r.statement == self.statement,
            r.tainted == self.tainted,
            match self.arguments {
                None => r.arguments is None,
                Some(a) => r.arguments matches Some(b) && b.wf() && b.named@ == a.named@ && (
                match value.encoding() {
                    Ok(v) => crate::arguments::values_view(b.values@)
                        == crate::arguments::values_view(a.values@).push(v),
                    Err(_) => b.values@ == a.values@,
                }),
            },
    {
        let statement = self.statement;
        let tainted = self.tainted;
        let arguments = match self.arguments {
            Some(mut a) => {
                let _ = a.add(value);
                Some(a)
            },
            None => None,
        };
        Query { statement, arguments, tainted }
    }
}

impl Query {
    /// Bind a value to a named parameter (the name may carry SQLite's `:`,
    /// `@`, `$` or `?` prefix). A value that fails to encode is not bound.
    pub fn bind_named<T: Encode>(self, name: &str, value: T) -> (r: Self)
        requires
            self.arguments matches Some(a) ==> a.wf() && a.values@.len() < usize::MAX,
        ensures
            r.statement == self.statement,
            r.tainted == self.tainted,
            match self.arguments {
                None => r.arguments is None,
                Some(a) => r.arguments matches Some(b) && b.wf() && match value.encoding() {
                    Ok(v) => match lookup_index(
                        named_view(a.named@),
                        trim_bind_prefix(name@),
                    ) {
                        Some(idx) => values_view(b.values@) == values_view(a.values@).update(
                            idx - 1,
                            v,
                        ) && b.named@ == a.named@,
                        None => values_view(b.values@) == values_view(a.values@).push(v)
                            && named_view(b.named@) == named_view(a.named@).push(
                            (trim_bind_prefix(name@), b.values@.len() as usize),
                        ),
                    },
                    Err(_) => b.values@ == a.values@ && b.named@ == a.named@,
                },
            },
    {
        let statement = self.statement;
        let tainted = self.tainted;
        let arguments = match self.arguments {
            Some(mut a) => {
                let _ = a.add_named(name, value);
                Some(a)
            },
            None => None,
        };
        Query { statement, arguments, tainted }
    }
}

/// Make a SQL query from a statement.
pub fn query_statement(statement: &Statement) -> (r: Query)
    ensures
        r.statement matches QueryStatement::Prepared(s) && s.sql@ == statement.sql@,
        r.arguments matches Some(a) && a.values@.len() == 0 && a.named@.len() == 0,
        !r.tainted,
{
    Query {
        statement: QueryStatement::Prepared(statement.duplicate()),
        arguments: Some(Arguments::new()),
        tainted: false,
    }
}

/// Make a SQL query from a statement, with the given arguments.
pub fn query_statement_with(statement: &Statement, arguments: Arguments) -> (r: Query)
    ensures
        r.statement matches QueryStatement::Prepared(s) && s.sql@ == statement.sql@,
        r.arguments == Some(arguments),
        !r.tainted,
{
    Query {
        statement: QueryStatement::Prepared(statement.duplicate()),
        arguments: Some(arguments),
        tainted: false,
    }
}

/// Make a SQL query.
pub fn query(sql: &str) -> (r: Query)
    ensures
        r.statement matches QueryStatement::Sql(s) && s@ == sql@,
        r.arguments matches Some(a) && a.values@.len() == 0 && a.named@.len() == 0 && a.wf(),
        !r.tainted,
{
    let chars = chars_of(sql);
    Query {
        statement: QueryStatement::Sql(string_from_chars(&chars)),
        arguments: Some(Arguments::new()),
        tainted: false,
    }
}

/// Make a SQL query, with the given arguments.
pub fn query_with(sql: &str, arguments: Arguments) -> (r: Query)
    ensures
        r.statement matches QueryStatement::Sql(s) && s@ == sql@,
        r.arguments == Some(arguments),
        !r.tainted,
{
    let chars = chars_of(sql);
    Query {
        statement: QueryStatement::Sql(string_from_chars(&chars)),
        arguments: Some(arguments),
        tainted: false,
    }
}

/// Summary information returned after executing a query.
#[derive(Debug, Default)]
pub struct QueryResult {
    /// Number of rows affected by the query.
    pub changes: u64,
    /// Last inserted row ID reported by SQLite.
    pub last_insert_rowid: i64,
}

/// The changes of all the results, added up.
pub open spec fn total_changes(rs: Seq<QueryResult>) -> int
    decreases rs.len(),
{
    if rs.len() == 0 {
        0
    } else {
        total_changes(rs.drop_last()) + rs.last().changes
    }
}

/// The changes of a prefix never exceed those of the whole.
proof fn lemma_total_changes_prefix(rs: Seq<QueryResult>, k: int)
    requires
        0 <= k <= rs.len(),
    ensures
        0 <= total_changes(rs.take(k)) <= total_changes(rs),
    decreases rs.len(),
{
    if rs.len() > 0 {
        if k == rs.len() {
            assert(rs.take(k) =~= rs);
            lemma_total_changes_prefix(rs.drop_last(), k - 1);
            assert(rs.drop_last().take(k - 1) =~= rs.drop_last());
        } else {
            lemma_total_changes_prefix(rs.drop_last(), k);
            assert(rs.drop_last().take(k) =~= rs.take(k));
        }
    }
}

/// The result of a whole query from the results of its statements, in
/// order: their changes added up, and the last statement's last inserted
/// rowid; zero and zero when there were no statements.
pub fn sum_results(rs: &Vec<QueryResult>) -> (r: QueryResult)
    requires
        total_changes(rs@) <= u64::MAX,
    ensures
        r.changes == total_changes(rs@),
        r.last_insert_rowid == if rs@.len() == 0 {
            0
        } else {
            rs@.last().last_insert_rowid
        },
{
    let mut acc = QueryResult { changes: 0, last_insert_rowid: 0 };
    let mut k: usize = 0;
    assert(rs@.take(0) =~= Seq::<QueryResult>::empty());
    while k < rs.len()
        invariant
            k <= rs@.len(),
            total_changes(rs@) <= u64::MAX,
            acc.changes == total_changes(rs@.take(k as int)),
            acc.last_insert_rowid == if k == 0 {
                0
            } else {
                rs@[k - 1].last_insert_rowid
            },
        decreases rs@.len() - k,
    {
        proof {
            lemma_total_changes_prefix(rs@, k + 1);
            assert(rs@.take(k + 1).drop_last() =~= rs@.take(k as int));
        }
        acc.accumulate(&rs[k]);
        k = k + 1;
    }
    assert(rs@.take(rs@.len() as int) =~= rs@);
    acc
}

impl QueryResult {
    /// Add the result of a later statement of the same query: the changes
    /// add up, and its last inserted rowid is the one kept.
    pub fn accumulate(&mut self, next: &QueryResult)
        requires
            old(self).changes + next.changes <= u64::MAX,
        ensures
            final(self).changes == old(self).changes + next.changes,
            final(self).last_insert_rowid == next.last_insert_rowid,
    {
        self.changes = self.changes + next.changes;
        self.last_insert_rowid = next.last_insert_rowid;
    }

    /// Return the number of rows affected by the query.
    pub fn rows_affected(&self) -> (r: u64)
        ensures
            r == self.changes,
    {
        self.changes
    }

    /// Return the last inserted row ID.
    pub fn last_insert_rowid(&self) -> (r: i64)
        ensures
            r == self.last_insert_rowid,
    {
        self.last_insert_rowid
    }
}

/// Doubling of every `"` in an identifier.
pub open spec fn escape_ident(s: Seq<char>) -> Seq<char>
    decreases s.len(),
{
    if s.len() == 0 {
        seq![]
    } else if s[0] == '"' {
        seq!['"', '"'] + escape_ident(s.drop_first())
    } else {
        seq![s[0]] + escape_ident(s.drop_first())
    }
}

/// An identifier as a double-quoted SQL identifier.
pub open spec fn quoted_ident(s: Seq<char>) -> Seq<char> {
    seq!['"'] + escape_ident(s) + seq!['"']
}

/// Quote an identifier for SQLite: wrap it in double quotes and double every
/// double quote inside it.
pub fn quote_identifier(name: &str) -> (r: String)
    ensures
        r@ == quoted_ident(name@),
{
    let chars = chars_of(name);
    let mut out = String::new();
    push_char(&mut out, '"');
    let mut k: usize = 0;
    assert(chars@.skip(0) =~= chars@);
    assert(quoted_ident(name@).drop_last() =~= seq!['"'] + escape_ident(name@));
    while k < chars.len()
        invariant
            k <= chars.len(),
            chars@ == name@,
            out@ + escape_ident(chars@.skip(k as int)) == quoted_ident(name@).drop_last(),
        decreases chars.len() - k,
    {
        assert(chars@.skip(k as int).drop_first() =~= chars@.skip(k + 1));
        if chars[k] == '"' {
            push_char(&mut out, '"');
            push_char(&mut out, '"');
        } else {
            push_char(&mut out, chars[k]);
        }
        proof {
            let rest = escape_ident(chars@.skip(k + 1));
            assert(out@ + rest =~= quoted_ident(name@).drop_last());
        }
        k = k + 1;
    }
    assert(chars@.skip(k as int) =~= Seq::<char>::empty());
    push_char(&mut out, '"');
    assert(out@ =~= quoted_ident(name@));
    out
}

/// Inside a double-quoted region, an escaped identifier followed by a closing
/// quote is read as quoted text up to that quote.
proof fn lemma_scan_escaped(t: Seq<char>, i: int, ts: int, x: Seq<char>)
    requires
        0 <= ts <= i,
        i + escape_ident(x).len() < t.len(),
        t.subrange(i, i + escape_ident(x).len()) == escape_ident(x),
        t[i + escape_ident(x).len()] == '"',
        i + escape_ident(x).len() + 1 == t.len() || t[i + escape_ident(x).len() + 1] != '"',
    ensures
        scan_from(t, i, ts, ScanState::DoubleQuote) == scan_from(
            t,
            i + escape_ident(x).len() + 1,
            ts,
            ScanState::Normal,
        ),
    decreases x.len(),
{
    let e = escape_ident(x);
    if x.len() == 0 {
        assert(scan_step(t, i, ts, ScanState::DoubleQuote) == (
            i + 1,
            ts,
            ScanState::Normal,
            Seq::<SqlSpan>::empty(),
        ));
        assert(scan_from(t, i, ts, ScanState::DoubleQuote) =~= scan_from(
            t,
            i + 1,
            ts,
            ScanState::Normal,
        ));
    } else {
        let e2 = escape_ident(x.drop_first());
        if x[0] == '"' {
            assert(e == seq!['"', '"'] + e2);
            assert(t[i] == e[0]);
            assert(t[i + 1] == e[1]);
            assert(t.subrange(i + 2, i + 2 + e2.len()) =~= e2) by {
                assert forall|k: int| 0 <= k < e2.len() implies t.subrange(
                    i + 2,
                    i + 2 + e2.len(),
                )[k] == e2[k] by {
                    assert(t.subrange(i, i + e.len())[k + 2] == e[k + 2]);
                }
            }
            lemma_scan_escaped(t, i + 2, ts, x.drop_first());
            assert(scan_from(t, i, ts, ScanState::DoubleQuote) =~= scan_from(
                t,
                i + 2,
                ts,
                ScanState::DoubleQuote,
            ));
        } else {
            assert(e == seq![x[0]] + e2);
            assert(t[i] == e[0]);
            assert(t.subrange(i + 1, i + 1 + e2.len()) =~= e2) by {
                assert forall|k: int| 0 <= k < e2.len() implies t.subrange(
                    i + 1,
                    i + 1 + e2.len(),
                )[k] == e2[k] by {
                    assert(t.subrange(i, i + e.len())[k + 1] == e[k + 1]);
                }
            }
            lemma_scan_escaped(t, i + 1, ts, x.drop_first());
            assert(scan_from(t, i, ts, ScanState::DoubleQuote) =~= scan_from(
                t,
                i + 1,
                ts,
                ScanState::DoubleQuote,
            ));
        }
    }
}

/// A quoted identifier holds no placeholder: scanning it gives a single text
/// span covering all of it, whatever the identifier contains.
pub proof fn lemma_quoted_ident_is_plain_text(x: Seq<char>)
    requires
        quoted_ident(x).len() <= usize::MAX,
    ensures
        scan(quoted_ident(x)) == seq![
            SqlSpan::Text { start: 0, end: quoted_ident(x).len() as usize },
        ],
{
    let t = quoted_ident(x);
    let e = escape_ident(x);
    assert(t.subrange(1, 1 + e.len() as int) =~= e);
    assert(t[1 + e.len() as int] == '"');
    lemma_scan_escaped(t, 1int, 0int, x);
    assert(t[0] == '"');
    assert(scan_step(t, 0int, 0int, ScanState::Normal) == (
        1int,
        0int,
        ScanState::DoubleQuote,
        Seq::<SqlSpan>::empty(),
    ));
    assert(scan_from(t, 0int, 0int, ScanState::Normal) =~= scan_from(t, 1int, 0int, ScanState::DoubleQuote));
    assert(scan_from(t, t.len() as int, 0int, ScanState::Normal) =~= seq![
        SqlSpan::Text { start: 0, end: t.len() as usize },
    ]);
}

} // verus!
