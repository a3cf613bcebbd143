//! SQL for transactions and nested savepoints.

use vstd::prelude::*;
use crate::text::{decimal, lemma_decimal_injective, push_decimal, push_str_verified};

verus! {

/// How SQLite starts a top-level transaction.
///
/// Nested begins still create savepoints.
#[derive(Debug, Clone, Copy, PartialEq, Eq, Structural)]
pub enum TransactionBehavior {
    /// `BEGIN DEFERRED`. Locks are taken when they are needed.
    Deferred,
    /// `BEGIN IMMEDIATE`. A reserved lock is taken at begin. This is the default.
    Immediate,
    /// `BEGIN EXCLUSIVE`. An exclusive lock is taken at begin.
    Exclusive,
}

impl Default for TransactionBehavior {
    fn default() -> (r: Self)
        ensures
            r == TransactionBehavior::Immediate,
    {
        TransactionBehavior::Immediate
    }
}

/// The name of the savepoint opened at nesting depth `d`.
pub open spec fn savepoint_name(d: nat) -> Seq<char> {
    "_musq_savepoint_"@ + decimal(d)
}

/// The statement that opens a transaction (depth 0) or a savepoint (deeper).
pub open spec fn begin_statement(depth: nat, behavior: TransactionBehavior) -> Seq<char> {
    if depth == 0 {
        match behavior {
            TransactionBehavior::Deferred => "BEGIN DEFERRED"@,
            TransactionBehavior::Immediate => "BEGIN IMMEDIATE"@,
            TransactionBehavior::Exclusive => "BEGIN EXCLUSIVE"@,
        }
    } else {
        "SAVEPOINT "@ + savepoint_name(depth)
    }
}

/// The statement that commits the innermost open level when `depth` levels are open.
pub open spec fn commit_statement(depth: nat) -> Seq<char> {
    if depth <= 1 {
        "COMMIT"@
    } else {
        "RELEASE SAVEPOINT "@ + savepoint_name((depth - 1) as nat)
    }
}

/// The statement that rolls back the innermost open level when `depth` levels are open.
pub open spec fn rollback_statement(depth: nat) -> Seq<char> {
    if depth <= 1 {
        "ROLLBACK"@
    } else {
        "ROLLBACK TO SAVEPOINT "@ + savepoint_name((depth - 1) as nat) + "; RELEASE SAVEPOINT "@
            + savepoint_name((depth - 1) as nat)
    }
}

/// Build SQL for beginning a transaction or savepoint at `depth`.
pub fn begin_sql(depth: usize, behavior: TransactionBehavior) -> (r: String)
    ensures
        r@ == begin_statement(depth as nat, behavior),
{
    let mut s = String::new();
    if depth == 0 {
        match behavior {
            TransactionBehavior::Deferred => push_str_verified(&mut s, "BEGIN DEFERRED"),
            TransactionBehavior::Immediate => push_str_verified(&mut s, "BEGIN IMMEDIATE"),
            TransactionBehavior::Exclusive => push_str_verified(&mut s, "BEGIN EXCLUSIVE"),
        }
        assert(s@ =~= begin_statement(depth as nat, behavior));
    } else {
        push_str_verified(&mut s, "SAVEPOINT ");
        push_str_verified(&mut s, "_musq_savepoint_");
        push_decimal(&mut s, depth);
        assert(s@ =~= begin_statement(depth as nat, behavior));
    }
    s
}

/// Build SQL for committing a transaction or savepoint at `depth`.
pub fn commit_sql(depth: usize) -> (r: String)
    ensures
        r@ == commit_statement(depth as nat),
{
    let mut s = String::new();
    if depth <= 1 {
        push_str_verified(&mut s, "COMMIT");
        assert(s@ =~= commit_statement(depth as nat));
    } else {
        push_str_verified(&mut s, "RELEASE SAVEPOINT ");
        push_str_verified(&mut s, "_musq_savepoint_");
        push_decimal(&mut s, depth - 1);
        assert(s@ =~= commit_statement(depth as nat));
    }
    s
}

/// Build SQL for rolling back a transaction or savepoint at `depth`.
pub fn rollback_sql(depth: usize) -> (r: String)
    ensures
        r@ == rollback_statement(depth as nat),
{
    let mut s = String::new();
    if depth <= 1 {
        push_str_verified(&mut s, "ROLLBACK");
        assert(s@ =~= rollback_statement(depth as nat));
    } else {
        push_str_verified(&mut s, "ROLLBACK TO SAVEPOINT ");
        push_str_verified(&mut s, "_musq_savepoint_");
        push_decimal(&mut s, depth - 1);
        push_str_verified(&mut s, "; RELEASE SAVEPOINT ");
        push_str_verified(&mut s, "_musq_savepoint_");
        push_decimal(&mut s, depth - 1);
        assert(s@ =~= rollback_statement(depth as nat));
    }
    s
}

/// Savepoint pairing: the savepoint that a begin at depth `d >= 1` opens is
/// exactly the one that the commit and the rollback issued once `d + 1` levels
/// are open release and roll back; a begin at depth 0 opens the transaction
/// that `COMMIT` and `ROLLBACK` close at depth 1.
pub proof fn lemma_savepoint_pairing(d: nat, behavior: TransactionBehavior)
    ensures
        d >= 1 ==> begin_statement(d, behavior) == "SAVEPOINT "@ + savepoint_name(d),
        d >= 1 ==> commit_statement(d + 1) == "RELEASE SAVEPOINT "@ + savepoint_name(d),
        d >= 1 ==> rollback_statement(d + 1) == "ROLLBACK TO SAVEPOINT "@ + savepoint_name(d)
            + "; RELEASE SAVEPOINT "@ + savepoint_name(d),
        d == 0 ==> commit_statement(d + 1) == "COMMIT"@ && rollback_statement(d + 1)
            == "ROLLBACK"@,
{
}

/// Savepoints opened at different depths have different names, so a nested
/// savepoint never shadows an enclosing one.
pub proof fn lemma_savepoint_names_distinct(a: nat, b: nat)
    requires
        a != b,
    ensures
        savepoint_name(a) != savepoint_name(b),
{
    let p = "_musq_savepoint_"@;
    if savepoint_name(a) == savepoint_name(b) {
        assert(decimal(a) =~= savepoint_name(a).skip(p.len() as int));
        assert(decimal(b) =~= savepoint_name(b).skip(p.len() as int));
        lemma_decimal_injective(a, b);
    }
}

} // verus!
