//! Stepping through the statements of a (possibly compound) query: which
//! statement work comes next, and what each outcome yields.

use vstd::prelude::*;
use crate::logger::QueryLog;
use crate::query::QueryResult;

verus! {

/// What the executor waits for.
#[derive(Debug, Clone, Copy, PartialEq, Eq, Structural)]
pub enum ExecPhase {
    /// Ready for the next request of a result.
    Idle,
    /// The next statement of the query is being prepared.
    Preparing,
    /// The statement is being reset and its arguments bound.
    Binding,
    /// The statement is being stepped.
    Stepping,
}

/// An input of the executor.
#[derive(Debug, Clone, Copy, PartialEq, Eq, Structural)]
pub enum ExecEvent {
    /// The caller wants the next result.
    Next,
    /// Preparing finished; `has_statement` is false when the query has no
    /// more statements.
    Prepared { has_statement: bool },
    /// Reset and binding finished, consuming `used` positional arguments.
    Bound { used: usize },
    /// Stepping produced a row.
    Row,
    /// Stepping finished the statement, which changed `changes` rows; the
    /// connection's last inserted rowid is `last_insert_rowid`.
    Done { changes: u64, last_insert_rowid: i64 },
    /// The work asked for failed.
    Failed,
}

/// What the caller must do next.
#[derive(Debug, Clone, Copy, PartialEq, Eq, Structural)]
pub enum ExecAction {
    /// Prepare the query's next statement, then report `Prepared`.
    PrepareNext,
    /// Reset the statement, clear its bindings and bind the arguments from
    /// position `offset` on, then report `Bound`.
    ResetAndBind { offset: usize },
    /// Step the statement, then report `Row`, `Done` or `Failed`.
    Step,
    /// Hand the current row out.
    YieldRow,
    /// Hand out the statement's summary.
    YieldDone { changes: u64, last_insert_rowid: i64 },
    /// Hand out the error.
    YieldError,
    /// The query has no more results.
    End,
    /// Nothing to do.
    Nothing,
}

/// The state of executing one query.
#[derive(Debug, Clone, Copy, PartialEq, Eq, Structural)]
pub struct ExecuteState {
    /// Whether the next result comes from the query's next statement.
    pub goto_next: bool,
    /// Positional arguments consumed by the statements so far.
    pub args_used: usize,
    /// What the executor waits for.
    pub phase: ExecPhase,
}

/// The next state and action of the executor; events that the current
/// phase does not expect change nothing.
pub open spec fn exec_step_spec(s: ExecuteState, e: ExecEvent) -> (ExecuteState, ExecAction) {
    match s.phase {
        ExecPhase::Idle => match e {
            ExecEvent::Next => if s.goto_next {
                (ExecuteState { phase: ExecPhase::Preparing, ..s }, ExecAction::PrepareNext)
            } else {
                (ExecuteState { phase: ExecPhase::Stepping, ..s }, ExecAction::Step)
            },
            _ => (s, ExecAction::Nothing),
        },
        ExecPhase::Preparing => match e {
            ExecEvent::Prepared { has_statement } => if has_statement {
                (
                    ExecuteState { goto_next: false, phase: ExecPhase::Binding, ..s },
                    ExecAction::ResetAndBind { offset: s.args_used },
                )
            } else {
                (ExecuteState { phase: ExecPhase::Idle, ..s }, ExecAction::End)
            },
            ExecEvent::Failed => (ExecuteState { phase: ExecPhase::Idle, ..s }, ExecAction::YieldError),
            _ => (s, ExecAction::Nothing),
        },
        ExecPhase::Binding => match e {
            ExecEvent::Bound { used } => (
                ExecuteState {
                    args_used: (s.args_used + used) as usize,
                    phase: ExecPhase::Stepping,
                    ..s
                },
                ExecAction::Step,
            ),
            ExecEvent::Failed => (ExecuteState { phase: ExecPhase::Idle, ..s }, ExecAction::YieldError),
            _ => (s, ExecAction::Nothing),
        },
        ExecPhase::Stepping => match e {
            ExecEvent::Row => (ExecuteState { phase: ExecPhase::Idle, ..s }, ExecAction::YieldRow),
            ExecEvent::Done { changes, last_insert_rowid } => (
                ExecuteState { goto_next: true, phase: ExecPhase::Idle, ..s },
                ExecAction::YieldDone { changes, last_insert_rowid },
            ),
            ExecEvent::Failed => (ExecuteState { phase: ExecPhase::Idle, ..s }, ExecAction::YieldError),
            _ => (s, ExecAction::Nothing),
        },
    }
}

impl ExecuteState {
    /// A fresh execution: the first result comes from the first statement.
    pub fn new() -> (r: ExecuteState)
        ensures
            r == (ExecuteState { goto_next: true, args_used: 0, phase: ExecPhase::Idle }),
    {
        ExecuteState { goto_next: true, args_used: 0, phase: ExecPhase::Idle }
    }

    /// Advance by one event, counting what it hands out in `logger`: a row
    /// counts as returned, and a finished statement's changes as affected.
    pub fn step_logged<L: QueryLog>(&mut self, event: ExecEvent, logger: &mut L) -> (a: ExecAction)
        requires
            old(self).phase == ExecPhase::Binding ==> (event matches ExecEvent::Bound { used }
                ==> old(self).args_used + used <= usize::MAX),
            old(logger).counts() ==> old(logger).returned() < u64::MAX,
            old(logger).counts() ==> (event matches ExecEvent::Done { changes, .. }
                ==> old(logger).affected() + changes <= u64::MAX),
        ensures
            (*final(self), a) == exec_step_spec(*old(self), event),
            final(logger).counts() == old(logger).counts(),
            final(logger).returned() == old(logger).returned() + if old(logger).counts()
                && a is YieldRow {
                1int
            } else {
                0int
            },
            final(logger).affected() == old(logger).affected() + if old(logger).counts()
                && a is YieldDone {
                a->changes as int
            } else {
                0int
            },
    {
        let a = self.step(event);
        match a {
            ExecAction::YieldRow => logger.inc_rows_returned(),
            ExecAction::YieldDone { changes, .. } => logger.inc_rows_affected(changes),
            _ => {},
        }
        a
    }

    /// Advance by one event and return what the caller must do.
    pub fn step(&mut self, event: ExecEvent) -> (a: ExecAction)
        requires
            old(self).phase == ExecPhase::Binding ==> (event matches ExecEvent::Bound { used }
                ==> old(self).args_used + used <= usize::MAX),
        ensures
            (*final(self), a) == exec_step_spec(*old(self), event),
    {
        match self.phase {
            ExecPhase::Idle => match event {
                ExecEvent::Next => {
                    if self.goto_next {
                        self.phase = ExecPhase::Preparing;
                        ExecAction::PrepareNext
                    } else {
                        self.phase = ExecPhase::Stepping;
                        ExecAction::Step
                    }
                },
                _ => ExecAction::Nothing,
            },
            ExecPhase::Preparing => match event {
                ExecEvent::Prepared { has_statement } => {
                    if has_statement {
                        self.goto_next = false;
                        self.phase = ExecPhase::Binding;
                        ExecAction::ResetAndBind { offset: self.args_used }
                    } else {
                        self.phase = ExecPhase::Idle;
                        ExecAction::End
                    }
                },
                ExecEvent::Failed => {
                    self.phase = ExecPhase::Idle;
                    ExecAction::YieldError
                },
                _ => ExecAction::Nothing,
            },
            ExecPhase::Binding => match event {
                ExecEvent::Bound { used } => {
                    self.args_used = self.args_used + used;
                    self.phase = ExecPhase::Stepping;
                    ExecAction::Step
                },
                ExecEvent::Failed => {
                    self.phase = ExecPhase::Idle;
                    ExecAction::YieldError
                },
                _ => ExecAction::Nothing,
            },
            ExecPhase::Stepping => match event {
                ExecEvent::Row => {
                    self.phase = ExecPhase::Idle;
                    ExecAction::YieldRow
                },
                ExecEvent::Done { changes, last_insert_rowid } => {
                    self.goto_next = true;
                    self.phase = ExecPhase::Idle;
                    ExecAction::YieldDone { changes, last_insert_rowid }
                },
                ExecEvent::Failed => {
                    self.phase = ExecPhase::Idle;
                    ExecAction::YieldError
                },
                _ => ExecAction::Nothing,
            },
        }
    }
}

/// The summary a finished statement yields.
pub fn done_result(changes: u64, last_insert_rowid: i64) -> (r: QueryResult)
    ensures
        r.changes == changes,
        r.last_insert_rowid == last_insert_rowid,
{
    QueryResult { changes, last_insert_rowid }
}

/// Each statement of a compound query binds its arguments after those the
/// earlier statements consumed: a statement prepared after others bound
/// `n` arguments starts binding at `n`, and the count grows by what it binds.
pub proof fn lemma_statements_bind_in_sequence(s: ExecuteState, used: usize, changes: u64, rowid: i64)
    requires
        s.phase == ExecPhase::Idle,
        s.goto_next,
        s.args_used + used <= usize::MAX,
    ensures
        ({
            let (s1, a1) = exec_step_spec(s, ExecEvent::Next);
            let (s2, a2) = exec_step_spec(s1, ExecEvent::Prepared { has_statement: true });
            let (s3, a3) = exec_step_spec(s2, ExecEvent::Bound { used });
            let (s4, a4) = exec_step_spec(s3, ExecEvent::Done { changes, last_insert_rowid: rowid });
            &&& a1 == ExecAction::PrepareNext
            &&& a2 == (ExecAction::ResetAndBind { offset: s.args_used })
            &&& a3 == ExecAction::Step
            &&& a4 == (ExecAction::YieldDone { changes, last_insert_rowid: rowid })
            &&& s4.args_used == s.args_used + used
            &&& s4.goto_next
            &&& s4.phase == ExecPhase::Idle
        }),
{
}

/// Rows of one statement are stepped without preparing again, and the end
/// of the query is reported once preparing finds no statement.
pub proof fn lemma_rows_then_end(s: ExecuteState)
    requires
        s.phase == ExecPhase::Idle,
    ensures
        !s.goto_next ==> exec_step_spec(s, ExecEvent::Next).1 == ExecAction::Step,
        !s.goto_next ==> exec_step_spec(exec_step_spec(s, ExecEvent::Next).0, ExecEvent::Row) == (s, ExecAction::YieldRow),
        s.goto_next ==> exec_step_spec(exec_step_spec(s, ExecEvent::Next).0, ExecEvent::Prepared { has_statement: false }) == (s, ExecAction::End),
{
}

} // verus!
