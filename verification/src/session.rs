//! The transaction bookkeeping of a connection's worker, as a state machine:
//! the worker feeds it commands and the outcomes of what it asked for, and
//! performs the actions it returns (running SQL, replying to the caller).

use vstd::prelude::*;
use crate::transaction::{
    TransactionBehavior, begin_sql, begin_statement, commit_sql, commit_statement, rollback_sql,
    rollback_statement,
};

verus! {

/// Error returned when a reply channel is canceled before the value is received.
#[derive(Debug, Clone, Copy, PartialEq, Eq, Structural)]
pub struct Canceled;

/// Which reply was sent last.
#[derive(Debug, Clone, Copy, PartialEq, Eq, Structural)]
pub enum ReplyOp {
    /// The outcome of a begin.
    Begin,
    /// The outcome of a commit.
    Commit,
    /// The outcome of a rollback.
    Rollback,
    /// A refusal because the transaction was already aborted.
    Aborted,
}

/// What the session waits for.
#[derive(Debug, Clone, Copy, PartialEq, Eq, Structural)]
pub enum Phase {
    /// Ready for the next command.
    Idle,
    /// A begin statement runs.
    Beginning,
    /// A commit statement runs.
    Committing,
    /// A rollback statement runs; `reply` when its caller awaits the result.
    RollingBack { reply: bool },
    /// A reply was sent; `ok` when it reported success.
    Replied { op: ReplyOp, ok: bool },
    /// The savepoint of a begin whose caller went away is rolled back.
    CancellingBegin,
}

/// An input of the session.
#[derive(Debug, Clone, Copy, PartialEq, Eq, Structural)]
pub enum SessionEvent {
    /// Begin a transaction or savepoint.
    Begin(TransactionBehavior),
    /// Commit the current transaction or savepoint.
    Commit,
    /// Roll back the current transaction or savepoint; `reply` when a caller
    /// awaits the result (a dropped transaction does not).
    Rollback { reply: bool },
    /// The statement of the last [`SessionAction::Exec`] finished; when it
    /// failed, `interrupted` tells whether SQLite reported an interrupt, and
    /// `autocommit` is SQLite's autocommit state afterwards.
    Executed { ok: bool, interrupted: bool, autocommit: bool },
    /// The last reply was received by its caller, or not.
    ReplyDelivered { received: bool },
    /// Another statement was interrupted; `autocommit` is SQLite's
    /// autocommit state afterwards.
    Interrupted { autocommit: bool },
}

/// What the worker must do next.
#[derive(Debug)]
pub enum SessionAction {
    /// Run this SQL, then report [`SessionEvent::Executed`].
    Exec(String),
    /// Send the outcome of the statement just run (its error, or success),
    /// then report [`SessionEvent::ReplyDelivered`].
    ReplyResult,
    /// Send success without having run anything, then report
    /// [`SessionEvent::ReplyDelivered`].
    ReplyOk,
    /// Send the transaction-aborted error, then report
    /// [`SessionEvent::ReplyDelivered`].
    ReplyAborted,
    /// Nothing to do.
    Nothing,
    /// Stop the worker: a cancelled begin could not be rolled back.
    Stop,
}

/// The content of an action.
pub enum ActionView {
    /// Run SQL.
    Exec(Seq<char>),
    /// Send the statement's outcome.
    ReplyResult,
    /// Send success.
    ReplyOk,
    /// Send the aborted error.
    ReplyAborted,
    /// Nothing.
    Nothing,
    /// Stop.
    Stop,
}

impl View for SessionAction {
    type V = ActionView;

    open spec fn view(&self) -> ActionView {
        match self {
            SessionAction::Exec(s) => ActionView::Exec(s@),
            SessionAction::ReplyResult => ActionView::ReplyResult,
            SessionAction::ReplyOk => ActionView::ReplyOk,
            SessionAction::ReplyAborted => ActionView::ReplyAborted,
            SessionAction::Nothing => ActionView::Nothing,
            SessionAction::Stop => ActionView::Stop,
        }
    }
}

/// The transaction state of a connection's worker.
#[derive(Debug, Clone, Copy, PartialEq, Eq, Structural)]
pub struct WorkerSession {
    /// Open transaction and savepoint levels.
    pub depth: usize,
    /// Skip the next reply-less rollback after a lost commit or rollback reply.
    pub ignore_next_start_rollback: bool,
    /// Set when an interrupt rolled back an explicit transaction.
    pub transaction_aborted: bool,
    /// What the session waits for.
    pub phase: Phase,
}

/// After an interrupt: when SQLite is back in autocommit mode it has rolled
/// the transaction back, so the depth is reset, and an open transaction is
/// marked aborted.
pub open spec fn reconciled(s: WorkerSession, autocommit: bool) -> WorkerSession {
    if autocommit {
        WorkerSession {
            depth: 0,
            transaction_aborted: if s.depth > 0 {
                true
            } else {
                s.transaction_aborted
            },
            ..s
        }
    } else {
        s
    }
}

/// The state after a statement failed.
pub open spec fn after_failure(s: WorkerSession, interrupted: bool, autocommit: bool) -> WorkerSession {
    if interrupted {
        reconciled(s, autocommit)
    } else {
        s
    }
}

/// The next state and action of the session on an event; events that the
/// current phase does not expect change nothing.
pub open spec fn step_spec(s: WorkerSession, e: SessionEvent) -> (WorkerSession, ActionView) {
    match s.phase {
        Phase::Idle => match e {
            SessionEvent::Begin(b) => (
                WorkerSession { transaction_aborted: false, phase: Phase::Beginning, ..s },
                ActionView::Exec(begin_statement(s.depth as nat, b)),
            ),
            SessionEvent::Commit => if s.transaction_aborted {
                (
                    WorkerSession { phase: Phase::Replied { op: ReplyOp::Aborted, ok: false }, ..s },
                    ActionView::ReplyAborted,
                )
            } else if s.depth > 0 {
                (
                    WorkerSession { phase: Phase::Committing, ..s },
                    ActionView::Exec(commit_statement(s.depth as nat)),
                )
            } else {
                (
                    WorkerSession { phase: Phase::Replied { op: ReplyOp::Commit, ok: true }, ..s },
                    ActionView::ReplyOk,
                )
            },
            SessionEvent::Rollback { reply } => if s.ignore_next_start_rollback && !reply {
                (WorkerSession { ignore_next_start_rollback: false, ..s }, ActionView::Nothing)
            } else if s.transaction_aborted {
                if reply {
                    (
                        WorkerSession {
                            phase: Phase::Replied { op: ReplyOp::Aborted, ok: false },
                            ..s
                        },
                        ActionView::ReplyAborted,
                    )
                } else {
                    (s, ActionView::Nothing)
                }
            } else if s.depth > 0 {
                (
                    WorkerSession { phase: Phase::RollingBack { reply }, ..s },
                    ActionView::Exec(rollback_statement(s.depth as nat)),
                )
            } else if reply {
                (
                    WorkerSession {
                        phase: Phase::Replied { op: ReplyOp::Rollback, ok: true },
                        ..s
                    },
                    ActionView::ReplyOk,
                )
            } else {
                (s, ActionView::Nothing)
            },
            SessionEvent::Interrupted { autocommit } => (reconciled(s, autocommit), ActionView::Nothing),
            _ => (s, ActionView::Nothing),
        },
        Phase::Beginning => match e {
            SessionEvent::Executed { ok, interrupted, autocommit } => if ok {
                (
                    WorkerSession {
                        depth: (s.depth + 1) as usize,
                        phase: Phase::Replied { op: ReplyOp::Begin, ok: true },
                        ..s
                    },
                    ActionView::ReplyResult,
                )
            } else {
                (
                    WorkerSession {
                        phase: Phase::Replied { op: ReplyOp::Begin, ok: false },
                        ..after_failure(s, interrupted, autocommit)
                    },
                    ActionView::ReplyResult,
                )
            },
            _ => (s, ActionView::Nothing),
        },
        Phase::Committing => match e {
            SessionEvent::Executed { ok, interrupted, autocommit } => if ok {
                (
                    WorkerSession {
                        depth: (s.depth - 1) as usize,
                        phase: Phase::Replied { op: ReplyOp::Commit, ok: true },
                        ..s
                    },
                    ActionView::ReplyResult,
                )
            } else {
                (
                    WorkerSession {
                        phase: Phase::Replied { op: ReplyOp::Commit, ok: false },
                        ..after_failure(s, interrupted, autocommit)
                    },
                    ActionView::ReplyResult,
                )
            },
            _ => (s, ActionView::Nothing),
        },
        Phase::RollingBack { reply } => match e {
            SessionEvent::Executed { ok, interrupted, autocommit } => {
                let s1 = if ok {
                    WorkerSession { depth: (s.depth - 1) as usize, ..s }
                } else {
                    after_failure(s, interrupted, autocommit)
                };
                if reply {
                    (
                        WorkerSession { phase: Phase::Replied { op: ReplyOp::Rollback, ok }, ..s1 },
                        ActionView::ReplyResult,
                    )
                } else {
                    (WorkerSession { phase: Phase::Idle, ..s1 }, ActionView::Nothing)
                }
            },
            _ => (s, ActionView::Nothing),
        },
        Phase::Replied { op, ok } => match e {
            SessionEvent::ReplyDelivered { received } => if !received && ok {
                match op {
                    ReplyOp::Begin => (
                        WorkerSession { phase: Phase::CancellingBegin, ..s },
                        ActionView::Exec(rollback_statement(s.depth as nat)),
                    ),
                    ReplyOp::Aborted => (WorkerSession { phase: Phase::Idle, ..s }, ActionView::Nothing),
                    _ => (
                        WorkerSession { ignore_next_start_rollback: true, phase: Phase::Idle, ..s },
                        ActionView::Nothing,
                    ),
                }
            } else {
                (WorkerSession { phase: Phase::Idle, ..s }, ActionView::Nothing)
            },
            _ => (s, ActionView::Nothing),
        },
        Phase::CancellingBegin => match e {
            SessionEvent::Executed { ok, .. } => if ok {
                (
                    WorkerSession { depth: (s.depth - 1) as usize, phase: Phase::Idle, ..s },
                    ActionView::Nothing,
                )
            } else {
                (WorkerSession { phase: Phase::Idle, ..s }, ActionView::Stop)
            },
            _ => (s, ActionView::Nothing),
        },
    }
}

impl WorkerSession {
    /// A statement that closes a level runs only while one is open, and a
    /// successful begin was counted.
    pub open spec fn wf(&self) -> bool {
        match self.phase {
            Phase::Committing => self.depth >= 1,
            Phase::RollingBack { .. } => self.depth >= 1,
            Phase::CancellingBegin => self.depth >= 1,
            Phase::Replied { op: ReplyOp::Begin, ok: true } => self.depth >= 1,
            _ => true,
        }
    }

    /// A fresh session: no transaction, nothing pending.
    pub fn new() -> (r: WorkerSession)
        ensures
            r.wf(),
            r.depth == 0,
            !r.ignore_next_start_rollback,
            !r.transaction_aborted,
            r.phase == Phase::Idle,
    {
        WorkerSession {
            depth: 0,
            ignore_next_start_rollback: false,
            transaction_aborted: false,
            phase: Phase::Idle,
        }
    }

    /// Apply the reconciliation after an interrupt.
    fn reconcile(&mut self, autocommit: bool)
        ensures
            *final(self) == reconciled(*old(self), autocommit),
    {
        if autocommit {
            if self.depth > 0 {
                self.transaction_aborted = true;
            }
            self.depth = 0;
        }
    }

    /// Advance the session by one event and return what the worker must do.
    pub fn step(&mut self, event: SessionEvent) -> (a: SessionAction)
        requires
            old(self).wf(),
            old(self).phase == Phase::Beginning ==> old(self).depth < usize::MAX,
        ensures
            final(self).wf(),
            (*final(self), a@) == step_spec(*old(self), event),
    {
        match self.phase {
            Phase::Idle => match event {
                SessionEvent::Begin(behavior) => {
                    self.transaction_aborted = false;
                    self.phase = Phase::Beginning;
                    SessionAction::Exec(begin_sql(self.depth, behavior))
                },
                SessionEvent::Commit => {
                    if self.transaction_aborted {
                        self.phase = Phase::Replied { op: ReplyOp::Aborted, ok: false };
                        SessionAction::ReplyAborted
                    } else if self.depth > 0 {
                        self.phase = Phase::Committing;
                        SessionAction::Exec(commit_sql(self.depth))
                    } else {
                        self.phase = Phase::Replied { op: ReplyOp::Commit, ok: true };
                        SessionAction::ReplyOk
                    }
                },
                SessionEvent::Rollback { reply } => {
                    if self.ignore_next_start_rollback && !reply {
                        self.ignore_next_start_rollback = false;
                        SessionAction::Nothing
                    } else if self.transaction_aborted {
                        if reply {
                            self.phase = Phase::Replied { op: ReplyOp::Aborted, ok: false };
                            SessionAction::ReplyAborted
                        } else {
                            SessionAction::Nothing
                        }
                    } else if self.depth > 0 {
                        self.phase = Phase::RollingBack { reply };
                        SessionAction::Exec(rollback_sql(self.depth))
                    } else if reply {
                        self.phase = Phase::Replied { op: ReplyOp::Rollback, ok: true };
                        SessionAction::ReplyOk
                    } else {
                        SessionAction::Nothing
                    }
                },
                SessionEvent::Interrupted { autocommit } => {
                    self.reconcile(autocommit);
                    SessionAction::Nothing
                },
                _ => SessionAction::Nothing,
            },
            Phase::Beginning => match event {
                SessionEvent::Executed { ok, interrupted, autocommit } => {
                    if ok {
                        self.depth = self.depth + 1;
                    } else if interrupted {
                        self.reconcile(autocommit);
                    }
                    self.phase = Phase::Replied { op: ReplyOp::Begin, ok };
                    SessionAction::ReplyResult
                },
                _ => SessionAction::Nothing,
            },
            Phase::Committing => match event {
                SessionEvent::Executed { ok, interrupted, autocommit } => {
                    if ok {
                        self.depth = self.depth - 1;
                    } else if interrupted {
                        self.reconcile(autocommit);
                    }
                    self.phase = Phase::Replied { op: ReplyOp::Commit, ok };
                    SessionAction::ReplyResult
                },
                _ => SessionAction::Nothing,
            },
            Phase::RollingBack { reply } => match event {
                SessionEvent::Executed { ok, interrupted, autocommit } => {
                    if ok {
                        self.depth = self.depth - 1;
                    } else if interrupted {
                        self.reconcile(autocommit);
                    }
                    if reply {
                        self.phase = Phase::Replied { op: ReplyOp::Rollback, ok };
                        SessionAction::ReplyResult
                    } else {
                        self.phase = Phase::Idle;
                        SessionAction::Nothing
                    }
                },
                _ => SessionAction::Nothing,
            },
            Phase::Replied { op, ok } => match event {
                SessionEvent::ReplyDelivered { received } => {
                    if !received && ok {
                        match op {
                            ReplyOp::Begin => {
                                self.phase = Phase::CancellingBegin;
                                SessionAction::Exec(rollback_sql(self.depth))
                            },
                            ReplyOp::Aborted => {
                                self.phase = Phase::Idle;
                                SessionAction::Nothing
                            },
                            _ => {
                                self.ignore_next_start_rollback = true;
                                self.phase = Phase::Idle;
                                SessionAction::Nothing
                            },
                        }
                    } else {
                        self.phase = Phase::Idle;
                        SessionAction::Nothing
                    }
                },
                _ => SessionAction::Nothing,
            },
            Phase::CancellingBegin => match event {
                SessionEvent::Executed { ok, .. } => {
                    self.phase = Phase::Idle;
                    if ok {
                        self.depth = self.depth - 1;
                        SessionAction::Nothing
                    } else {
                        SessionAction::Stop
                    }
                },
                _ => SessionAction::Nothing,
            },
        }
    }
}

/// A begin followed by a commit, each statement succeeding and each reply
/// received, runs `begin_statement` at the current depth and then
/// `commit_statement` one level deeper, and leaves the depth as it was; a
/// rollback in place of the commit does the same with `rollback_statement`.
pub proof fn lemma_begin_then_close_restores_depth(
    s: WorkerSession,
    b: TransactionBehavior,
    commit: bool,
    i1: bool,
    a1: bool,
    i2: bool,
    a2: bool,
)
    requires
        s.wf(),
        s.phase == Phase::Idle,
        s.depth < usize::MAX,
    ensures
        ({
            let (s1, x1) = step_spec(s, SessionEvent::Begin(b));
            let (s2, x2) = step_spec(s1, SessionEvent::Executed { ok: true, interrupted: i1, autocommit: a1 });
            let (s3, x3) = step_spec(s2, SessionEvent::ReplyDelivered { received: true });
            let close = if commit {
                SessionEvent::Commit
            } else {
                SessionEvent::Rollback { reply: true }
            };
            let (s4, x4) = step_spec(s3, close);
            let (s5, x5) = step_spec(s4, SessionEvent::Executed { ok: true, interrupted: i2, autocommit: a2 });
            let (s6, x6) = step_spec(s5, SessionEvent::ReplyDelivered { received: true });
            &&& x1 == ActionView::Exec(begin_statement(s.depth as nat, b))
            &&& x2 == ActionView::ReplyResult
            &&& s3.depth == s.depth + 1
            &&& x4 == ActionView::Exec(
                if commit {
                    commit_statement((s.depth + 1) as nat)
                } else {
                    rollback_statement((s.depth + 1) as nat)
                },
            )
            &&& x5 == ActionView::ReplyResult
            &&& s6.depth == s.depth
            &&& s6.phase == Phase::Idle
            &&& !s6.transaction_aborted
        }),
{
}

/// A begin whose statement fails without an interrupt opens no level: the
/// depth stays as it was, whether or not the caller receives the error, and
/// the next begin runs the statement for the same depth (`BEGIN` when no
/// transaction was open, not a savepoint).
pub proof fn lemma_failed_begin_opens_nothing(
    s: WorkerSession,
    b: TransactionBehavior,
    b2: TransactionBehavior,
    autocommit: bool,
    received: bool,
)
    requires
        s.wf(),
        s.phase == Phase::Idle,
    ensures
        ({
            let (s1, x1) = step_spec(s, SessionEvent::Begin(b));
            let (s2, x2) = step_spec(
                s1,
                SessionEvent::Executed { ok: false, interrupted: false, autocommit },
            );
            let (s3, x3) = step_spec(s2, SessionEvent::ReplyDelivered { received });
            let (s4, x4) = step_spec(s3, SessionEvent::Begin(b2));
            &&& x1 == ActionView::Exec(begin_statement(s.depth as nat, b))
            &&& x2 == ActionView::ReplyResult
            &&& s2.depth == s.depth
            &&& s3.depth == s.depth
            &&& s3.phase == Phase::Idle
            &&& x4 == ActionView::Exec(begin_statement(s.depth as nat, b2))
        }),
{
}

/// A statement that fails without an interrupt changes no depth, whatever
/// was running.
pub proof fn lemma_plain_failure_keeps_depth(s: WorkerSession, autocommit: bool)
    ensures
        step_spec(s, SessionEvent::Executed { ok: false, interrupted: false, autocommit }).0.depth
            == s.depth,
{
}

/// Once an interrupt has rolled a transaction back, commit and rollback run
/// nothing: a caller awaiting the result is told the transaction was
/// aborted, and the depth stays as it is.
pub proof fn lemma_aborted_transaction_is_refused(s: WorkerSession, reply: bool)
    requires
        s.phase == Phase::Idle,
        s.transaction_aborted,
        !s.ignore_next_start_rollback,
    ensures
        step_spec(s, SessionEvent::Commit).1 == ActionView::ReplyAborted,
        step_spec(s, SessionEvent::Commit).0.depth == s.depth,
        step_spec(s, SessionEvent::Rollback { reply }).1 == if reply {
            ActionView::ReplyAborted
        } else {
            ActionView::Nothing
        },
        step_spec(s, SessionEvent::Rollback { reply }).0.depth == s.depth,
{
}

/// Only a begin clears the aborted mark.
pub proof fn lemma_abort_cleared_only_by_begin(s: WorkerSession, e: SessionEvent)
    requires
        s.transaction_aborted,
        !step_spec(s, e).0.transaction_aborted,
    ensures
        s.phase == Phase::Idle,
        e is Begin,
{
}

/// An interrupt after which SQLite is in autocommit mode leaves no level
/// open, and marks an open transaction as aborted.
pub proof fn lemma_interrupt_resets_depth(s: WorkerSession)
    requires
        s.phase == Phase::Idle,
    ensures
        step_spec(s, SessionEvent::Interrupted { autocommit: true }).0.depth == 0,
        step_spec(s, SessionEvent::Interrupted { autocommit: true }).0.transaction_aborted == (
        s.depth > 0 || s.transaction_aborted),
        step_spec(s, SessionEvent::Interrupted { autocommit: false }).0 == s,
{
}

/// A begin whose caller never receives the result is undone: the savepoint
/// or transaction just opened is rolled back and the depth restored.
pub proof fn lemma_unreceived_begin_is_rolled_back(
    s: WorkerSession,
    b: TransactionBehavior,
    i1: bool,
    a1: bool,
    i2: bool,
    a2: bool,
)
    requires
        s.phase == Phase::Idle,
        s.depth < usize::MAX,
    ensures
        ({
            let (s1, x1) = step_spec(s, SessionEvent::Begin(b));
            let (s2, x2) = step_spec(s1, SessionEvent::Executed { ok: true, interrupted: i1, autocommit: a1 });
            let (s3, x3) = step_spec(s2, SessionEvent::ReplyDelivered { received: false });
            let (s4, x4) = step_spec(s3, SessionEvent::Executed { ok: true, interrupted: i2, autocommit: a2 });
            &&& x3 == ActionView::Exec(rollback_statement((s.depth + 1) as nat))
            &&& s4.depth == s.depth
            &&& s4.phase == Phase::Idle
            &&& x4 == ActionView::Nothing
        }),
{
}

/// When the caller of a successful commit or rollback never receives the
/// result, the rollback that its dropped transaction then requests (without
/// a reply) is skipped, once.
pub proof fn lemma_unreceived_close_skips_next_drop_rollback(s: WorkerSession, commit: bool)
    requires
        s.phase == (Phase::Replied {
            op: if commit {
                ReplyOp::Commit
            } else {
                ReplyOp::Rollback
            },
            ok: true,
        }),
    ensures
        ({
            let (s1, x1) = step_spec(s, SessionEvent::ReplyDelivered { received: false });
            let (s2, x2) = step_spec(s1, SessionEvent::Rollback { reply: false });
            &&& s1.ignore_next_start_rollback
            &&& x2 == ActionView::Nothing
            &&& s2.depth == s.depth
            &&& !s2.ignore_next_start_rollback
            &&& s2.phase == Phase::Idle
        }),
{
}

/// A dropped transaction's rollback (requested without a reply) undoes the
/// innermost open level, unless an interrupt already aborted it or a lost
/// reply asked to skip it.
pub proof fn lemma_drop_rolls_back_innermost(s: WorkerSession, i: bool, a: bool)
    requires
        s.phase == Phase::Idle,
        s.depth > 0,
        !s.transaction_aborted,
        !s.ignore_next_start_rollback,
    ensures
        ({
            let (s1, x1) = step_spec(s, SessionEvent::Rollback { reply: false });
            let (s2, x2) = step_spec(s1, SessionEvent::Executed { ok: true, interrupted: i, autocommit: a });
            &&& x1 == ActionView::Exec(rollback_statement(s.depth as nat))
            &&& s2.depth == s.depth - 1
            &&& s2.phase == Phase::Idle
            &&& x2 == ActionView::Nothing
        }),
{
}

} // verus!
