use musq::session::{Phase, SessionAction, SessionEvent, WorkerSession};
use musq::execute::{ExecAction, ExecEvent, ExecuteState};
use musq::pool::{AcquireStep, PoolState, next_pool_size};
use musq::statement_cache::StatementCache;
use musq::error::Error;
use musq::logger::{LogSettings, QueryLogger};
use musq::query::{QueryResult, sum_results};
use musq::transaction::TransactionBehavior;

fn exec_sql(a: SessionAction) -> String {
    match a {
        SessionAction::Exec(sql) => sql,
        other => panic!("expected a statement, got {other:?}"),
    }
}

const DONE: SessionEvent = SessionEvent::Executed {
    ok: true,
    interrupted: false,
    autocommit: false,
};

#[test]
fn begin_and_commit_nest_savepoints() {
    let mut s = WorkerSession::new();
    assert_eq!(exec_sql(s.step(SessionEvent::Begin(TransactionBehavior::Deferred))), "BEGIN DEFERRED");
    assert!(matches!(s.step(DONE), SessionAction::ReplyResult));
    assert!(matches!(s.step(SessionEvent::ReplyDelivered { received: true }), SessionAction::Nothing));
    assert_eq!(exec_sql(s.step(SessionEvent::Begin(TransactionBehavior::Deferred))), "SAVEPOINT _musq_savepoint_1");
    s.step(DONE);
    s.step(SessionEvent::ReplyDelivered { received: true });
    assert_eq!(s.depth, 2);
    assert_eq!(exec_sql(s.step(SessionEvent::Commit)), "RELEASE SAVEPOINT _musq_savepoint_1");
    s.step(DONE);
    s.step(SessionEvent::ReplyDelivered { received: true });
    assert_eq!(exec_sql(s.step(SessionEvent::Rollback { reply: true })), "ROLLBACK");
    s.step(DONE);
    s.step(SessionEvent::ReplyDelivered { received: true });
    assert_eq!(s.depth, 0);
    assert_eq!(s.phase, Phase::Idle);
}

#[test]
fn interrupt_aborts_open_transaction() {
    let mut s = WorkerSession::new();
    s.step(SessionEvent::Begin(TransactionBehavior::Immediate));
    s.step(DONE);
    s.step(SessionEvent::ReplyDelivered { received: true });
    s.step(SessionEvent::Interrupted { autocommit: true });
    assert_eq!(s.depth, 0);
    assert!(s.transaction_aborted);
    assert!(matches!(s.step(SessionEvent::Commit), SessionAction::ReplyAborted));
    s.step(SessionEvent::ReplyDelivered { received: true });
    assert!(matches!(s.step(SessionEvent::Rollback { reply: false }), SessionAction::Nothing));
    assert!(matches!(s.step(SessionEvent::Rollback { reply: true }), SessionAction::ReplyAborted));
    s.step(SessionEvent::ReplyDelivered { received: true });
    assert_eq!(exec_sql(s.step(SessionEvent::Begin(TransactionBehavior::Immediate))), "BEGIN IMMEDIATE");
    assert!(!s.transaction_aborted);
}

#[test]
fn unreceived_begin_is_rolled_back() {
    let mut s = WorkerSession::new();
    s.step(SessionEvent::Begin(TransactionBehavior::Immediate));
    s.step(DONE);
    assert_eq!(exec_sql(s.step(SessionEvent::ReplyDelivered { received: false })), "ROLLBACK");
    assert!(matches!(s.step(DONE), SessionAction::Nothing));
    assert_eq!(s.depth, 0);
}

#[test]
fn failed_cancel_rollback_stops_the_worker() {
    let mut s = WorkerSession::new();
    s.step(SessionEvent::Begin(TransactionBehavior::Immediate));
    s.step(DONE);
    s.step(SessionEvent::ReplyDelivered { received: false });
    let failed = SessionEvent::Executed { ok: false, interrupted: false, autocommit: false };
    assert!(matches!(s.step(failed), SessionAction::Stop));
}

#[test]
fn unreceived_commit_skips_the_drop_rollback_once() {
    let mut s = WorkerSession::new();
    s.step(SessionEvent::Begin(TransactionBehavior::Immediate));
    s.step(DONE);
    s.step(SessionEvent::ReplyDelivered { received: true });
    s.step(SessionEvent::Commit);
    s.step(DONE);
    s.step(SessionEvent::ReplyDelivered { received: false });
    assert!(s.ignore_next_start_rollback);
    assert!(matches!(s.step(SessionEvent::Rollback { reply: false }), SessionAction::Nothing));
    assert!(!s.ignore_next_start_rollback);
}

#[test]
fn commit_without_transaction_succeeds_without_sql() {
    let mut s = WorkerSession::new();
    assert!(matches!(s.step(SessionEvent::Commit), SessionAction::ReplyOk));
    assert!(matches!(s.step(SessionEvent::ReplyDelivered { received: true }), SessionAction::Nothing));
    assert!(matches!(s.step(SessionEvent::Rollback { reply: false }), SessionAction::Nothing));
}

#[test]
fn unexpected_events_change_nothing() {
    let mut s = WorkerSession::new();
    assert!(matches!(s.step(DONE), SessionAction::Nothing));
    assert_eq!(s, WorkerSession::new());
}

#[test]
fn cache_evicts_least_recently_used() {
    let mut cache = StatementCache::new(2);
    assert_eq!(cache.insert("a", 1), None);
    assert_eq!(cache.insert("b", 2), None);
    assert_eq!(cache.get_mut("a"), Some(1));
    assert_eq!(cache.insert("c", 3), Some(2));
    assert!(cache.contains_key("a"));
    assert!(!cache.contains_key("b"));
    assert_eq!(cache.len(), 2);
    assert_eq!(cache.capacity(), 2);
}

#[test]
fn cache_replaces_existing_key() {
    let mut cache = StatementCache::new(4);
    cache.insert("a", 1);
    assert_eq!(cache.insert("a", 5), Some(1));
    assert_eq!(cache.get_mut("a"), Some(5));
    assert_eq!(cache.len(), 1);
    assert_eq!(cache.remove_lru(), Some(5));
    assert_eq!(cache.remove_lru(), None);
}

#[test]
fn zero_capacity_cache_stores_nothing() {
    let mut cache = StatementCache::new(0);
    assert_eq!(cache.insert("a", 1), None);
    assert_eq!(cache.len(), 0);
    assert_eq!(cache.get_mut("a"), None);
    cache.insert("b", 2);
    cache.clear();
    assert_eq!(cache.len(), 0);
}

#[test]
fn pool_admission_respects_maximum() {

    assert_eq!(next_pool_size(0, 2, false), Some(1));
    assert_eq!(next_pool_size(2, 2, false), None);
    assert_eq!(next_pool_size(0, 2, true), None);
    assert_eq!(next_pool_size(u32::MAX, u32::MAX, false), None);
}

#[test]
fn compound_query_binds_after_earlier_statements() {

    let mut s = ExecuteState::new();
    assert_eq!(s.step(ExecEvent::Next), ExecAction::PrepareNext);
    assert_eq!(s.step(ExecEvent::Prepared { has_statement: true }), ExecAction::ResetAndBind { offset: 0 });
    assert_eq!(s.step(ExecEvent::Bound { used: 2 }), ExecAction::Step);
    assert_eq!(s.step(ExecEvent::Row), ExecAction::YieldRow);
    assert_eq!(s.step(ExecEvent::Next), ExecAction::Step);
    assert_eq!(
        s.step(ExecEvent::Done { changes: 1, last_insert_rowid: 9 }),
        ExecAction::YieldDone { changes: 1, last_insert_rowid: 9 }
    );
    assert_eq!(s.step(ExecEvent::Next), ExecAction::PrepareNext);
    assert_eq!(s.step(ExecEvent::Prepared { has_statement: true }), ExecAction::ResetAndBind { offset: 2 });
    assert_eq!(s.step(ExecEvent::Failed), ExecAction::YieldError);
    assert_eq!(s.step(ExecEvent::Next), ExecAction::Step);
    assert_eq!(s.step(ExecEvent::Failed), ExecAction::YieldError);
    let mut end = ExecuteState::new();
    end.step(ExecEvent::Next);
    assert_eq!(end.step(ExecEvent::Prepared { has_statement: false }), ExecAction::End);
}

#[test]
fn pool_counts_open_and_idle_connections() {
    let mut pool = PoolState::new(2);
    assert_eq!(pool.acquire_step(), AcquireStep::OpenNew);
    assert_eq!(pool.acquire_step(), AcquireStep::OpenNew);
    assert_eq!((pool.size, pool.idle), (2, 0));
    // At the maximum with nothing idle, an attempt retries.
    assert_eq!(pool.acquire_step(), AcquireStep::Retry);
    assert!(!pool.try_acquire());
    pool.release();
    assert_eq!((pool.size, pool.idle), (2, 1));
    assert_eq!(pool.acquire_step(), AcquireStep::ReuseIdle);
    assert_eq!((pool.size, pool.idle), (2, 0));
    pool.release();
    assert!(pool.try_acquire());
    pool.discard();
    assert_eq!((pool.size, pool.idle), (1, 0));
    pool.release();
    pool.close();
    assert!(!pool.try_acquire());
    // A closed pool still hands out what is idle inside acquire, but opens nothing new.
    assert_eq!(pool.acquire_step(), AcquireStep::ReuseIdle);
    assert_eq!(pool.acquire_step(), AcquireStep::Retry);
    pool.release();
    assert!(pool.close_idle());
    assert_eq!((pool.size, pool.idle), (0, 0));
    assert!(!pool.close_idle());
}

#[test]
fn cache_get_reuses_or_caches_the_fresh_statement() {
    let mut cache = StatementCache::new(2);
    assert_eq!(cache.get("SELECT 1", 10), (10, false, None));
    assert_eq!(cache.get("SELECT 1", 11), (10, true, None));
    assert_eq!(cache.get("SELECT 2", 12), (12, false, None));
    // "SELECT 1" was the least recently used and makes room.
    assert_eq!(cache.get("SELECT 3", 13), (13, false, Some(10)));
    assert!(!cache.contains_key("SELECT 1"));
    assert_eq!(cache.get("SELECT 2", 14), (12, true, None));
    assert_eq!(cache.len(), 2);
}

#[test]
fn closed_pool_refuses_acquire() {
    let mut pool = PoolState::new(1);
    assert!(matches!(pool.acquire(), Ok(AcquireStep::OpenNew)));
    pool.release();
    pool.close();
    assert!(matches!(pool.acquire(), Err(Error::PoolClosed)));
    assert_eq!((pool.size, pool.idle), (1, 1));
}

#[test]
fn execution_counts_rows_and_changes_in_the_logger() {
    let mut logger = QueryLogger::new("INSERT INTO t VALUES (1); SELECT * FROM t", LogSettings::default());
    let mut s = ExecuteState::new();
    assert_eq!(s.step_logged(ExecEvent::Next, &mut logger), ExecAction::PrepareNext);
    s.step_logged(ExecEvent::Prepared { has_statement: true }, &mut logger);
    s.step_logged(ExecEvent::Bound { used: 0 }, &mut logger);
    let done = s.step_logged(ExecEvent::Done { changes: 3, last_insert_rowid: 9 }, &mut logger);
    assert_eq!(done, ExecAction::YieldDone { changes: 3, last_insert_rowid: 9 });
    s.step_logged(ExecEvent::Next, &mut logger);
    s.step_logged(ExecEvent::Prepared { has_statement: true }, &mut logger);
    s.step_logged(ExecEvent::Bound { used: 0 }, &mut logger);
    assert_eq!(s.step_logged(ExecEvent::Row, &mut logger), ExecAction::YieldRow);
    s.step_logged(ExecEvent::Next, &mut logger);
    s.step_logged(ExecEvent::Row, &mut logger);
    assert_eq!(logger.rows_returned, 2);
    assert_eq!(logger.rows_affected, 3);
}

#[test]
fn statement_results_add_up() {
    let rs = vec![
        QueryResult { changes: 2, last_insert_rowid: 5 },
        QueryResult { changes: 0, last_insert_rowid: 5 },
        QueryResult { changes: 4, last_insert_rowid: 9 },
    ];
    let total = sum_results(&rs);
    assert_eq!(total.rows_affected(), 6);
    assert_eq!(total.last_insert_rowid(), 9);
    let none = sum_results(&Vec::new());
    assert_eq!((none.rows_affected(), none.last_insert_rowid()), (0, 0));
}
