use musq::transaction::{TransactionBehavior, begin_sql, commit_sql, rollback_sql};

#[test]
fn begin_sql_uses_behavior_at_depth_zero() {
    assert_eq!(
        begin_sql(0, TransactionBehavior::Deferred),
        "BEGIN DEFERRED"
    );
    assert_eq!(
        begin_sql(0, TransactionBehavior::Immediate),
        "BEGIN IMMEDIATE"
    );
    assert_eq!(
        begin_sql(0, TransactionBehavior::Exclusive),
        "BEGIN EXCLUSIVE"
    );
}

#[test]
fn nested_sql_uses_savepoints() {
    assert_eq!(
        begin_sql(1, TransactionBehavior::Immediate),
        "SAVEPOINT _musq_savepoint_1"
    );
    assert_eq!(commit_sql(1), "COMMIT");
    assert_eq!(commit_sql(2), "RELEASE SAVEPOINT _musq_savepoint_1");
    assert_eq!(rollback_sql(1), "ROLLBACK");
    assert_eq!(
        rollback_sql(2),
        "ROLLBACK TO SAVEPOINT _musq_savepoint_1; RELEASE SAVEPOINT _musq_savepoint_1"
    );
}

#[test]
fn default_behavior_is_immediate() {
    assert_eq!(TransactionBehavior::default(), TransactionBehavior::Immediate);
}

#[test]
fn savepoints_pair_at_deeper_levels() {
    assert_eq!(begin_sql(12, TransactionBehavior::Deferred), "SAVEPOINT _musq_savepoint_12");
    assert_eq!(commit_sql(13), "RELEASE SAVEPOINT _musq_savepoint_12");
    assert_eq!(
        rollback_sql(13),
        "ROLLBACK TO SAVEPOINT _musq_savepoint_12; RELEASE SAVEPOINT _musq_savepoint_12"
    );
    assert_eq!(commit_sql(0), "COMMIT");
    assert_eq!(rollback_sql(0), "ROLLBACK");
}
