use musq::codec::Decode;
use musq::control::{
    BackupStep, DbStatusKind, DeserializeMode, TxnState, WalCheckpointMode, backup_step_outcome,
    busy_timeout_millis, check_db_config, check_deserialize, check_fp_digits, deserialize_flags,
    frames_to_option, is_wal_image, names_database_file, open_flags, parser_depth_from_limit,
    serialize_size, open_params, OpenOptions,
    sqlite_filename_of, txn_state_from_code, SqliteRuntimeInfo, validate_floating_point_text_digits,
    validate_parser_depth_limit, wal_checkpoint_from_frames,
};
use musq::errcodes::{ExtendedErrCode, PrimaryErrCode, SqliteError};
use musq::error::{DecodeError, Error};
use musq::function::{Column, FunctionFlags, UpdateOp, argument_value, compare_bytes, update_op};
use musq::logger::{
    Level, LevelFilter, LogSettings, NopQueryLogger, QueryLog, QueryLogger, is_whitespace,
    parse_query_summary, private_level_filter_to_levels,
};
use musq::connection::ConnectionState;
use musq::row::{ColumnCell, Row};
use musq::text::{sort_strings, str_lt};
use musq::type_info::SqliteDataType;
use musq::value::Value;
use std::time::Duration;

#[test]
fn sqlite_error_codes_and_text() {
    let e = SqliteError::from_code(5, "database is locked".to_string());
    assert_eq!(e.primary, PrimaryErrCode::Busy);
    assert!(e.extended.is_none());
    assert!(e.is_busy());
    assert_eq!(e.describe(), "SQLITE_BUSY: database is locked");

    let u = SqliteError::from_code(2067, "UNIQUE constraint failed".to_string());
    assert_eq!(u.primary, PrimaryErrCode::Constraint);
    assert_eq!(u.extended, Some(ExtendedErrCode::ConstraintUnique));
    assert!(u.is_unique_violation());
    assert!(!u.is_busy());
    assert!(Error::Sqlite(u).is_unique_violation());
}

#[test]
fn status_and_checkpoint_codes() {
    assert_eq!(DbStatusKind::LookasideUsed.as_sqlite_code(), 0);
    assert_eq!(DbStatusKind::TempBufferSpill.as_sqlite_code(), 13);
    assert_eq!(WalCheckpointMode::Noop.as_sqlite_code(), -1);
    assert_eq!(WalCheckpointMode::Truncate.as_sqlite_code(), 3);
    assert_eq!(frames_to_option(-1), None);
    assert_eq!(frames_to_option(0), Some(0));
    let w = wal_checkpoint_from_frames(-1, 7);
    assert_eq!(w.log_frames, None);
    assert_eq!(w.checkpointed_frames, Some(7));
}

#[test]
fn transaction_state_codes() {
    assert_eq!(txn_state_from_code(0).unwrap(), TxnState::Idle);
    assert_eq!(txn_state_from_code(2).unwrap(), TxnState::Write);
    match txn_state_from_code(-3) {
        Err(Error::Protocol(m)) => assert_eq!(m, "sqlite3_txn_state returned -3"),
        other => panic!("unexpected result: {other:?}"),
    }
}

#[test]
fn database_image_checks() {
    let mut wal = vec![0u8; 32];
    wal[18] = 2;
    assert!(is_wal_image(&wal));
    assert!(!is_wal_image(&[2u8; 19]));
    match check_deserialize(1, false, &[]) {
        Err(Error::Configuration(m)) => assert_eq!(m, "cannot deserialize while a transaction is open"),
        other => panic!("unexpected result: {other:?}"),
    }
    match check_deserialize(0, true, &wal) {
        Err(Error::Configuration(m)) => assert_eq!(m, "cannot deserialize a WAL-mode database image"),
        other => panic!("unexpected result: {other:?}"),
    }
    assert_eq!(check_deserialize(0, true, &[1, 2, 3]).unwrap(), 3);
    assert_eq!(deserialize_flags(DeserializeMode::ReadOnly), 5);
    assert_eq!(deserialize_flags(DeserializeMode::Resizable), 3);
    assert_eq!(serialize_size(10).unwrap(), 10);
    match serialize_size(-1) {
        Err(Error::Protocol(m)) => assert_eq!(m, "sqlite3_serialize returned invalid size -1"),
        other => panic!("unexpected result: {other:?}"),
    }
    assert_eq!(parser_depth_from_limit(1000).unwrap(), 1000);
    assert!(parser_depth_from_limit(-1).is_err());
    assert_eq!(backup_step_outcome(101), BackupStep::Done);
    assert_eq!(backup_step_outcome(0), BackupStep::Continue);
    assert_eq!(backup_step_outcome(5), BackupStep::Failed);
}

#[test]
fn connection_options() {
    assert_eq!(open_flags(false, false, true, false), 32768 | 4 | 2 | 33554432);
    assert_eq!(open_flags(true, true, false, true), 65536 | 1 | 33554432 | 64);
    assert_eq!(
        sqlite_filename_of("db.sqlite", true, Some("memdb")),
        ("file:db.sqlite?immutable=true&vfs=memdb".to_string(), true)
    );
    assert_eq!(sqlite_filename_of("db", false, None), ("db".to_string(), false));
    assert!(names_database_file("data/app.db"));
    assert!(!names_database_file(""));
    assert!(!names_database_file(":memory:"));
    assert!(names_database_file(":memory"));
    assert_eq!(validate_floating_point_text_digits(Some(17)).unwrap(), Some(17));
    match validate_floating_point_text_digits(Some(3)) {
        Err(Error::Configuration(m)) => {
            assert_eq!(m, "floating_point_text_digits must be between 4 and 23, got 3")
        }
        other => panic!("unexpected result: {other:?}"),
    }
    assert_eq!(validate_parser_depth_limit(None).unwrap(), None);
    assert_eq!(validate_parser_depth_limit(Some(50)).unwrap(), Some(50));
    match validate_parser_depth_limit(Some(0)) {
        Err(Error::Configuration(m)) => assert_eq!(m, "parser_depth_limit must be greater than zero"),
        other => panic!("unexpected result: {other:?}"),
    }
    match validate_parser_depth_limit(Some(u32::MAX)) {
        Err(Error::Configuration(m)) => {
            assert_eq!(m, "parser_depth_limit must fit into i32, got 4294967295")
        }
        other => panic!("unexpected result: {other:?}"),
    }
    assert_eq!(busy_timeout_millis(5000), 5000);
    assert_eq!(busy_timeout_millis(u128::MAX), i32::MAX);
    assert!(check_db_config(1, true).is_ok());
    match check_db_config(0, true) {
        Err(Error::Protocol(m)) => assert_eq!(m, "SQLite reported db_config 0 after setting 1"),
        other => panic!("unexpected result: {other:?}"),
    }
    match check_fp_digits(15, 17) {
        Err(Error::Protocol(m)) => {
            assert_eq!(m, "SQLite reported floating point text digits 15 after setting 17")
        }
        other => panic!("unexpected result: {other:?}"),
    }
}

#[test]
fn function_flags_and_hooks() {
    assert_eq!(FunctionFlags::default().sqlite_flags(), 1 | 524288);
    let all = FunctionFlags { deterministic: true, direct_only: true, innocuous: true };
    assert_eq!(all.sqlite_flags(), 1 | 2048 | 524288 | 2097152);
    assert_eq!(update_op(18), Some(UpdateOp::Insert));
    assert_eq!(update_op(23), Some(UpdateOp::Update));
    assert_eq!(update_op(9), Some(UpdateOp::Delete));
    assert_eq!(update_op(1), None);
    assert_eq!(compare_bytes(b"abc", b"abd"), -1);
    assert_eq!(compare_bytes(b"abc", b"ab"), 1);
    assert_eq!(compare_bytes(b"", b""), 0);
    assert_eq!(Column { type_info: SqliteDataType::Text }.type_info(), SqliteDataType::Text);
}

#[test]
fn log_settings_and_levels() {
    let mut s = LogSettings::default();
    assert_eq!(s.statements_level, LevelFilter::Debug);
    assert_eq!(s.slow_statements_level, LevelFilter::Warn);
    assert_eq!(s.slow_statements_duration, Duration::from_secs(1));
    assert!(s.is_enabled());
    s.log_statements(LevelFilter::Off);
    s.log_slow_statements(LevelFilter::Off, Duration::from_millis(10));
    assert!(!s.is_enabled());
    assert_eq!(private_level_filter_to_levels(LevelFilter::Off), None);
    assert_eq!(
        private_level_filter_to_levels(LevelFilter::Trace),
        Some((Level::Trace, Level::Trace))
    );
}

#[test]
fn logger_chooses_level_by_elapsed_time() {
    let logger = QueryLogger::new("SELECT 1", LogSettings::default());
    assert_eq!(logger.level_for_elapsed(&Duration::from_millis(5)), LevelFilter::Debug);
    assert_eq!(logger.level_for_elapsed(&Duration::from_secs(1)), LevelFilter::Warn);
    let ev = logger.finish_after(Duration::from_secs(2)).unwrap();
    assert_eq!(ev.tracing_level, Level::Warn);
    assert_eq!(ev.rows_returned, 0);
}

#[test]
fn query_summary_takes_four_words() {
    assert_eq!(parse_query_summary("  SELECT a,\n b FROM t WHERE x"), "SELECT a, b FROM");
    assert_eq!(parse_query_summary("SELECT 1"), "SELECT 1");
    assert_eq!(parse_query_summary(""), "");
    assert!(is_whitespace('\u{3000}'));
    assert!(!is_whitespace('x'));
}

#[test]
fn log_payload_formats_long_sql() {
    let short = QueryLogger::new("SELECT 1", LogSettings::default());
    assert_eq!(short.build_log_payload(), ("SELECT 1".to_string(), String::new()));
    let long = QueryLogger::new("SELECT a FROM t WHERE b = 1", LogSettings::default());
    let (summary, sql) = long.build_log_payload();
    assert_eq!(summary, "SELECT a FROM t …");
    let formatted = sqlformat::format(
        "SELECT a FROM t WHERE b = 1",
        &sqlformat::QueryParams::None,
        &sqlformat::FormatOptions::default(),
    );
    assert_eq!(sql, format!("\n\n{}\n", formatted));
    assert!(sql.contains("WHERE"));
}

#[test]
fn row_counters() {
    let mut logger = QueryLogger::new("SELECT 1", LogSettings::default());
    logger.inc_rows_returned();
    logger.inc_rows_affected(3);
    assert_eq!(logger.rows_returned, 1);
    assert_eq!(logger.rows_affected, 3);
    let mut nop = NopQueryLogger::default();
    nop.inc_rows_returned();
    nop.inc_rows_affected(5);
}

#[test]
fn rows_decode_columns_by_index_and_name() {
    let columns = vec![
        Column { type_info: SqliteDataType::Int64 },
        Column { type_info: SqliteDataType::Null },
    ];
    let names = vec![("id".to_string(), 0), ("name".to_string(), 1)];
    let row = Row::current(
        vec![ColumnCell::Integer(7), ColumnCell::Text("bo".to_string())],
        columns,
        names,
    )
    .unwrap();
    assert!(!row.is_empty());
    assert_eq!(row.get_value_idx::<i64>(0).unwrap(), 7);
    assert_eq!(row.get_value::<String>("name").unwrap(), "bo");
    match row.values[0] {
        Value::Integer { type_info, .. } => assert_eq!(type_info, Some(SqliteDataType::Int64)),
        _ => panic!("expected an integer"),
    }
    match row.get_value_idx::<i64>(5) {
        Err(Error::ColumnIndexOutOfBounds { index, len }) => assert_eq!((index, len), (5, 2)),
        other => panic!("unexpected result: {other:?}"),
    }
    match row.get_value::<i64>("missing") {
        Err(Error::ColumnNotFound(n)) => assert_eq!(n, "missing"),
        other => panic!("unexpected result: {other:?}"),
    }
    match row.get_value_idx::<i64>(1) {
        Err(Error::ColumnDecode { index, column_name, source, .. }) => {
            assert_eq!(index, "1");
            assert_eq!(column_name, "name");
            match source {
                DecodeError::Conversion(m) => assert_eq!(m, "not an integer"),
                other => panic!("unexpected source: {other:?}"),
            }
        }
        other => panic!("unexpected result: {other:?}"),
    }
}

#[test]
fn unknown_storage_class_is_an_error() {
    let r = Row::current(
        vec![ColumnCell::Unknown(42)],
        vec![Column { type_info: SqliteDataType::Null }],
        Vec::new(),
    );
    assert!(matches!(r, Err(Error::UnknownColumnType(42))));
    let first = Row::current(
        vec![ColumnCell::Integer(1), ColumnCell::Unknown(7), ColumnCell::Unknown(9)],
        vec![
            Column { type_info: SqliteDataType::Null },
            Column { type_info: SqliteDataType::Null },
            Column { type_info: SqliteDataType::Null },
        ],
        Vec::new(),
    );
    assert!(matches!(first, Err(Error::UnknownColumnType(7))));
}

#[test]
fn decode_errors_have_messages() {
    let e = i64::decode(&Value::Text { value: "x".to_string(), type_info: None }).unwrap_err();
    assert_eq!(e.message(), "decoding conversion error: not an integer");
    let e = String::decode(&Value::Integer { value: 1, type_info: None }).unwrap_err();
    assert_eq!(e.message(), "incompatible source data type: INTEGER");
    assert_eq!(
        DecodeError::Conversion("bad".to_string()).message(),
        "decoding conversion error: bad"
    );
}

#[test]
fn function_arguments_carry_no_declared_type() {
    assert!(matches!(
        argument_value(ColumnCell::Integer(7)),
        Value::Integer { value: 7, type_info: None }
    ));
    assert!(matches!(
        argument_value(ColumnCell::Float(1.5f64.to_bits())),
        Value::Double { bits, type_info: None } if bits == 1.5f64.to_bits()
    ));
    match argument_value(ColumnCell::Text("héllo".to_string())) {
        Value::Text { value, type_info: None } => assert_eq!(value, "héllo"),
        other => panic!("unexpected {other:?}"),
    }
    match argument_value(ColumnCell::Blob(vec![0, 255])) {
        Value::Blob { value, type_info: None } => assert_eq!(value, vec![0, 255]),
        other => panic!("unexpected {other:?}"),
    }
    assert!(matches!(argument_value(ColumnCell::Null), Value::Null { type_info: None }));
    assert!(matches!(argument_value(ColumnCell::Unknown(42)), Value::Null { type_info: None }));
}

#[test]
fn runtime_info_sorts_compile_options() {
    let info = SqliteRuntimeInfo::new(
        "3.53.2".to_string(),
        3053002,
        "id".to_string(),
        vec!["THREADSAFE=1".to_string(), "ENABLE_FTS5".to_string(), "DEFAULT_WAL_SYNCHRONOUS=1".to_string(), "ENABLE_FTS5".to_string()],
    );
    assert_eq!(info.version, "3.53.2");
    assert_eq!(info.version_number, 3053002);
    assert_eq!(info.source_id, "id");
    assert_eq!(
        info.compile_options,
        vec!["DEFAULT_WAL_SYNCHRONOUS=1", "ENABLE_FTS5", "ENABLE_FTS5", "THREADSAFE=1"]
    );
}

#[test]
fn string_order_is_by_code_point() {
    assert!(str_lt("a", "b"));
    assert!(str_lt("ab", "abc"));
    assert!(!str_lt("abc", "ab"));
    assert!(!str_lt("x", "x"));
    assert!(str_lt("Z", "a"));
    assert!(str_lt("é", "😀"));
    let v = vec!["b".to_string(), "".to_string(), "é".to_string(), "a".to_string()];
    assert_eq!(sort_strings(v), vec!["", "a", "b", "é"]);
}

#[test]
fn blob_of_other_values_is_empty() {
    let int = Value::Integer { value: 1, type_info: None };
    assert_eq!(int.blob().unwrap(), &[][..]);
    let null = Value::Null { type_info: None };
    assert_eq!(null.blob().unwrap(), &[][..]);
    let text = Value::Text { value: "hé".to_string(), type_info: None };
    assert_eq!(text.blob().unwrap(), "hé".as_bytes());
}

#[test]
fn decode_errors_are_those_of_the_value() {
    let text = Value::Text { value: "x".to_string(), type_info: None };
    match i64::decode(&text) {
        Err(DecodeError::Conversion(m)) => assert_eq!(m, "not an integer"),
        other => panic!("unexpected result: {other:?}"),
    }
    let big = Value::Integer { value: 300, type_info: None };
    match u8::decode(&big) {
        Err(DecodeError::Conversion(m)) => {
            assert_eq!(m, "out of range integral type conversion attempted")
        }
        other => panic!("unexpected result: {other:?}"),
    }
    let declared = Value::Integer { value: 1, type_info: Some(SqliteDataType::Float) };
    match String::decode(&declared) {
        Err(DecodeError::IncompatibleDataType(t)) => assert_eq!(t, SqliteDataType::Float),
        other => panic!("unexpected result: {other:?}"),
    }
}

#[test]
fn error_messages() {
    assert_eq!(
        Error::ColumnIndexOutOfBounds { index: 5, len: 2 }.message(""),
        "column index out of bounds: the len is 2, but the index is 5"
    );
    assert_eq!(
        Error::Decode(DecodeError::Conversion("bad".to_string())).message(""),
        "error occurred while decoding: decoding conversion error: bad"
    );
    assert_eq!(Error::UnknownColumnType(-3).message(""), "unknown column type: -3");
    assert_eq!(Error::Io("gone".to_string()).message(""), "error communicating with database: gone");
    let e = Error::ColumnDecode {
        index: "1".to_string(),
        column_name: "name".to_string(),
        value: Value::Null { type_info: None },
        source: DecodeError::IncompatibleDataType(SqliteDataType::Text),
    };
    assert_eq!(
        e.message("Null"),
        "error occurred while decoding column name at index 1 (value: Null): incompatible source data type: TEXT"
    );
}

#[test]
fn open_params_compose_name_flags_and_limits() {
    let mut o = OpenOptions {
        filename: "db.sqlite".to_string(),
        serialized: false,
        read_only: false,
        create_if_missing: true,
        immutable: true,
        vfs: None,
        floating_point_text_digits: Some(17),
        parser_depth_limit: Some(100),
    };
    let p = open_params(&o).unwrap();
    assert_eq!(p.filename, "file:db.sqlite?immutable=true");
    assert_eq!(p.open_flags, open_flags(false, false, true, true));
    assert_eq!(p.floating_point_text_digits, Some(17));
    assert_eq!(p.parser_depth_limit, Some(100));
    o.immutable = false;
    assert_eq!(open_params(&o).unwrap().open_flags, open_flags(false, false, true, false));
    o.parser_depth_limit = Some(0);
    match open_params(&o) {
        Err(Error::Configuration(m)) => assert_eq!(m, "parser_depth_limit must be greater than zero"),
        other => panic!("unexpected result: {other:?}"),
    }
    o.floating_point_text_digits = Some(2);
    match open_params(&o) {
        Err(Error::Configuration(m)) => {
            assert_eq!(m, "floating_point_text_digits must be between 4 and 23, got 2")
        }
        other => panic!("unexpected result: {other:?}"),
    }
    o.filename = "a\0b".to_string();
    match open_params(&o) {
        Err(Error::Io(m)) => assert_eq!(m, "filename passed to SQLite must not contain nul bytes"),
        other => panic!("unexpected result: {other:?}"),
    }
}

#[test]
fn deserializing_empties_the_statement_cache() {
    let mut conn = ConnectionState::new(4, LogSettings::default());
    conn.statements.insert("SELECT 1", 1);
    let wal = {
        let mut b = vec![0u8; 20];
        b[18] = 2;
        b
    };
    assert!(conn.prepare_deserialize(true, &wal).is_err());
    assert_eq!(conn.statements.len(), 1);
    conn.transaction_depth = 1;
    match conn.prepare_deserialize(true, &[0u8; 4]) {
        Err(Error::Configuration(m)) => assert_eq!(m, "cannot deserialize while a transaction is open"),
        other => panic!("unexpected result: {other:?}"),
    }
    assert_eq!(conn.statements.len(), 1);
    conn.transaction_depth = 0;
    assert_eq!(conn.prepare_deserialize(true, &[0u8; 4]).unwrap(), 4);
    assert_eq!(conn.statements.len(), 0);
    assert_eq!(conn.statements.capacity(), 4);
}
