use musq::arguments::Arguments;
use musq::codec::Null;
use musq::error::Error;
use musq::insert_builder::insert_into;
use musq::query::{query, query_with, quote_identifier};
use musq::query_builder::{Conditions, QueryBuilder, reject_numeric_parameters};
use musq::scan::{SqlSpan, contains_numeric_parameter, rewrite_named_parameters, scan_sql};
use musq::values::{Expr, Values, raw};

#[derive(Debug, PartialEq, Eq)]
enum OwnedToken {
    Text(String),
    Placeholder { prefix: char, name: String },
    Numeric { prefix: char, digits: String },
}

fn collect(sql: &str) -> Vec<OwnedToken> {
    let chars: Vec<char> = sql.chars().collect();
    let text = |a: usize, b: usize| chars[a..b].iter().collect::<String>();
    scan_sql(sql)
        .into_iter()
        .map(|span| match span {
            SqlSpan::Text { start, end } => OwnedToken::Text(text(start, end)),
            SqlSpan::Placeholder { prefix, start, end } => OwnedToken::Placeholder {
                prefix,
                name: text(start, end),
            },
            SqlSpan::Numeric { prefix, start, end } => OwnedToken::Numeric {
                prefix,
                digits: text(start, end),
            },
        })
        .collect()
}

#[test]
fn scan_sql_table() {
    assert_eq!(collect("SELECT 1"), [OwnedToken::Text("SELECT 1".into())]);
    assert_eq!(
        collect("WHERE id = :id"),
        [
            OwnedToken::Text("WHERE id = ".into()),
            OwnedToken::Placeholder {
                prefix: ':',
                name: "id".into()
            },
        ]
    );
    assert_eq!(
        collect("a $2 b"),
        [
            OwnedToken::Text("a ".into()),
            OwnedToken::Numeric {
                prefix: '$',
                digits: "2".into()
            },
            OwnedToken::Text(" b".into()),
        ]
    );
    assert_eq!(
        collect("a ?1 b"),
        [
            OwnedToken::Text("a ".into()),
            OwnedToken::Numeric {
                prefix: '?',
                digits: "1".into()
            },
            OwnedToken::Text(" b".into()),
        ]
    );
    assert_eq!(collect("':id'"), [OwnedToken::Text("':id'".into())]);
    assert_eq!(
        collect("-- :id\n:x"),
        [
            OwnedToken::Text("-- :id\n".into()),
            OwnedToken::Placeholder {
                prefix: ':',
                name: "x".into()
            },
        ]
    );
    assert_eq!(
        collect("$2foo"),
        [OwnedToken::Placeholder {
            prefix: '$',
            name: "2foo".into()
        }]
    );
    assert!(contains_numeric_parameter("SELECT ?1"));
    assert!(!contains_numeric_parameter("SELECT :id"));
    let renames = vec![("id".to_string(), "id_0".to_string())];
    assert_eq!(
        rewrite_named_parameters("WHERE x = :id", &renames),
        "WHERE x = :id_0"
    );
    assert_eq!(
        rewrite_named_parameters("WHERE x = ':id'", &renames),
        "WHERE x = ':id'"
    );
}

#[test]
fn scan_skips_block_comments_and_quoted_identifiers() {
    assert_eq!(
        collect("/* :a */ \"x:y\" @b"),
        [
            OwnedToken::Text("/* :a */ \"x:y\" ".into()),
            OwnedToken::Placeholder {
                prefix: '@',
                name: "b".into()
            },
        ]
    );
    assert_eq!(collect("'it''s :x'"), [OwnedToken::Text("'it''s :x'".into())]);
}

#[test]
fn quote_identifier_doubles_quotes() {
    assert_eq!(quote_identifier("a\"b"), "\"a\"\"b\"");
    assert_eq!(quote_identifier("plain"), "\"plain\"");
}

#[test]
fn push_query_renames_colliding_named_parameters() {
    let mut builder = QueryBuilder::new();
    builder.push_sql("SELECT * FROM t WHERE a = ");
    builder.push_bind_named("id", &1_i32).unwrap();
    let mut args = Arguments::new();
    args.add_named("id", 2_i32).unwrap();
    builder.push_query(query_with("AND b = :id", args));
    let q = builder.build();
    assert_eq!(q.sql(), "SELECT * FROM t WHERE a = :id AND b = :id_1");
    let args = q.arguments.unwrap();
    assert_eq!(
        args.named,
        vec![("id".to_string(), 1), ("id_1".to_string(), 2)]
    );
    assert_eq!(args.values[1].int64().unwrap(), 2);
}

#[test]
fn try_push_query_rejects_numeric_placeholders() {
    let mut builder = QueryBuilder::new();
    builder.push_sql("SELECT 1");
    let err = builder.try_push_query(query("WHERE x = ?1")).unwrap_err();
    match err {
        Error::Query(msg) => assert_eq!(
            msg,
            "numeric SQL parameters are not supported in composed query fragments"
        ),
        other => panic!("unexpected error: {other:?}"),
    }
    assert_eq!(builder.sql, "SELECT 1");
}

#[test]
fn empty_fragment_changes_nothing() {
    let mut builder = QueryBuilder::new();
    builder.push_sql("SELECT 1");
    builder.try_push_query(query("")).unwrap();
    assert_eq!(builder.sql, "SELECT 1");
}

#[test]
fn push_bind_writes_placeholders_and_values() {
    let mut builder = QueryBuilder::new();
    builder.push_sql("VALUES (");
    builder.push_bind(&5_i32).unwrap();
    builder.push_sql(", ");
    builder.push_bind_named("@who", &"x").unwrap();
    builder.push_sql(")");
    assert_eq!(builder.sql, "VALUES (?, :who)");
    assert_eq!(builder.arguments.values.len(), 2);
    assert_eq!(builder.arguments.named, vec![("who".to_string(), 2)]);
}

#[test]
fn push_bind_named_rejects_empty_name() {
    let mut builder = QueryBuilder::new();
    match builder.push_bind_named(":", &1_i32) {
        Err(Error::Query(msg)) => assert_eq!(msg, "empty named bind parameter"),
        other => panic!("unexpected result: {other:?}"),
    }
    assert!(builder.sql.is_empty());
}

#[test]
fn push_bind_reports_encode_error_without_writing() {
    let mut builder = QueryBuilder::new();
    assert!(matches!(builder.push_bind(&u64::MAX), Err(Error::Encode(_))));
    assert!(builder.sql.is_empty());
    assert!(builder.arguments.values.is_empty());
}

#[test]
fn push_values_writes_comma_separated_placeholders() {
    let mut builder = QueryBuilder::new();
    builder.push_values(vec![1_i32, 2, 3]).unwrap();
    assert_eq!(builder.sql, "?, ?, ?");
    assert_eq!(builder.arguments.values.len(), 3);
}

#[test]
fn push_values_stops_at_first_failure() {
    let mut builder = QueryBuilder::new();
    let err = builder.push_values(vec![1_u64, u64::MAX, 3]).unwrap_err();
    assert!(matches!(err, Error::Encode(_)));
    assert_eq!(builder.sql, "?, ?");
    assert_eq!(builder.arguments.values.len(), 1);
}

#[test]
fn push_idents_quotes_and_rejects_empty() {
    let mut builder = QueryBuilder::new();
    builder.push_idents(&["a", "b\"c"]).unwrap();
    assert_eq!(builder.sql, "\"a\", \"b\"\"c\"");
    let mut empty = QueryBuilder::new();
    match empty.push_idents(&[]) {
        Err(Error::Query(msg)) => assert_eq!(msg, "empty idents"),
        other => panic!("unexpected result: {other:?}"),
    }
}

#[test]
fn push_insert_lists_columns_and_values() {
    let values = Values::new()
        .val("id", 1)
        .unwrap()
        .val("name", "Alice")
        .unwrap();
    let mut builder = QueryBuilder::new();
    builder.push_sql("INSERT INTO t ");
    builder.push_insert(&values).unwrap();
    assert_eq!(builder.sql, "INSERT INTO t (\"id\", \"name\") VALUES (?, ?)");
    assert_eq!(builder.arguments.values.len(), 2);
}

#[test]
fn push_insert_rejects_empty_values() {
    let mut builder = QueryBuilder::new();
    match builder.push_insert(&Values::new()) {
        Err(Error::Query(msg)) => assert_eq!(msg, "empty values"),
        other => panic!("unexpected result: {other:?}"),
    }
    assert!(builder.sql.is_empty());
}

#[test]
fn push_set_and_where_write_clauses() {
    let values = Values::new()
        .val("a", 1)
        .unwrap()
        .val("b", Null)
        .unwrap()
        .val("c", raw("now()"))
        .unwrap();
    let mut set = QueryBuilder::new();
    set.push_set(&values).unwrap();
    assert_eq!(set.sql, "\"a\" = ?, \"b\" = ?, \"c\" = now()");
    assert_eq!(set.arguments.values.len(), 2);
    assert!(set.tainted);

    let mut wh = QueryBuilder::new();
    wh.push_where(&values).unwrap();
    assert_eq!(wh.sql, "\"a\" = ? AND \"b\" IS NULL AND \"c\" = now()");
    assert_eq!(wh.arguments.values.len(), 1);

    let mut none = QueryBuilder::new();
    none.push_where(&Values::new()).unwrap();
    assert_eq!(none.sql, "1=1");
}

#[test]
fn expression_parameters_get_fresh_names() {
    let mut args = Arguments::new();
    args.add_named("v", 10_i32).unwrap();
    let expr = Expr::from_query(query_with("lower(:v)", args));
    let values = Values::new().val("x", expr).unwrap();
    let mut builder = QueryBuilder::new();
    builder.push_bind_named("v", &1_i32).unwrap();
    builder.push_sql(" ");
    builder.push_set(&values).unwrap();
    assert_eq!(builder.sql, ":v \"x\" = lower(:__musq_expr_v_1)");
    assert_eq!(
        builder.arguments.named,
        vec![("v".to_string(), 1), ("__musq_expr_v_1".to_string(), 2)]
    );
}

#[test]
fn push_upsert_skips_excluded_columns() {
    let values = Values::new()
        .val("id", 1)
        .unwrap()
        .val("name", "x")
        .unwrap();
    let mut builder = QueryBuilder::new();
    builder.push_upsert(&values, &["id"]).unwrap();
    assert_eq!(builder.sql, "\"name\" = excluded.\"name\"");
    let mut all = QueryBuilder::new();
    match all.push_upsert(&values, &["id", "name"]) {
        Err(Error::Query(msg)) => assert_eq!(msg, "empty values"),
        other => panic!("unexpected result: {other:?}"),
    }
}

#[test]
fn conditions_join_with_and() {
    let mut args = Arguments::new();
    args.add_named("a", 1_i32).unwrap();
    let conditions = Conditions::new()
        .with(query_with("x = :a", args))
        .with(query("y IS NULL"));
    assert!(!conditions.is_empty());
    let mut builder = QueryBuilder::new();
    builder.push_sql("SELECT * FROM t");
    builder.push_conditions(conditions).unwrap();
    assert_eq!(builder.sql, "SELECT * FROM t WHERE x = :a AND y IS NULL");
    let mut empty = QueryBuilder::new();
    empty.push_conditions(Conditions::new()).unwrap();
    assert!(empty.sql.is_empty());
}

#[test]
fn insert_into_builds_statement() {
    let q = insert_into("users")
        .value("id", 1_i32)
        .value("name", "Ann")
        .query()
        .unwrap();
    assert_eq!(q.sql(), "INSERT INTO \"users\" (\"id\", \"name\") VALUES (?, ?)");
    assert_eq!(q.arguments.unwrap().values.len(), 2);
    match insert_into("users").query() {
        Err(Error::Protocol(msg)) => assert_eq!(msg, "Insert query has no values"),
        other => panic!("unexpected result: {other:?}"),
    }
}

#[test]
fn query_arguments_are_taken_without_clone() {
    let buf = vec![42_u8; 1024 * 1024];
    let original_ptr = buf.as_ptr();

    let arguments = Arguments {
        values: vec![musq::value::Value::Blob {
            value: buf,
            type_info: None,
        }],
        named: Vec::new(),
    };

    let mut query = query_with("SELECT ?1", arguments);

    let args = query.take_arguments().expect("expected arguments");

    match &args.values[0] {
        musq::value::Value::Blob { value, .. } => assert_eq!(value.as_ptr(), original_ptr),
        other => panic!("expected blob, got {other:?}"),
    }

    assert!(query.arguments.is_none());
}

#[test]
fn bind_named_on_query_adds_named_value() {
    let q = query("SELECT :x").bind_named("x", 3_i32);
    let args = q.arguments.unwrap();
    assert_eq!(args.named, vec![("x".to_string(), 1)]);
}

#[test]
fn bound_values_never_change_the_sql() {
    let build = |id: i64, name: &str| {
        let values = Values::new().val("id", id).unwrap().val("name", name).unwrap();
        let mut b = QueryBuilder::new();
        b.push_where(&values).unwrap();
        b
    };
    let x = build(1, "Robert'); DROP TABLE students;--");
    let y = build(-99, "bob");
    assert_eq!(x.sql, "\"id\" = ? AND \"name\" = ?");
    assert_eq!(x.sql, y.sql);
    assert_eq!(x.arguments.values.len(), 2);
    assert_eq!(y.arguments.values.len(), 2);
}

#[test]
fn numeric_parameters_are_rejected_outside_literals() {
    assert!(reject_numeric_parameters("SELECT :a, @b, $c").is_ok());
    assert!(reject_numeric_parameters("SELECT '?1', \"$2\" -- ?3").is_ok());
    match reject_numeric_parameters("SELECT ?1") {
        Err(Error::Query(m)) => {
            assert_eq!(m, "numeric SQL parameters are not supported in composed query fragments")
        }
        other => panic!("unexpected result: {other:?}"),
    }
    assert!(reject_numeric_parameters("SELECT $2").is_err());
}
