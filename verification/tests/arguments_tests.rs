use musq::arguments::{Arguments, parse_question_param};
use musq::error::Error;

#[test]
fn test_parse_question_param_invalid() {
    let err = parse_question_param("?foo").unwrap_err();
    match err {
        Error::Protocol(msg) => assert!(msg.contains("?foo")),
        other => panic!("unexpected error: {other:?}"),
    }
}

#[test]
fn test_parse_question_param_zero() {
    let err = parse_question_param("?0").unwrap_err();
    match err {
        Error::Protocol(msg) => assert!(msg.contains("?0")),
        other => panic!("unexpected error: {other:?}"),
    }
}

#[test]
fn test_parse_question_param_trailing_chars() {
    let err = parse_question_param("?12a").unwrap_err();
    match err {
        Error::Protocol(msg) => assert!(msg.contains("?12a")),
        other => panic!("unexpected error: {other:?}"),
    }
}

#[test]
fn test_parse_question_param_leading_zero() {
    let err = parse_question_param("?01").unwrap_err();
    match err {
        Error::Protocol(msg) => assert!(msg.contains("?01")),
        other => panic!("unexpected error: {other:?}"),
    }
}

#[test]
fn test_parse_question_param_overflow() {
    let big = (usize::MAX as u128 + 1).to_string();
    let param = format!("?{big}");
    let err = parse_question_param(&param).unwrap_err();
    match err {
        Error::Protocol(msg) => assert!(msg.contains(&param)),
        other => panic!("unexpected error: {other:?}"),
    }
}

#[test]
fn test_parse_question_param_double_question() {
    let err = parse_question_param("??1").unwrap_err();
    match err {
        Error::Protocol(msg) => assert!(msg.contains("??1")),
        other => panic!("unexpected error: {other:?}"),
    }
}

#[test]
fn test_parse_question_param_colon_like() {
    let err = parse_question_param(":1a").unwrap_err();
    match err {
        Error::Protocol(msg) => assert!(msg.contains(":1a")),
        other => panic!("unexpected error: {other:?}"),
    }
}

#[test]
fn test_parse_question_param_at_zero() {
    let err = parse_question_param("@0").unwrap_err();
    match err {
        Error::Protocol(msg) => assert!(msg.contains("@0")),
        other => panic!("unexpected error: {other:?}"),
    }
}

#[test]
fn test_parse_question_param_extremely_long() {
    let digits = "1".repeat(4096);
    let param = format!("?{digits}");
    let err = parse_question_param(&param).unwrap_err();
    match err {
        Error::Protocol(msg) => assert!(msg.contains(&param)),
        other => panic!("unexpected error: {other:?}"),
    }
}

#[test]
fn parse_question_param_accepts_positions() {
    assert_eq!(parse_question_param("?1").unwrap(), 1);
    assert_eq!(parse_question_param("?42").unwrap(), 42);
}

#[test]
fn named_binding_twice_replaces_in_place() {
    let mut args = Arguments::new();
    args.add(1_i32).unwrap();
    args.add_named(":a", 2_i32).unwrap();
    args.add_named("a", 3_i32).unwrap();
    assert_eq!(args.values.len(), 2);
    assert_eq!(args.values[1].int64().unwrap(), 3);
    assert_eq!(args.named, vec![("a".to_string(), 2)]);
}

#[test]
fn bind_plan_maps_named_and_positional() {
    let mut args = Arguments::new();
    args.add(7_i32).unwrap();
    args.add_named("b", 8_i32).unwrap();
    args.add_named("a", 9_i32).unwrap();
    let names = vec![Some("?1".to_string()), Some(":b".to_string()), Some(":a".to_string())];
    let (plan, _) = args.bind_plan(&names, 0).unwrap();
    assert_eq!(plan, vec![1, 2, 3]);
}

#[test]
fn bind_plan_reports_missing_parameter() {
    let mut args = Arguments::new();
    args.add(5_i32).unwrap();
    let names = vec![Some("?1".to_string()), Some("?2".to_string())];
    match args.bind_plan(&names, 0) {
        Err(Error::Protocol(msg)) => assert!(msg.contains("index is 2")),
        other => panic!("unexpected result: {other:?}"),
    }
}

#[test]
fn bind_plan_ignores_excess_arguments() {
    let mut args = Arguments::new();
    args.add(5_i32).unwrap();
    args.add(15_i32).unwrap();
    let names = vec![Some("?1".to_string())];
    let (plan, used) = args.bind_plan(&names, 0).unwrap();
    assert_eq!(plan, vec![1]);
    // Numbered parameters do not advance the positional counter.
    assert_eq!(used, 0);
}

#[test]
fn bind_plan_reuses_repeated_named_parameter() {
    // SQLite reports `:a` once for "SELECT :a, :a, ?2".
    let mut args = Arguments::new();
    args.add_named("a", 7_i32).unwrap();
    args.add(9_i32).unwrap();
    let names = vec![Some(":a".to_string()), Some("?2".to_string())];
    let (plan, _) = args.bind_plan(&names, 0).unwrap();
    assert_eq!(plan, vec![1, 2]);
}
