use musq::codec::Null;
use musq::error::Result;
use musq::values::{Values, ValuesEntry, jsonb, now_rfc3339_utc, raw};

#[test]
fn test_extend_with_new_keys() {
    let mut values1 = Values::new()
        .val("id", 1)
        .unwrap()
        .val("name", "Alice")
        .unwrap();

    let values2 = Values::new()
        .val("email", "alice@example.com")
        .unwrap()
        .val("status", "active")
        .unwrap();

    values1.extend(&values2);

    assert_eq!(values1.len(), 4);

    let keys: Vec<String> = values1.keys();
    assert_eq!(keys, vec!["id", "name", "email", "status"]);
}

#[test]
fn test_extend_with_duplicate_keys() {
    let mut values1 = Values::new()
        .val("id", 1)
        .unwrap()
        .val("name", "Alice")
        .unwrap()
        .val("status", "inactive")
        .unwrap();

    let values2 = Values::new()
        .val("status", "active")
        .unwrap()
        .val("email", "alice@example.com")
        .unwrap();

    values1.extend(&values2);

    assert_eq!(values1.len(), 4);

    let keys: Vec<String> = values1.keys();
    assert_eq!(keys, vec!["id", "name", "status", "email"]);
}

#[test]
fn test_extend_with_empty_values() {
    let mut values1 = Values::new()
        .val("id", 1)
        .unwrap()
        .val("name", "Alice")
        .unwrap();

    let values2 = Values::new();

    values1.extend(&values2);

    assert_eq!(values1.len(), 2);
    let keys: Vec<String> = values1.keys();
    assert_eq!(keys, vec!["id", "name"]);
}

#[test]
fn test_extend_empty_with_values() {
    let mut values1 = Values::new();

    let values2 = Values::new()
        .val("email", "alice@example.com")
        .unwrap()
        .val("status", "active")
        .unwrap();

    values1.extend(&values2);

    assert_eq!(values1.len(), 2);
    let keys: Vec<String> = values1.keys();
    assert_eq!(keys, vec!["email", "status"]);
}

#[test]
fn test_extend_both_empty() {
    let mut values1 = Values::new();
    let values2 = Values::new();

    values1.extend(&values2);

    assert_eq!(values1.len(), 0);
    assert!(values1.is_empty());
}

#[test]
fn test_extend_preserves_order() {
    let mut values1 = Values::new()
        .val("a", 1)
        .unwrap()
        .val("b", 2)
        .unwrap()
        .val("c", 3)
        .unwrap();

    let values2 = Values::new().val("d", 4).unwrap().val("e", 5).unwrap();

    values1.extend(&values2);

    let keys: Vec<String> = values1.keys();
    assert_eq!(keys, vec!["a", "b", "c", "d", "e"]);
}

#[test]
fn test_extend_multiple_times() {
    let mut values1 = Values::new().val("id", 1).unwrap();

    let values2 = Values::new().val("name", "Alice").unwrap();

    let values3 = Values::new().val("email", "alice@example.com").unwrap();

    values1.extend(&values2);
    values1.extend(&values3);

    assert_eq!(values1.len(), 3);
    let keys: Vec<String> = values1.keys();
    assert_eq!(keys, vec!["id", "name", "email"]);
}

#[test]
fn test_values_with_option_none() {
    let mut values = Values::new();

    values.insert("id", Some(1)).unwrap();
    values.insert("middle_name", None::<&str>).unwrap();
    values.insert("phone", None::<String>).unwrap();
    values.insert("age", None::<i32>).unwrap();
    values.insert("verified", None::<bool>).unwrap();

    assert_eq!(values.len(), 5);
    let keys: Vec<String> = values.keys();
    assert_eq!(keys, vec!["id", "middle_name", "phone", "age", "verified"]);
}

#[test]
fn test_values_mixed_some_none() {
    let mut values = Values::new();

    values.insert("required_field", "always present").unwrap();
    values.insert("optional_text", Some("present")).unwrap();
    values.insert("missing_text", None::<String>).unwrap();
    values.insert("optional_number", Some(123)).unwrap();
    values.insert("missing_number", None::<i32>).unwrap();

    assert_eq!(values.len(), 5);
}

#[test]
fn test_values_extend_with_options() {
    let mut values1 = Values::new()
        .val("id", 1)
        .unwrap()
        .val("name", Some("Alice"))
        .unwrap();

    let values2 = Values::new()
        .val("email", None::<String>)
        .unwrap()
        .val("phone", Some("+1-555-0123"))
        .unwrap()
        .val("age", None::<i32>)
        .unwrap();

    values1.extend(&values2);

    assert_eq!(values1.len(), 5);
    let keys: Vec<String> = values1.keys();
    assert_eq!(keys, vec!["id", "name", "email", "phone", "age"]);
}

#[test]
fn test_values_option_overwrite() {
    let mut values = Values::new().val("field", Some("original")).unwrap();

    values.insert("field", None::<String>).unwrap();
    assert_eq!(values.len(), 1);

    values.insert("field", Some("updated")).unwrap();
    assert_eq!(values.len(), 1);
}

#[test]
fn test_values_option_string_types() {
    let mut values = Values::new();

    values
        .insert("owned_string", Some("hello".to_string()))
        .unwrap();
    values.insert("string_ref", Some("world")).unwrap();
    values.insert("no_owned_string", None::<String>).unwrap();
    values.insert("no_string_ref", None::<&str>).unwrap();

    assert_eq!(values.len(), 4);
}

#[test]
fn test_values_with_null_constant() {
    let mut values = Values::new();

    values.insert("id", 1).unwrap();
    values.insert("name", "Alice").unwrap();
    values.insert("middle_name", Null).unwrap();
    values.insert("phone", Some("+1-555-0123")).unwrap();

    assert_eq!(values.len(), 4);
    let keys: Vec<String> = values.keys();
    assert_eq!(keys, vec!["id", "name", "middle_name", "phone"]);
}

fn user_data() -> Result<Values> {
    let mut values = Values::new();
    values.insert("id", 1)?;
    values.insert("name", "Bob")?;
    values.insert("middle_name", Null)?;
    values.insert("email", Some("bob@example.com"))?;
    values.insert("phone", None::<String>)?;
    Ok(values)
}

#[test]
fn test_values_macro_with_null() -> Result<()> {
    let user_data = user_data()?;

    assert_eq!(user_data.len(), 5);
    let keys: Vec<String> = user_data.keys();
    assert_eq!(keys, vec!["id", "name", "middle_name", "email", "phone"]);
    Ok(())
}

#[test]
fn test_values_extend_with_null() {
    let mut values1 = Values::new()
        .val("id", 1)
        .unwrap()
        .val("name", "Charlie")
        .unwrap();

    let values2 = Values::new()
        .val("middle_name", Null)
        .unwrap()
        .val("last_name", "Brown")
        .unwrap();

    values1.extend(&values2);

    assert_eq!(values1.len(), 4);
    let keys: Vec<String> = values1.keys();
    assert_eq!(keys, vec!["id", "name", "middle_name", "last_name"]);
}

#[test]
fn raw_expr_is_tainted() {
    assert!(raw("1").tainted());
}

#[test]
fn now_expr_is_not_tainted() {
    assert!(!now_rfc3339_utc().tainted());
}

#[test]
fn jsonb_binds_text_once() {
    let e = jsonb("{\"a\":1}");
    assert_eq!(e.sql(), "jsonb(?)");
    assert_eq!(e.arguments.values.len(), 1);
    assert!(!e.tainted());
}

#[test]
fn overwritten_value_keeps_its_position() {
    let mut values = Values::new().val("a", 1).unwrap().val("b", 2).unwrap();
    values.insert("a", 9).unwrap();
    let keys: Vec<String> = values.keys();
    assert_eq!(keys, vec!["a", "b"]);
    match &values.values()[0] {
        ValuesEntry::Value(v) => assert_eq!(v.int64().unwrap(), 9),
        ValuesEntry::Expr(_) => panic!("expected a value"),
    }
}

#[test]
fn iter_pairs_keys_with_entries() {
    let values = Values::new().val("a", 1).unwrap().val("b", "x").unwrap();
    let pairs = values.iter();
    assert_eq!(pairs.len(), 2);
    assert_eq!(pairs[0].0, "a");
    match pairs[1].1 {
        ValuesEntry::Value(v) => assert_eq!(v.text().unwrap(), "x"),
        ValuesEntry::Expr(_) => panic!("expected a value"),
    }
}
