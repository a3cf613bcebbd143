use musq::type_info::SqliteDataType;

#[test]
fn test_data_type_from_str() {
    assert_eq!(SqliteDataType::from_str("INT4"), Some(SqliteDataType::Int));

    assert_eq!(SqliteDataType::from_str("INT"), Some(SqliteDataType::Int64));
    assert_eq!(
        SqliteDataType::from_str("INTEGER"),
        Some(SqliteDataType::Int64)
    );
    assert_eq!(
        SqliteDataType::from_str("INTBIG"),
        Some(SqliteDataType::Int64)
    );
    assert_eq!(
        SqliteDataType::from_str("MEDIUMINT"),
        Some(SqliteDataType::Int64)
    );

    assert_eq!(
        SqliteDataType::from_str("BIGINT"),
        Some(SqliteDataType::Int64)
    );
    assert_eq!(
        SqliteDataType::from_str("UNSIGNED BIG INT"),
        Some(SqliteDataType::Int64)
    );
    assert_eq!(
        SqliteDataType::from_str("INT8"),
        Some(SqliteDataType::Int64)
    );

    assert_eq!(
        SqliteDataType::from_str("CHARACTER(20)"),
        Some(SqliteDataType::Text)
    );
    assert_eq!(
        SqliteDataType::from_str("NCHAR(55)"),
        Some(SqliteDataType::Text)
    );
    assert_eq!(SqliteDataType::from_str("TEXT"), Some(SqliteDataType::Text));
    assert_eq!(SqliteDataType::from_str("CLOB"), Some(SqliteDataType::Text));

    assert_eq!(SqliteDataType::from_str("BLOB"), Some(SqliteDataType::Blob));

    assert_eq!(
        SqliteDataType::from_str("REAL"),
        Some(SqliteDataType::Float)
    );
    assert_eq!(
        SqliteDataType::from_str("FLOAT"),
        Some(SqliteDataType::Float)
    );
    assert_eq!(
        SqliteDataType::from_str("DOUBLE PRECISION"),
        Some(SqliteDataType::Float)
    );

    assert_eq!(
        SqliteDataType::from_str("NUMERIC"),
        Some(SqliteDataType::Numeric)
    );
    assert_eq!(
        SqliteDataType::from_str("DECIMAL(10,5)"),
        Some(SqliteDataType::Numeric)
    );

    assert_eq!(
        SqliteDataType::from_str("BOOLEAN"),
        Some(SqliteDataType::Bool)
    );
    assert_eq!(SqliteDataType::from_str("BOOL"), Some(SqliteDataType::Bool));

    assert_eq!(
        SqliteDataType::from_str("DATETIME"),
        Some(SqliteDataType::Datetime)
    );
    assert_eq!(SqliteDataType::from_str("TIME"), Some(SqliteDataType::Time));
    assert_eq!(SqliteDataType::from_str("DATE"), Some(SqliteDataType::Date));
}

#[test]
fn test_unknown_type_from_str() {
    assert_eq!(SqliteDataType::from_str("UNKNOWN"), None);
}

#[test]
fn test_from_code_unknown() {
    assert!(SqliteDataType::from_code(9999).is_none());
}

#[test]
fn from_code_maps_storage_classes() {
    assert_eq!(SqliteDataType::from_code(1), Some(SqliteDataType::Int));
    assert_eq!(SqliteDataType::from_code(2), Some(SqliteDataType::Float));
    assert_eq!(SqliteDataType::from_code(3), Some(SqliteDataType::Text));
    assert_eq!(SqliteDataType::from_code(4), Some(SqliteDataType::Blob));
    assert_eq!(SqliteDataType::from_code(5), Some(SqliteDataType::Null));
}

#[test]
fn data_type_names_and_null() {
    assert_eq!(SqliteDataType::Int64.name(), "INTEGER");
    assert_eq!(SqliteDataType::Text.name(), "TEXT");
    assert!(SqliteDataType::Null.is_null());
    assert!(!SqliteDataType::Blob.is_null());
}

#[test]
fn canonical_names_parse_back() {
    type T = SqliteDataType;
    for t in [T::Int64, T::Float, T::Text, T::Blob, T::Numeric, T::Bool, T::Date, T::Time, T::Datetime] {
        assert_eq!(T::from_str(t.name()), Some(t));
        assert_eq!(T::from_str(&t.name().to_ascii_lowercase()), Some(t));
    }
    assert_eq!(T::from_str(T::Int.name()), Some(T::Int64));
    assert_eq!(T::from_str(T::Null.name()), None);
}
