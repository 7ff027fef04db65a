use async_php::pdo::common::{
    mysql_column_kind, pdo_error_message, pg_column_kind, pool_limits, ColumnKind, PoolLimits,
};

#[test]
fn error_message_with_sqlstate() {
    assert_eq!(
        pdo_error_message(Some("23000"), "Duplicate entry"),
        "SQLSTATE[23000]: Duplicate entry"
    );
}

#[test]
fn error_message_without_sqlstate() {
    assert_eq!(pdo_error_message(None, "pool timed out"), "SQLSTATE[HY000]: pool timed out");
}

#[test]
fn pool_limits_clamp() {
    assert_eq!(pool_limits(10, None), PoolLimits { max_connections: 10, min_connections: None });
    assert_eq!(pool_limits(0, Some(5)), PoolLimits { max_connections: 1, min_connections: Some(1) });
    assert_eq!(pool_limits(-3, None), PoolLimits { max_connections: 1, min_connections: None });
    assert_eq!(pool_limits(8, Some(-2)), PoolLimits { max_connections: 8, min_connections: Some(0) });
    assert_eq!(pool_limits(8, Some(3)), PoolLimits { max_connections: 8, min_connections: Some(3) });
    assert_eq!(pool_limits(8, Some(30)), PoolLimits { max_connections: 8, min_connections: Some(8) });
}

#[test]
fn mysql_column_kinds() {
    assert_eq!(mysql_column_kind("BOOLEAN"), ColumnKind::Bool);
    assert_eq!(mysql_column_kind("TINYINT"), ColumnKind::Bool);
    assert_eq!(mysql_column_kind("SMALLINT"), ColumnKind::Int);
    assert_eq!(mysql_column_kind("INT"), ColumnKind::Int);
    assert_eq!(mysql_column_kind("INTEGER"), ColumnKind::Int);
    assert_eq!(mysql_column_kind("BIGINT"), ColumnKind::Int);
    assert_eq!(mysql_column_kind("FLOAT"), ColumnKind::Float);
    assert_eq!(mysql_column_kind("DOUBLE"), ColumnKind::Float);
    assert_eq!(mysql_column_kind("DECIMAL"), ColumnKind::Float);
    assert_eq!(mysql_column_kind("VARCHAR"), ColumnKind::Text);
    assert_eq!(mysql_column_kind("int"), ColumnKind::Text);
}

#[test]
fn pg_column_kinds() {
    assert_eq!(pg_column_kind("BOOL"), ColumnKind::Bool);
    assert_eq!(pg_column_kind("INT2"), ColumnKind::Int);
    assert_eq!(pg_column_kind("INT4"), ColumnKind::Int);
    assert_eq!(pg_column_kind("INT8"), ColumnKind::Int);
    assert_eq!(pg_column_kind("FLOAT4"), ColumnKind::Float);
    assert_eq!(pg_column_kind("FLOAT8"), ColumnKind::Float);
    assert_eq!(pg_column_kind("NUMERIC"), ColumnKind::Float);
    assert_eq!(pg_column_kind("TEXT"), ColumnKind::Text);
    assert_eq!(pg_column_kind("BOOLEAN"), ColumnKind::Text);
}
