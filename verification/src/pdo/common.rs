//! Decisions shared by the PDO drivers: the text of a PDO error, the size
//! of a connection pool, and how a column's database type is handed to PHP.

use vstd::prelude::*;
use crate::text::{chars_eq, chars_to_string, push_all, str_to_chars};

verus! {

/// The SQLSTATE of an error that carries none.
pub open spec fn general_sqlstate() -> Seq<char> {
    "HY000"@
}

/// The text of a PDO error: `SQLSTATE[<state>]: <message>`, with the
/// general state `HY000` where the database gave none.
pub open spec fn pdo_error_message_spec(sqlstate: Option<Seq<char>>, message: Seq<char>) -> Seq<
    char,
> {
    let state = match sqlstate {
        Some(s) => s,
        None => general_sqlstate(),
    };
    "SQLSTATE["@ + state + "]: "@ + message
}

/// The text of a PDO error for a database error with the given SQLSTATE
/// (if the database gave one) and message.
pub fn pdo_error_message(sqlstate: Option<&str>, message: &str) -> (s: String)
    ensures
        s@ == pdo_error_message_spec(
            match sqlstate {
                Some(c) => Some(c@),
                None => None,
            },
            message@,
        ),
{
    let mut out = str_to_chars("SQLSTATE[");
    let state = match sqlstate {
        Some(c) => str_to_chars(c),
        None => str_to_chars("HY000"),
    };
    push_all(&mut out, &state);
    let sep = str_to_chars("]: ");
    push_all(&mut out, &sep);
    let msg = str_to_chars(message);
    push_all(&mut out, &msg);
    chars_to_string(&out)
}

/// The size limits of a connection pool.
#[derive(Debug, Clone, Copy, PartialEq, Eq)]
pub struct PoolLimits {
    pub max_connections: u32,
    pub min_connections: Option<u32>,
}

/// The limits a pool is built with: at least one connection at most, and
/// a requested minimum raised to zero and capped at the maximum.
pub open spec fn pool_limits_spec(max_conns: i32, min_conns: Option<i32>) -> PoolLimits {
    let max: int = if max_conns < 1 {
        1
    } else {
        max_conns as int
    };
    PoolLimits {
        max_connections: max as u32,
        min_connections: match min_conns {
            Some(m) => {
                let lo: int = if m < 0 {
                    0
                } else {
                    m as int
                };
                Some(
                    (if lo < max {
                        lo
                    } else {
                        max
                    }) as u32,
                )
            },
            None => None,
        },
    }
}

/// The limits of a pool for the requested maximum and minimum.
pub fn pool_limits(max_conns: i32, min_conns: Option<i32>) -> (p: PoolLimits)
    ensures
        p == pool_limits_spec(max_conns, min_conns),
{
    let max: u32 = if max_conns < 1 {
        1
    } else {
        max_conns as u32
    };
    let min = match min_conns {
        Some(m) => {
            let lo: u32 = if m < 0 {
                0
            } else {
                m as u32
            };
            Some(
                if lo < max {
                    lo
                } else {
                    max
                },
            )
        },
        None => None,
    };
    PoolLimits { max_connections: max, min_connections: min }
}

/// How the value of a column is handed to PHP.
#[derive(Debug, Clone, Copy, PartialEq, Eq)]
pub enum ColumnKind {
    /// As a boolean.
    Bool,
    /// As an integer.
    Int,
    /// As a float.
    Float,
    /// As a string.
    Text,
}

/// The kind of a MySQL column by its type name.
pub open spec fn mysql_column_kind_spec(t: Seq<char>) -> ColumnKind {
    if t == "BOOLEAN"@ || t == "TINYINT"@ {
        ColumnKind::Bool
    } else if t == "SMALLINT"@ || t == "INT"@ || t == "INTEGER"@ || t == "BIGINT"@ {
        ColumnKind::Int
    } else if t == "FLOAT"@ || t == "DOUBLE"@ || t == "DECIMAL"@ {
        ColumnKind::Float
    } else {
        ColumnKind::Text
    }
}

/// The kind of a PostgreSQL column by its type name.
pub open spec fn pg_column_kind_spec(t: Seq<char>) -> ColumnKind {
    if t == "BOOL"@ {
        ColumnKind::Bool
    } else if t == "INT2"@ || t == "INT4"@ || t == "INT8"@ {
        ColumnKind::Int
    } else if t == "FLOAT4"@ || t == "FLOAT8"@ || t == "NUMERIC"@ {
        ColumnKind::Float
    } else {
        ColumnKind::Text
    }
}

fn is(t: &Vec<char>, lit: &str) -> (b: bool)
    ensures
        b == (t@ == lit@),
{
    chars_eq(t, &str_to_chars(lit))
}

/// How a MySQL column of type `db_type` is handed to PHP.
pub fn mysql_column_kind(db_type: &str) -> (k: ColumnKind)
    ensures
        k == mysql_column_kind_spec(db_type@),
{
    let t = str_to_chars(db_type);
    if is(&t, "BOOLEAN") || is(&t, "TINYINT") {
        ColumnKind::Bool
    } else if is(&t, "SMALLINT") || is(&t, "INT") || is(&t, "INTEGER") || is(&t, "BIGINT") {
        ColumnKind::Int
    } else if is(&t, "FLOAT") || is(&t, "DOUBLE") || is(&t, "DECIMAL") {
        ColumnKind::Float
    } else {
        ColumnKind::Text
    }
}

/// How a PostgreSQL column of type `db_type` is handed to PHP.
pub fn pg_column_kind(db_type: &str) -> (k: ColumnKind)
    ensures
        k == pg_column_kind_spec(db_type@),
{
    let t = str_to_chars(db_type);
    if is(&t, "BOOL") {
        ColumnKind::Bool
    } else if is(&t, "INT2") || is(&t, "INT4") || is(&t, "INT8") {
        ColumnKind::Int
    } else if is(&t, "FLOAT4") || is(&t, "FLOAT8") || is(&t, "NUMERIC") {
        ColumnKind::Float
    } else {
        ColumnKind::Text
    }
}

/// A pool always allows at least one connection, and a minimum, where one
/// is set, never exceeds the maximum.
pub proof fn law_pool_limits_consistent(max_conns: i32, min_conns: Option<i32>)
    ensures
        pool_limits_spec(max_conns, min_conns).max_connections >= 1,
        pool_limits_spec(max_conns, min_conns).min_connections matches Some(m) ==> m
            <= pool_limits_spec(max_conns, min_conns).max_connections,
        pool_limits_spec(max_conns, min_conns).min_connections is Some <==> min_conns is Some,
{
}

} // verus!
