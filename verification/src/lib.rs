//! A verified core for an asynchronous SQLite toolkit: SQL text scanning and
//! composition, argument binding plans, value encoding, error-code tables,
//! transaction/savepoint control and the statement cache.

pub mod text;
pub mod type_info;
pub mod scan;
pub mod transaction;
pub mod session;
pub mod errcodes;
pub mod error;
pub mod value;
pub mod codec;
pub mod arguments;
pub mod query;
pub mod values;
pub mod query_builder;
pub mod insert_builder;
pub mod statement_cache;
pub mod logger;
pub mod control;
pub mod function;
pub mod row;
pub mod pool;
pub mod execute;
pub mod connection;
pub mod bytestr;
