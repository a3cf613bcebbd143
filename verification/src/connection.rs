//! The state a connection keeps between commands, and the steps that change
//! it.

use vstd::prelude::*;
use crate::control::{check_deserialize, configuration_with, deserialize_check, deserialize_refused, is_wal_image};
use crate::error::{Error, Result};
use crate::logger::LogSettings;
use crate::statement_cache::StatementCache;

verus! {

/// What a connection keeps between commands: its transaction depth, its
/// cached statements and its logging configuration.
#[derive(Debug)]
pub struct ConnectionState {
    /// Current nested transaction depth.
    pub transaction_depth: usize,
    /// Cached prepared statements.
    pub statements: StatementCache,
    /// Logging configuration.
    pub log_settings: LogSettings,
}

impl ConnectionState {
    /// The cache is well formed.
    pub open spec fn wf(&self) -> bool {
        self.statements.wf()
    }

    /// A fresh connection: no transaction open and no statement cached.
    pub fn new(statement_cache_capacity: usize, log_settings: LogSettings) -> (r: ConnectionState)
        ensures
            r.wf(),
            r.transaction_depth == 0,
            r.statements.entries().len() == 0,
            r.statements.cap() == statement_cache_capacity,
            r.log_settings == log_settings,
    {
        ConnectionState {
            transaction_depth: 0,
            statements: StatementCache::new(statement_cache_capacity),
            log_settings,
        }
    }

    /// The checks before SQLite replaces a schema with the image `bytes`,
    /// with `autocommit` as SQLite reports it. A refused image changes
    /// nothing; otherwise every cached statement is dropped, since the
    /// schema they were prepared against goes away, and the image size is
    /// returned unless it does not fit an `i64`.
    pub fn prepare_deserialize(&mut self, autocommit: bool, bytes: &[u8]) -> (r: Result<i64>)
        requires
            old(self).wf(),
        ensures
            final(self).wf(),
            final(self).transaction_depth == old(self).transaction_depth,
            final(self).log_settings == old(self).log_settings,
            final(self).statements.cap() == old(self).statements.cap(),
            match deserialize_check(old(self).transaction_depth, autocommit, bytes@) {
                Ok(n) => r == Ok::<i64, Error>(n),
                Err(m) => r matches Err(e) && configuration_with(e, m),
            },
            deserialize_refused(old(self).transaction_depth, autocommit, bytes@)
                ==> final(self).statements.entries() == old(self).statements.entries(),
            !deserialize_refused(old(self).transaction_depth, autocommit, bytes@)
                ==> final(self).statements.entries().len() == 0,
    {
        if self.transaction_depth > 0 || !autocommit || is_wal_image(bytes) {
            return check_deserialize(self.transaction_depth, autocommit, bytes);
        }
        self.statements.clear();
        check_deserialize(self.transaction_depth, autocommit, bytes)
    }
}

} // verus!
