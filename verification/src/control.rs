//! Connection diagnostics and control: status counters, WAL checkpoints,
//! database images, backups and connection options, as SQLite codes and
//! checked values.

use vstd::prelude::*;
use crate::error::{Error, Result};
use crate::text::{chars_eq, chars_of, sort_strings, strings_sorted, push_decimal, push_signed, push_str_verified, signed_decimal, string_from_chars};

verus! {

/// Runtime identity and compile options for the bundled SQLite library.
#[derive(Clone, Debug)]
pub struct SqliteRuntimeInfo {
    /// SQLite semantic version string, such as `3.53.2`.
    pub version: String,
    /// SQLite numeric version, such as `3053002` for `3.53.2`.
    pub version_number: i32,
    /// SQLite source identifier string for the active runtime.
    pub source_id: String,
    /// Compile options reported by the active SQLite runtime.
    pub compile_options: Vec<String>,
}

impl SqliteRuntimeInfo {
    /// Runtime information from what SQLite reports: its version string,
    /// version number, source identifier and compile options, the options
    /// sorted.
    pub fn new(
        version: String,
        version_number: i32,
        source_id: String,
        compile_options: Vec<String>,
    ) -> (r: SqliteRuntimeInfo)
        ensures
            r.version == version,
            r.version_number == version_number,
            r.source_id == source_id,
            strings_sorted(r.compile_options@),
            r.compile_options@.to_multiset() == compile_options@.to_multiset(),
    {
        SqliteRuntimeInfo {
            version,
            version_number,
            source_id,
            compile_options: sort_strings(compile_options),
        }
    }
}

/// A database-connection status measurement.
#[derive(Clone, Copy, Debug, PartialEq, Eq, Structural)]
pub struct DbStatus {
    /// Current value for the requested status counter.
    pub current: i64,
    /// High-water value for the requested status counter.
    pub highwater: i64,
}

/// Per-connection SQLite status counter.
#[derive(Clone, Copy, Debug, PartialEq, Eq, Structural)]
#[non_exhaustive]
pub enum DbStatusKind {
    /// Number of lookaside memory slots currently checked out.
    LookasideUsed,
    /// Bytes of page cache memory currently used by this connection.
    CacheUsed,
    /// Bytes of schema memory currently used by this connection.
    SchemaUsed,
    /// Bytes of memory currently used by prepared statements on this connection.
    StatementUsed,
    /// Lookaside allocation hit count.
    LookasideHit,
    /// Lookaside allocation miss count because the allocation was too large.
    LookasideMissSize,
    /// Lookaside allocation miss count because all slots were already used.
    LookasideMissFull,
    /// Page cache hit count.
    CacheHit,
    /// Page cache miss count.
    CacheMiss,
    /// Page cache write count.
    CacheWrite,
    /// Number of deferred foreign key constraints that have not yet been resolved.
    DeferredForeignKeys,
    /// Bytes of shared page cache memory attributed to this connection.
    CacheUsedShared,
    /// Dirty page spill count.
    CacheSpill,
    /// Temporary buffer spill count.
    TempBufferSpill,
}

/// The `SQLITE_DBSTATUS_*` opcode of a status counter.
pub open spec fn db_status_code(kind: DbStatusKind) -> i32 {
    match kind {
        DbStatusKind::LookasideUsed => 0,
        DbStatusKind::CacheUsed => 1,
        DbStatusKind::SchemaUsed => 2,
        DbStatusKind::StatementUsed => 3,
        DbStatusKind::LookasideHit => 4,
        DbStatusKind::LookasideMissSize => 5,
        DbStatusKind::LookasideMissFull => 6,
        DbStatusKind::CacheHit => 7,
        DbStatusKind::CacheMiss => 8,
        DbStatusKind::CacheWrite => 9,
        DbStatusKind::DeferredForeignKeys => 10,
        DbStatusKind::CacheUsedShared => 11,
        DbStatusKind::CacheSpill => 12,
        DbStatusKind::TempBufferSpill => 13,
    }
}

impl DbStatusKind {
    /// Return the SQLite status opcode for this kind.
    pub fn as_sqlite_code(self) -> (r: i32)
        ensures
            r == db_status_code(self),
    {
        match self {
            DbStatusKind::LookasideUsed => 0,
            DbStatusKind::CacheUsed => 1,
            DbStatusKind::SchemaUsed => 2,
            DbStatusKind::StatementUsed => 3,
            DbStatusKind::LookasideHit => 4,
            DbStatusKind::LookasideMissSize => 5,
            DbStatusKind::LookasideMissFull => 6,
            DbStatusKind::CacheHit => 7,
            DbStatusKind::CacheMiss => 8,
            DbStatusKind::CacheWrite => 9,
            DbStatusKind::DeferredForeignKeys => 10,
            DbStatusKind::CacheUsedShared => 11,
            DbStatusKind::CacheSpill => 12,
            DbStatusKind::TempBufferSpill => 13,
        }
    }
}

/// Distinct status counters have distinct opcodes.
pub proof fn lemma_db_status_codes_distinct(a: DbStatusKind, b: DbStatusKind)
    requires
        a != b,
    ensures
        db_status_code(a) != db_status_code(b),
{
}

/// WAL checkpoint mode.
#[derive(Clone, Copy, Debug, PartialEq, Eq, Structural)]
#[non_exhaustive]
pub enum WalCheckpointMode {
    /// Return WAL status without checkpointing frames.
    Noop,
    /// Checkpoint without waiting for readers or writers.
    Passive,
    /// Wait for writers, then checkpoint all frames possible without blocking readers.
    Full,
    /// Like full checkpointing, and reset the WAL if all frames are checkpointed.
    Restart,
    /// Like restart checkpointing, and truncate the WAL to zero bytes on success.
    Truncate,
}

/// The `SQLITE_CHECKPOINT_*` opcode of a checkpoint mode.
pub open spec fn checkpoint_code(mode: WalCheckpointMode) -> i32 {
    match mode {
        WalCheckpointMode::Noop => -1i32,
        WalCheckpointMode::Passive => 0,
        WalCheckpointMode::Full => 1,
        WalCheckpointMode::Restart => 2,
        WalCheckpointMode::Truncate => 3,
    }
}

impl WalCheckpointMode {
    /// Return the SQLite checkpoint opcode for this mode.
    pub fn as_sqlite_code(self) -> (r: i32)
        ensures
            r == checkpoint_code(self),
    {
        match self {
            WalCheckpointMode::Noop => -1i32,
            WalCheckpointMode::Passive => 0,
            WalCheckpointMode::Full => 1,
            WalCheckpointMode::Restart => 2,
            WalCheckpointMode::Truncate => 3,
        }
    }
}

/// Result of a WAL checkpoint operation.
#[derive(Clone, Copy, Debug, PartialEq, Eq, Structural)]
pub struct WalCheckpoint {
    /// Total frames in the WAL, or `None` when SQLite reports `-1`.
    pub log_frames: Option<i32>,
    /// Frames checkpointed from the WAL, or `None` when SQLite reports `-1`.
    pub checkpointed_frames: Option<i32>,
}

/// Convert SQLite frame counts where a negative count means unavailable.
pub fn frames_to_option(frames: i32) -> (r: Option<i32>)
    ensures
        r == if frames < 0 {
            None
        } else {
            Some(frames)
        },
{
    if frames < 0 {
        None
    } else {
        Some(frames)
    }
}

/// The checkpoint result from the frame counts SQLite reports.
pub fn wal_checkpoint_from_frames(log_frames: i32, checkpointed_frames: i32) -> (r: WalCheckpoint)
    ensures
        r.log_frames == (if log_frames < 0 {
            None
        } else {
            Some(log_frames)
        }),
        r.checkpointed_frames == (if checkpointed_frames < 0 {
            None
        } else {
            Some(checkpointed_frames)
        }),
{
    WalCheckpoint {
        log_frames: frames_to_option(log_frames),
        checkpointed_frames: frames_to_option(checkpointed_frames),
    }
}

/// How SQLite treats a deserialized database image.
#[derive(Clone, Copy, Debug, PartialEq, Eq, Structural)]
pub enum DeserializeMode {
    /// Load the image as a read-only database.
    ReadOnly,
    /// Load the image so SQLite may grow the buffer on write.
    Resizable,
}

/// The `sqlite3_deserialize` flags for a mode: SQLite frees the buffer on
/// close, and the buffer is read-only or resizable.
pub open spec fn deserialize_flags_spec(mode: DeserializeMode) -> u32 {
    match mode {
        DeserializeMode::ReadOnly => 5,
        DeserializeMode::Resizable => 3,
    }
}

/// The `sqlite3_deserialize` flags for a mode
/// (`SQLITE_DESERIALIZE_FREEONCLOSE` with `READONLY` or `RESIZEABLE`).
pub fn deserialize_flags(mode: DeserializeMode) -> (r: u32)
    ensures
        r == deserialize_flags_spec(mode),
{
    let free_on_close: u32 = 1;
    match mode {
        DeserializeMode::ReadOnly => {
            assert(1u32 | 4u32 == 5u32) by (bit_vector);
            free_on_close | 4
        },
        DeserializeMode::Resizable => {
            assert(1u32 | 2u32 == 3u32) by (bit_vector);
            free_on_close | 2
        },
    }
}

/// Progress from a backup.
#[derive(Debug, Clone, Copy, PartialEq, Eq, Structural)]
pub struct BackupReport {
    /// Total pages in the backup source.
    pub pages: i32,
    /// Pages still to copy after the last step. Zero when the copy finished.
    pub remaining: i32,
}

/// The SQLite transaction lock state of a connection.
#[derive(Debug, Clone, Copy, PartialEq, Eq, Structural)]
pub enum TxnState {
    /// No transaction (SQLite's `SQLITE_TXN_NONE`).
    Idle,
    /// A read transaction.
    Read,
    /// A write transaction.
    Write,
}

/// The message of an unknown transaction state code.
pub open spec fn txn_state_message(code: i32) -> Seq<char> {
    "sqlite3_txn_state returned "@ + signed_decimal(code as int)
}

/// An error of the protocol kind with message `m`.
pub open spec fn protocol_with(e: Error, m: Seq<char>) -> bool {
    e matches Error::Protocol(s) && s@ == m
}

/// An error of the configuration kind with message `m`.
pub open spec fn configuration_with(e: Error, m: Seq<char>) -> bool {
    e matches Error::Configuration(s) && s@ == m
}

/// A configuration error with a fixed message.
fn configuration_error(msg: &str) -> (r: Error)
    ensures
        configuration_with(r, msg@),
{
    let chars = chars_of(msg);
    Error::Configuration(string_from_chars(&chars))
}

/// Map a `sqlite3_txn_state` result to [`TxnState`].
pub fn txn_state_from_code(code: i32) -> (r: Result<TxnState>)
    ensures
        code == 0 ==> r matches Ok(TxnState::Idle),
        code == 1 ==> r matches Ok(TxnState::Read),
        code == 2 ==> r matches Ok(TxnState::Write),
        !(0 <= code <= 2) ==> (r matches Err(e) && protocol_with(e, txn_state_message(code))),
{
    if code == 0 {
        Ok(TxnState::Idle)
    } else if code == 1 {
        Ok(TxnState::Read)
    } else if code == 2 {
        Ok(TxnState::Write)
    } else {
        let mut m = String::new();
        push_str_verified(&mut m, "sqlite3_txn_state returned ");
        push_signed(&mut m, code as i64);
        Err(Error::Protocol(m))
    }
}

/// The message of an invalid parser depth limit.
pub open spec fn parser_depth_message(limit: i32) -> Seq<char> {
    "SQLite returned invalid parser depth limit "@ + signed_decimal(limit as int)
}

/// The parser depth limit SQLite reported, which must not be negative.
pub fn parser_depth_from_limit(limit: i32) -> (r: Result<u32>)
    ensures
        limit >= 0 ==> r == Ok::<u32, Error>(limit as u32),
        limit < 0 ==> (r matches Err(e) && protocol_with(e, parser_depth_message(limit))),
{
    if limit >= 0 {
        Ok(limit as u32)
    } else {
        let mut m = String::new();
        push_str_verified(&mut m, "SQLite returned invalid parser depth limit ");
        push_signed(&mut m, limit as i64);
        Err(Error::Protocol(m))
    }
}

/// The message of an invalid serialized size.
pub open spec fn serialize_size_message(size: i64) -> Seq<char> {
    "sqlite3_serialize returned invalid size "@ + signed_decimal(size as int)
}

/// The size of a serialized image that SQLite reported, which must fit a `usize`.
pub fn serialize_size(size: i64) -> (r: Result<usize>)
    ensures
        0 <= size <= usize::MAX ==> r == Ok::<usize, Error>(size as usize),
        !(0 <= size <= usize::MAX) ==> (r matches Err(e) && protocol_with(
            e,
            serialize_size_message(size),
        )),
{
    if size >= 0 && (size as u64) <= (usize::MAX as u64) {
        Ok(size as usize)
    } else {
        let mut m = String::new();
        push_str_verified(&mut m, "sqlite3_serialize returned invalid size ");
        push_signed(&mut m, size);
        Err(Error::Protocol(m))
    }
}

/// Whether a database image uses the WAL file format: its read or write
/// version byte (offsets 18 and 19 of the header) is 2.
pub fn is_wal_image(bytes: &[u8]) -> (r: bool)
    ensures
        r == (bytes@.len() >= 20 && (bytes@[18] == 2 || bytes@[19] == 2)),
{
    bytes.len() >= 20 && (bytes[18] == 2 || bytes[19] == 2)
}

/// Whether deserializing is refused before anything changes: a transaction
/// is open, or the image is in WAL format.
pub open spec fn deserialize_refused(depth: usize, autocommit: bool, bytes: Seq<u8>) -> bool {
    depth > 0 || !autocommit || (bytes.len() >= 20 && (bytes[18] == 2 || bytes[19] == 2))
}

/// The outcome of the checks before deserializing: the image size, or the
/// message of the configuration error, in the order the checks run.
pub open spec fn deserialize_check(depth: usize, autocommit: bool, bytes: Seq<u8>) -> core::result::Result<i64, Seq<char>> {
    if depth > 0 || !autocommit {
        Err("cannot deserialize while a transaction is open"@)
    } else if bytes.len() >= 20 && (bytes[18] == 2 || bytes[19] == 2) {
        Err("cannot deserialize a WAL-mode database image"@)
    } else if bytes.len() <= i64::MAX {
        Ok(bytes.len() as i64)
    } else {
        Err("deserialize image is too large"@)
    }
}

/// Check that a database image may replace the schema: no transaction may
/// be open, the image must not be in WAL format, and its size must fit an
/// `i64`. Returns the size.
pub fn check_deserialize(depth: usize, autocommit: bool, bytes: &[u8]) -> (r: Result<i64>)
    ensures
        match deserialize_check(depth, autocommit, bytes@) {
            Ok(n) => r == Ok::<i64, Error>(n),
            Err(m) => r matches Err(e) && configuration_with(e, m),
        },
{
    if depth > 0 || !autocommit {
        return Err(configuration_error("cannot deserialize while a transaction is open"));
    }
    if is_wal_image(bytes) {
        return Err(configuration_error("cannot deserialize a WAL-mode database image"));
    }
    let n = bytes.len();
    if (n as u64) <= (i64::MAX as u64) {
        Ok(n as i64)
    } else {
        Err(configuration_error("deserialize image is too large"))
    }
}

/// What one `sqlite3_backup_step` result means for the copy.
#[derive(Debug, Clone, Copy, PartialEq, Eq, Structural)]
pub enum BackupStep {
    /// `SQLITE_DONE`: all pages were copied.
    Done,
    /// `SQLITE_OK`: more pages remain; step again.
    Continue,
    /// Any other code: the backup failed.
    Failed,
}

/// Classify a `sqlite3_backup_step` result code.
pub fn backup_step_outcome(rc: i32) -> (r: BackupStep)
    ensures
        rc == 101 ==> r == BackupStep::Done,
        rc == 0 ==> r == BackupStep::Continue,
        rc != 101 && rc != 0 ==> r == BackupStep::Failed,
{
    if rc == 101 {
        BackupStep::Done
    } else if rc == 0 {
        BackupStep::Continue
    } else {
        BackupStep::Failed
    }
}

/// The `sqlite3_open_v2` flags for a connection: the threading mode
/// (`FULLMUTEX` when serialized, else `NOMUTEX`), the access mode
/// (`READONLY`, `READWRITE | CREATE`, or `READWRITE`), extended result
/// codes, and `URI` when the filename carries query parameters.
pub open spec fn open_flags_spec(serialized: bool, read_only: bool, create_if_missing: bool, uri: bool) -> i32 {
    let threading: i32 = if serialized {
        65536
    } else {
        32768
    };
    let access: i32 = if read_only {
        1
    } else if create_if_missing {
        6
    } else {
        2
    };
    (threading + access + 33554432 + if uri {
        64i32
    } else {
        0i32
    }) as i32
}

/// Compute the `sqlite3_open_v2` flags of a connection.
pub fn open_flags(serialized: bool, read_only: bool, create_if_missing: bool, uri: bool) -> (r: i32)
    ensures
        r == open_flags_spec(serialized, read_only, create_if_missing, uri),
{
    let threading: i32 = if serialized {
        65536
    } else {
        32768
    };
    assert(4i32 | 2i32 == 6i32) by (bit_vector);
    let access: i32 = if read_only {
        1
    } else if create_if_missing {
        4 | 2
    } else {
        2
    };
    let mut flags: i32 = threading;
    assert(flags | access == flags + access) by (bit_vector)
        requires
            flags == 65536i32 || flags == 32768i32,
            access == 1i32 || access == 6i32 || access == 2i32,
    ;
    flags = flags | access;
    assert(flags | 33554432i32 == flags + 33554432i32) by (bit_vector)
        requires
            flags == 65536i32 + 1 || flags == 65536i32 + 6 || flags == 65536i32 + 2 || flags
                == 32768i32 + 1 || flags == 32768i32 + 6 || flags == 32768i32 + 2,
    ;
    flags = flags | 33554432;
    if uri {
        assert(flags | 64i32 == flags + 64i32) by (bit_vector)
            requires
                flags == 65536i32 + 1 + 33554432 || flags == 65536i32 + 6 + 33554432 || flags
                    == 65536i32 + 2 + 33554432 || flags == 32768i32 + 1 + 33554432 || flags
                    == 32768i32 + 6 + 33554432 || flags == 32768i32 + 2 + 33554432,
        ;
        flags = flags | 64;
    }
    flags
}

/// The filename given to SQLite: with `immutable=true` and/or `vfs=NAME`
/// query parameters it becomes a `file:` URI, and then the URI flag is set.
pub open spec fn sqlite_filename(filename: Seq<char>, immutable: bool, vfs: Option<Seq<char>>) -> (Seq<char>, bool) {
    let params: Seq<Seq<char>> = (if immutable {
        seq!["immutable=true"@]
    } else {
        seq![]
    }) + match vfs {
        Some(v) => seq!["vfs="@ + v],
        None => seq![],
    };
    if params.len() == 0 {
        (filename, false)
    } else if params.len() == 1 {
        ("file:"@ + filename + "?"@ + params[0], true)
    } else {
        ("file:"@ + filename + "?"@ + params[0] + "&"@ + params[1], true)
    }
}

/// Whether a connection's file name names a file on disk: it is neither
/// empty nor the in-memory name `:memory:`. Only such a database can be the
/// same file as a backup destination.
pub fn names_database_file(filename: &str) -> (r: bool)
    ensures
        r == (filename@.len() > 0 && filename@ != ":memory:"@),
{
    let chars = chars_of(filename);
    if chars.len() == 0 {
        return false;
    }
    let memory = chars_of(":memory:");
    !chars_eq(&chars, memory.as_slice())
}

/// Build the filename given to SQLite, and whether it is a URI.
pub fn sqlite_filename_of(filename: &str, immutable: bool, vfs: Option<&str>) -> (r: (String, bool))
    ensures
        (r.0@, r.1) == sqlite_filename(
            filename@,
            immutable,
            match vfs {
                Some(v) => Some(v@),
                None => None,
            },
        ),
{
    let mut params = String::new();
    let mut any = false;
    if immutable {
        push_str_verified(&mut params, "immutable=true");
        any = true;
    }
    match vfs {
        Some(v) => {
            if any {
                push_str_verified(&mut params, "&");
            }
            push_str_verified(&mut params, "vfs=");
            push_str_verified(&mut params, v);
            any = true;
        },
        None => {},
    }
    if !any {
        let chars = chars_of(filename);
        return (string_from_chars(&chars), false);
    }
    let mut out = String::new();
    push_str_verified(&mut out, "file:");
    push_str_verified(&mut out, filename);
    push_str_verified(&mut out, "?");
    push_str_verified(&mut out, params.as_str());
    proof {
        let expected = sqlite_filename(
            filename@,
            immutable,
            match vfs {
                Some(v) => Some(v@),
                None => None,
            },
        ).0;
        assert(out@ =~= expected);
    }
    (out, true)
}

/// The message of an out-of-range floating point text precision.
pub open spec fn fp_digits_message(digits: u8) -> Seq<char> {
    "floating_point_text_digits must be between 4 and 23, got "@ + signed_decimal(digits as int)
}

/// Validate the configured floating-point text precision: 4 to 23 digits.
pub fn validate_floating_point_text_digits(digits: Option<u8>) -> (r: Result<Option<u8>>)
    ensures
        match digits {
            None => r == Ok::<Option<u8>, Error>(None),
            Some(d) => if 4 <= d <= 23 {
                r == Ok::<Option<u8>, Error>(Some(d))
            } else {
                r matches Err(e) && configuration_with(e, fp_digits_message(d))
            },
        },
{
    match digits {
        Some(d) => {
            if !(4 <= d && d <= 23) {
                let mut m = String::new();
                push_str_verified(&mut m, "floating_point_text_digits must be between 4 and 23, got ");
                push_signed(&mut m, d as i64);
                return Err(Error::Configuration(m));
            }
            Ok(Some(d))
        },
        None => Ok(None),
    }
}

/// The message of a parser depth limit that does not fit an `i32`.
pub open spec fn depth_limit_message(limit: u32) -> Seq<char> {
    "parser_depth_limit must fit into i32, got "@ + signed_decimal(limit as int)
}

/// Validate the configured parser depth limit: above zero and within `i32`.
pub fn validate_parser_depth_limit(limit: Option<u32>) -> (r: Result<Option<i32>>)
    ensures
        match limit {
            None => r == Ok::<Option<i32>, Error>(None),
            Some(l) => if l == 0 {
                r matches Err(e) && configuration_with(
                    e,
                    "parser_depth_limit must be greater than zero"@,
                )
            } else if l <= i32::MAX {
                r == Ok::<Option<i32>, Error>(Some(l as i32))
            } else {
                r matches Err(e) && configuration_with(e, depth_limit_message(l))
            },
        },
{
    let l = match limit {
        Some(l) => l,
        None => {
            return Ok(None);
        },
    };
    if l == 0 {
        return Err(configuration_error("parser_depth_limit must be greater than zero"));
    }
    if l <= 2147483647 {
        Ok(Some(l as i32))
    } else {
        let mut m = String::new();
        push_str_verified(&mut m, "parser_depth_limit must fit into i32, got ");
        push_signed(&mut m, l as i64);
        Err(Error::Configuration(m))
    }
}

/// The busy timeout in milliseconds handed to SQLite: clamped to `i32::MAX`.
pub fn busy_timeout_millis(millis: u128) -> (r: i32)
    ensures
        r == if millis <= i32::MAX {
            millis as i32
        } else {
            i32::MAX
        },
{
    if millis <= 2147483647 {
        millis as i32
    } else {
        2147483647
    }
}

/// The message of a database option SQLite did not take.
pub open spec fn db_config_message(configured: i32, value: i32) -> Seq<char> {
    "SQLite reported db_config "@ + signed_decimal(configured as int) + " after setting "@
        + signed_decimal(value as int)
}

/// Check that SQLite reports the value just set for a boolean database option.
pub fn check_db_config(configured: i32, on: bool) -> (r: Result<()>)
    ensures
        configured == (if on { 1i32 } else { 0i32 }) ==> r is Ok,
        configured != (if on { 1i32 } else { 0i32 }) ==> (r matches Err(e) && protocol_with(
            e,
            db_config_message(configured, if on { 1i32 } else { 0i32 }),
        )),
{
    let value: i32 = if on {
        1
    } else {
        0
    };
    if configured != value {
        let mut m = String::new();
        push_str_verified(&mut m, "SQLite reported db_config ");
        push_signed(&mut m, configured as i64);
        push_str_verified(&mut m, " after setting ");
        push_signed(&mut m, value as i64);
        return Err(Error::Protocol(m));
    }
    Ok(())
}

/// The message of a floating point precision SQLite did not take.
pub open spec fn fp_config_message(configured: i32, digits: u8) -> Seq<char> {
    "SQLite reported floating point text digits "@ + signed_decimal(configured as int)
        + " after setting "@ + signed_decimal(digits as int)
}

/// Check that SQLite reports the floating point precision just set.
pub fn check_fp_digits(configured: i32, digits: u8) -> (r: Result<()>)
    ensures
        configured == digits ==> r is Ok,
        configured != digits ==> (r matches Err(e) && protocol_with(
            e,
            fp_config_message(configured, digits),
        )),
{
    if configured != digits as i32 {
        let mut m = String::new();
        push_str_verified(&mut m, "SQLite reported floating point text digits ");
        push_signed(&mut m, configured as i64);
        push_str_verified(&mut m, " after setting ");
        push_signed(&mut m, digits as i64);
        return Err(Error::Protocol(m));
    }
    Ok(())
}

/// The options that decide how a connection is opened.
#[derive(Debug, Clone)]
pub struct OpenOptions {
    /// Database file name, or `:memory:`.
    pub filename: String,
    /// Open with a serialized (full mutex) connection.
    pub serialized: bool,
    /// Open read-only.
    pub read_only: bool,
    /// Create the database if it does not exist.
    pub create_if_missing: bool,
    /// Open the database as immutable.
    pub immutable: bool,
    /// The VFS to open the database with.
    pub vfs: Option<String>,
    /// Floating point text precision, if set.
    pub floating_point_text_digits: Option<u8>,
    /// Parser stack depth limit, if set.
    pub parser_depth_limit: Option<u32>,
}

/// What opening a connection needs, checked.
#[derive(Debug, Clone)]
pub struct OpenParams {
    /// The file name handed to SQLite.
    pub filename: String,
    /// SQLite open flags.
    pub open_flags: i32,
    /// Floating point text precision to apply.
    pub floating_point_text_digits: Option<u8>,
    /// Parser stack depth limit to apply.
    pub parser_depth_limit: Option<i32>,
}

/// The message of a file name with a nul character.
pub open spec fn nul_filename_message() -> Seq<char> {
    "filename passed to SQLite must not contain nul bytes"@
}

/// The SQLite file name and whether it is a URI, for these options.
pub open spec fn options_filename(o: OpenOptions) -> (Seq<char>, bool) {
    sqlite_filename(
        o.filename@,
        o.immutable,
        match o.vfs {
            Some(v) => Some(v@),
            None => None,
        },
    )
}

/// The precision is unset or from 4 to 23.
pub open spec fn fp_digits_valid(d: Option<u8>) -> bool {
    d matches Some(x) ==> 4 <= x <= 23
}

/// The depth limit is unset or from 1 to `i32::MAX`.
pub open spec fn depth_limit_valid(l: Option<u32>) -> bool {
    l matches Some(x) ==> 0 < x <= i32::MAX
}

/// Derive the parameters for opening a connection: the file name (a URI
/// when the database is immutable or a VFS is named), the open flags, and
/// the checked precision and depth limit. Fails, in this order, on a file
/// name with a nul character, an out-of-range precision, and an
/// out-of-range depth limit.
pub fn open_params(options: &OpenOptions) -> (r: Result<OpenParams>)
    ensures
        ({
            let (name, uri) = options_filename(*options);
            if name.contains('\0') {
                r matches Err(Error::Io(m)) && m@ == nul_filename_message()
            } else if !fp_digits_valid(options.floating_point_text_digits) {
                r matches Err(e) && configuration_with(
                    e,
                    fp_digits_message(options.floating_point_text_digits->Some_0),
                )
            } else if !depth_limit_valid(options.parser_depth_limit) {
                r matches Err(e) && (if options.parser_depth_limit->Some_0 == 0 {
                    configuration_with(e, "parser_depth_limit must be greater than zero"@)
                } else {
                    configuration_with(e, depth_limit_message(options.parser_depth_limit->Some_0))
                })
            } else {
                r matches Ok(p) && p.filename@ == name && p.open_flags == open_flags_spec(
                    options.serialized,
                    options.read_only,
                    options.create_if_missing,
                    uri,
                ) && p.floating_point_text_digits == options.floating_point_text_digits
                    && p.parser_depth_limit == match options.parser_depth_limit {
                    Some(l) => Some(l as i32),
                    None => None,
                }
            }
        }),
{
    let vfs: Option<&str> = match &options.vfs {
        Some(v) => Some(v.as_str()),
        None => None,
    };
    let (filename, uri) = sqlite_filename_of(options.filename.as_str(), options.immutable, vfs);
    assert((filename@, uri) == options_filename(*options));
    let chars = chars_of(filename.as_str());
    let mut k: usize = 0;
    while k < chars.len()
        invariant
            k <= chars.len(),
            chars@ == filename@,
            (filename@, uri) == options_filename(*options),
            forall|j: int| 0 <= j < k ==> chars@[j] != '\0',
        decreases chars.len() - k,
    {
        if chars[k] == '\0' {
            assert(filename@[k as int] == '\0');
            assert(filename@.contains('\0'));
            let msg = chars_of("filename passed to SQLite must not contain nul bytes");
            return Err(Error::Io(string_from_chars(&msg)));
        }
        k = k + 1;
    }
    assert(!filename@.contains('\0'));
    let floating_point_text_digits = validate_floating_point_text_digits(
        options.floating_point_text_digits,
    )?;
    let parser_depth_limit = validate_parser_depth_limit(options.parser_depth_limit)?;
    let open_flags = open_flags(options.serialized, options.read_only, options.create_if_missing, uri);
    Ok(OpenParams { filename, open_flags, floating_point_text_digits, parser_depth_limit })
}

} // verus!
