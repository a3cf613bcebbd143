//! SQLite result codes and the error type reported by SQLite.

use vstd::prelude::*;
use crate::text::{decimal, push_char, push_decimal, push_str_verified};

verus! {

/// Primary SQLite error codes.
#[derive(Debug, Clone, Copy, PartialEq, Eq, Structural)]
#[non_exhaustive]
pub enum PrimaryErrCode {
    /// SQL error or missing database.
    Error,
    /// Internal SQLite logic error.
    Internal,
    /// Access permission denied.
    Perm,
    /// A callback requested that the operation abort.
    Abort,
    /// The database file is locked.
    Busy,
    /// A table in the database is locked.
    Locked,
    /// A malloc() failed.
    NoMem,
    /// Attempt to write a read-only database.
    ReadOnly,
    /// Operation terminated by sqlite3_interrupt().
    Interrupt,
    /// Some kind of disk I/O error occurred.
    IoErr,
    /// The database disk image is malformed.
    Corrupt,
    /// Unknown opcode in sqlite3_file_control().
    NotFound,
    /// Insertion failed because the database is full.
    Full,
    /// Unable to open the database file.
    CantOpen,
    /// Database lock protocol error.
    Protocol,
    /// Internal use only.
    Empty,
    /// The database schema changed.
    Schema,
    /// String or BLOB exceeds size limit.
    TooBig,
    /// Abort due to constraint violation.
    Constraint,
    /// Data type mismatch.
    Mismatch,
    /// Library used incorrectly.
    Misuse,
    /// Uses OS features not supported on host.
    NoLfs,
    /// Authorization denied.
    Auth,
    /// Not used.
    Format,
    /// 2nd parameter to sqlite3_bind out of range.
    Range,
    /// File opened that is not a database file.
    NotADB,
    /// Notifications from sqlite3_log().
    Notice,
    /// Warnings from sqlite3_log().
    Warning,
    /// Unrecognized SQLite result code.
    Unknown(u32),
}

/// The primary code a raw result code denotes.
pub open spec fn primaryerrcode_of_raw(code: i32) -> PrimaryErrCode {
    if code == 1 {
        PrimaryErrCode::Error
    } else if code == 2 {
        PrimaryErrCode::Internal
    } else if code == 3 {
        PrimaryErrCode::Perm
    } else if code == 4 {
        PrimaryErrCode::Abort
    } else if code == 5 {
        PrimaryErrCode::Busy
    } else if code == 6 {
        PrimaryErrCode::Locked
    } else if code == 7 {
        PrimaryErrCode::NoMem
    } else if code == 8 {
        PrimaryErrCode::ReadOnly
    } else if code == 9 {
        PrimaryErrCode::Interrupt
    } else if code == 10 {
        PrimaryErrCode::IoErr
    } else if code == 11 {
        PrimaryErrCode::Corrupt
    } else if code == 12 {
        PrimaryErrCode::NotFound
    } else if code == 13 {
        PrimaryErrCode::Full
    } else if code == 14 {
        PrimaryErrCode::CantOpen
    } else if code == 15 {
        PrimaryErrCode::Protocol
    } else if code == 16 {
        PrimaryErrCode::Empty
    } else if code == 17 {
        PrimaryErrCode::Schema
    } else if code == 18 {
        PrimaryErrCode::TooBig
    } else if code == 19 {
        PrimaryErrCode::Constraint
    } else if code == 20 {
        PrimaryErrCode::Mismatch
    } else if code == 21 {
        PrimaryErrCode::Misuse
    } else if code == 22 {
        PrimaryErrCode::NoLfs
    } else if code == 23 {
        PrimaryErrCode::Auth
    } else if code == 24 {
        PrimaryErrCode::Format
    } else if code == 25 {
        PrimaryErrCode::Range
    } else if code == 26 {
        PrimaryErrCode::NotADB
    } else if code == 27 {
        PrimaryErrCode::Notice
    } else if code == 28 {
        PrimaryErrCode::Warning
    } else {
        PrimaryErrCode::Unknown(code as u32)
    }
}

/// The C name of each primary code.
pub open spec fn primaryerrcode_name(c: PrimaryErrCode) -> Seq<char> {
    match c {
        PrimaryErrCode::Error => "SQLITE_ERROR"@,
        PrimaryErrCode::Internal => "SQLITE_INTERNAL"@,
        PrimaryErrCode::Perm => "SQLITE_PERM"@,
        PrimaryErrCode::Abort => "SQLITE_ABORT"@,
        PrimaryErrCode::Busy => "SQLITE_BUSY"@,
        PrimaryErrCode::Locked => "SQLITE_LOCKED"@,
        PrimaryErrCode::NoMem => "SQLITE_NOMEM"@,
        PrimaryErrCode::ReadOnly => "SQLITE_READONLY"@,
        PrimaryErrCode::Interrupt => "SQLITE_INTERRUPT"@,
        PrimaryErrCode::IoErr => "SQLITE_IOERR"@,
        PrimaryErrCode::Corrupt => "SQLITE_CORRUPT"@,
        PrimaryErrCode::NotFound => "SQLITE_NOTFOUND"@,
        PrimaryErrCode::Full => "SQLITE_FULL"@,
        PrimaryErrCode::CantOpen => "SQLITE_CANTOPEN"@,
        PrimaryErrCode::Protocol => "SQLITE_PROTOCOL"@,
        PrimaryErrCode::Empty => "SQLITE_EMPTY"@,
        PrimaryErrCode::Schema => "SQLITE_SCHEMA"@,
        PrimaryErrCode::TooBig => "SQLITE_TOOBIG"@,
        PrimaryErrCode::Constraint => "SQLITE_CONSTRAINT"@,
        PrimaryErrCode::Mismatch => "SQLITE_MISMATCH"@,
        PrimaryErrCode::Misuse => "SQLITE_MISUSE"@,
        PrimaryErrCode::NoLfs => "SQLITE_NOLFS"@,
        PrimaryErrCode::Auth => "SQLITE_AUTH"@,
        PrimaryErrCode::Format => "SQLITE_FORMAT"@,
        PrimaryErrCode::Range => "SQLITE_RANGE"@,
        PrimaryErrCode::NotADB => "SQLITE_NOTADB"@,
        PrimaryErrCode::Notice => "SQLITE_NOTICE"@,
        PrimaryErrCode::Warning => "SQLITE_WARNING"@,
        PrimaryErrCode::Unknown(code) => "SQLITE_"@ + decimal(code as nat),
    }
}

impl PrimaryErrCode {
    /// Map a raw result code to its variant.
    fn from_raw(code: i32) -> (r: Self)
        ensures
            r == primaryerrcode_of_raw(code),
    {
        if code == 1 {
            PrimaryErrCode::Error
        } else if code == 2 {
            PrimaryErrCode::Internal
        } else if code == 3 {
            PrimaryErrCode::Perm
        } else if code == 4 {
            PrimaryErrCode::Abort
        } else if code == 5 {
            PrimaryErrCode::Busy
        } else if code == 6 {
            PrimaryErrCode::Locked
        } else if code == 7 {
            PrimaryErrCode::NoMem
        } else if code == 8 {
            PrimaryErrCode::ReadOnly
        } else if code == 9 {
            PrimaryErrCode::Interrupt
        } else if code == 10 {
            PrimaryErrCode::IoErr
        } else if code == 11 {
            PrimaryErrCode::Corrupt
        } else if code == 12 {
            PrimaryErrCode::NotFound
        } else if code == 13 {
            PrimaryErrCode::Full
        } else if code == 14 {
            PrimaryErrCode::CantOpen
        } else if code == 15 {
            PrimaryErrCode::Protocol
        } else if code == 16 {
            PrimaryErrCode::Empty
        } else if code == 17 {
            PrimaryErrCode::Schema
        } else if code == 18 {
            PrimaryErrCode::TooBig
        } else if code == 19 {
            PrimaryErrCode::Constraint
        } else if code == 20 {
            PrimaryErrCode::Mismatch
        } else if code == 21 {
            PrimaryErrCode::Misuse
        } else if code == 22 {
            PrimaryErrCode::NoLfs
        } else if code == 23 {
            PrimaryErrCode::Auth
        } else if code == 24 {
            PrimaryErrCode::Format
        } else if code == 25 {
            PrimaryErrCode::Range
        } else if code == 26 {
            PrimaryErrCode::NotADB
        } else if code == 27 {
            PrimaryErrCode::Notice
        } else if code == 28 {
            PrimaryErrCode::Warning
        } else {
            PrimaryErrCode::Unknown(code as u32)
        }
    }

    /// The C name of this code, as SQLite spells it (`SQLITE_<n>` when unknown).
    pub fn name(&self) -> (r: String)
        ensures
            r@ == primaryerrcode_name(*self),
    {
        let mut s = String::new();
        match self {
            PrimaryErrCode::Error => push_str_verified(&mut s, "SQLITE_ERROR"),
            PrimaryErrCode::Internal => push_str_verified(&mut s, "SQLITE_INTERNAL"),
            PrimaryErrCode::Perm => push_str_verified(&mut s, "SQLITE_PERM"),
            PrimaryErrCode::Abort => push_str_verified(&mut s, "SQLITE_ABORT"),
            PrimaryErrCode::Busy => push_str_verified(&mut s, "SQLITE_BUSY"),
            PrimaryErrCode::Locked => push_str_verified(&mut s, "SQLITE_LOCKED"),
            PrimaryErrCode::NoMem => push_str_verified(&mut s, "SQLITE_NOMEM"),
            PrimaryErrCode::ReadOnly => push_str_verified(&mut s, "SQLITE_READONLY"),
            PrimaryErrCode::Interrupt => push_str_verified(&mut s, "SQLITE_INTERRUPT"),
            PrimaryErrCode::IoErr => push_str_verified(&mut s, "SQLITE_IOERR"),
            PrimaryErrCode::Corrupt => push_str_verified(&mut s, "SQLITE_CORRUPT"),
            PrimaryErrCode::NotFound => push_str_verified(&mut s, "SQLITE_NOTFOUND"),
            PrimaryErrCode::Full => push_str_verified(&mut s, "SQLITE_FULL"),
            PrimaryErrCode::CantOpen => push_str_verified(&mut s, "SQLITE_CANTOPEN"),
            PrimaryErrCode::Protocol => push_str_verified(&mut s, "SQLITE_PROTOCOL"),
            PrimaryErrCode::Empty => push_str_verified(&mut s, "SQLITE_EMPTY"),
            PrimaryErrCode::Schema => push_str_verified(&mut s, "SQLITE_SCHEMA"),
            PrimaryErrCode::TooBig => push_str_verified(&mut s, "SQLITE_TOOBIG"),
            PrimaryErrCode::Constraint => push_str_verified(&mut s, "SQLITE_CONSTRAINT"),
            PrimaryErrCode::Mismatch => push_str_verified(&mut s, "SQLITE_MISMATCH"),
            PrimaryErrCode::Misuse => push_str_verified(&mut s, "SQLITE_MISUSE"),
            PrimaryErrCode::NoLfs => push_str_verified(&mut s, "SQLITE_NOLFS"),
            PrimaryErrCode::Auth => push_str_verified(&mut s, "SQLITE_AUTH"),
            PrimaryErrCode::Format => push_str_verified(&mut s, "SQLITE_FORMAT"),
            PrimaryErrCode::Range => push_str_verified(&mut s, "SQLITE_RANGE"),
            PrimaryErrCode::NotADB => push_str_verified(&mut s, "SQLITE_NOTADB"),
            PrimaryErrCode::Notice => push_str_verified(&mut s, "SQLITE_NOTICE"),
            PrimaryErrCode::Warning => push_str_verified(&mut s, "SQLITE_WARNING"),
            PrimaryErrCode::Unknown(code) => {
                push_str_verified(&mut s, "SQLITE_");
                push_decimal(&mut s, *code as usize);
            },
        }
        assert(s@ =~= primaryerrcode_name(*self));
        s
    }
}

/// Extended SQLite error codes.
#[derive(Debug, Clone, Copy, PartialEq, Eq, Structural)]
#[non_exhaustive]
pub enum ExtendedErrCode {
    /// SQL uses an unknown collating sequence.
    ErrorMissingCollseq,
    /// Prepare the statement again.
    ErrorRetry,
    /// The WAL snapshot is no longer valid.
    ErrorSnapshot,
    /// I/O error while reading.
    IOErrRead,
    /// I/O error: a short read.
    IOErrShortRead,
    /// I/O error while writing.
    IOErrWrite,
    /// I/O error during fsync().
    IOErrFsync,
    /// I/O error during a directory fsync().
    IOErrDirFsync,
    /// I/O error during ftruncate().
    IOErrTruncate,
    /// I/O error during fstat().
    IOErrFstat,
    /// I/O error during unlock.
    IOErrUnlock,
    /// I/O error during a read lock.
    IOErrRdlock,
    /// I/O error during delete.
    IOErrDelete,
    /// I/O error: lock held by another process.
    IOErrBlocked,
    /// I/O error: out of memory.
    IOErrNoMem,
    /// I/O error during access().
    IOErrAccess,
    /// I/O error checking a reserved lock.
    IOErrCheckReservedLock,
    /// I/O error during lock.
    IOErrLock,
    /// I/O error during close().
    IOErrClose,
    /// I/O error closing a directory.
    IOErrDirClose,
    /// I/O error opening shared memory.
    IOErrShmopen,
    /// I/O error setting shared-memory size.
    IOErrShmsize,
    /// I/O error locking shared memory.
    IOErrShmlock,
    /// I/O error mapping shared memory.
    IOErrShmmap,
    /// I/O error during seek.
    IOErrSeek,
    /// I/O error: delete of a missing file.
    IOErrDeleteNoent,
    /// I/O error during mmap().
    IOErrMmap,
    /// I/O error getting a temporary path.
    IOErrGetTempPath,
    /// I/O error converting a file path.
    IOErrConvPath,
    /// I/O error in a VFS vnode.
    IOErrVnode,
    /// I/O error from an authorization check.
    IOErrAuth,
    /// I/O error starting an atomic write.
    IOErrBeginAtomic,
    /// I/O error committing an atomic write.
    IOErrCommitAtomic,
    /// I/O error rolling back an atomic write.
    IOErrRollbackAtomic,
    /// I/O error: disk content changed.
    IOErrData,
    /// I/O error: the filesystem is corrupt.
    IOErrCorruptFs,
    /// Conflict with another connection in shared cache.
    LockedSharedCache,
    /// A virtual table is busy.
    LockedVTab,
    /// Another process is recovering the WAL.
    BusyRecovery,
    /// Cannot promote a deferred transaction.
    BusySnapshot,
    /// Busy handler timed out.
    BusyTimeout,
    /// Cannot find a temporary directory.
    CantOpenNoTempDir,
    /// Attempted to open a directory.
    CantOpenIsDir,
    /// Unable to obtain the full pathname.
    CantOpenFullPath,
    /// Unable to convert the pathname.
    CantOpenConvPath,
    /// The WAL file is leftover from a crash.
    CantOpenDirtyWal,
    /// Symbolic links are disabled.
    CantOpenSymlink,
    /// Content in a virtual table is corrupt.
    CorruptVTab,
    /// sqlite_sequence table is malformed.
    CorruptSequence,
    /// An index is malformed.
    CorruptIndex,
    /// WAL recovery cannot run on a read-only database.
    ReadOnlyRecovery,
    /// Cannot take a shared lock for read-only WAL.
    ReadOnlyCantLock,
    /// Hot journal rollback is required.
    ReadOnlyRollback,
    /// The database file was moved.
    ReadOnlyDbMoved,
    /// Cannot create a WAL or journal file.
    ReadOnlyCantInit,
    /// The directory is not writable.
    ReadOnlyDirectory,
    /// The statement was aborted by ROLLBACK.
    AbortRollback,
    /// A CHECK constraint failed.
    ConstraintCheck,
    /// A commit hook vetoed the transaction.
    ConstraintCommitHook,
    /// A foreign key constraint failed.
    ConstraintForeignKey,
    /// A user function reported a constraint error.
    ConstraintFunction,
    /// A NOT NULL constraint failed.
    ConstraintNotNull,
    /// A PRIMARY KEY constraint failed.
    ConstraintPrimaryKey,
    /// A RAISE(ABORT) in a trigger fired.
    ConstraintTrigger,
    /// A UNIQUE constraint failed.
    ConstraintUnique,
    /// A virtual table constraint failed.
    ConstraintVTab,
    /// rowid is not unique.
    ConstraintRowId,
    /// The row is pinned by an incremental blob.
    ConstraintPinned,
    /// A STRICT table rejected a value.
    ConstraintDataType,
    /// WAL recovery recovered uncheckpointed frames.
    NoticeRecoverWal,
    /// Hot-journal recovery rolled back a transaction.
    NoticeRecoverRollback,
    /// SQLite used an automatic index.
    WarningAutoIndex,
    /// Authorization denied for this user.
    AuthUser,
    /// Extension loaded permanently.
    OkLoadPermanently,
    /// The path is a symbolic link.
    OkSymlink,
    /// Unrecognized SQLite result code.
    Unknown(u32),
}

/// The extended code a raw result code denotes.
pub open spec fn extendederrcode_of_raw(code: i32) -> ExtendedErrCode {
    if code == 257 {
        ExtendedErrCode::ErrorMissingCollseq
    } else if code == 513 {
        ExtendedErrCode::ErrorRetry
    } else if code == 769 {
        ExtendedErrCode::ErrorSnapshot
    } else if code == 266 {
        ExtendedErrCode::IOErrRead
    } else if code == 522 {
        ExtendedErrCode::IOErrShortRead
    } else if code == 778 {
        ExtendedErrCode::IOErrWrite
    } else if code == 1034 {
        ExtendedErrCode::IOErrFsync
    } else if code == 1290 {
        ExtendedErrCode::IOErrDirFsync
    } else if code == 1546 {
        ExtendedErrCode::IOErrTruncate
    } else if code == 1802 {
        ExtendedErrCode::IOErrFstat
    } else if code == 2058 {
        ExtendedErrCode::IOErrUnlock
    } else if code == 2314 {
        ExtendedErrCode::IOErrRdlock
    } else if code == 2570 {
        ExtendedErrCode::IOErrDelete
    } else if code == 2826 {
        ExtendedErrCode::IOErrBlocked
    } else if code == 3082 {
        ExtendedErrCode::IOErrNoMem
    } else if code == 3338 {
        ExtendedErrCode::IOErrAccess
    } else if code == 3594 {
        ExtendedErrCode::IOErrCheckReservedLock
    } else if code == 3850 {
        ExtendedErrCode::IOErrLock
    } else if code == 4106 {
        ExtendedErrCode::IOErrClose
    } else if code == 4362 {
        ExtendedErrCode::IOErrDirClose
    } else if code == 4618 {
        ExtendedErrCode::IOErrShmopen
    } else if code == 4874 {
        ExtendedErrCode::IOErrShmsize
    } else if code == 5130 {
        ExtendedErrCode::IOErrShmlock
    } else if code == 5386 {
        ExtendedErrCode::IOErrShmmap
    } else if code == 5642 {
        ExtendedErrCode::IOErrSeek
    } else if code == 5898 {
        ExtendedErrCode::IOErrDeleteNoent
    } else if code == 6154 {
        ExtendedErrCode::IOErrMmap
    } else if code == 6410 {
        ExtendedErrCode::IOErrGetTempPath
    } else if code == 6666 {
        ExtendedErrCode::IOErrConvPath
    } else if code == 6922 {
        ExtendedErrCode::IOErrVnode
    } else if code == 7178 {
        ExtendedErrCode::IOErrAuth
    } else if code == 7434 {
        ExtendedErrCode::IOErrBeginAtomic
    } else if code == 7690 {
        ExtendedErrCode::IOErrCommitAtomic
    } else if code == 7946 {
        ExtendedErrCode::IOErrRollbackAtomic
    } else if code == 8202 {
        ExtendedErrCode::IOErrData
    } else if code == 8458 {
        ExtendedErrCode::IOErrCorruptFs
    } else if code == 262 {
        ExtendedErrCode::LockedSharedCache
    } else if code == 518 {
        ExtendedErrCode::LockedVTab
    } else if code == 261 {
        ExtendedErrCode::BusyRecovery
    } else if code == 517 {
        ExtendedErrCode::BusySnapshot
    } else if code == 773 {
        ExtendedErrCode::BusyTimeout
    } else if code == 270 {
        ExtendedErrCode::CantOpenNoTempDir
    } else if code == 526 {
        ExtendedErrCode::CantOpenIsDir
    } else if code == 782 {
        ExtendedErrCode::CantOpenFullPath
    } else if code == 1038 {
        ExtendedErrCode::CantOpenConvPath
    } else if code == 1294 {
        ExtendedErrCode::CantOpenDirtyWal
    } else if code == 1550 {
        ExtendedErrCode::CantOpenSymlink
    } else if code == 267 {
        ExtendedErrCode::CorruptVTab
    } else if code == 523 {
        ExtendedErrCode::CorruptSequence
    } else if code == 779 {
        ExtendedErrCode::CorruptIndex
    } else if code == 264 {
        ExtendedErrCode::ReadOnlyRecovery
    } else if code == 520 {
        ExtendedErrCode::ReadOnlyCantLock
    } else if code == 776 {
        ExtendedErrCode::ReadOnlyRollback
    } else if code == 1032 {
        ExtendedErrCode::ReadOnlyDbMoved
    } else if code == 1288 {
        ExtendedErrCode::ReadOnlyCantInit
    } else if code == 1544 {
        ExtendedErrCode::ReadOnlyDirectory
    } else if code == 516 {
        ExtendedErrCode::AbortRollback
    } else if code == 275 {
        ExtendedErrCode::ConstraintCheck
    } else if code == 531 {
        ExtendedErrCode::ConstraintCommitHook
    } else if code == 787 {
        ExtendedErrCode::ConstraintForeignKey
    } else if code == 1043 {
        ExtendedErrCode::ConstraintFunction
    } else if code == 1299 {
        ExtendedErrCode::ConstraintNotNull
    } else if code == 1555 {
        ExtendedErrCode::ConstraintPrimaryKey
    } else if code == 1811 {
        ExtendedErrCode::ConstraintTrigger
    } else if code == 2067 {
        ExtendedErrCode::ConstraintUnique
    } else if code == 2323 {
        ExtendedErrCode::ConstraintVTab
    } else if code == 2579 {
        ExtendedErrCode::ConstraintRowId
    } else if code == 2835 {
        ExtendedErrCode::ConstraintPinned
    } else if code == 3091 {
        ExtendedErrCode::ConstraintDataType
    } else if code == 283 {
        ExtendedErrCode::NoticeRecoverWal
    } else if code == 539 {
        ExtendedErrCode::NoticeRecoverRollback
    } else if code == 284 {
        ExtendedErrCode::WarningAutoIndex
    } else if code == 279 {
        ExtendedErrCode::AuthUser
    } else if code == 256 {
        ExtendedErrCode::OkLoadPermanently
    } else if code == 512 {
        ExtendedErrCode::OkSymlink
    } else {
        ExtendedErrCode::Unknown(code as u32)
    }
}

/// The C name of each extended code.
pub open spec fn extendederrcode_name(c: ExtendedErrCode) -> Seq<char> {
    match c {
        ExtendedErrCode::ErrorMissingCollseq => "SQLITE_ERROR_MISSING_COLLSEQ"@,
        ExtendedErrCode::ErrorRetry => "SQLITE_ERROR_RETRY"@,
        ExtendedErrCode::ErrorSnapshot => "SQLITE_ERROR_SNAPSHOT"@,
        ExtendedErrCode::IOErrRead => "SQLITE_IOERR_READ"@,
        ExtendedErrCode::IOErrShortRead => "SQLITE_IOERR_SHORT_READ"@,
        ExtendedErrCode::IOErrWrite => "SQLITE_IOERR_WRITE"@,
        ExtendedErrCode::IOErrFsync => "SQLITE_IOERR_FSYNC"@,
        ExtendedErrCode::IOErrDirFsync => "SQLITE_IOERR_DIR_FSYNC"@,
        ExtendedErrCode::IOErrTruncate => "SQLITE_IOERR_TRUNCATE"@,
        ExtendedErrCode::IOErrFstat => "SQLITE_IOERR_FSTAT"@,
        ExtendedErrCode::IOErrUnlock => "SQLITE_IOERR_UNLOCK"@,
        ExtendedErrCode::IOErrRdlock => "SQLITE_IOERR_RDLOCK"@,
        ExtendedErrCode::IOErrDelete => "SQLITE_IOERR_DELETE"@,
        ExtendedErrCode::IOErrBlocked => "SQLITE_IOERR_BLOCKED"@,
        ExtendedErrCode::IOErrNoMem => "SQLITE_IOERR_NOMEM"@,
        ExtendedErrCode::IOErrAccess => "SQLITE_IOERR_ACCESS"@,
        ExtendedErrCode::IOErrCheckReservedLock => "SQLITE_IOERR_CHECKRESERVEDLOCK"@,
        ExtendedErrCode::IOErrLock => "SQLITE_IOERR_LOCK"@,
        ExtendedErrCode::IOErrClose => "SQLITE_IOERR_CLOSE"@,
        ExtendedErrCode::IOErrDirClose => "SQLITE_IOERR_DIR_CLOSE"@,
        ExtendedErrCode::IOErrShmopen => "SQLITE_IOERR_SHMOPEN"@,
        ExtendedErrCode::IOErrShmsize => "SQLITE_IOERR_SHMSIZE"@,
        ExtendedErrCode::IOErrShmlock => "SQLITE_IOERR_SHMLOCK"@,
        ExtendedErrCode::IOErrShmmap => "SQLITE_IOERR_SHMMAP"@,
        ExtendedErrCode::IOErrSeek => "SQLITE_IOERR_SEEK"@,
        ExtendedErrCode::IOErrDeleteNoent => "SQLITE_IOERR_DELETE_NOENT"@,
        ExtendedErrCode::IOErrMmap => "SQLITE_IOERR_MMAP"@,
        ExtendedErrCode::IOErrGetTempPath => "SQLITE_IOERR_GETTEMPPATH"@,
        ExtendedErrCode::IOErrConvPath => "SQLITE_IOERR_CONVPATH"@,
        ExtendedErrCode::IOErrVnode => "SQLITE_IOERR_VNODE"@,
        ExtendedErrCode::IOErrAuth => "SQLITE_IOERR_AUTH"@,
        ExtendedErrCode::IOErrBeginAtomic => "SQLITE_IOERR_BEGIN_ATOMIC"@,
        ExtendedErrCode::IOErrCommitAtomic => "SQLITE_IOERR_COMMIT_ATOMIC"@,
        ExtendedErrCode::IOErrRollbackAtomic => "SQLITE_IOERR_ROLLBACK_ATOMIC"@,
        ExtendedErrCode::IOErrData => "SQLITE_IOERR_DATA"@,
        ExtendedErrCode::IOErrCorruptFs => "SQLITE_IOERR_CORRUPTFS"@,
        ExtendedErrCode::LockedSharedCache => "SQLITE_LOCKED_SHAREDCACHE"@,
        ExtendedErrCode::LockedVTab => "SQLITE_LOCKED_VTAB"@,
        ExtendedErrCode::BusyRecovery => "SQLITE_BUSY_RECOVERY"@,
        ExtendedErrCode::BusySnapshot => "SQLITE_BUSY_SNAPSHOT"@,
        ExtendedErrCode::BusyTimeout => "SQLITE_BUSY_TIMEOUT"@,
        ExtendedErrCode::CantOpenNoTempDir => "SQLITE_CANTOPEN_NOTEMPDIR"@,
        ExtendedErrCode::CantOpenIsDir => "SQLITE_CANTOPEN_ISDIR"@,
        ExtendedErrCode::CantOpenFullPath => "SQLITE_CANTOPEN_FULLPATH"@,
        ExtendedErrCode::CantOpenConvPath => "SQLITE_CANTOPEN_CONVPATH"@,
        ExtendedErrCode::CantOpenDirtyWal => "SQLITE_CANTOPEN_DIRTYWAL"@,
        ExtendedErrCode::CantOpenSymlink => "SQLITE_CANTOPEN_SYMLINK"@,
        ExtendedErrCode::CorruptVTab => "SQLITE_CORRUPT_VTAB"@,
        ExtendedErrCode::CorruptSequence => "SQLITE_CORRUPT_SEQUENCE"@,
        ExtendedErrCode::CorruptIndex => "SQLITE_CORRUPT_INDEX"@,
        ExtendedErrCode::ReadOnlyRecovery => "SQLITE_READONLY_RECOVERY"@,
        ExtendedErrCode::ReadOnlyCantLock => "SQLITE_READONLY_CANTLOCK"@,
        ExtendedErrCode::ReadOnlyRollback => "SQLITE_READONLY_ROLLBACK"@,
        ExtendedErrCode::ReadOnlyDbMoved => "SQLITE_READONLY_DBMOVED"@,
        ExtendedErrCode::ReadOnlyCantInit => "SQLITE_READONLY_CANTINIT"@,
        ExtendedErrCode::ReadOnlyDirectory => "SQLITE_READONLY_DIRECTORY"@,
        ExtendedErrCode::AbortRollback => "SQLITE_ABORT_ROLLBACK"@,
        ExtendedErrCode::ConstraintCheck => "SQLITE_CONSTRAINT_CHECK"@,
        ExtendedErrCode::ConstraintCommitHook => "SQLITE_CONSTRAINT_COMMITHOOK"@,
        ExtendedErrCode::ConstraintForeignKey => "SQLITE_CONSTRAINT_FOREIGNKEY"@,
        ExtendedErrCode::ConstraintFunction => "SQLITE_CONSTRAINT_FUNCTION"@,
        ExtendedErrCode::ConstraintNotNull => "SQLITE_CONSTRAINT_NOTNULL"@,
        ExtendedErrCode::ConstraintPrimaryKey => "SQLITE_CONSTRAINT_PRIMARYKEY"@,
        ExtendedErrCode::ConstraintTrigger => "SQLITE_CONSTRAINT_TRIGGER"@,
        ExtendedErrCode::ConstraintUnique => "SQLITE_CONSTRAINT_UNIQUE"@,
        ExtendedErrCode::ConstraintVTab => "SQLITE_CONSTRAINT_VTAB"@,
        ExtendedErrCode::ConstraintRowId => "SQLITE_CONSTRAINT_ROWID"@,
        ExtendedErrCode::ConstraintPinned => "SQLITE_CONSTRAINT_PINNED"@,
        ExtendedErrCode::ConstraintDataType => "SQLITE_CONSTRAINT_DATATYPE"@,
        ExtendedErrCode::NoticeRecoverWal => "SQLITE_NOTICE_RECOVER_WAL"@,
        ExtendedErrCode::NoticeRecoverRollback => "SQLITE_NOTICE_RECOVER_ROLLBACK"@,
        ExtendedErrCode::WarningAutoIndex => "SQLITE_WARNING_AUTOINDEX"@,
        ExtendedErrCode::AuthUser => "SQLITE_AUTH_USER"@,
        ExtendedErrCode::OkLoadPermanently => "SQLITE_OK_LOAD_PERMANENTLY"@,
        ExtendedErrCode::OkSymlink => "SQLITE_OK_SYMLINK"@,
        ExtendedErrCode::Unknown(code) => "SQLITE_"@ + decimal(code as nat),
    }
}

impl ExtendedErrCode {
    /// Map a raw result code to its variant.
    fn from_raw(code: i32) -> (r: Self)
        ensures
            r == extendederrcode_of_raw(code),
    {
        if code == 257 {
            ExtendedErrCode::ErrorMissingCollseq
        } else if code == 513 {
            ExtendedErrCode::ErrorRetry
        } else if code == 769 {
            ExtendedErrCode::ErrorSnapshot
        } else if code == 266 {
            ExtendedErrCode::IOErrRead
        } else if code == 522 {
            ExtendedErrCode::IOErrShortRead
        } else if code == 778 {
            ExtendedErrCode::IOErrWrite
        } else if code == 1034 {
            ExtendedErrCode::IOErrFsync
        } else if code == 1290 {
            ExtendedErrCode::IOErrDirFsync
        } else if code == 1546 {
            ExtendedErrCode::IOErrTruncate
        } else if code == 1802 {
            ExtendedErrCode::IOErrFstat
        } else if code == 2058 {
            ExtendedErrCode::IOErrUnlock
        } else if code == 2314 {
            ExtendedErrCode::IOErrRdlock
        } else if code == 2570 {
            ExtendedErrCode::IOErrDelete
        } else if code == 2826 {
            ExtendedErrCode::IOErrBlocked
        } else if code == 3082 {
            ExtendedErrCode::IOErrNoMem
        } else if code == 3338 {
            ExtendedErrCode::IOErrAccess
        } else if code == 3594 {
            ExtendedErrCode::IOErrCheckReservedLock
        } else if code == 3850 {
            ExtendedErrCode::IOErrLock
        } else if code == 4106 {
            ExtendedErrCode::IOErrClose
        } else if code == 4362 {
            ExtendedErrCode::IOErrDirClose
        } else if code == 4618 {
            ExtendedErrCode::IOErrShmopen
        } else if code == 4874 {
            ExtendedErrCode::IOErrShmsize
        } else if code == 5130 {
            ExtendedErrCode::IOErrShmlock
        } else if code == 5386 {
            ExtendedErrCode::IOErrShmmap
        } else if code == 5642 {
            ExtendedErrCode::IOErrSeek
        } else if code == 5898 {
            ExtendedErrCode::IOErrDeleteNoent
        } else if code == 6154 {
            ExtendedErrCode::IOErrMmap
        } else if code == 6410 {
            ExtendedErrCode::IOErrGetTempPath
        } else if code == 6666 {
            ExtendedErrCode::IOErrConvPath
        } else if code == 6922 {
            ExtendedErrCode::IOErrVnode
        } else if code == 7178 {
            ExtendedErrCode::IOErrAuth
        } else if code == 7434 {
            ExtendedErrCode::IOErrBeginAtomic
        } else if code == 7690 {
            ExtendedErrCode::IOErrCommitAtomic
        } else if code == 7946 {
            ExtendedErrCode::IOErrRollbackAtomic
        } else if code == 8202 {
            ExtendedErrCode::IOErrData
        } else if code == 8458 {
            ExtendedErrCode::IOErrCorruptFs
        } else if code == 262 {
            ExtendedErrCode::LockedSharedCache
        } else if code == 518 {
            ExtendedErrCode::LockedVTab
        } else if code == 261 {
            ExtendedErrCode::BusyRecovery
        } else if code == 517 {
            ExtendedErrCode::BusySnapshot
        } else if code == 773 {
            ExtendedErrCode::BusyTimeout
        } else if code == 270 {
            ExtendedErrCode::CantOpenNoTempDir
        } else if code == 526 {
            ExtendedErrCode::CantOpenIsDir
        } else if code == 782 {
            ExtendedErrCode::CantOpenFullPath
        } else if code == 1038 {
            ExtendedErrCode::CantOpenConvPath
        } else if code == 1294 {
            ExtendedErrCode::CantOpenDirtyWal
        } else if code == 1550 {
            ExtendedErrCode::CantOpenSymlink
        } else if code == 267 {
            ExtendedErrCode::CorruptVTab
        } else if code == 523 {
            ExtendedErrCode::CorruptSequence
        } else if code == 779 {
            ExtendedErrCode::CorruptIndex
        } else if code == 264 {
            ExtendedErrCode::ReadOnlyRecovery
        } else if code == 520 {
            ExtendedErrCode::ReadOnlyCantLock
        } else if code == 776 {
            ExtendedErrCode::ReadOnlyRollback
        } else if code == 1032 {
            ExtendedErrCode::ReadOnlyDbMoved
        } else if code == 1288 {
            ExtendedErrCode::ReadOnlyCantInit
        } else if code == 1544 {
            ExtendedErrCode::ReadOnlyDirectory
        } else if code == 516 {
            ExtendedErrCode::AbortRollback
        } else if code == 275 {
            ExtendedErrCode::ConstraintCheck
        } else if code == 531 {
            ExtendedErrCode::ConstraintCommitHook
        } else if code == 787 {
            ExtendedErrCode::ConstraintForeignKey
        } else if code == 1043 {
            ExtendedErrCode::ConstraintFunction
        } else if code == 1299 {
            ExtendedErrCode::ConstraintNotNull
        } else if code == 1555 {
            ExtendedErrCode::ConstraintPrimaryKey
        } else if code == 1811 {
            ExtendedErrCode::ConstraintTrigger
        } else if code == 2067 {
            ExtendedErrCode::ConstraintUnique
        } else if code == 2323 {
            ExtendedErrCode::ConstraintVTab
        } else if code == 2579 {
            ExtendedErrCode::ConstraintRowId
        } else if code == 2835 {
            ExtendedErrCode::ConstraintPinned
        } else if code == 3091 {
            ExtendedErrCode::ConstraintDataType
        } else if code == 283 {
            ExtendedErrCode::NoticeRecoverWal
        } else if code == 539 {
            ExtendedErrCode::NoticeRecoverRollback
        } else if code == 284 {
            ExtendedErrCode::WarningAutoIndex
        } else if code == 279 {
            ExtendedErrCode::AuthUser
        } else if code == 256 {
            ExtendedErrCode::OkLoadPermanently
        } else if code == 512 {
            ExtendedErrCode::OkSymlink
        } else {
            ExtendedErrCode::Unknown(code as u32)
        }
    }

    /// The C name of this code, as SQLite spells it (`SQLITE_<n>` when unknown).
    pub fn name(&self) -> (r: String)
        ensures
            r@ == extendederrcode_name(*self),
    {
        let mut s = String::new();
        match self {
            ExtendedErrCode::ErrorMissingCollseq => push_str_verified(&mut s, "SQLITE_ERROR_MISSING_COLLSEQ"),
            ExtendedErrCode::ErrorRetry => push_str_verified(&mut s, "SQLITE_ERROR_RETRY"),
            ExtendedErrCode::ErrorSnapshot => push_str_verified(&mut s, "SQLITE_ERROR_SNAPSHOT"),
            ExtendedErrCode::IOErrRead => push_str_verified(&mut s, "SQLITE_IOERR_READ"),
            ExtendedErrCode::IOErrShortRead => push_str_verified(&mut s, "SQLITE_IOERR_SHORT_READ"),
            ExtendedErrCode::IOErrWrite => push_str_verified(&mut s, "SQLITE_IOERR_WRITE"),
            ExtendedErrCode::IOErrFsync => push_str_verified(&mut s, "SQLITE_IOERR_FSYNC"),
            ExtendedErrCode::IOErrDirFsync => push_str_verified(&mut s, "SQLITE_IOERR_DIR_FSYNC"),
            ExtendedErrCode::IOErrTruncate => push_str_verified(&mut s, "SQLITE_IOERR_TRUNCATE"),
            ExtendedErrCode::IOErrFstat => push_str_verified(&mut s, "SQLITE_IOERR_FSTAT"),
            ExtendedErrCode::IOErrUnlock => push_str_verified(&mut s, "SQLITE_IOERR_UNLOCK"),
            ExtendedErrCode::IOErrRdlock => push_str_verified(&mut s, "SQLITE_IOERR_RDLOCK"),
            ExtendedErrCode::IOErrDelete => push_str_verified(&mut s, "SQLITE_IOERR_DELETE"),
            ExtendedErrCode::IOErrBlocked => push_str_verified(&mut s, "SQLITE_IOERR_BLOCKED"),
            ExtendedErrCode::IOErrNoMem => push_str_verified(&mut s, "SQLITE_IOERR_NOMEM"),
            ExtendedErrCode::IOErrAccess => push_str_verified(&mut s, "SQLITE_IOERR_ACCESS"),
            ExtendedErrCode::IOErrCheckReservedLock => push_str_verified(&mut s, "SQLITE_IOERR_CHECKRESERVEDLOCK"),
            ExtendedErrCode::IOErrLock => push_str_verified(&mut s, "SQLITE_IOERR_LOCK"),
            ExtendedErrCode::IOErrClose => push_str_verified(&mut s, "SQLITE_IOERR_CLOSE"),
            ExtendedErrCode::IOErrDirClose => push_str_verified(&mut s, "SQLITE_IOERR_DIR_CLOSE"),
            ExtendedErrCode::IOErrShmopen => push_str_verified(&mut s, "SQLITE_IOERR_SHMOPEN"),
            ExtendedErrCode::IOErrShmsize => push_str_verified(&mut s, "SQLITE_IOERR_SHMSIZE"),
            ExtendedErrCode::IOErrShmlock => push_str_verified(&mut s, "SQLITE_IOERR_SHMLOCK"),
            ExtendedErrCode::IOErrShmmap => push_str_verified(&mut s, "SQLITE_IOERR_SHMMAP"),
            ExtendedErrCode::IOErrSeek => push_str_verified(&mut s, "SQLITE_IOERR_SEEK"),
            ExtendedErrCode::IOErrDeleteNoent => push_str_verified(&mut s, "SQLITE_IOERR_DELETE_NOENT"),
            ExtendedErrCode::IOErrMmap => push_str_verified(&mut s, "SQLITE_IOERR_MMAP"),
            ExtendedErrCode::IOErrGetTempPath => push_str_verified(&mut s, "SQLITE_IOERR_GETTEMPPATH"),
            ExtendedErrCode::IOErrConvPath => push_str_verified(&mut s, "SQLITE_IOERR_CONVPATH"),
            ExtendedErrCode::IOErrVnode => push_str_verified(&mut s, "SQLITE_IOERR_VNODE"),
            ExtendedErrCode::IOErrAuth => push_str_verified(&mut s, "SQLITE_IOERR_AUTH"),
            ExtendedErrCode::IOErrBeginAtomic => push_str_verified(&mut s, "SQLITE_IOERR_BEGIN_ATOMIC"),
            ExtendedErrCode::IOErrCommitAtomic => push_str_verified(&mut s, "SQLITE_IOERR_COMMIT_ATOMIC"),
            ExtendedErrCode::IOErrRollbackAtomic => push_str_verified(&mut s, "SQLITE_IOERR_ROLLBACK_ATOMIC"),
            ExtendedErrCode::IOErrData => push_str_verified(&mut s, "SQLITE_IOERR_DATA"),
            ExtendedErrCode::IOErrCorruptFs => push_str_verified(&mut s, "SQLITE_IOERR_CORRUPTFS"),
            ExtendedErrCode::LockedSharedCache => push_str_verified(&mut s, "SQLITE_LOCKED_SHAREDCACHE"),
            ExtendedErrCode::LockedVTab => push_str_verified(&mut s, "SQLITE_LOCKED_VTAB"),
            ExtendedErrCode::BusyRecovery => push_str_verified(&mut s, "SQLITE_BUSY_RECOVERY"),
            ExtendedErrCode::BusySnapshot => push_str_verified(&mut s, "SQLITE_BUSY_SNAPSHOT"),
            ExtendedErrCode::BusyTimeout => push_str_verified(&mut s, "SQLITE_BUSY_TIMEOUT"),
            ExtendedErrCode::CantOpenNoTempDir => push_str_verified(&mut s, "SQLITE_CANTOPEN_NOTEMPDIR"),
            ExtendedErrCode::CantOpenIsDir => push_str_verified(&mut s, "SQLITE_CANTOPEN_ISDIR"),
            ExtendedErrCode::CantOpenFullPath => push_str_verified(&mut s, "SQLITE_CANTOPEN_FULLPATH"),
            ExtendedErrCode::CantOpenConvPath => push_str_verified(&mut s, "SQLITE_CANTOPEN_CONVPATH"),
            ExtendedErrCode::CantOpenDirtyWal => push_str_verified(&mut s, "SQLITE_CANTOPEN_DIRTYWAL"),
            ExtendedErrCode::CantOpenSymlink => push_str_verified(&mut s, "SQLITE_CANTOPEN_SYMLINK"),
            ExtendedErrCode::CorruptVTab => push_str_verified(&mut s, "SQLITE_CORRUPT_VTAB"),
            ExtendedErrCode::CorruptSequence => push_str_verified(&mut s, "SQLITE_CORRUPT_SEQUENCE"),
            ExtendedErrCode::CorruptIndex => push_str_verified(&mut s, "SQLITE_CORRUPT_INDEX"),
            ExtendedErrCode::ReadOnlyRecovery => push_str_verified(&mut s, "SQLITE_READONLY_RECOVERY"),
            ExtendedErrCode::ReadOnlyCantLock => push_str_verified(&mut s, "SQLITE_READONLY_CANTLOCK"),
            ExtendedErrCode::ReadOnlyRollback => push_str_verified(&mut s, "SQLITE_READONLY_ROLLBACK"),
            ExtendedErrCode::ReadOnlyDbMoved => push_str_verified(&mut s, "SQLITE_READONLY_DBMOVED"),
            ExtendedErrCode::ReadOnlyCantInit => push_str_verified(&mut s, "SQLITE_READONLY_CANTINIT"),
            ExtendedErrCode::ReadOnlyDirectory => push_str_verified(&mut s, "SQLITE_READONLY_DIRECTORY"),
            ExtendedErrCode::AbortRollback => push_str_verified(&mut s, "SQLITE_ABORT_ROLLBACK"),
            ExtendedErrCode::ConstraintCheck => push_str_verified(&mut s, "SQLITE_CONSTRAINT_CHECK"),
            ExtendedErrCode::ConstraintCommitHook => push_str_verified(&mut s, "SQLITE_CONSTRAINT_COMMITHOOK"),
            ExtendedErrCode::ConstraintForeignKey => push_str_verified(&mut s, "SQLITE_CONSTRAINT_FOREIGNKEY"),
            ExtendedErrCode::ConstraintFunction => push_str_verified(&mut s, "SQLITE_CONSTRAINT_FUNCTION"),
            ExtendedErrCode::ConstraintNotNull => push_str_verified(&mut s, "SQLITE_CONSTRAINT_NOTNULL"),
            ExtendedErrCode::ConstraintPrimaryKey => push_str_verified(&mut s, "SQLITE_CONSTRAINT_PRIMARYKEY"),
            ExtendedErrCode::ConstraintTrigger => push_str_verified(&mut s, "SQLITE_CONSTRAINT_TRIGGER"),
            ExtendedErrCode::ConstraintUnique => push_str_verified(&mut s, "SQLITE_CONSTRAINT_UNIQUE"),
            ExtendedErrCode::ConstraintVTab => push_str_verified(&mut s, "SQLITE_CONSTRAINT_VTAB"),
            ExtendedErrCode::ConstraintRowId => push_str_verified(&mut s, "SQLITE_CONSTRAINT_ROWID"),
            ExtendedErrCode::ConstraintPinned => push_str_verified(&mut s, "SQLITE_CONSTRAINT_PINNED"),
            ExtendedErrCode::ConstraintDataType => push_str_verified(&mut s, "SQLITE_CONSTRAINT_DATATYPE"),
            ExtendedErrCode::NoticeRecoverWal => push_str_verified(&mut s, "SQLITE_NOTICE_RECOVER_WAL"),
            ExtendedErrCode::NoticeRecoverRollback => push_str_verified(&mut s, "SQLITE_NOTICE_RECOVER_ROLLBACK"),
            ExtendedErrCode::WarningAutoIndex => push_str_verified(&mut s, "SQLITE_WARNING_AUTOINDEX"),
            ExtendedErrCode::AuthUser => push_str_verified(&mut s, "SQLITE_AUTH_USER"),
            ExtendedErrCode::OkLoadPermanently => push_str_verified(&mut s, "SQLITE_OK_LOAD_PERMANENTLY"),
            ExtendedErrCode::OkSymlink => push_str_verified(&mut s, "SQLITE_OK_SYMLINK"),
            ExtendedErrCode::Unknown(code) => {
                push_str_verified(&mut s, "SQLITE_");
                push_decimal(&mut s, *code as usize);
            },
        }
        assert(s@ =~= extendederrcode_name(*self));
        s
    }
}

impl PrimaryErrCode {
    /// Convert a raw SQLite result code into its primary code (its low byte).
    pub fn from_code(code: i32) -> (r: Self)
        ensures
            r == primaryerrcode_of_raw(code & 255),
    {
        Self::from_raw(code & 255)
    }
}

/// Is the extended code one of the busy conditions?
pub open spec fn extended_is_busy(c: ExtendedErrCode) -> bool {
    c == ExtendedErrCode::BusyRecovery || c == ExtendedErrCode::BusySnapshot || c
        == ExtendedErrCode::BusyTimeout
}

/// Is the extended code one of the unique-value conflicts?
pub open spec fn extended_is_unique_violation(c: ExtendedErrCode) -> bool {
    c == ExtendedErrCode::ConstraintPrimaryKey || c == ExtendedErrCode::ConstraintUnique || c
        == ExtendedErrCode::ConstraintRowId
}

impl ExtendedErrCode {
    /// Convert a raw SQLite result code into an extended code.
    pub fn from_code(code: i32) -> (r: Self)
        ensures
            r == extendederrcode_of_raw(code),
    {
        Self::from_raw(code)
    }

    /// Returns `true` when this extended code represents a busy condition.
    pub fn is_busy(&self) -> (r: bool)
        ensures
            r == extended_is_busy(*self),
    {
        match self {
            ExtendedErrCode::BusyRecovery | ExtendedErrCode::BusySnapshot
            | ExtendedErrCode::BusyTimeout => true,
            _ => false,
        }
    }

    /// Returns `true` when this code represents a unique-value conflict.
    pub fn is_unique_violation(&self) -> (r: bool)
        ensures
            r == extended_is_unique_violation(*self),
    {
        match self {
            ExtendedErrCode::ConstraintPrimaryKey | ExtendedErrCode::ConstraintUnique
            | ExtendedErrCode::ConstraintRowId => true,
            _ => false,
        }
    }
}

/// An error returned from SQLite.
#[derive(Debug, Clone)]
pub struct SqliteError {
    /// Primary error code.
    pub primary: PrimaryErrCode,
    /// Extended error code. `None` when SQLite reported only the primary code.
    pub extended: Option<ExtendedErrCode>,
    /// SQLite-provided error message.
    pub message: String,
    /// Byte offset of the failing token in the SQL, when SQLite reports one.
    pub offset: Option<usize>,
}

/// The busy test of an error's codes.
pub open spec fn codes_are_busy(primary: PrimaryErrCode, extended: Option<ExtendedErrCode>) -> bool {
    primary == PrimaryErrCode::Busy || (extended matches Some(c) && extended_is_busy(c))
}

/// The unique-violation test of an error's extended code.
pub open spec fn code_is_unique_violation(extended: Option<ExtendedErrCode>) -> bool {
    extended matches Some(c) && extended_is_unique_violation(c)
}

/// The text of an error: its primary code's name, the extended code's name in
/// parentheses, the byte offset, and the message.
pub open spec fn sqlite_error_text(
    primary: PrimaryErrCode,
    extended: Option<ExtendedErrCode>,
    offset: Option<usize>,
    message: Seq<char>,
) -> Seq<char> {
    primaryerrcode_name(primary) + match extended {
        Some(e) => " ("@ + extendederrcode_name(e) + ")"@,
        None => Seq::<char>::empty(),
    } + match offset {
        Some(o) => " at byte "@ + decimal(o as nat),
        None => Seq::<char>::empty(),
    } + ": "@ + message
}

impl SqliteError {
    /// Build a new error from a raw SQLite result code and message. The
    /// extended code is present only when the raw code carries bits above its
    /// primary byte.
    pub fn from_code(code: i32, message: String) -> (r: Self)
        ensures
            r.primary == primaryerrcode_of_raw(code & 255),
            r.extended == (if code & 255 == code {
                None
            } else {
                Some(extendederrcode_of_raw(code))
            }),
            r.message@ == message@,
            r.offset is None,
    {
        let primary = PrimaryErrCode::from_code(code);
        let extended = if code & 255 == code {
            None
        } else {
            Some(ExtendedErrCode::from_code(code))
        };
        SqliteError { primary, extended, message, offset: None }
    }

    /// Returns `true` if the error represents a busy condition.
    pub fn is_busy(&self) -> (r: bool)
        ensures
            r == codes_are_busy(self.primary, self.extended),
    {
        if let PrimaryErrCode::Busy = self.primary {
            return true;
        }
        match self.extended {
            Some(code) => code.is_busy(),
            None => false,
        }
    }

    /// Returns `true` if the error represents a unique-value conflict.
    pub fn is_unique_violation(&self) -> (r: bool)
        ensures
            r == code_is_unique_violation(self.extended),
    {
        match self.extended {
            Some(code) => code.is_unique_violation(),
            None => false,
        }
    }

    /// Return the primary and extended SQLite error codes.
    pub fn codes(&self) -> (r: (PrimaryErrCode, Option<ExtendedErrCode>))
        ensures
            r == (self.primary, self.extended),
    {
        (self.primary, self.extended)
    }

    /// The displayed text of this error.
    pub fn describe(&self) -> (r: String)
        ensures
            r@ == sqlite_error_text(self.primary, self.extended, self.offset, self.message@),
    {
        let mut s = self.primary.name();
        if let Some(extended) = self.extended {
            push_str_verified(&mut s, " (");
            let n = extended.name();
            push_str_verified(&mut s, n.as_str());
            push_char(&mut s, ')');
        }
        if let Some(offset) = self.offset {
            push_str_verified(&mut s, " at byte ");
            push_decimal(&mut s, offset);
        }
        push_str_verified(&mut s, ": ");
        push_str_verified(&mut s, self.message.as_str());
        proof {
            reveal_strlit(")");
        }
        assert(s@ =~= sqlite_error_text(self.primary, self.extended, self.offset, self.message@));
        s
    }
}

} // verus!
