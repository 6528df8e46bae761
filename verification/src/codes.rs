//! Status codes, option bits and sentinel handle values of the storage
//! engine's procedural interface, as its published header defines them.
//!
//! A status of zero is success, a negative status is an error, and a
//! positive status is a warning.  Only the codes that the library's own
//! logic branches on are named here; the full code-to-text catalog lives
//! in the error module.

use vstd::prelude::*;

verus! {

/// Successful operation.
pub const JET_errSuccess: i32 = 0;

/// Warning: the column value is null.
pub const JET_wrnColumnNull: i32 = 1004;

/// Warning: the caller's buffer was too small for the column value.
pub const JET_wrnBufferTruncated: i32 = 1006;

/// Warning: the database is already attached.
pub const JET_wrnDatabaseAttached: i32 = 1007;

/// Warning: a seek landed on the nearest record instead of an exact match.
pub const JET_wrnSeekNotEqual: i32 = 1039;

/// Error: the cursor is not positioned on a record; for navigation this is
/// the expected end-of-iteration signal.
pub const JET_errNoCurrentRecord: i32 = -1603;

/// Nil engine-instance handle, the sentinel for "never started".
pub const JET_instanceNil: u64 = 0xFFFF_FFFF_FFFF_FFFF;

/// Nil session handle.
pub const JET_sesidNil: u64 = 0xFFFF_FFFF_FFFF_FFFF;

/// Nil table-cursor handle.
pub const JET_tableidNil: u64 = 0xFFFF_FFFF_FFFF_FFFF;

/// Nil database handle.
pub const JET_dbidNil: u32 = 0xFFFF_FFFF;

/// Empty option-bit set.
pub const JET_bitNil: u32 = 0;

/// Move offset: position on the first record.
pub const JET_MoveFirst: i32 = -2147483648;

/// Move offset: advance to the next record.
pub const JET_MoveNext: i32 = 1;

/// Move offset: step back to the previous record.
pub const JET_MovePrevious: i32 = -1;

/// Move offset: position on the last record.
pub const JET_MoveLast: i32 = 2147483647;

/// Move option: skip the remaining records that share the current key.
pub const JET_bitMoveKeyNE: u32 = 0x1;

/// Seek option: exact match.
pub const JET_bitSeekEQ: u32 = 0x1;

/// Seek option: closest lesser key.
pub const JET_bitSeekLT: u32 = 0x2;

/// Seek option: equal or lesser key.
pub const JET_bitSeekLE: u32 = 0x4;

/// Seek option: equal or greater key.
pub const JET_bitSeekGE: u32 = 0x8;

/// Seek option: closest greater key.
pub const JET_bitSeekGT: u32 = 0x10;

/// Seek option: additionally restrict the cursor to an index range that
/// matches the sought key exactly.
pub const JET_bitSetIndexRange: u32 = 0x20;

/// Key-construction option: begin a new key.
pub const JET_bitNewKey: u32 = 0x1;

/// Database-open option: read-only access.
pub const JET_bitDbReadOnly: u32 = 0x1;

/// Instance-shutdown option: complete all optional work before stopping.
pub const JET_bitTermComplete: u32 = 0x1;

/// Instance-shutdown option: stop without flushing, leaving the attached
/// databases dirty; the fallback when a complete shutdown fails.
pub const JET_bitTermDirty: u32 = 0x8;

/// Column-information level: basic column definition.
pub const JET_ColInfo: u32 = 0;

/// Error-information level: details of one specific status code.
pub const JET_ErrorInfoSpecificErr: u32 = 1;

/// Error category: unknown.
pub const JET_errcatUnknown: i32 = 0;

/// Error category: general error.
pub const JET_errcatError: i32 = 1;

/// Error category: operational.
pub const JET_errcatOperation: i32 = 2;

/// Error category: fatal.
pub const JET_errcatFatal: i32 = 3;

/// Error category: I/O.
pub const JET_errcatIO: i32 = 4;

/// Error category: resource.
pub const JET_errcatResource: i32 = 5;

/// Error category: memory.
pub const JET_errcatMemory: i32 = 6;

/// Error category: quota.
pub const JET_errcatQuota: i32 = 7;

/// Error category: disk space.
pub const JET_errcatDisk: i32 = 8;

/// Error category: data.
pub const JET_errcatData: i32 = 9;

/// Error category: data corruption.
pub const JET_errcatCorruption: i32 = 10;

/// Error category: data inconsistency.
pub const JET_errcatInconsistent: i32 = 11;

/// Error category: fragmentation.
pub const JET_errcatFragmentation: i32 = 12;

/// Error category: interface misuse.
pub const JET_errcatApi: i32 = 13;

/// Error category: programmer error.
pub const JET_errcatUsage: i32 = 14;

/// Error category: database state.
pub const JET_errcatState: i32 = 15;

/// Error category: obsolete error.
pub const JET_errcatObsolete: i32 = 16;

} // verus!
