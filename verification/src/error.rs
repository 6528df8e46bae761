//! Typed status handling: the code-to-text catalog, the sign-based status
//! classification, and the error value that every failing operation returns.
//!
//! The catalog maps every known status code of the storage engine to its
//! canonical descriptive text, as the engine's published header documents
//! them.  Where the header assigns one code two historical names, the later
//! entry's text stands, matching a map built by inserting the entries in
//! header order.

use vstd::prelude::*;
use crate::codes::JET_errSuccess;

verus! {

/// Class of a status code: zero is success, a positive code is a warning
/// (the operation partially succeeded or signals a benign edge condition),
/// and a negative code is an error.
#[derive(Clone, Copy, Debug, PartialEq, Eq, Structural)]
pub enum StatusClass {
    Success,
    Warning,
    Error,
}

/// Specification of the sign-based classification.
pub open spec fn spec_status_class(code: int) -> StatusClass {
    if code == 0 {
        StatusClass::Success
    } else if code > 0 {
        StatusClass::Warning
    } else {
        StatusClass::Error
    }
}

/// Classify a status code by its sign.
pub fn status_class(code: i32) -> (r: StatusClass)
    ensures
        r == spec_status_class(code as int),
{
    if code == JET_errSuccess {
        StatusClass::Success
    } else if code > 0 {
        StatusClass::Warning
    } else {
        StatusClass::Error
    }
}

/// One block of the catalog (specification side).
pub open spec fn spec_text_a(code: i32) -> Option<&'static str> {
    match code {
        0 => Some("Successful Operation"),  // JET_errSuccess
        -1 => Some("Function Not Yet Implemented"),  // JET_wrnNyi
        -100 => Some("Resource Failure Simulator failure"),  // JET_errRfsFailure
        -101 => Some("Resource Failure Simulator not initialized"),  // JET_errRfsNotArmed
        -102 => Some("Could not close file"),  // JET_errFileClose
        -103 => Some("Could not start thread"),  // JET_errOutOfThreads
        -105 => Some("System busy due to too many IOs"),  // JET_errTooManyIO
        -106 => Some("A requested async task could not be executed"),  // JET_errTaskDropped
        -107 => Some("Fatal internal error"),  // JET_errInternalError
        -112 => Some("You are running MinESE, that does not have all features compiled in.  This functionality is only supported in a full version of ESE."),  // JET_errDisabledFunctionality
        -113 => Some("The desired OS functionality could not be located and loaded / linked."),  // JET_errUnloadableOSFunctionality
        -255 => Some("Buffer dependencies improperly set. Recovery failure"),  // JET_errDatabaseBufferDependenciesCorrupted
        321 => Some("The version store is still active"),  // JET_wrnRemainingVersions
        -322 => Some("Version already existed. Recovery failure"),  // JET_errPreviousVersion
        -323 => Some("Reached Page Boundary"),  // JET_errPageBoundary
        -324 => Some("Reached Key Boundary"),  // JET_errKeyBoundary
        -327 => Some("Database corrupted"),  // JET_errBadPageLink
        -328 => Some("Bookmark has no corresponding address in database"),  // JET_errBadBookmark
        -334 => Some("A call to the operating system failed"),  // JET_errNTSystemCallFailed
        -338 => Some("Database corrupted"),  // JET_errBadParentPageLink
        -340 => Some("AvailExt cache doesn't match btree"),  // JET_errSPAvailExtCacheOutOfSync
        -341 => Some("AvailExt space tree is corrupt"),  // JET_errSPAvailExtCorrupted
        -342 => Some("Out of memory allocating an AvailExt cache node"),  // JET_errSPAvailExtCacheOutOfMemory
        -343 => Some("OwnExt space tree is corrupt"),  // JET_errSPOwnExtCorrupted
        -344 => Some("Dbtime on current page is greater than global database dbtime"),  // JET_errDbTimeCorrupted
        345 => Some("seek on non-unique index yielded a unique key"),  // JET_wrnUniqueKey
        -346 => Some("key truncated on index that disallows key truncation"),  // JET_errKeyTruncated
        -348 => Some("Some database pages have become unreachable even from the avail tree, only an offline defragmentation can return the lost space."),  // JET_errDatabaseLeakInSpace
        -351 => Some("Database corrupted. Searching an unexpectedly empty page."),  // JET_errBadEmptyPage
        406 => Some("Column is a separated long-value"),  // JET_wrnSeparateLongValue
        -408 => Some("Key is too large"),  // JET_errKeyTooBig
        -416 => Some("illegal attempt to separate an LV which must be intrinsic"),  // JET_errCannotSeparateIntrinsicLV
        -421 => Some("Operation not supported on separated long-value"),  // JET_errSeparatedLongValue
        -423 => Some("Can only preread long value columns that can be separate, e.g. not size constrained so that they are fixed or variable columns"),  // JET_errMustBeSeparateLongValue
        -424 => Some("Cannot preread long values when current index secondary"),  // JET_errInvalidPreread
        -500 => Some("Logged operation cannot be redone"),  // JET_errInvalidLoggedOperation
        -501 => Some("Log file is corrupt"),  // JET_errLogFileCorrupt
        -503 => Some("No backup directory given"),  // JET_errNoBackupDirectory
        -504 => Some("The backup directory is not emtpy"),  // JET_errBackupDirectoryNotEmpty
        -505 => Some("Backup is active already"),  // JET_errBackupInProgress
        -506 => Some("Restore in progress"),  // JET_errRestoreInProgress
        -509 => Some("Missing the log file for check point"),  // JET_errMissingPreviousLogFile
        -510 => Some("Failure writing to log file"),  // JET_errLogWriteFail
        -511 => Some("Try to log something after recovery faild"),  // JET_errLogDisabledDueToRecoveryFailure
        -512 => Some("Try to log something during recovery redo"),  // JET_errCannotLogDuringRecoveryRedo
        -513 => Some("Name of logfile does not match internal generation number"),  // JET_errLogGenerationMismatch
        -514 => Some("Version of log file is not compatible with Jet version"),  // JET_errBadLogVersion
        -515 => Some("Timestamp in next log does not match expected"),  // JET_errInvalidLogSequence
        -516 => Some("Log is not active"),  // JET_errLoggingDisabled
        -517 => Some("Log buffer is too small for recovery"),  // JET_errLogBufferTooSmall
        -519 => Some("Maximum log file number exceeded"),  // JET_errLogSequenceEnd
        -520 => Some("No backup in progress"),  // JET_errNoBackup
        -521 => Some("Backup call out of sequence"),  // JET_errInvalidBackupSequence
        -523 => Some("Cannot do backup now"),  // JET_errBackupNotAllowedYet
        -524 => Some("Could not delete backup file"),  // JET_errDeleteBackupFileFail
        -525 => Some("Could not make backup temp directory"),  // JET_errMakeBackupDirectoryFail
        -526 => Some("Cannot perform incremental backup when circular logging enabled"),  // JET_errInvalidBackup
        -527 => Some("Restored with errors"),  // JET_errRecoveredWithErrors
        -528 => Some("Current log file missing"),  // JET_errMissingLogFile
        -529 => Some("Log disk full"),  // JET_errLogDiskFull
        _ => None,
    }
}

/// One block of the catalog (executable side).
fn text_a(code: i32) -> (r: Option<&'static str>)
    ensures
        r == spec_text_a(code),
{
    match code {
        0 => Some("Successful Operation"),  // JET_errSuccess
        -1 => Some("Function Not Yet Implemented"),  // JET_wrnNyi
        -100 => Some("Resource Failure Simulator failure"),  // JET_errRfsFailure
        -101 => Some("Resource Failure Simulator not initialized"),  // JET_errRfsNotArmed
        -102 => Some("Could not close file"),  // JET_errFileClose
        -103 => Some("Could not start thread"),  // JET_errOutOfThreads
        -105 => Some("System busy due to too many IOs"),  // JET_errTooManyIO
        -106 => Some("A requested async task could not be executed"),  // JET_errTaskDropped
        -107 => Some("Fatal internal error"),  // JET_errInternalError
        -112 => Some("You are running MinESE, that does not have all features compiled in.  This functionality is only supported in a full version of ESE."),  // JET_errDisabledFunctionality
        -113 => Some("The desired OS functionality could not be located and loaded / linked."),  // JET_errUnloadableOSFunctionality
        -255 => Some("Buffer dependencies improperly set. Recovery failure"),  // JET_errDatabaseBufferDependenciesCorrupted
        321 => Some("The version store is still active"),  // JET_wrnRemainingVersions
        -322 => Some("Version already existed. Recovery failure"),  // JET_errPreviousVersion
        -323 => Some("Reached Page Boundary"),  // JET_errPageBoundary
        -324 => Some("Reached Key Boundary"),  // JET_errKeyBoundary
        -327 => Some("Database corrupted"),  // JET_errBadPageLink
        -328 => Some("Bookmark has no corresponding address in database"),  // JET_errBadBookmark
        -334 => Some("A call to the operating system failed"),  // JET_errNTSystemCallFailed
        -338 => Some("Database corrupted"),  // JET_errBadParentPageLink
        -340 => Some("AvailExt cache doesn't match btree"),  // JET_errSPAvailExtCacheOutOfSync
        -341 => Some("AvailExt space tree is corrupt"),  // JET_errSPAvailExtCorrupted
        -342 => Some("Out of memory allocating an AvailExt cache node"),  // JET_errSPAvailExtCacheOutOfMemory
        -343 => Some("OwnExt space tree is corrupt"),  // JET_errSPOwnExtCorrupted
        -344 => Some("Dbtime on current page is greater than global database dbtime"),  // JET_errDbTimeCorrupted
        345 => Some("seek on non-unique index yielded a unique key"),  // JET_wrnUniqueKey
        -346 => Some("key truncated on index that disallows key truncation"),  // JET_errKeyTruncated
        -348 => Some("Some database pages have become unreachable even from the avail tree, only an offline defragmentation can return the lost space."),  // JET_errDatabaseLeakInSpace
        -351 => Some("Database corrupted. Searching an unexpectedly empty page."),  // JET_errBadEmptyPage
        406 => Some("Column is a separated long-value"),  // JET_wrnSeparateLongValue
        -408 => Some("Key is too large"),  // JET_errKeyTooBig
        -416 => Some("illegal attempt to separate an LV which must be intrinsic"),  // JET_errCannotSeparateIntrinsicLV
        -421 => Some("Operation not supported on separated long-value"),  // JET_errSeparatedLongValue
        -423 => Some("Can only preread long value columns that can be separate, e.g. not size constrained so that they are fixed or variable columns"),  // JET_errMustBeSeparateLongValue
        -424 => Some("Cannot preread long values when current index secondary"),  // JET_errInvalidPreread
        -500 => Some("Logged operation cannot be redone"),  // JET_errInvalidLoggedOperation
        -501 => Some("Log file is corrupt"),  // JET_errLogFileCorrupt
        -503 => Some("No backup directory given"),  // JET_errNoBackupDirectory
        -504 => Some("The backup directory is not emtpy"),  // JET_errBackupDirectoryNotEmpty
        -505 => Some("Backup is active already"),  // JET_errBackupInProgress
        -506 => Some("Restore in progress"),  // JET_errRestoreInProgress
        -509 => Some("Missing the log file for check point"),  // JET_errMissingPreviousLogFile
        -510 => Some("Failure writing to log file"),  // JET_errLogWriteFail
        -511 => Some("Try to log something after recovery faild"),  // JET_errLogDisabledDueToRecoveryFailure
        -512 => Some("Try to log something during recovery redo"),  // JET_errCannotLogDuringRecoveryRedo
        -513 => Some("Name of logfile does not match internal generation number"),  // JET_errLogGenerationMismatch
        -514 => Some("Version of log file is not compatible with Jet version"),  // JET_errBadLogVersion
        -515 => Some("Timestamp in next log does not match expected"),  // JET_errInvalidLogSequence
        -516 => Some("Log is not active"),  // JET_errLoggingDisabled
        -517 => Some("Log buffer is too small for recovery"),  // JET_errLogBufferTooSmall
        -519 => Some("Maximum log file number exceeded"),  // JET_errLogSequenceEnd
        -520 => Some("No backup in progress"),  // JET_errNoBackup
        -521 => Some("Backup call out of sequence"),  // JET_errInvalidBackupSequence
        -523 => Some("Cannot do backup now"),  // JET_errBackupNotAllowedYet
        -524 => Some("Could not delete backup file"),  // JET_errDeleteBackupFileFail
        -525 => Some("Could not make backup temp directory"),  // JET_errMakeBackupDirectoryFail
        -526 => Some("Cannot perform incremental backup when circular logging enabled"),  // JET_errInvalidBackup
        -527 => Some("Restored with errors"),  // JET_errRecoveredWithErrors
        -528 => Some("Current log file missing"),  // JET_errMissingLogFile
        -529 => Some("Log disk full"),  // JET_errLogDiskFull
        _ => None,
    }
}

/// One block of the catalog (specification side).
pub open spec fn spec_text_b(code: i32) -> Option<&'static str> {
    match code {
        -530 => Some("Bad signature for a log file"),  // JET_errBadLogSignature
        -531 => Some("Bad signature for a db file"),  // JET_errBadDbSignature
        -532 => Some("Bad signature for a checkpoint file"),  // JET_errBadCheckpointSignature
        -533 => Some("Checkpoint file not found or corrupt"),  // JET_errCheckpointCorrupt
        -534 => Some("Patch file page not found during recovery"),  // JET_errMissingPatchPage
        -535 => Some("Patch file page is not valid"),  // JET_errBadPatchPage
        -536 => Some("Redo abruptly ended due to sudden failure in reading logs from log file"),  // JET_errRedoAbruptEnded
        -538 => Some("Hard restore detected that patch file is missing from backup set"),  // JET_errPatchFileMissing
        -539 => Some("Database does not belong with the current set of log files"),  // JET_errDatabaseLogSetMismatch
        -540 => Some("Database and streaming file do not match each other"),  // JET_errDatabaseStreamingFileMismatch
        -541 => Some("actual log file size does not match JET_paramLogFileSize"),  // JET_errLogFileSizeMismatch
        -542 => Some("Could not locate checkpoint file"),  // JET_errCheckpointFileNotFound
        -543 => Some("The required log files for recovery is missing."),  // JET_errRequiredLogFilesMissing
        -544 => Some("Soft recovery is intended on a backup database. Restore should be used instead"),  // JET_errSoftRecoveryOnBackupDatabase
        -545 => Some("databases have been recovered, but the log file size used during recovery does not match JET_paramLogFileSize"),  // JET_errLogFileSizeMismatchDatabasesConsistent
        -546 => Some("the log file sector size does not match the current volume's sector size"),  // JET_errLogSectorSizeMismatch
        -547 => Some("databases have been recovered, but the log file sector size (used during recovery) does not match the current volume's sector size"),  // JET_errLogSectorSizeMismatchDatabasesConsistent
        -548 => Some("databases have been recovered, but all possible log generations in the current sequence are used; delete all log files and the checkpoint file and backup the databases before continuing"),  // JET_errLogSequenceEndDatabasesConsistent
        -549 => Some("Illegal attempt to replay a streaming file operation where the data wasn't logged. Probably caused by an attempt to roll-forward with circular logging enabled"),  // JET_errStreamingDataNotLogged
        -550 => Some("OBSOLETE"),  // JET_errDatabaseInconsistent
        -551 => Some("Database last consistent time unmatched"),  // JET_errConsistentTimeMismatch
        -552 => Some("Patch file is not generated from this backup"),  // JET_errDatabasePatchFileMismatch
        -553 => Some("The starting log number too low for the restore"),  // JET_errEndingRestoreLogTooLow
        -554 => Some("The starting log number too high for the restore"),  // JET_errStartingRestoreLogTooHigh
        -555 => Some("Restore log file has bad signature"),  // JET_errGivenLogFileHasBadSignature
        -556 => Some("Restore log file is not contiguous"),  // JET_errGivenLogFileIsNotContiguous
        -557 => Some("Some restore log files are missing"),  // JET_errMissingRestoreLogFiles
        558 => Some("Existing log file has bad signature"),  // JET_wrnExistingLogFileHasBadSignature
        559 => Some("Existing log file is not contiguous"),  // JET_wrnExistingLogFileIsNotContiguous
        -560 => Some("The database missed a previous full backup before incremental backup"),  // JET_errMissingFullBackup
        -561 => Some("The backup database size is not in 4k"),  // JET_errBadBackupDatabaseSize
        -562 => Some("Attempted to upgrade a database that is already current"),  // JET_errDatabaseAlreadyUpgraded
        -563 => Some("Attempted to use a database which was only partially converted to the current format -- must restore from backup"),  // JET_errDatabaseIncompleteUpgrade
        564 => Some("INTERNAL ERROR"),  // JET_wrnSkipThisRecord
        -565 => Some("Some current log files are missing for continuous restore"),  // JET_errMissingCurrentLogFiles
        -566 => Some("dbtime on page smaller than dbtimeBefore in record"),  // JET_errDbTimeTooOld
        -567 => Some("dbtime on page in advance of the dbtimeBefore in record"),  // JET_errDbTimeTooNew
        -569 => Some("Some log or patch files are missing during backup"),  // JET_errMissingFileToBackup
        -570 => Some("torn-write was detected in a backup set during hard restore"),  // JET_errLogTornWriteDuringHardRestore
        -571 => Some("torn-write was detected during hard recovery (log was not part of a backup set)"),  // JET_errLogTornWriteDuringHardRecovery
        -573 => Some("corruption was detected in a backup set during hard restore"),  // JET_errLogCorruptDuringHardRestore
        -574 => Some("corruption was detected during hard recovery (log was not part of a backup set)"),  // JET_errLogCorruptDuringHardRecovery
        -575 => Some("Cannot have logging enabled while attempting to upgrade db"),  // JET_errMustDisableLoggingForDbUpgrade
        -577 => Some("TargetInstance specified for restore is not found or log files don't match"),  // JET_errBadRestoreTargetInstance
        578 => Some("TargetInstance specified for restore is running"),  // JET_wrnTargetInstanceRunning
        -579 => Some("Soft recovery successfully replayed all operations, but the Undo phase of recovery was skipped"),  // JET_errRecoveredWithoutUndo
        -580 => Some("Databases to be restored are not from the same shadow copy backup"),  // JET_errDatabasesNotFromSameSnapshot
        -581 => Some("Soft recovery on a database from a shadow copy backup set"),  // JET_errSoftRecoveryOnSnapshot
        -582 => Some("One or more logs that were committed to this database, are missing.  These log files are required to maintain durable ACID semantics, but not required to maintain consistency if the JET_bitReplayIgnoreLostLogs bit is specified during recovery."),  // JET_errCommittedLogFilesMissing
        -583 => Some("The physical sector size reported by the disk subsystem, is unsupported by ESE for a specific file type."),  // JET_errSectorSizeNotSupported
        -584 => Some("Soft recovery successfully replayed all operations and intended to skip the Undo phase of recovery, but the Undo phase was not required"),  // JET_errRecoveredWithoutUndoDatabasesConsistent
        585 => Some("One or more logs that were committed to this database, were not recovered.  The database is still clean/consistent, as though the lost log's transactions were committed lazily (and lost)."),  // JET_wrnCommittedLogFilesLost
        -586 => Some("One or more logs were found to be corrupt during recovery.  These log files are required to maintain durable ACID semantics, but not required to maintain consistency if the JET_bitIgnoreLostLogs bit and JET_paramDeleteOutOfRangeLogs is specified during recovery."),  // JET_errCommittedLogFileCorrupt
        587 => Some("One or more logs that were committed to this database, were no recovered.  The database is still clean/consistent, as though the corrupted log's transactions were committed lazily (and lost)."),  // JET_wrnCommittedLogFilesRemoved
        588 => Some("Signal used by clients to indicate JetInit() finished with undo"),  // JET_wrnFinishWithUndo
        595 => Some("Database corruption has been repaired"),  // JET_wrnDatabaseRepaired
        -601 => Some("Unicode translation buffer too small"),  // JET_errUnicodeTranslationBufferTooSmall
        -602 => Some("Unicode normalization failed"),  // JET_errUnicodeTranslationFail
        -603 => Some("OS does not provide support for Unicode normalisation (and no normalisation callback was specified)"),  // JET_errUnicodeNormalizationNotSupported
        -604 => Some("Can not validate the language"),  // JET_errUnicodeLanguageValidationFailure
        _ => None,
    }
}

/// One block of the catalog (executable side).
fn text_b(code: i32) -> (r: Option<&'static str>)
    ensures
        r == spec_text_b(code),
{
    match code {
        -530 => Some("Bad signature for a log file"),  // JET_errBadLogSignature
        -531 => Some("Bad signature for a db file"),  // JET_errBadDbSignature
        -532 => Some("Bad signature for a checkpoint file"),  // JET_errBadCheckpointSignature
        -533 => Some("Checkpoint file not found or corrupt"),  // JET_errCheckpointCorrupt
        -534 => Some("Patch file page not found during recovery"),  // JET_errMissingPatchPage
        -535 => Some("Patch file page is not valid"),  // JET_errBadPatchPage
        -536 => Some("Redo abruptly ended due to sudden failure in reading logs from log file"),  // JET_errRedoAbruptEnded
        -538 => Some("Hard restore detected that patch file is missing from backup set"),  // JET_errPatchFileMissing
        -539 => Some("Database does not belong with the current set of log files"),  // JET_errDatabaseLogSetMismatch
        -540 => Some("Database and streaming file do not match each other"),  // JET_errDatabaseStreamingFileMismatch
        -541 => Some("actual log file size does not match JET_paramLogFileSize"),  // JET_errLogFileSizeMismatch
        -542 => Some("Could not locate checkpoint file"),  // JET_errCheckpointFileNotFound
        -543 => Some("The required log files for recovery is missing."),  // JET_errRequiredLogFilesMissing
        -544 => Some("Soft recovery is intended on a backup database. Restore should be used instead"),  // JET_errSoftRecoveryOnBackupDatabase
        -545 => Some("databases have been recovered, but the log file size used during recovery does not match JET_paramLogFileSize"),  // JET_errLogFileSizeMismatchDatabasesConsistent
        -546 => Some("the log file sector size does not match the current volume's sector size"),  // JET_errLogSectorSizeMismatch
        -547 => Some("databases have been recovered, but the log file sector size (used during recovery) does not match the current volume's sector size"),  // JET_errLogSectorSizeMismatchDatabasesConsistent
        -548 => Some("databases have been recovered, but all possible log generations in the current sequence are used; delete all log files and the checkpoint file and backup the databases before continuing"),  // JET_errLogSequenceEndDatabasesConsistent
        -549 => Some("Illegal attempt to replay a streaming file operation where the data wasn't logged. Probably caused by an attempt to roll-forward with circular logging enabled"),  // JET_errStreamingDataNotLogged
        -550 => Some("OBSOLETE"),  // JET_errDatabaseInconsistent
        -551 => Some("Database last consistent time unmatched"),  // JET_errConsistentTimeMismatch
        -552 => Some("Patch file is not generated from this backup"),  // JET_errDatabasePatchFileMismatch
        -553 => Some("The starting log number too low for the restore"),  // JET_errEndingRestoreLogTooLow
        -554 => Some("The starting log number too high for the restore"),  // JET_errStartingRestoreLogTooHigh
        -555 => Some("Restore log file has bad signature"),  // JET_errGivenLogFileHasBadSignature
        -556 => Some("Restore log file is not contiguous"),  // JET_errGivenLogFileIsNotContiguous
        -557 => Some("Some restore log files are missing"),  // JET_errMissingRestoreLogFiles
        558 => Some("Existing log file has bad signature"),  // JET_wrnExistingLogFileHasBadSignature
        559 => Some("Existing log file is not contiguous"),  // JET_wrnExistingLogFileIsNotContiguous
        -560 => Some("The database missed a previous full backup before incremental backup"),  // JET_errMissingFullBackup
        -561 => Some("The backup database size is not in 4k"),  // JET_errBadBackupDatabaseSize
        -562 => Some("Attempted to upgrade a database that is already current"),  // JET_errDatabaseAlreadyUpgraded
        -563 => Some("Attempted to use a database which was only partially converted to the current format -- must restore from backup"),  // JET_errDatabaseIncompleteUpgrade
        564 => Some("INTERNAL ERROR"),  // JET_wrnSkipThisRecord
        -565 => Some("Some current log files are missing for continuous restore"),  // JET_errMissingCurrentLogFiles
        -566 => Some("dbtime on page smaller than dbtimeBefore in record"),  // JET_errDbTimeTooOld
        -567 => Some("dbtime on page in advance of the dbtimeBefore in record"),  // JET_errDbTimeTooNew
        -569 => Some("Some log or patch files are missing during backup"),  // JET_errMissingFileToBackup
        -570 => Some("torn-write was detected in a backup set during hard restore"),  // JET_errLogTornWriteDuringHardRestore
        -571 => Some("torn-write was detected during hard recovery (log was not part of a backup set)"),  // JET_errLogTornWriteDuringHardRecovery
        -573 => Some("corruption was detected in a backup set during hard restore"),  // JET_errLogCorruptDuringHardRestore
        -574 => Some("corruption was detected during hard recovery (log was not part of a backup set)"),  // JET_errLogCorruptDuringHardRecovery
        -575 => Some("Cannot have logging enabled while attempting to upgrade db"),  // JET_errMustDisableLoggingForDbUpgrade
        -577 => Some("TargetInstance specified for restore is not found or log files don't match"),  // JET_errBadRestoreTargetInstance
        578 => Some("TargetInstance specified for restore is running"),  // JET_wrnTargetInstanceRunning
        -579 => Some("Soft recovery successfully replayed all operations, but the Undo phase of recovery was skipped"),  // JET_errRecoveredWithoutUndo
        -580 => Some("Databases to be restored are not from the same shadow copy backup"),  // JET_errDatabasesNotFromSameSnapshot
        -581 => Some("Soft recovery on a database from a shadow copy backup set"),  // JET_errSoftRecoveryOnSnapshot
        -582 => Some("One or more logs that were committed to this database, are missing.  These log files are required to maintain durable ACID semantics, but not required to maintain consistency if the JET_bitReplayIgnoreLostLogs bit is specified during recovery."),  // JET_errCommittedLogFilesMissing
        -583 => Some("The physical sector size reported by the disk subsystem, is unsupported by ESE for a specific file type."),  // JET_errSectorSizeNotSupported
        -584 => Some("Soft recovery successfully replayed all operations and intended to skip the Undo phase of recovery, but the Undo phase was not required"),  // JET_errRecoveredWithoutUndoDatabasesConsistent
        585 => Some("One or more logs that were committed to this database, were not recovered.  The database is still clean/consistent, as though the lost log's transactions were committed lazily (and lost)."),  // JET_wrnCommittedLogFilesLost
        -586 => Some("One or more logs were found to be corrupt during recovery.  These log files are required to maintain durable ACID semantics, but not required to maintain consistency if the JET_bitIgnoreLostLogs bit and JET_paramDeleteOutOfRangeLogs is specified during recovery."),  // JET_errCommittedLogFileCorrupt
        587 => Some("One or more logs that were committed to this database, were no recovered.  The database is still clean/consistent, as though the corrupted log's transactions were committed lazily (and lost)."),  // JET_wrnCommittedLogFilesRemoved
        588 => Some("Signal used by clients to indicate JetInit() finished with undo"),  // JET_wrnFinishWithUndo
        595 => Some("Database corruption has been repaired"),  // JET_wrnDatabaseRepaired
        -601 => Some("Unicode translation buffer too small"),  // JET_errUnicodeTranslationBufferTooSmall
        -602 => Some("Unicode normalization failed"),  // JET_errUnicodeTranslationFail
        -603 => Some("OS does not provide support for Unicode normalisation (and no normalisation callback was specified)"),  // JET_errUnicodeNormalizationNotSupported
        -604 => Some("Can not validate the language"),  // JET_errUnicodeLanguageValidationFailure
        _ => None,
    }
}

/// One block of the catalog (specification side).
pub open spec fn spec_text_c(code: i32) -> Option<&'static str> {
    match code {
        -610 => Some("Existing log file has bad signature"),  // JET_errExistingLogFileHasBadSignature
        -611 => Some("Existing log file is not contiguous"),  // JET_errExistingLogFileIsNotContiguous
        -612 => Some("Checksum error in log file during backup"),  // JET_errLogReadVerifyFailure
        -614 => Some("\ttoo many outstanding generations between checkpoint and current generation"),  // JET_errCheckpointDepthTooDeep
        -615 => Some("hard recovery attempted on a database that wasn't a backup database"),  // JET_errRestoreOfNonBackupDatabase
        -616 => Some("log truncation attempted but not all required logs were copied"),  // JET_errLogFileNotCopied
        -618 => Some("Too many outstanding generations between JetBeginTransaction and current generation."),  // JET_errTransactionTooLong
        -619 => Some("The specified JET_ENGINEFORMATVERSION value is too low to be supported by this version of ESE."),  // JET_errEngineFormatVersionNoLongerSupportedTooLow
        -620 => Some("The specified JET_ENGINEFORMATVERSION value is too high, higher than this version of ESE knows about."),  // JET_errEngineFormatVersionNotYetImplementedTooHigh
        -621 => Some("Thrown by a format feature (not at JetSetSystemParameter) if the client requests a feature that requires a version higher than that set for the JET_paramEngineFormatVersion."),  // JET_errEngineFormatVersionParamTooLowForRequestedFeature
        -622 => Some("The specified JET_ENGINEFORMATVERSION is set too low for this log stream, the log files have already been upgraded to a higher version.  A higher JET_ENGINEFORMATVERSION value must be set in the param."),  // JET_errEngineFormatVersionSpecifiedTooLowForLogVersion
        -623 => Some("The specified JET_ENGINEFORMATVERSION is set too low for this database file, the database file has already been upgraded to a higher version.  A higher JET_ENGINEFORMATVERSION value must be set in the param."),  // JET_errEngineFormatVersionSpecifiedTooLowForDatabaseVersion
        -801 => Some("Backup was aborted by server by calling JetTerm with JET_bitTermStopBackup or by calling JetStopBackup"),  // JET_errBackupAbortByServer
        -900 => Some("Invalid flags parameter"),  // JET_errInvalidGrbit
        -1000 => Some("Termination in progress"),  // JET_errTermInProgress
        -1001 => Some("API not supported"),  // JET_errFeatureNotAvailable
        -1002 => Some("Invalid name"),  // JET_errInvalidName
        -1003 => Some("Invalid API parameter"),  // JET_errInvalidParameter
        1004 => Some("Column is NULL-valued"),  // JET_wrnColumnNull
        1006 => Some("Buffer too small for data"),  // JET_wrnBufferTruncated
        1007 => Some("Database is already attached"),  // JET_wrnDatabaseAttached
        -1008 => Some("Tried to attach a read-only database file for read/write operations"),  // JET_errDatabaseFileReadOnly
        1009 => Some("Sort does not fit in memory"),  // JET_wrnSortOverflow
        -1010 => Some("Invalid database id"),  // JET_errInvalidDatabaseId
        -1011 => Some("Out of Memory"),  // JET_errOutOfMemory
        -1012 => Some("Maximum database size reached"),  // JET_errOutOfDatabaseSpace
        -1013 => Some("Out of table cursors"),  // JET_errOutOfCursors
        -1014 => Some("Out of database page buffers"),  // JET_errOutOfBuffers
        -1015 => Some("Too many indexes"),  // JET_errTooManyIndexes
        -1016 => Some("Too many columns in an index"),  // JET_errTooManyKeys
        -1017 => Some("Record has been deleted"),  // JET_errRecordDeleted
        -1018 => Some("Checksum error on a database page"),  // JET_errReadVerifyFailure
        -1019 => Some("Blank database page"),  // JET_errPageNotInitialized
        -1020 => Some("Out of file handles"),  // JET_errOutOfFileHandles
        -1021 => Some("The OS returned ERROR_CRC from file IO"),  // JET_errDiskReadVerificationFailure
        -1022 => Some("Disk IO error"),  // JET_errDiskIO
        -1023 => Some("Invalid file path"),  // JET_errInvalidPath
        -1024 => Some("Invalid system path"),  // JET_errInvalidSystemPath
        -1025 => Some("Invalid log directory"),  // JET_errInvalidLogDirectory
        -1026 => Some("Record larger than maximum size"),  // JET_errRecordTooBig
        -1027 => Some("Too many open databases"),  // JET_errTooManyOpenDatabases
        -1028 => Some("Not a database file"),  // JET_errInvalidDatabase
        -1029 => Some("Database engine not initialized"),  // JET_errNotInitialized
        -1030 => Some("Database engine already initialized"),  // JET_errAlreadyInitialized
        -1031 => Some("Database engine is being initialized"),  // JET_errInitInProgress
        -1032 => Some("Cannot access file, the file is locked or in use"),  // JET_errFileAccessDenied
        -1038 => Some("Buffer is too small"),  // JET_errBufferTooSmall
        1039 => Some("Exact match not found during seek"),  // JET_wrnSeekNotEqual
        -1040 => Some("Too many columns defined"),  // JET_errTooManyColumns
        -1043 => Some("Container is not empty"),  // JET_errContainerNotEmpty
        -1044 => Some("Filename is invalid"),  // JET_errInvalidFilename
        -1045 => Some("Invalid bookmark"),  // JET_errInvalidBookmark
        -1046 => Some("Column used in an index"),  // JET_errColumnInUse
        -1047 => Some("Data buffer doesn't match column size"),  // JET_errInvalidBufferSize
        -1048 => Some("Cannot set column value"),  // JET_errColumnNotUpdatable
        -1051 => Some("Index is in use"),  // JET_errIndexInUse
        -1052 => Some("Link support unavailable"),  // JET_errLinkNotSupported
        -1053 => Some("Null keys are disallowed on index"),  // JET_errNullKeyDisallowed
        -1054 => Some("Operation must be within a transaction"),  // JET_errNotInTransaction
        1055 => Some("No extended error information"),  // JET_wrnNoErrorInfo
        _ => None,
    }
}

/// One block of the catalog (executable side).
fn text_c(code: i32) -> (r: Option<&'static str>)
    ensures
        r == spec_text_c(code),
{
    match code {
        -610 => Some("Existing log file has bad signature"),  // JET_errExistingLogFileHasBadSignature
        -611 => Some("Existing log file is not contiguous"),  // JET_errExistingLogFileIsNotContiguous
        -612 => Some("Checksum error in log file during backup"),  // JET_errLogReadVerifyFailure
        -614 => Some("\ttoo many outstanding generations between checkpoint and current generation"),  // JET_errCheckpointDepthTooDeep
        -615 => Some("hard recovery attempted on a database that wasn't a backup database"),  // JET_errRestoreOfNonBackupDatabase
        -616 => Some("log truncation attempted but not all required logs were copied"),  // JET_errLogFileNotCopied
        -618 => Some("Too many outstanding generations between JetBeginTransaction and current generation."),  // JET_errTransactionTooLong
        -619 => Some("The specified JET_ENGINEFORMATVERSION value is too low to be supported by this version of ESE."),  // JET_errEngineFormatVersionNoLongerSupportedTooLow
        -620 => Some("The specified JET_ENGINEFORMATVERSION value is too high, higher than this version of ESE knows about."),  // JET_errEngineFormatVersionNotYetImplementedTooHigh
        -621 => Some("Thrown by a format feature (not at JetSetSystemParameter) if the client requests a feature that requires a version higher than that set for the JET_paramEngineFormatVersion."),  // JET_errEngineFormatVersionParamTooLowForRequestedFeature
        -622 => Some("The specified JET_ENGINEFORMATVERSION is set too low for this log stream, the log files have already been upgraded to a higher version.  A higher JET_ENGINEFORMATVERSION value must be set in the param."),  // JET_errEngineFormatVersionSpecifiedTooLowForLogVersion
        -623 => Some("The specified JET_ENGINEFORMATVERSION is set too low for this database file, the database file has already been upgraded to a higher version.  A higher JET_ENGINEFORMATVERSION value must be set in the param."),  // JET_errEngineFormatVersionSpecifiedTooLowForDatabaseVersion
        -801 => Some("Backup was aborted by server by calling JetTerm with JET_bitTermStopBackup or by calling JetStopBackup"),  // JET_errBackupAbortByServer
        -900 => Some("Invalid flags parameter"),  // JET_errInvalidGrbit
        -1000 => Some("Termination in progress"),  // JET_errTermInProgress
        -1001 => Some("API not supported"),  // JET_errFeatureNotAvailable
        -1002 => Some("Invalid name"),  // JET_errInvalidName
        -1003 => Some("Invalid API parameter"),  // JET_errInvalidParameter
        1004 => Some("Column is NULL-valued"),  // JET_wrnColumnNull
        1006 => Some("Buffer too small for data"),  // JET_wrnBufferTruncated
        1007 => Some("Database is already attached"),  // JET_wrnDatabaseAttached
        -1008 => Some("Tried to attach a read-only database file for read/write operations"),  // JET_errDatabaseFileReadOnly
        1009 => Some("Sort does not fit in memory"),  // JET_wrnSortOverflow
        -1010 => Some("Invalid database id"),  // JET_errInvalidDatabaseId
        -1011 => Some("Out of Memory"),  // JET_errOutOfMemory
        -1012 => Some("Maximum database size reached"),  // JET_errOutOfDatabaseSpace
        -1013 => Some("Out of table cursors"),  // JET_errOutOfCursors
        -1014 => Some("Out of database page buffers"),  // JET_errOutOfBuffers
        -1015 => Some("Too many indexes"),  // JET_errTooManyIndexes
        -1016 => Some("Too many columns in an index"),  // JET_errTooManyKeys
        -1017 => Some("Record has been deleted"),  // JET_errRecordDeleted
        -1018 => Some("Checksum error on a database page"),  // JET_errReadVerifyFailure
        -1019 => Some("Blank database page"),  // JET_errPageNotInitialized
        -1020 => Some("Out of file handles"),  // JET_errOutOfFileHandles
        -1021 => Some("The OS returned ERROR_CRC from file IO"),  // JET_errDiskReadVerificationFailure
        -1022 => Some("Disk IO error"),  // JET_errDiskIO
        -1023 => Some("Invalid file path"),  // JET_errInvalidPath
        -1024 => Some("Invalid system path"),  // JET_errInvalidSystemPath
        -1025 => Some("Invalid log directory"),  // JET_errInvalidLogDirectory
        -1026 => Some("Record larger than maximum size"),  // JET_errRecordTooBig
        -1027 => Some("Too many open databases"),  // JET_errTooManyOpenDatabases
        -1028 => Some("Not a database file"),  // JET_errInvalidDatabase
        -1029 => Some("Database engine not initialized"),  // JET_errNotInitialized
        -1030 => Some("Database engine already initialized"),  // JET_errAlreadyInitialized
        -1031 => Some("Database engine is being initialized"),  // JET_errInitInProgress
        -1032 => Some("Cannot access file, the file is locked or in use"),  // JET_errFileAccessDenied
        -1038 => Some("Buffer is too small"),  // JET_errBufferTooSmall
        1039 => Some("Exact match not found during seek"),  // JET_wrnSeekNotEqual
        -1040 => Some("Too many columns defined"),  // JET_errTooManyColumns
        -1043 => Some("Container is not empty"),  // JET_errContainerNotEmpty
        -1044 => Some("Filename is invalid"),  // JET_errInvalidFilename
        -1045 => Some("Invalid bookmark"),  // JET_errInvalidBookmark
        -1046 => Some("Column used in an index"),  // JET_errColumnInUse
        -1047 => Some("Data buffer doesn't match column size"),  // JET_errInvalidBufferSize
        -1048 => Some("Cannot set column value"),  // JET_errColumnNotUpdatable
        -1051 => Some("Index is in use"),  // JET_errIndexInUse
        -1052 => Some("Link support unavailable"),  // JET_errLinkNotSupported
        -1053 => Some("Null keys are disallowed on index"),  // JET_errNullKeyDisallowed
        -1054 => Some("Operation must be within a transaction"),  // JET_errNotInTransaction
        1055 => Some("No extended error information"),  // JET_wrnNoErrorInfo
        _ => None,
    }
}

/// One block of the catalog (specification side).
pub open spec fn spec_text_d(code: i32) -> Option<&'static str> {
    match code {
        -1057 => Some("Transaction must rollback because failure of unversioned update"),  // JET_errMustRollback
        1058 => Some("No idle activity occured"),  // JET_wrnNoIdleActivity
        -1059 => Some("Too many active database users"),  // JET_errTooManyActiveUsers
        -1061 => Some("Invalid or unknown country/region code"),  // JET_errInvalidCountry
        -1062 => Some("Invalid or unknown language id"),  // JET_errInvalidLanguageId
        -1063 => Some("Invalid or unknown code page"),  // JET_errInvalidCodePage
        -1064 => Some("Invalid flags for LCMapString()"),  // JET_errInvalidLCMapStringFlags
        -1065 => Some("Attempted to create a version store entry (RCE) larger than a version bucket"),  // JET_errVersionStoreEntryTooBig
        -1066 => Some("Version store out of memory (and cleanup attempt failed to complete)"),  // JET_errVersionStoreOutOfMemoryAndCleanupTimedOut
        1067 => Some("No write lock at transaction level 0"),  // JET_wrnNoWriteLock
        1068 => Some("Column set to NULL-value"),  // JET_wrnColumnSetNull
        -1069 => Some("Version store out of memory (cleanup already attempted)"),  // JET_errVersionStoreOutOfMemory
        -1071 => Some("Cannot index escrow column"),  // JET_errCannotIndex
        -1072 => Some("Record has not been deleted"),  // JET_errRecordNotDeleted
        -1073 => Some("Too many mempool entries requested"),  // JET_errTooManyMempoolEntries
        -1074 => Some("Out of btree ObjectIDs (perform offline defrag to reclaim freed/unused ObjectIds)"),  // JET_errOutOfObjectIDs
        -1075 => Some("Long-value ID counter has reached maximum value. (perform offline defrag to reclaim free/unused LongValueIDs)"),  // JET_errOutOfLongValueIDs
        -1076 => Some("Auto-increment counter has reached maximum value (offline defrag WILL NOT be able to reclaim free/unused Auto-increment values)."),  // JET_errOutOfAutoincrementValues
        -1077 => Some("Dbtime counter has reached maximum value (perform offline defrag to reclaim free/unused Dbtime values)"),  // JET_errOutOfDbtimeValues
        -1078 => Some("Sequential index counter has reached maximum value (perform offline defrag to reclaim free/unused SequentialIndex values)"),  // JET_errOutOfSequentialIndexValues
        -1080 => Some("Multi-instance call with single-instance mode enabled"),  // JET_errRunningInOneInstanceMode
        -1081 => Some("Single-instance call with multi-instance mode enabled"),  // JET_errRunningInMultiInstanceMode
        -1082 => Some("Global system parameters have already been set"),  // JET_errSystemParamsAlreadySet
        -1083 => Some("System path already used by another database instance"),  // JET_errSystemPathInUse
        -1084 => Some("Logfile path already used by another database instance"),  // JET_errLogFilePathInUse
        -1085 => Some("Temp path already used by another database instance"),  // JET_errTempPathInUse
        -1086 => Some("Instance Name already in use"),  // JET_errInstanceNameInUse
        -1087 => Some("Global system parameters have already been set, but to a conflicting or disagreeable state to the specified values."),  // JET_errSystemParameterConflict
        -1090 => Some("This instance cannot be used because it encountered a fatal error"),  // JET_errInstanceUnavailable
        -1091 => Some("This database cannot be used because it encountered a fatal error"),  // JET_errDatabaseUnavailable
        -1092 => Some("This instance cannot be used because it encountered a log-disk-full error performing an operation (likely transaction rollback) that could not tolerate failure"),  // JET_errInstanceUnavailableDueToFatalLogDiskFull
        -1093 => Some("This JET_sesparam* identifier is not known to the ESE engine."),  // JET_errInvalidSesparamId
        -1101 => Some("Out of sessions"),  // JET_errOutOfSessions
        -1102 => Some("Write lock failed due to outstanding write lock"),  // JET_errWriteConflict
        -1103 => Some("Transactions nested too deeply"),  // JET_errTransTooDeep
        -1104 => Some("Invalid session handle"),  // JET_errInvalidSesid
        -1105 => Some("Update attempted on uncommitted primary index"),  // JET_errWriteConflictPrimaryIndex
        -1108 => Some("Operation not allowed within a transaction"),  // JET_errInTransaction
        -1109 => Some("Must rollback current transaction -- cannot commit or begin a new one"),  // JET_errRollbackRequired
        -1110 => Some("Read-only transaction tried to modify the database"),  // JET_errTransReadOnly
        -1111 => Some("Attempt to replace the same record by two diffrerent cursors in the same session"),  // JET_errSessionWriteConflict
        -1112 => Some("record would be too big if represented in a database format from a previous version of Jet"),  // JET_errRecordTooBigForBackwardCompatibility
        -1113 => Some("The temp table could not be created due to parameters that conflict with JET_bitTTForwardOnly"),  // JET_errCannotMaterializeForwardOnlySort
        -1114 => Some("This session handle can't be used with this table id"),  // JET_errSesidTableIdMismatch
        -1115 => Some("Invalid instance handle"),  // JET_errInvalidInstance
        -1116 => Some("The instance was shutdown successfully but all the attached databases were left in a dirty state by request via JET_bitTermDirty"),  // JET_errDirtyShutdown
        -1118 => Some("The database page read from disk had the wrong page number."),  // JET_errReadPgnoVerifyFailure
        -1119 => Some("The database page read from disk had a previous write not represented on the page."),  // JET_errReadLostFlushVerifyFailure
        -1121 => Some("File system operation failed with an error indicating the file system is corrupt."),  // JET_errFileSystemCorruption
        1122 => Some("Database file could not be shrunk because there is not enough internal free space available or there is unmovable data present."),  // JET_wrnShrinkNotPossible
        -1123 => Some("One or more database pages read from disk during recovery do not match the expected state."),  // JET_errRecoveryVerifyFailure
        -1124 => Some("Attempted to provide a filter to JetSetCursorFilter() in an unsupported scenario."),  // JET_errFilteredMoveNotSupported
        -1201 => Some("Database already exists"),  // JET_errDatabaseDuplicate
        -1202 => Some("Database in use"),  // JET_errDatabaseInUse
        -1203 => Some("No such database"),  // JET_errDatabaseNotFound
        -1204 => Some("Invalid database name"),  // JET_errDatabaseInvalidName
        -1205 => Some("Invalid number of pages"),  // JET_errDatabaseInvalidPages
        -1206 => Some("Non database file or corrupted db"),  // JET_errDatabaseCorrupted
        -1207 => Some("Database exclusively locked"),  // JET_errDatabaseLocked
        -1208 => Some("Cannot disable versioning for this database"),  // JET_errCannotDisableVersioning
        _ => None,
    }
}

/// One block of the catalog (executable side).
fn text_d(code: i32) -> (r: Option<&'static str>)
    ensures
        r == spec_text_d(code),
{
    match code {
        -1057 => Some("Transaction must rollback because failure of unversioned update"),  // JET_errMustRollback
        1058 => Some("No idle activity occured"),  // JET_wrnNoIdleActivity
        -1059 => Some("Too many active database users"),  // JET_errTooManyActiveUsers
        -1061 => Some("Invalid or unknown country/region code"),  // JET_errInvalidCountry
        -1062 => Some("Invalid or unknown language id"),  // JET_errInvalidLanguageId
        -1063 => Some("Invalid or unknown code page"),  // JET_errInvalidCodePage
        -1064 => Some("Invalid flags for LCMapString()"),  // JET_errInvalidLCMapStringFlags
        -1065 => Some("Attempted to create a version store entry (RCE) larger than a version bucket"),  // JET_errVersionStoreEntryTooBig
        -1066 => Some("Version store out of memory (and cleanup attempt failed to complete)"),  // JET_errVersionStoreOutOfMemoryAndCleanupTimedOut
        1067 => Some("No write lock at transaction level 0"),  // JET_wrnNoWriteLock
        1068 => Some("Column set to NULL-value"),  // JET_wrnColumnSetNull
        -1069 => Some("Version store out of memory (cleanup already attempted)"),  // JET_errVersionStoreOutOfMemory
        -1071 => Some("Cannot index escrow column"),  // JET_errCannotIndex
        -1072 => Some("Record has not been deleted"),  // JET_errRecordNotDeleted
        -1073 => Some("Too many mempool entries requested"),  // JET_errTooManyMempoolEntries
        -1074 => Some("Out of btree ObjectIDs (perform offline defrag to reclaim freed/unused ObjectIds)"),  // JET_errOutOfObjectIDs
        -1075 => Some("Long-value ID counter has reached maximum value. (perform offline defrag to reclaim free/unused LongValueIDs)"),  // JET_errOutOfLongValueIDs
        -1076 => Some("Auto-increment counter has reached maximum value (offline defrag WILL NOT be able to reclaim free/unused Auto-increment values)."),  // JET_errOutOfAutoincrementValues
        -1077 => Some("Dbtime counter has reached maximum value (perform offline defrag to reclaim free/unused Dbtime values)"),  // JET_errOutOfDbtimeValues
        -1078 => Some("Sequential index counter has reached maximum value (perform offline defrag to reclaim free/unused SequentialIndex values)"),  // JET_errOutOfSequentialIndexValues
        -1080 => Some("Multi-instance call with single-instance mode enabled"),  // JET_errRunningInOneInstanceMode
        -1081 => Some("Single-instance call with multi-instance mode enabled"),  // JET_errRunningInMultiInstanceMode
        -1082 => Some("Global system parameters have already been set"),  // JET_errSystemParamsAlreadySet
        -1083 => Some("System path already used by another database instance"),  // JET_errSystemPathInUse
        -1084 => Some("Logfile path already used by another database instance"),  // JET_errLogFilePathInUse
        -1085 => Some("Temp path already used by another database instance"),  // JET_errTempPathInUse
        -1086 => Some("Instance Name already in use"),  // JET_errInstanceNameInUse
        -1087 => Some("Global system parameters have already been set, but to a conflicting or disagreeable state to the specified values."),  // JET_errSystemParameterConflict
        -1090 => Some("This instance cannot be used because it encountered a fatal error"),  // JET_errInstanceUnavailable
        -1091 => Some("This database cannot be used because it encountered a fatal error"),  // JET_errDatabaseUnavailable
        -1092 => Some("This instance cannot be used because it encountered a log-disk-full error performing an operation (likely transaction rollback) that could not tolerate failure"),  // JET_errInstanceUnavailableDueToFatalLogDiskFull
        -1093 => Some("This JET_sesparam* identifier is not known to the ESE engine."),  // JET_errInvalidSesparamId
        -1101 => Some("Out of sessions"),  // JET_errOutOfSessions
        -1102 => Some("Write lock failed due to outstanding write lock"),  // JET_errWriteConflict
        -1103 => Some("Transactions nested too deeply"),  // JET_errTransTooDeep
        -1104 => Some("Invalid session handle"),  // JET_errInvalidSesid
        -1105 => Some("Update attempted on uncommitted primary index"),  // JET_errWriteConflictPrimaryIndex
        -1108 => Some("Operation not allowed within a transaction"),  // JET_errInTransaction
        -1109 => Some("Must rollback current transaction -- cannot commit or begin a new one"),  // JET_errRollbackRequired
        -1110 => Some("Read-only transaction tried to modify the database"),  // JET_errTransReadOnly
        -1111 => Some("Attempt to replace the same record by two diffrerent cursors in the same session"),  // JET_errSessionWriteConflict
        -1112 => Some("record would be too big if represented in a database format from a previous version of Jet"),  // JET_errRecordTooBigForBackwardCompatibility
        -1113 => Some("The temp table could not be created due to parameters that conflict with JET_bitTTForwardOnly"),  // JET_errCannotMaterializeForwardOnlySort
        -1114 => Some("This session handle can't be used with this table id"),  // JET_errSesidTableIdMismatch
        -1115 => Some("Invalid instance handle"),  // JET_errInvalidInstance
        -1116 => Some("The instance was shutdown successfully but all the attached databases were left in a dirty state by request via JET_bitTermDirty"),  // JET_errDirtyShutdown
        -1118 => Some("The database page read from disk had the wrong page number."),  // JET_errReadPgnoVerifyFailure
        -1119 => Some("The database page read from disk had a previous write not represented on the page."),  // JET_errReadLostFlushVerifyFailure
        -1121 => Some("File system operation failed with an error indicating the file system is corrupt."),  // JET_errFileSystemCorruption
        1122 => Some("Database file could not be shrunk because there is not enough internal free space available or there is unmovable data present."),  // JET_wrnShrinkNotPossible
        -1123 => Some("One or more database pages read from disk during recovery do not match the expected state."),  // JET_errRecoveryVerifyFailure
        -1124 => Some("Attempted to provide a filter to JetSetCursorFilter() in an unsupported scenario."),  // JET_errFilteredMoveNotSupported
        -1201 => Some("Database already exists"),  // JET_errDatabaseDuplicate
        -1202 => Some("Database in use"),  // JET_errDatabaseInUse
        -1203 => Some("No such database"),  // JET_errDatabaseNotFound
        -1204 => Some("Invalid database name"),  // JET_errDatabaseInvalidName
        -1205 => Some("Invalid number of pages"),  // JET_errDatabaseInvalidPages
        -1206 => Some("Non database file or corrupted db"),  // JET_errDatabaseCorrupted
        -1207 => Some("Database exclusively locked"),  // JET_errDatabaseLocked
        -1208 => Some("Cannot disable versioning for this database"),  // JET_errCannotDisableVersioning
        _ => None,
    }
}

/// One block of the catalog (specification side).
pub open spec fn spec_text_e(code: i32) -> Option<&'static str> {
    match code {
        -1209 => Some("Database engine is incompatible with database"),  // JET_errInvalidDatabaseVersion
        -1210 => Some("The database is in an older (200) format"),  // JET_errDatabase200Format
        -1211 => Some("The database is in an older (400) format"),  // JET_errDatabase400Format
        -1212 => Some("The database is in an older (500) format"),  // JET_errDatabase500Format
        -1213 => Some("The database page size does not match the engine"),  // JET_errPageSizeMismatch
        -1214 => Some("Cannot start any more database instances"),  // JET_errTooManyInstances
        -1215 => Some("A different database instance is using this database"),  // JET_errDatabaseSharingViolation
        -1216 => Some("An outstanding database attachment has been detected at the start or end of recovery, but database is missing or does not match attachment info"),  // JET_errAttachedDatabaseMismatch
        -1217 => Some("Specified path to database file is illegal"),  // JET_errDatabaseInvalidPath
        -1218 => Some("A database is being assigned an id already in use"),  // JET_errDatabaseIdInUse
        -1219 => Some("Force Detach allowed only after normal detach errored out"),  // JET_errForceDetachNotAllowed
        -1220 => Some("Corruption detected in catalog"),  // JET_errCatalogCorrupted
        -1221 => Some("Database is partially attached. Cannot complete attach operation"),  // JET_errPartiallyAttachedDB
        -1222 => Some("Database with same signature in use"),  // JET_errDatabaseSignInUse
        -1224 => Some("Corrupted db but repair not allowed"),  // JET_errDatabaseCorruptedNoRepair
        -1225 => Some("recovery tried to replay a database creation, but the database was originally created with an incompatible (likely older) version of the database engine"),  // JET_errInvalidCreateDbVersion
        -1230 => Some("Recovery on this database has not yet completed enough to permit access."),  // JET_errDatabaseNotReady
        -1231 => Some("Database is attached but only for recovery.  It must be explicitly attached before it can be opened. "),  // JET_errDatabaseAttachedForRecovery
        -1232 => Some("Recovery has not seen any Begin0/Commit0 records and so does not know what trxBegin0 to assign to this transaction"),  // JET_errTransactionsNotReadyDuringRecovery
        1301 => Some("Opened an empty table"),  // JET_wrnTableEmpty
        -1302 => Some("Table is exclusively locked"),  // JET_errTableLocked
        -1303 => Some("Table already exists"),  // JET_errTableDuplicate
        -1304 => Some("Table is in use, cannot lock"),  // JET_errTableInUse
        -1305 => Some("No such table or object"),  // JET_errObjectNotFound
        -1307 => Some("Bad file/index density"),  // JET_errDensityInvalid
        -1308 => Some("Table is not empty"),  // JET_errTableNotEmpty
        -1310 => Some("Invalid table id"),  // JET_errInvalidTableId
        -1311 => Some("Cannot open any more tables (cleanup already attempted)"),  // JET_errTooManyOpenTables
        -1312 => Some("Oper. not supported on table"),  // JET_errIllegalOperation
        -1313 => Some("Cannot open any more tables (cleanup attempt failed to complete)"),  // JET_errTooManyOpenTablesAndCleanupTimedOut
        -1314 => Some("Table or object name in use"),  // JET_errObjectDuplicate
        -1316 => Some("Object is invalid for operation"),  // JET_errInvalidObject
        -1317 => Some("Use CloseTable instead of DeleteTable to delete temp table"),  // JET_errCannotDeleteTempTable
        -1318 => Some("Illegal attempt to delete a system table"),  // JET_errCannotDeleteSystemTable
        -1319 => Some("Illegal attempt to delete a template table"),  // JET_errCannotDeleteTemplateTable
        -1322 => Some("Must have exclusive lock on table."),  // JET_errExclusiveTableLockRequired
        -1323 => Some("DDL operations prohibited on this table"),  // JET_errFixedDDL
        -1324 => Some("On a derived table, DDL operations are prohibited on inherited portion of DDL"),  // JET_errFixedInheritedDDL
        -1325 => Some("Nesting of hierarchical DDL is not currently supported."),  // JET_errCannotNestDDL
        -1326 => Some("Tried to inherit DDL from a table not marked as a template table."),  // JET_errDDLNotInheritable
        1327 => Some("System cleanup has a cursor open on the table"),  // JET_wrnTableInUseBySystem
        -1328 => Some("System parameters were set improperly"),  // JET_errInvalidSettings
        -1329 => Some("Client has requested stop service"),  // JET_errClientRequestToStopJetService
        -1330 => Some("Template table was created with NoFixedVarColumnsInDerivedTables"),  // JET_errCannotAddFixedVarColumnToDerivedTable
        -1401 => Some("Index build failed"),  // JET_errIndexCantBuild
        -1402 => Some("Primary index already defined"),  // JET_errIndexHasPrimary
        -1403 => Some("Index is already defined"),  // JET_errIndexDuplicate
        -1404 => Some("No such index"),  // JET_errIndexNotFound
        -1405 => Some("Cannot delete clustered index"),  // JET_errIndexMustStay
        -1406 => Some("Illegal index definition"),  // JET_errIndexInvalidDef
        -1409 => Some("Invalid create index description"),  // JET_errInvalidCreateIndex
        -1410 => Some("Out of index description blocks"),  // JET_errTooManyOpenIndexes
        -1411 => Some("Non-unique inter-record index keys generated for a multivalued index"),  // JET_errMultiValuedIndexViolation
        -1412 => Some("Failed to build a secondary index that properly reflects primary index"),  // JET_errIndexBuildCorrupted
        -1413 => Some("Primary index is corrupt. The database must be defragmented or the table deleted."),  // JET_errPrimaryIndexCorrupted
        -1414 => Some("Secondary index is corrupt. The database must be defragmented or the affected index must be deleted. If the corrupt index is over Unicode text, a likely cause a sort-order change."),  // JET_errSecondaryIndexCorrupted
        1415 => Some("Out of date index removed"),  // JET_wrnCorruptIndexDeleted
        -1416 => Some("Illegal index id"),  // JET_errInvalidIndexId
        1417 => Some("The Primary index is created with an incompatible OS sort version. The table can not be safely modified."),  // JET_wrnPrimaryIndexOutOfDate
        1418 => Some("One or more Secondary index is created with an incompatible OS sort version. Any index over Unicode text should be deleted."),  // JET_wrnSecondaryIndexOutOfDate
        _ => None,
    }
}

/// One block of the catalog (executable side).
fn text_e(code: i32) -> (r: Option<&'static str>)
    ensures
        r == spec_text_e(code),
{
    match code {
        -1209 => Some("Database engine is incompatible with database"),  // JET_errInvalidDatabaseVersion
        -1210 => Some("The database is in an older (200) format"),  // JET_errDatabase200Format
        -1211 => Some("The database is in an older (400) format"),  // JET_errDatabase400Format
        -1212 => Some("The database is in an older (500) format"),  // JET_errDatabase500Format
        -1213 => Some("The database page size does not match the engine"),  // JET_errPageSizeMismatch
        -1214 => Some("Cannot start any more database instances"),  // JET_errTooManyInstances
        -1215 => Some("A different database instance is using this database"),  // JET_errDatabaseSharingViolation
        -1216 => Some("An outstanding database attachment has been detected at the start or end of recovery, but database is missing or does not match attachment info"),  // JET_errAttachedDatabaseMismatch
        -1217 => Some("Specified path to database file is illegal"),  // JET_errDatabaseInvalidPath
        -1218 => Some("A database is being assigned an id already in use"),  // JET_errDatabaseIdInUse
        -1219 => Some("Force Detach allowed only after normal detach errored out"),  // JET_errForceDetachNotAllowed
        -1220 => Some("Corruption detected in catalog"),  // JET_errCatalogCorrupted
        -1221 => Some("Database is partially attached. Cannot complete attach operation"),  // JET_errPartiallyAttachedDB
        -1222 => Some("Database with same signature in use"),  // JET_errDatabaseSignInUse
        -1224 => Some("Corrupted db but repair not allowed"),  // JET_errDatabaseCorruptedNoRepair
        -1225 => Some("recovery tried to replay a database creation, but the database was originally created with an incompatible (likely older) version of the database engine"),  // JET_errInvalidCreateDbVersion
        -1230 => Some("Recovery on this database has not yet completed enough to permit access."),  // JET_errDatabaseNotReady
        -1231 => Some("Database is attached but only for recovery.  It must be explicitly attached before it can be opened. "),  // JET_errDatabaseAttachedForRecovery
        -1232 => Some("Recovery has not seen any Begin0/Commit0 records and so does not know what trxBegin0 to assign to this transaction"),  // JET_errTransactionsNotReadyDuringRecovery
        1301 => Some("Opened an empty table"),  // JET_wrnTableEmpty
        -1302 => Some("Table is exclusively locked"),  // JET_errTableLocked
        -1303 => Some("Table already exists"),  // JET_errTableDuplicate
        -1304 => Some("Table is in use, cannot lock"),  // JET_errTableInUse
        -1305 => Some("No such table or object"),  // JET_errObjectNotFound
        -1307 => Some("Bad file/index density"),  // JET_errDensityInvalid
        -1308 => Some("Table is not empty"),  // JET_errTableNotEmpty
        -1310 => Some("Invalid table id"),  // JET_errInvalidTableId
        -1311 => Some("Cannot open any more tables (cleanup already attempted)"),  // JET_errTooManyOpenTables
        -1312 => Some("Oper. not supported on table"),  // JET_errIllegalOperation
        -1313 => Some("Cannot open any more tables (cleanup attempt failed to complete)"),  // JET_errTooManyOpenTablesAndCleanupTimedOut
        -1314 => Some("Table or object name in use"),  // JET_errObjectDuplicate
        -1316 => Some("Object is invalid for operation"),  // JET_errInvalidObject
        -1317 => Some("Use CloseTable instead of DeleteTable to delete temp table"),  // JET_errCannotDeleteTempTable
        -1318 => Some("Illegal attempt to delete a system table"),  // JET_errCannotDeleteSystemTable
        -1319 => Some("Illegal attempt to delete a template table"),  // JET_errCannotDeleteTemplateTable
        -1322 => Some("Must have exclusive lock on table."),  // JET_errExclusiveTableLockRequired
        -1323 => Some("DDL operations prohibited on this table"),  // JET_errFixedDDL
        -1324 => Some("On a derived table, DDL operations are prohibited on inherited portion of DDL"),  // JET_errFixedInheritedDDL
        -1325 => Some("Nesting of hierarchical DDL is not currently supported."),  // JET_errCannotNestDDL
        -1326 => Some("Tried to inherit DDL from a table not marked as a template table."),  // JET_errDDLNotInheritable
        1327 => Some("System cleanup has a cursor open on the table"),  // JET_wrnTableInUseBySystem
        -1328 => Some("System parameters were set improperly"),  // JET_errInvalidSettings
        -1329 => Some("Client has requested stop service"),  // JET_errClientRequestToStopJetService
        -1330 => Some("Template table was created with NoFixedVarColumnsInDerivedTables"),  // JET_errCannotAddFixedVarColumnToDerivedTable
        -1401 => Some("Index build failed"),  // JET_errIndexCantBuild
        -1402 => Some("Primary index already defined"),  // JET_errIndexHasPrimary
        -1403 => Some("Index is already defined"),  // JET_errIndexDuplicate
        -1404 => Some("No such index"),  // JET_errIndexNotFound
        -1405 => Some("Cannot delete clustered index"),  // JET_errIndexMustStay
        -1406 => Some("Illegal index definition"),  // JET_errIndexInvalidDef
        -1409 => Some("Invalid create index description"),  // JET_errInvalidCreateIndex
        -1410 => Some("Out of index description blocks"),  // JET_errTooManyOpenIndexes
        -1411 => Some("Non-unique inter-record index keys generated for a multivalued index"),  // JET_errMultiValuedIndexViolation
        -1412 => Some("Failed to build a secondary index that properly reflects primary index"),  // JET_errIndexBuildCorrupted
        -1413 => Some("Primary index is corrupt. The database must be defragmented or the table deleted."),  // JET_errPrimaryIndexCorrupted
        -1414 => Some("Secondary index is corrupt. The database must be defragmented or the affected index must be deleted. If the corrupt index is over Unicode text, a likely cause a sort-order change."),  // JET_errSecondaryIndexCorrupted
        1415 => Some("Out of date index removed"),  // JET_wrnCorruptIndexDeleted
        -1416 => Some("Illegal index id"),  // JET_errInvalidIndexId
        1417 => Some("The Primary index is created with an incompatible OS sort version. The table can not be safely modified."),  // JET_wrnPrimaryIndexOutOfDate
        1418 => Some("One or more Secondary index is created with an incompatible OS sort version. Any index over Unicode text should be deleted."),  // JET_wrnSecondaryIndexOutOfDate
        _ => None,
    }
}

/// One block of the catalog (specification side).
pub open spec fn spec_text_f(code: i32) -> Option<&'static str> {
    match code {
        -1430 => Some("tuple index can only be on a secondary index"),  // JET_errIndexTuplesSecondaryIndexOnly
        -1431 => Some("OBSOLETE"),  // JET_errIndexTuplesOneColumnOnly
        -1432 => Some("tuple index must be a non-unique index"),  // JET_errIndexTuplesNonUniqueOnly
        -1433 => Some("OBSOLETE"),  // JET_errIndexTuplesTextColumnsOnly
        -1434 => Some("tuple index does not allow setting cbVarSegMac"),  // JET_errIndexTuplesVarSegMacNotAllowed
        -1435 => Some("invalid min/max tuple length or max characters to index specified"),  // JET_errIndexTuplesInvalidLimits
        -1436 => Some("cannot call RetrieveColumn() with RetrieveFromIndex on a tuple index"),  // JET_errIndexTuplesCannotRetrieveFromIndex
        -1437 => Some("specified key does not meet minimum tuple length"),  // JET_errIndexTuplesKeyTooSmall
        -1438 => Some("Specified LV chunk size is not supported"),  // JET_errInvalidLVChunkSize
        -1439 => Some("Only JET_coltypLongText and JET_coltypLongBinary columns can be encrypted"),  // JET_errColumnCannotBeEncrypted
        -1440 => Some("Cannot index encrypted column"),  // JET_errCannotIndexOnEncryptedColumn
        -1501 => Some("Column value is long"),  // JET_errColumnLong
        -1502 => Some("No such chunk in long value"),  // JET_errColumnNoChunk
        -1503 => Some("Field will not fit in record"),  // JET_errColumnDoesNotFit
        -1504 => Some("Null not valid"),  // JET_errNullInvalid
        -1505 => Some("Column indexed, cannot delete"),  // JET_errColumnIndexed
        -1506 => Some("Field length is greater than maximum"),  // JET_errColumnTooBig
        -1507 => Some("No such column"),  // JET_errColumnNotFound
        -1508 => Some("Field is already defined"),  // JET_errColumnDuplicate
        -1509 => Some("Attempted to create a multi-valued column, but column was not Tagged"),  // JET_errMultiValuedColumnMustBeTagged
        -1510 => Some("Second autoincrement or version column"),  // JET_errColumnRedundant
        -1511 => Some("Invalid column data type"),  // JET_errInvalidColumnType
        1512 => Some("Max length too big, truncated"),  // JET_wrnColumnMaxTruncated
        -1514 => Some("No non-NULL tagged columns"),  // JET_errTaggedNotNULL
        -1515 => Some("Invalid w/o a current index"),  // JET_errNoCurrentIndex
        -1516 => Some("The key is completely made"),  // JET_errKeyIsMade
        -1517 => Some("Column Id Incorrect"),  // JET_errBadColumnId
        -1518 => Some("Bad itagSequence for tagged column"),  // JET_errBadItagSequence
        -1519 => Some("Cannot delete, column participates in relationship"),  // JET_errColumnInRelationship
        1520 => Some("Single instance column bursted"),  // JET_wrnCopyLongValue
        -1521 => Some("AutoIncrement and Version cannot be tagged"),  // JET_errCannotBeTagged
        -1524 => Some("Default value exceeds maximum size"),  // JET_errDefaultValueTooBig
        -1525 => Some("Duplicate detected on a unique multi-valued column"),  // JET_errMultiValuedDuplicate
        -1526 => Some("Corruption encountered in long-value tree"),  // JET_errLVCorrupted
        -1528 => Some("Duplicate detected on a unique multi-valued column after data was normalized, and normalizing truncated the data before comparison"),  // JET_errMultiValuedDuplicateAfterTruncation
        -1529 => Some("Invalid column in derived table"),  // JET_errDerivedColumnCorruption
        -1530 => Some("Tried to convert column to a primary index placeholder, but column doesn't meet necessary criteria"),  // JET_errInvalidPlaceholderColumn
        1531 => Some("Column value(s) not returned because the corresponding column id or itagSequence requested for enumeration was null"),  // JET_wrnColumnSkipped
        1532 => Some("Column value(s) not returned because they could not be reconstructed from the data at hand"),  // JET_wrnColumnNotLocal
        1533 => Some("Column values exist that were not requested for enumeration"),  // JET_wrnColumnMoreTags
        1534 => Some("Column value truncated at the requested size limit during enumeration"),  // JET_wrnColumnTruncated
        1535 => Some("Column values exist but were not returned by request"),  // JET_wrnColumnPresent
        1536 => Some("Column value returned in JET_COLUMNENUM as a result of JET_bitEnumerateCompressOutput"),  // JET_wrnColumnSingleValue
        1537 => Some("Column value(s) not returned because they were set to their default value(s) and JET_bitEnumerateIgnoreDefault was specified"),  // JET_wrnColumnDefault
        -1538 => Some("Only JET_coltypLongText and JET_coltypLongBinary columns can be compressed"),  // JET_errColumnCannotBeCompressed
        1539 => Some("Column value(s) not returned because they could not be reconstructed from the data in the record"),  // JET_wrnColumnNotInRecord
        -1540 => Some("Cannot retrieve/set encrypted column without an encryption key"),  // JET_errColumnNoEncryptionKey
        -1601 => Some("The key was not found"),  // JET_errRecordNotFound
        -1602 => Some("No working buffer"),  // JET_errRecordNoCopy
        -1603 => Some("Currency not on a record"),  // JET_errNoCurrentRecord
        -1604 => Some("Primary key may not change"),  // JET_errRecordPrimaryChanged
        -1605 => Some("Illegal duplicate key"),  // JET_errKeyDuplicate
        -1607 => Some("Attempted to update record when record update was already in progress"),  // JET_errAlreadyPrepared
        -1608 => Some("No call to JetMakeKey"),  // JET_errKeyNotMade
        -1609 => Some("No call to JetPrepareUpdate"),  // JET_errUpdateNotPrepared
        1610 => Some("Data has changed"),  // JET_wrnDataHasChanged
        -1611 => Some("Data has changed, operation aborted"),  // JET_errDataHasChanged
        1618 => Some("Moved to new key"),  // JET_wrnKeyChanged
        -1619 => Some("Windows installation does not support language"),  // JET_errLanguageNotSupported
        -1620 => Some("Internal error: data could not be decompressed"),  // JET_errDecompressionFailed
        _ => None,
    }
}

/// One block of the catalog (executable side).
fn text_f(code: i32) -> (r: Option<&'static str>)
    ensures
        r == spec_text_f(code),
{
    match code {
        -1430 => Some("tuple index can only be on a secondary index"),  // JET_errIndexTuplesSecondaryIndexOnly
        -1431 => Some("OBSOLETE"),  // JET_errIndexTuplesOneColumnOnly
        -1432 => Some("tuple index must be a non-unique index"),  // JET_errIndexTuplesNonUniqueOnly
        -1433 => Some("OBSOLETE"),  // JET_errIndexTuplesTextColumnsOnly
        -1434 => Some("tuple index does not allow setting cbVarSegMac"),  // JET_errIndexTuplesVarSegMacNotAllowed
        -1435 => Some("invalid min/max tuple length or max characters to index specified"),  // JET_errIndexTuplesInvalidLimits
        -1436 => Some("cannot call RetrieveColumn() with RetrieveFromIndex on a tuple index"),  // JET_errIndexTuplesCannotRetrieveFromIndex
        -1437 => Some("specified key does not meet minimum tuple length"),  // JET_errIndexTuplesKeyTooSmall
        -1438 => Some("Specified LV chunk size is not supported"),  // JET_errInvalidLVChunkSize
        -1439 => Some("Only JET_coltypLongText and JET_coltypLongBinary columns can be encrypted"),  // JET_errColumnCannotBeEncrypted
        -1440 => Some("Cannot index encrypted column"),  // JET_errCannotIndexOnEncryptedColumn
        -1501 => Some("Column value is long"),  // JET_errColumnLong
        -1502 => Some("No such chunk in long value"),  // JET_errColumnNoChunk
        -1503 => Some("Field will not fit in record"),  // JET_errColumnDoesNotFit
        -1504 => Some("Null not valid"),  // JET_errNullInvalid
        -1505 => Some("Column indexed, cannot delete"),  // JET_errColumnIndexed
        -1506 => Some("Field length is greater than maximum"),  // JET_errColumnTooBig
        -1507 => Some("No such column"),  // JET_errColumnNotFound
        -1508 => Some("Field is already defined"),  // JET_errColumnDuplicate
        -1509 => Some("Attempted to create a multi-valued column, but column was not Tagged"),  // JET_errMultiValuedColumnMustBeTagged
        -1510 => Some("Second autoincrement or version column"),  // JET_errColumnRedundant
        -1511 => Some("Invalid column data type"),  // JET_errInvalidColumnType
        1512 => Some("Max length too big, truncated"),  // JET_wrnColumnMaxTruncated
        -1514 => Some("No non-NULL tagged columns"),  // JET_errTaggedNotNULL
        -1515 => Some("Invalid w/o a current index"),  // JET_errNoCurrentIndex
        -1516 => Some("The key is completely made"),  // JET_errKeyIsMade
        -1517 => Some("Column Id Incorrect"),  // JET_errBadColumnId
        -1518 => Some("Bad itagSequence for tagged column"),  // JET_errBadItagSequence
        -1519 => Some("Cannot delete, column participates in relationship"),  // JET_errColumnInRelationship
        1520 => Some("Single instance column bursted"),  // JET_wrnCopyLongValue
        -1521 => Some("AutoIncrement and Version cannot be tagged"),  // JET_errCannotBeTagged
        -1524 => Some("Default value exceeds maximum size"),  // JET_errDefaultValueTooBig
        -1525 => Some("Duplicate detected on a unique multi-valued column"),  // JET_errMultiValuedDuplicate
        -1526 => Some("Corruption encountered in long-value tree"),  // JET_errLVCorrupted
        -1528 => Some("Duplicate detected on a unique multi-valued column after data was normalized, and normalizing truncated the data before comparison"),  // JET_errMultiValuedDuplicateAfterTruncation
        -1529 => Some("Invalid column in derived table"),  // JET_errDerivedColumnCorruption
        -1530 => Some("Tried to convert column to a primary index placeholder, but column doesn't meet necessary criteria"),  // JET_errInvalidPlaceholderColumn
        1531 => Some("Column value(s) not returned because the corresponding column id or itagSequence requested for enumeration was null"),  // JET_wrnColumnSkipped
        1532 => Some("Column value(s) not returned because they could not be reconstructed from the data at hand"),  // JET_wrnColumnNotLocal
        1533 => Some("Column values exist that were not requested for enumeration"),  // JET_wrnColumnMoreTags
        1534 => Some("Column value truncated at the requested size limit during enumeration"),  // JET_wrnColumnTruncated
        1535 => Some("Column values exist but were not returned by request"),  // JET_wrnColumnPresent
        1536 => Some("Column value returned in JET_COLUMNENUM as a result of JET_bitEnumerateCompressOutput"),  // JET_wrnColumnSingleValue
        1537 => Some("Column value(s) not returned because they were set to their default value(s) and JET_bitEnumerateIgnoreDefault was specified"),  // JET_wrnColumnDefault
        -1538 => Some("Only JET_coltypLongText and JET_coltypLongBinary columns can be compressed"),  // JET_errColumnCannotBeCompressed
        1539 => Some("Column value(s) not returned because they could not be reconstructed from the data in the record"),  // JET_wrnColumnNotInRecord
        -1540 => Some("Cannot retrieve/set encrypted column without an encryption key"),  // JET_errColumnNoEncryptionKey
        -1601 => Some("The key was not found"),  // JET_errRecordNotFound
        -1602 => Some("No working buffer"),  // JET_errRecordNoCopy
        -1603 => Some("Currency not on a record"),  // JET_errNoCurrentRecord
        -1604 => Some("Primary key may not change"),  // JET_errRecordPrimaryChanged
        -1605 => Some("Illegal duplicate key"),  // JET_errKeyDuplicate
        -1607 => Some("Attempted to update record when record update was already in progress"),  // JET_errAlreadyPrepared
        -1608 => Some("No call to JetMakeKey"),  // JET_errKeyNotMade
        -1609 => Some("No call to JetPrepareUpdate"),  // JET_errUpdateNotPrepared
        1610 => Some("Data has changed"),  // JET_wrnDataHasChanged
        -1611 => Some("Data has changed, operation aborted"),  // JET_errDataHasChanged
        1618 => Some("Moved to new key"),  // JET_wrnKeyChanged
        -1619 => Some("Windows installation does not support language"),  // JET_errLanguageNotSupported
        -1620 => Some("Internal error: data could not be decompressed"),  // JET_errDecompressionFailed
        _ => None,
    }
}

/// One block of the catalog (specification side).
pub open spec fn spec_text_g(code: i32) -> Option<&'static str> {
    match code {
        -1621 => Some("No version updates only for uncommitted tables"),  // JET_errUpdateMustVersion
        -1622 => Some("Data could not be decrypted"),  // JET_errDecryptionFailed
        -1701 => Some("Too many sort processes"),  // JET_errTooManySorts
        -1702 => Some("Invalid operation on Sort"),  // JET_errInvalidOnSort
        -1803 => Some("Temp file could not be opened"),  // JET_errTempFileOpenError
        -1805 => Some("Too many open databases"),  // JET_errTooManyAttachedDatabases
        -1808 => Some("No space left on disk"),  // JET_errDiskFull
        -1809 => Some("Permission denied"),  // JET_errPermissionDenied
        -1811 => Some("File not found"),  // JET_errFileNotFound
        -1812 => Some("Invalid file type"),  // JET_errFileInvalidType
        1813 => Some("Database file is read only"),  // JET_wrnFileOpenReadOnly
        -1850 => Some("Cannot Restore after init."),  // JET_errAfterInitialization
        -1852 => Some("Logs could not be interpreted"),  // JET_errLogCorrupted
        -1906 => Some("Invalid operation"),  // JET_errInvalidOperation
        -1907 => Some("Access denied"),  // JET_errAccessDenied
        1908 => Some("Idle registry full"),  // JET_wrnIdleFull
        -1909 => Some("Infinite split"),  // JET_errTooManySplits
        -1910 => Some("Multiple threads are using the same session"),  // JET_errSessionSharingViolation
        -1911 => Some("An entry point in a DLL we require could not be found"),  // JET_errEntryPointNotFound
        -1912 => Some("Specified session already has a session context set"),  // JET_errSessionContextAlreadySet
        -1913 => Some("Tried to reset session context, but current thread did not orignally set the session context"),  // JET_errSessionContextNotSetByThisThread
        -1914 => Some("Tried to terminate session in use"),  // JET_errSessionInUse
        -1915 => Some("Internal error during dynamic record format conversion"),  // JET_errRecordFormatConversionFailed
        -1916 => Some("Just one open user database per session is allowed (JET_paramOneDatabasePerSession)"),  // JET_errOneDatabasePerSession
        -1917 => Some("error during rollback"),  // JET_errRollbackError
        -1918 => Some("The version of the persisted flush map is not supported by this version of the engine."),  // JET_errFlushMapVersionUnsupported
        -1919 => Some("The persisted flush map and the database do not match."),  // JET_errFlushMapDatabaseMismatch
        -1920 => Some("The persisted flush map cannot be reconstructed."),  // JET_errFlushMapUnrecoverable
        2000 => Some("Online defrag already running on specified database"),  // JET_wrnDefragAlreadyRunning
        2001 => Some("Online defrag not running on specified database"),  // JET_wrnDefragNotRunning
        -2004 => Some("The operation did not complete successfully because the database is already running maintenance on specified database"),  // JET_errDatabaseAlreadyRunningMaintenance
        2100 => Some("Unregistered a non-existant callback function"),  // JET_wrnCallbackNotRegistered
        -2101 => Some("A callback failed"),  // JET_errCallbackFailed
        -2102 => Some("A callback function could not be found"),  // JET_errCallbackNotResolved
        -2103 => Some("An element of the JET space hints structure was not correct or actionable."),  // JET_errSpaceHintsInvalid
        -2401 => Some("OS Shadow copy API used in an invalid sequence"),  // JET_errOSSnapshotInvalidSequence
        -2402 => Some("OS Shadow copy ended with time-out"),  // JET_errOSSnapshotTimeOut
        -2403 => Some("OS Shadow copy not allowed (backup or recovery in progress)"),  // JET_errOSSnapshotNotAllowed
        -2404 => Some("invalid JET_OSSNAPID"),  // JET_errOSSnapshotInvalidSnapId
        -3000 => Some("Attempted to use Local Storage without a callback function being specified"),  // JET_errLSCallbackNotSpecified
        -3001 => Some("Attempted to set Local Storage for an object which already had it set"),  // JET_errLSAlreadySet
        -3002 => Some("Attempted to retrieve Local Storage from an object which didn't have it set"),  // JET_errLSNotSet
        -4000 => Some("an I/O was issued to a location that was sparse"),  // JET_errFileIOSparse
        -4001 => Some("a read was issued to a location beyond EOF (writes will expand the file)"),  // JET_errFileIOBeyondEOF
        -4002 => Some("instructs the JET_ABORTRETRYFAILCALLBACK caller to abort the specified I/O"),  // JET_errFileIOAbort
        -4003 => Some("instructs the JET_ABORTRETRYFAILCALLBACK caller to retry the specified I/O"),  // JET_errFileIORetry
        -4004 => Some("instructs the JET_ABORTRETRYFAILCALLBACK caller to fail the specified I/O"),  // JET_errFileIOFail
        -4005 => Some("read/write access is not supported on compressed files"),  // JET_errFileCompressed
        _ => None,
    }
}

/// One block of the catalog (executable side).
fn text_g(code: i32) -> (r: Option<&'static str>)
    ensures
        r == spec_text_g(code),
{
    match code {
        -1621 => Some("No version updates only for uncommitted tables"),  // JET_errUpdateMustVersion
        -1622 => Some("Data could not be decrypted"),  // JET_errDecryptionFailed
        -1701 => Some("Too many sort processes"),  // JET_errTooManySorts
        -1702 => Some("Invalid operation on Sort"),  // JET_errInvalidOnSort
        -1803 => Some("Temp file could not be opened"),  // JET_errTempFileOpenError
        -1805 => Some("Too many open databases"),  // JET_errTooManyAttachedDatabases
        -1808 => Some("No space left on disk"),  // JET_errDiskFull
        -1809 => Some("Permission denied"),  // JET_errPermissionDenied
        -1811 => Some("File not found"),  // JET_errFileNotFound
        -1812 => Some("Invalid file type"),  // JET_errFileInvalidType
        1813 => Some("Database file is read only"),  // JET_wrnFileOpenReadOnly
        -1850 => Some("Cannot Restore after init."),  // JET_errAfterInitialization
        -1852 => Some("Logs could not be interpreted"),  // JET_errLogCorrupted
        -1906 => Some("Invalid operation"),  // JET_errInvalidOperation
        -1907 => Some("Access denied"),  // JET_errAccessDenied
        1908 => Some("Idle registry full"),  // JET_wrnIdleFull
        -1909 => Some("Infinite split"),  // JET_errTooManySplits
        -1910 => Some("Multiple threads are using the same session"),  // JET_errSessionSharingViolation
        -1911 => Some("An entry point in a DLL we require could not be found"),  // JET_errEntryPointNotFound
        -1912 => Some("Specified session already has a session context set"),  // JET_errSessionContextAlreadySet
        -1913 => Some("Tried to reset session context, but current thread did not orignally set the session context"),  // JET_errSessionContextNotSetByThisThread
        -1914 => Some("Tried to terminate session in use"),  // JET_errSessionInUse
        -1915 => Some("Internal error during dynamic record format conversion"),  // JET_errRecordFormatConversionFailed
        -1916 => Some("Just one open user database per session is allowed (JET_paramOneDatabasePerSession)"),  // JET_errOneDatabasePerSession
        -1917 => Some("error during rollback"),  // JET_errRollbackError
        -1918 => Some("The version of the persisted flush map is not supported by this version of the engine."),  // JET_errFlushMapVersionUnsupported
        -1919 => Some("The persisted flush map and the database do not match."),  // JET_errFlushMapDatabaseMismatch
        -1920 => Some("The persisted flush map cannot be reconstructed."),  // JET_errFlushMapUnrecoverable
        2000 => Some("Online defrag already running on specified database"),  // JET_wrnDefragAlreadyRunning
        2001 => Some("Online defrag not running on specified database"),  // JET_wrnDefragNotRunning
        -2004 => Some("The operation did not complete successfully because the database is already running maintenance on specified database"),  // JET_errDatabaseAlreadyRunningMaintenance
        2100 => Some("Unregistered a non-existant callback function"),  // JET_wrnCallbackNotRegistered
        -2101 => Some("A callback failed"),  // JET_errCallbackFailed
        -2102 => Some("A callback function could not be found"),  // JET_errCallbackNotResolved
        -2103 => Some("An element of the JET space hints structure was not correct or actionable."),  // JET_errSpaceHintsInvalid
        -2401 => Some("OS Shadow copy API used in an invalid sequence"),  // JET_errOSSnapshotInvalidSequence
        -2402 => Some("OS Shadow copy ended with time-out"),  // JET_errOSSnapshotTimeOut
        -2403 => Some("OS Shadow copy not allowed (backup or recovery in progress)"),  // JET_errOSSnapshotNotAllowed
        -2404 => Some("invalid JET_OSSNAPID"),  // JET_errOSSnapshotInvalidSnapId
        -3000 => Some("Attempted to use Local Storage without a callback function being specified"),  // JET_errLSCallbackNotSpecified
        -3001 => Some("Attempted to set Local Storage for an object which already had it set"),  // JET_errLSAlreadySet
        -3002 => Some("Attempted to retrieve Local Storage from an object which didn't have it set"),  // JET_errLSNotSet
        -4000 => Some("an I/O was issued to a location that was sparse"),  // JET_errFileIOSparse
        -4001 => Some("a read was issued to a location beyond EOF (writes will expand the file)"),  // JET_errFileIOBeyondEOF
        -4002 => Some("instructs the JET_ABORTRETRYFAILCALLBACK caller to abort the specified I/O"),  // JET_errFileIOAbort
        -4003 => Some("instructs the JET_ABORTRETRYFAILCALLBACK caller to retry the specified I/O"),  // JET_errFileIORetry
        -4004 => Some("instructs the JET_ABORTRETRYFAILCALLBACK caller to fail the specified I/O"),  // JET_errFileIOFail
        -4005 => Some("read/write access is not supported on compressed files"),  // JET_errFileCompressed
        _ => None,
    }
}

/// Canonical text of the known status codes.
pub open spec fn spec_text(code: i32) -> Option<&'static str> {
    if spec_text_a(code) is Some {
        spec_text_a(code)
    } else if spec_text_b(code) is Some {
        spec_text_b(code)
    } else if spec_text_c(code) is Some {
        spec_text_c(code)
    } else if spec_text_d(code) is Some {
        spec_text_d(code)
    } else if spec_text_e(code) is Some {
        spec_text_e(code)
    } else if spec_text_f(code) is Some {
        spec_text_f(code)
    } else if spec_text_g(code) is Some {
        spec_text_g(code)
    } else {
        None
    }
}

/// Canonical descriptive text of a status code, if the code is known.
pub fn get_text(code: i32) -> (r: Option<&'static str>)
    ensures
        r == spec_text(code),
{
    let ra = text_a(code);
    if ra.is_some() {
        return ra;
    }
    let rb = text_b(code);
    if rb.is_some() {
        return rb;
    }
    let rc = text_c(code);
    if rc.is_some() {
        return rc;
    }
    let rd = text_d(code);
    if rd.is_some() {
        return rd;
    }
    let re = text_e(code);
    if re.is_some() {
        return re;
    }
    let rf = text_f(code);
    if rf.is_some() {
        return rf;
    }
    let rg = text_g(code);
    if rg.is_some() {
        return rg;
    }
    None
}

/// Fallback text for a status code outside the catalog; never empty.
pub const NO_ERROR_TEXT: &'static str = "[no error text]";

/// A failed engine operation: the status code it returned and the catalog
/// text for that code.
#[derive(Clone, Copy, Debug)]
pub struct JetError {
    pub code: i32,
    pub text: &'static str,
}

/// Specification of the error value built from a status code.
pub open spec fn spec_error_from(code: i32) -> JetError {
    JetError {
        code: code,
        text: match spec_text(code) {
            Some(s) => s,
            None => NO_ERROR_TEXT,
        },
    }
}

impl JetError {
    /// Build the error value for a status code: the code itself plus its
    /// catalog text, or the non-empty fallback for an unknown code.
    pub fn from_code(code: i32) -> (r: JetError)
        ensures
            r == spec_error_from(code),
            r.code == code,
    {
        let text = match get_text(code) {
            Some(s) => s,
            None => NO_ERROR_TEXT,
        };
        JetError { code, text }
    }
}

impl From<i32> for JetError {
    /// Build the error value for a status code, as `from_code` does.
    fn from(code: i32) -> (r: JetError) {
        JetError::from_code(code)
    }
}

impl vstd::std_specs::convert::FromSpecImpl<i32> for JetError {
    open spec fn obeys_from_spec() -> bool {
        true
    }

    open spec fn from_spec(code: i32) -> JetError {
        spec_error_from(code)
    }
}

/// Descriptive text for any status code: the catalog text where the code is
/// known, the fixed fallback otherwise; it never fails, and for a code
/// outside the catalog it is the stable non-empty fallback.
pub fn describe(code: i32) -> (r: &'static str)
    ensures
        r == spec_error_from(code).text,
        spec_text(code) is None ==> r@.len() > 0,
{
    proof {
        lemma_describe_unknown(code);
    }
    match get_text(code) {
        Some(s) => s,
        None => NO_ERROR_TEXT,
    }
}

/// A status code outside the catalog describes to the one fixed fallback
/// text, which is not empty: describing an unknown code cannot fail.
pub proof fn lemma_describe_unknown(code: i32)
    ensures
        spec_text(code) is None ==> spec_error_from(code).text == NO_ERROR_TEXT,
        NO_ERROR_TEXT@.len() > 0,
{
    reveal_strlit("[no error text]");
}


/// The finer-grained category of an error, as the engine's secondary
/// classification query reports it.
#[derive(Clone, Copy, Debug, PartialEq, Eq, Structural)]
pub enum ErrorCategory {
    Unknown,
    GeneralError,
    Operation,
    Fatal,
    Io,
    Resource,
    Memory,
    Quota,
    Disk,
    Data,
    Corruption,
    Inconsistent,
    Fragmentation,
    Api,
    Usage,
    State,
    Obsolete,
}

/// The category a classification value stands for, when it is one the
/// engine defines.
pub open spec fn spec_category(errcat: i32) -> Option<ErrorCategory> {
    if errcat == crate::codes::JET_errcatUnknown {
        Some(ErrorCategory::Unknown)
    } else if errcat == crate::codes::JET_errcatError {
        Some(ErrorCategory::GeneralError)
    } else if errcat == crate::codes::JET_errcatOperation {
        Some(ErrorCategory::Operation)
    } else if errcat == crate::codes::JET_errcatFatal {
        Some(ErrorCategory::Fatal)
    } else if errcat == crate::codes::JET_errcatIO {
        Some(ErrorCategory::Io)
    } else if errcat == crate::codes::JET_errcatResource {
        Some(ErrorCategory::Resource)
    } else if errcat == crate::codes::JET_errcatMemory {
        Some(ErrorCategory::Memory)
    } else if errcat == crate::codes::JET_errcatQuota {
        Some(ErrorCategory::Quota)
    } else if errcat == crate::codes::JET_errcatDisk {
        Some(ErrorCategory::Disk)
    } else if errcat == crate::codes::JET_errcatData {
        Some(ErrorCategory::Data)
    } else if errcat == crate::codes::JET_errcatCorruption {
        Some(ErrorCategory::Corruption)
    } else if errcat == crate::codes::JET_errcatInconsistent {
        Some(ErrorCategory::Inconsistent)
    } else if errcat == crate::codes::JET_errcatFragmentation {
        Some(ErrorCategory::Fragmentation)
    } else if errcat == crate::codes::JET_errcatApi {
        Some(ErrorCategory::Api)
    } else if errcat == crate::codes::JET_errcatUsage {
        Some(ErrorCategory::Usage)
    } else if errcat == crate::codes::JET_errcatState {
        Some(ErrorCategory::State)
    } else if errcat == crate::codes::JET_errcatObsolete {
        Some(ErrorCategory::Obsolete)
    } else {
        None
    }
}

/// The text a category is rendered as in a human-facing message.
pub open spec fn spec_category_name(c: ErrorCategory) -> &'static str {
    match c {
        ErrorCategory::Unknown => "unknown",
        ErrorCategory::GeneralError => "[general error]",
        ErrorCategory::Operation => "operational",
        ErrorCategory::Fatal => "fatal",
        ErrorCategory::Io => "I/O",
        ErrorCategory::Resource => "resource",
        ErrorCategory::Memory => "memory",
        ErrorCategory::Quota => "quota",
        ErrorCategory::Disk => "disk space",
        ErrorCategory::Data => "data",
        ErrorCategory::Corruption => "data corruption",
        ErrorCategory::Inconsistent => "data inconsistency",
        ErrorCategory::Fragmentation => "fragmentation",
        ErrorCategory::Api => "API",
        ErrorCategory::Usage => "programmer",
        ErrorCategory::State => "database state",
        ErrorCategory::Obsolete => "[obsolete error]",
    }
}

/// Interpret the engine's classification value.
pub fn category_of(errcat: i32) -> (r: Option<ErrorCategory>)
    ensures
        r == spec_category(errcat),
{
    if errcat == crate::codes::JET_errcatUnknown {
        Some(ErrorCategory::Unknown)
    } else if errcat == crate::codes::JET_errcatError {
        Some(ErrorCategory::GeneralError)
    } else if errcat == crate::codes::JET_errcatOperation {
        Some(ErrorCategory::Operation)
    } else if errcat == crate::codes::JET_errcatFatal {
        Some(ErrorCategory::Fatal)
    } else if errcat == crate::codes::JET_errcatIO {
        Some(ErrorCategory::Io)
    } else if errcat == crate::codes::JET_errcatResource {
        Some(ErrorCategory::Resource)
    } else if errcat == crate::codes::JET_errcatMemory {
        Some(ErrorCategory::Memory)
    } else if errcat == crate::codes::JET_errcatQuota {
        Some(ErrorCategory::Quota)
    } else if errcat == crate::codes::JET_errcatDisk {
        Some(ErrorCategory::Disk)
    } else if errcat == crate::codes::JET_errcatData {
        Some(ErrorCategory::Data)
    } else if errcat == crate::codes::JET_errcatCorruption {
        Some(ErrorCategory::Corruption)
    } else if errcat == crate::codes::JET_errcatInconsistent {
        Some(ErrorCategory::Inconsistent)
    } else if errcat == crate::codes::JET_errcatFragmentation {
        Some(ErrorCategory::Fragmentation)
    } else if errcat == crate::codes::JET_errcatApi {
        Some(ErrorCategory::Api)
    } else if errcat == crate::codes::JET_errcatUsage {
        Some(ErrorCategory::Usage)
    } else if errcat == crate::codes::JET_errcatState {
        Some(ErrorCategory::State)
    } else if errcat == crate::codes::JET_errcatObsolete {
        Some(ErrorCategory::Obsolete)
    } else {
        None
    }
}

/// The name a category is rendered as.
pub fn category_name(c: ErrorCategory) -> (r: &'static str)
    ensures
        r == spec_category_name(c),
{
    match c {
        ErrorCategory::Unknown => "unknown",
        ErrorCategory::GeneralError => "[general error]",
        ErrorCategory::Operation => "operational",
        ErrorCategory::Fatal => "fatal",
        ErrorCategory::Io => "I/O",
        ErrorCategory::Resource => "resource",
        ErrorCategory::Memory => "memory",
        ErrorCategory::Quota => "quota",
        ErrorCategory::Disk => "disk space",
        ErrorCategory::Data => "data",
        ErrorCategory::Corruption => "data corruption",
        ErrorCategory::Inconsistent => "data inconsistency",
        ErrorCategory::Fragmentation => "fragmentation",
        ErrorCategory::Api => "API",
        ErrorCategory::Usage => "programmer",
        ErrorCategory::State => "database state",
        ErrorCategory::Obsolete => "[obsolete error]",
    }
}


/// The digit character for one decimal digit value.
pub open spec fn spec_digit(d: int) -> char
    recommends
        0 <= d < 10,
{
    if d == 0 {
        '0'
    } else if d == 1 {
        '1'
    } else if d == 2 {
        '2'
    } else if d == 3 {
        '3'
    } else if d == 4 {
        '4'
    } else if d == 5 {
        '5'
    } else if d == 6 {
        '6'
    } else if d == 7 {
        '7'
    } else if d == 8 {
        '8'
    } else {
        '9'
    }
}

/// Decimal digits of a natural number, most significant first.
pub open spec fn spec_decimal_nat(n: nat) -> Seq<char>
    decreases n,
{
    if n < 10 {
        seq![spec_digit(n as int)]
    } else {
        spec_decimal_nat(n / 10) + seq![spec_digit((n % 10) as int)]
    }
}

/// Decimal rendering of a signed status code, minus sign included.
pub open spec fn spec_decimal_i32(n: i32) -> Seq<char> {
    if n < 0 {
        seq!['-'] + spec_decimal_nat((-(n as int)) as nat)
    } else {
        spec_decimal_nat(n as nat)
    }
}

/// The digit character of one decimal digit.
fn digit_char(d: u32) -> (c: char)
    requires
        d < 10,
    ensures
        c == spec_digit(d as int),
{
    match d {
        0 => '0',
        1 => '1',
        2 => '2',
        3 => '3',
        4 => '4',
        5 => '5',
        6 => '6',
        7 => '7',
        8 => '8',
        _ => '9',
    }
}

/// The decimal digits of an unsigned number, most significant first.
fn decimal_u32(n: u32) -> (r: Vec<char>)
    ensures
        r@ == spec_decimal_nat(n as nat),
    decreases n,
{
    if n < 10 {
        let mut r: Vec<char> = Vec::new();
        r.push(digit_char(n));
        proof {
            assert(r@ =~= spec_decimal_nat(n as nat));
        }
        r
    } else {
        let mut r = decimal_u32(n / 10);
        r.push(digit_char(n % 10));
        proof {
            assert(r@ =~= spec_decimal_nat(n as nat));
        }
        r
    }
}

/// Append the decimal rendering of a signed status code to a string.
fn append_decimal_i32(out: &mut String, n: i32)
    ensures
        final(out)@ == old(out)@ + spec_decimal_i32(n),
{
    let mag: u32 = if n >= 0 {
        n as u32
    } else {
        crate::wide_string::push_char(out, '-');
        (-(n as i64)) as u32
    };
    let digits = decimal_u32(mag);
    let mut i: usize = 0;
    let ghost mid = out@;
    while i < digits.len()
        invariant
            i <= digits@.len(),
            digits@ == spec_decimal_nat(mag as nat),
            out@ == mid + digits@.take(i as int),
        decreases digits@.len() - i,
    {
        crate::wide_string::push_char(out, digits[i]);
        proof {
            assert(digits@.take(i as int + 1) =~= digits@.take(i as int).push(digits@[i as int]));
        }
        i = i + 1;
    }
    proof {
        assert(digits@.take(digits@.len() as int) =~= digits@);
        if n < 0 {
            assert(out@ =~= old(out)@ + spec_decimal_i32(n));
        } else {
            assert(out@ =~= old(out)@ + spec_decimal_i32(n));
        }
    }
}

/// The human-facing message for an error: the category (when the
/// secondary classification query succeeded), the catalog text and the
/// numeric code; when the query itself failed, a generic rendering that
/// still carries the code and text, plus the code the query failed with.
pub open spec fn spec_message(code: i32, text: &str, classify_status: i32, errcat: i32) -> Seq<
    char,
> {
    if classify_status == JET_errSuccess {
        "ESE DB "@ + spec_category_name(spec_category(errcat)->0)@ + " error: "@ + text@
            + " (code "@ + spec_decimal_i32(code) + ")"@
    } else {
        "ESE DB error: "@ + text@ + " (code "@ + spec_decimal_i32(code)
            + ") (failed to get error type because code "@ + spec_decimal_i32(classify_status)
            + ")"@
    }
}

impl JetError {
    /// Render the human-facing message, given the status of the secondary
    /// classification query and the category it reported.  A successful
    /// query must have reported one of the engine's defined categories.
    pub fn message(&self, classify_status: i32, errcat: i32) -> (r: String)
        requires
            classify_status == JET_errSuccess ==> spec_category(errcat) is Some,
        ensures
            r@ == spec_message(self.code, self.text, classify_status, errcat),
    {
        let mut out = String::new();
        if classify_status == JET_errSuccess {
            let cat = match category_of(errcat) {
                Some(c) => c,
                None => {
                    proof {
                        assert(false);
                    }
                    ErrorCategory::Unknown
                },
            };
            out.append("ESE DB ");
            out.append(category_name(cat));
            out.append(" error: ");
            out.append(self.text);
            out.append(" (code ");
            append_decimal_i32(&mut out, self.code);
            out.append(")");
        } else {
            out.append("ESE DB error: ");
            out.append(self.text);
            out.append(" (code ");
            append_decimal_i32(&mut out, self.code);
            out.append(") (failed to get error type because code ");
            append_decimal_i32(&mut out, classify_status);
            out.append(")");
        }
        proof {
            assert(out@ =~= spec_message(self.code, self.text, classify_status, errcat));
        }
        out
    }
}

} // verus!


