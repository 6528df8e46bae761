//! One logical connection to an engine instance, through which databases
//! are attached and opened.
//!
//! A database must be attached before it can be opened, on the same
//! session; the attach step hands out a witness value that the open step
//! consumes, so the two calls cannot be issued out of order.

use vstd::prelude::*;
use crate::codes::{JET_errSuccess, JET_sesidNil, JET_bitNil, JET_bitDbReadOnly,
    JET_wrnDatabaseAttached};
use crate::database::JetDatabase;
use crate::error::{JetError, spec_error_from};

verus! {

/// Access mode requested when opening a database.  Read-only must be
/// requested explicitly; the engine, not this layer, enforces it.
#[derive(Clone, Copy, Debug, PartialEq, Eq, Structural)]
pub enum DatabaseAccessMode {
    ReadOnly,
    ReadWrite,
}

/// The option bit a database attachment hands to the engine for the
/// requested access mode.
pub open spec fn spec_attach_bit(mode: DatabaseAccessMode) -> u32 {
    match mode {
        DatabaseAccessMode::ReadOnly => JET_bitDbReadOnly,
        DatabaseAccessMode::ReadWrite => JET_bitNil,
    }
}

/// Witness that a database file was successfully attached through a
/// session; opening the database consumes it, so attach always precedes
/// open.
#[derive(Debug)]
pub struct DatabaseAttached {
    sesid: u64,
}

impl DatabaseAttached {
    /// The session the attachment was made through.
    pub closed spec fn spec_sesid(&self) -> u64 {
        self.sesid
    }
}

/// One session: the handle the engine assigned to the connection.
#[derive(Debug)]
pub struct JetSession {
    sesid: u64,
}

impl JetSession {
    /// The session handle, as a specification value.
    pub closed spec fn spec_raw(&self) -> u64 {
        self.sesid
    }

    /// Wrap the handle of a session the engine just opened.
    pub fn new(sesid: u64) -> (r: JetSession)
        requires
            sesid != JET_sesidNil,
        ensures
            r.spec_raw() == sesid,
    {
        JetSession { sesid }
    }

    /// The session handle.
    pub fn raw(&self) -> (r: u64)
        ensures
            r == self.spec_raw(),
    {
        self.sesid
    }

    /// The option bit for an attachment in the given access mode.
    pub fn attach_bit(&self, mode: DatabaseAccessMode) -> (r: u32)
        ensures
            r == spec_attach_bit(mode),
    {
        match mode {
            DatabaseAccessMode::ReadOnly => JET_bitDbReadOnly,
            DatabaseAccessMode::ReadWrite => JET_bitNil,
        }
    }

    /// Interpret attaching a database file.  Success hands out the witness
    /// that the open step requires.  The already-attached warning is
    /// surfaced as an error like every other non-zero status: this layer
    /// does not treat re-attachment as idempotent.
    pub fn apply_attach(&self, status: i32) -> (r: Result<DatabaseAttached, JetError>)
        ensures
            status == JET_errSuccess ==> (r matches Ok(t) && t.spec_sesid() == self.spec_raw()),
            status != JET_errSuccess ==> (r matches Err(e) && e == spec_error_from(status)),
            status == JET_wrnDatabaseAttached ==> r is Err,
    {
        if status == JET_errSuccess {
            Ok(DatabaseAttached { sesid: self.sesid })
        } else {
            Err(JetError::from_code(status))
        }
    }

    /// Interpret opening an attached database: success wraps the database
    /// handle the engine assigned, bound to this session.  The witness
    /// argument proves the file was attached through this same session
    /// first.
    pub fn open_database(&self, attached: DatabaseAttached, status: i32, dbid: u32) -> (r: Result<
        JetDatabase,
        JetError,
    >)
        requires
            attached.spec_sesid() == self.spec_raw(),
        ensures
            status == JET_errSuccess ==> (r matches Ok(d) && d.spec_dbid() == dbid
                && d.spec_sesid() == self.spec_raw()),
            status != JET_errSuccess ==> (r matches Err(e) && e == spec_error_from(status)),
    {
        let _ = attached;
        if status == JET_errSuccess {
            Ok(JetDatabase::new(self, dbid))
        } else {
            Err(JetError::from_code(status))
        }
    }

    /// Interpret ending the session.  A failure here is a fatal state
    /// error: a half-ended session leaves the instance's accounting
    /// inconsistent, so the caller must treat it as unrecoverable rather
    /// than continue.
    pub fn apply_end_session(&self, status: i32) -> (r: Result<(), JetError>)
        ensures
            status == JET_errSuccess ==> r is Ok,
            status != JET_errSuccess ==> (r matches Err(e) && e == spec_error_from(status)),
    {
        if status == JET_errSuccess {
            Ok(())
        } else {
            Err(JetError::from_code(status))
        }
    }
}

} // verus!
