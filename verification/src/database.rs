//! One attached and opened database, scoped to the session that attached
//! it; table cursors are opened through it.

use vstd::prelude::*;
use crate::codes::JET_errSuccess;
use crate::error::{JetError, spec_error_from};
use crate::session::JetSession;
use crate::table::JetTable;

verus! {

/// One open database: the handle the engine assigned, plus the handle of
/// the owning session, cached for the cursor calls made through it.
#[derive(Debug)]
pub struct JetDatabase {
    sesid: u64,
    dbid: u32,
}

impl JetDatabase {
    /// The database handle, as a specification value.
    pub closed spec fn spec_dbid(&self) -> u32 {
        self.dbid
    }

    /// The owning session's handle, as a specification value.
    pub closed spec fn spec_sesid(&self) -> u64 {
        self.sesid
    }

    /// Wrap the handle of a database the engine just opened, binding it to
    /// the session it was opened through.
    pub fn new(session: &JetSession, dbid: u32) -> (r: JetDatabase)
        ensures
            r.spec_sesid() == session.spec_raw(),
            r.spec_dbid() == dbid,
    {
        JetDatabase { sesid: session.raw(), dbid }
    }

    /// The database handle.
    pub fn dbid(&self) -> (r: u32)
        ensures
            r == self.spec_dbid(),
    {
        self.dbid
    }

    /// The owning session's handle.
    pub fn sesid(&self) -> (r: u64)
        ensures
            r == self.spec_sesid(),
    {
        self.sesid
    }

    /// Interpret opening a table by name: success wraps the cursor handle
    /// the engine assigned, positioned at the engine-defined initial state
    /// with no current record.
    pub fn open_table(&self, status: i32, tableid: u64) -> (r: Result<JetTable, JetError>)
        ensures
            status == JET_errSuccess ==> (r matches Ok(t) && t.spec_raw() == tableid
                && t.spec_sesid() == self.spec_sesid() && !t.has_current()),
            status != JET_errSuccess ==> (r matches Err(e) && e == spec_error_from(status)),
    {
        if status == JET_errSuccess {
            Ok(JetTable::new(self.sesid, tableid))
        } else {
            Err(JetError::from_code(status))
        }
    }

    /// Interpret closing the database.  Failure is fatal for the caller,
    /// as with ending a session: there is no further fallback.
    pub fn apply_close(&self, status: i32) -> (r: Result<(), JetError>)
        ensures
            status == JET_errSuccess ==> r is Ok,
            status != JET_errSuccess ==> (r matches Err(e) && e == spec_error_from(status)),
    {
        if status == JET_errSuccess {
            Ok(())
        } else {
            Err(JetError::from_code(status))
        }
    }
}

} // verus!
