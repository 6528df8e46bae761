//! One engine instance: global parameters, two-phase startup, session
//! creation, and the two-path shutdown discipline.
//!
//! The instance is created, optionally configured, then initialized.
//! Initialization that fails leaves the instance in the never-started
//! sentinel state, and teardown of a never-started instance performs no
//! shutdown call at all.  Teardown of a live instance first attempts the
//! graceful, complete shutdown and falls back to the forced, dirty one
//! only when the graceful path failed, so at most one shutdown path can
//! ever be reported successful.

use vstd::prelude::*;
use crate::codes::{JET_errSuccess, JET_instanceNil, JET_sesidNil};
use crate::error::{JetError, spec_error_from};
use crate::session::JetSession;
use crate::wide_string::WideString;

verus! {

/// The two shutdown paths.
#[derive(Clone, Copy, Debug, PartialEq, Eq, Structural)]
pub enum ShutdownCall {
    /// Complete shutdown: all optional work is finished first.
    Graceful,
    /// Dirty shutdown: stop without flushing; the fallback path.
    Forced,
}

/// What teardown owes next: one more engine call, or nothing.
#[derive(Clone, Copy, Debug, PartialEq, Eq, Structural)]
pub enum TeardownStep {
    Call(ShutdownCall),
    Done,
}

/// The shutdown calls a full teardown makes, in order, given whether the
/// instance is live and the status the graceful call would return.  A
/// never-started instance makes none; a live one always makes the graceful
/// call first and the forced call exactly when the graceful call failed.
pub open spec fn spec_teardown_calls(live: bool, graceful_status: i32) -> Seq<ShutdownCall> {
    if !live {
        Seq::empty()
    } else if graceful_status == JET_errSuccess {
        seq![ShutdownCall::Graceful]
    } else {
        seq![ShutdownCall::Graceful, ShutdownCall::Forced]
    }
}

/// During teardown exactly one shutdown path can succeed, and a
/// never-started instance is not shut down at all: the call sequence is
/// empty for a dead instance; otherwise it opens with the graceful call,
/// ends there when that call succeeded, and holds the forced call exactly
/// when the graceful call failed.
pub proof fn lemma_teardown_discipline(live: bool, graceful_status: i32)
    ensures
        !live ==> spec_teardown_calls(live, graceful_status) =~= Seq::<ShutdownCall>::empty(),
        live ==> spec_teardown_calls(live, graceful_status)[0] == ShutdownCall::Graceful,
        live && graceful_status == JET_errSuccess ==> spec_teardown_calls(live, graceful_status)
            =~= seq![ShutdownCall::Graceful],
        live && graceful_status != JET_errSuccess ==> spec_teardown_calls(live, graceful_status)
            =~= seq![ShutdownCall::Graceful, ShutdownCall::Forced],
{
}

/// One engine instance: the handle the engine assigned (or the
/// never-started sentinel) and whether initialization has completed.
#[derive(Debug)]
pub struct JetInstance {
    instance: u64,
    initialized: bool,
}

impl JetInstance {
    /// The instance handle, as a specification value.
    pub closed spec fn spec_handle(&self) -> u64 {
        self.instance
    }

    /// Whether initialization has completed.
    pub closed spec fn is_initialized(&self) -> bool {
        self.initialized
    }

    /// Whether the instance is in the never-started sentinel state, in
    /// which no shutdown call may be made.
    pub open spec fn never_started(&self) -> bool {
        self.spec_handle() == JET_instanceNil
    }

    /// A fresh, never-started instance.
    pub fn new() -> (r: JetInstance)
        ensures
            r.never_started(),
            !r.is_initialized(),
    {
        JetInstance { instance: JET_instanceNil, initialized: false }
    }

    /// Whether the instance is in the never-started sentinel state.
    pub fn is_never_started(&self) -> (r: bool)
        ensures
            r == self.never_started(),
    {
        self.instance == JET_instanceNil
    }

    /// Whether initialization has completed.
    pub fn initialized(&self) -> (r: bool)
        ensures
            r == self.is_initialized(),
    {
        self.initialized
    }

    /// The instance handle.
    pub fn handle(&self) -> (r: u64)
        ensures
            r == self.spec_handle(),
    {
        self.instance
    }

    /// Interpret the creation of the engine instance: success stores the
    /// handle the engine assigned, leaving the instance uninitialized.
    pub fn init_engine(&mut self, status: i32, handle: u64) -> (r: Result<(), JetError>)
        requires
            !old(self).is_initialized(),
        ensures
            status == JET_errSuccess ==> r is Ok && final(self).spec_handle() == handle && !final(self).is_initialized(),
            status != JET_errSuccess ==> (r matches Err(e) && e == spec_error_from(status) && *final(self) == *old(self)),
    {
        if status == JET_errSuccess {
            self.instance = handle;
            Ok(())
        } else {
            Err(JetError::from_code(status))
        }
    }

    /// Interpret setting a text-valued startup parameter.  Parameters may
    /// only be set before initialization completes; the engine rejects an
    /// invalid parameter id or value through the status.
    pub fn set_string_parameter(&mut self, param: u32, value: &WideString, status: i32) -> (r:
        Result<(), JetError>)
        requires
            !old(self).is_initialized(),
        ensures
            *final(self) == *old(self),
            status == JET_errSuccess ==> r is Ok,
            status != JET_errSuccess ==> (r matches Err(e) && e == spec_error_from(status)),
    {
        let _ = param;
        let _ = value;
        if status == JET_errSuccess {
            Ok(())
        } else {
            Err(JetError::from_code(status))
        }
    }

    /// Interpret setting an integer-valued startup parameter, under the
    /// same before-initialization rule.
    pub fn set_int_parameter(&mut self, param: u32, value: usize, status: i32) -> (r: Result<
        (),
        JetError,
    >)
        requires
            !old(self).is_initialized(),
        ensures
            *final(self) == *old(self),
            status == JET_errSuccess ==> r is Ok,
            status != JET_errSuccess ==> (r matches Err(e) && e == spec_error_from(status)),
    {
        let _ = param;
        let _ = value;
        if status == JET_errSuccess {
            Ok(())
        } else {
            Err(JetError::from_code(status))
        }
    }

    /// Interpret initialization.  Success makes the instance live.
    /// Failure moves it to the never-started sentinel state, so that no
    /// shutdown call will be attempted for it: a failed initialization can
    /// only be retried by recreating the instance.
    pub fn init(&mut self, status: i32) -> (r: Result<(), JetError>)
        requires
            !old(self).is_initialized(),
        ensures
            status == JET_errSuccess ==> r is Ok && final(self).is_initialized() && final(self).spec_handle() == old(self).spec_handle(),
            status != JET_errSuccess ==> (r matches Err(e) && e == spec_error_from(status) && final(self).never_started() && !final(self).is_initialized()),
    {
        if status == JET_errSuccess {
            self.initialized = true;
            Ok(())
        } else {
            self.instance = JET_instanceNil;
            Err(JetError::from_code(status))
        }
    }

    /// Interpret opening a session against a live instance: success wraps
    /// the session handle the engine assigned.
    pub fn create_session(&self, status: i32, sesid: u64) -> (r: Result<JetSession, JetError>)
        requires
            !self.never_started(),
            status == JET_errSuccess ==> sesid != JET_sesidNil,
        ensures
            status == JET_errSuccess ==> (r matches Ok(s) && s.spec_raw() == sesid),
            status != JET_errSuccess ==> (r matches Err(e) && e == spec_error_from(status)),
    {
        if status == JET_errSuccess {
            Ok(JetSession::new(sesid))
        } else {
            Err(JetError::from_code(status))
        }
    }

    /// Begin teardown: a never-started instance owes no shutdown call;
    /// a live one owes the graceful shutdown first.
    pub fn begin_teardown(&self) -> (r: TeardownStep)
        ensures
            self.never_started() ==> r is Done,
            !self.never_started() ==> r == TeardownStep::Call(ShutdownCall::Graceful),
            r == if self.never_started() {
                TeardownStep::Done
            } else {
                TeardownStep::Call(ShutdownCall::Graceful)
            },
    {
        if self.instance == JET_instanceNil {
            TeardownStep::Done
        } else {
            TeardownStep::Call(ShutdownCall::Graceful)
        }
    }

    /// After the graceful shutdown: success ends teardown; failure owes
    /// the forced shutdown as the only fallback.
    pub fn after_graceful(&self, status: i32) -> (r: TeardownStep)
        ensures
            status == JET_errSuccess ==> r is Done,
            status != JET_errSuccess ==> r == TeardownStep::Call(ShutdownCall::Forced),
    {
        if status == JET_errSuccess {
            TeardownStep::Done
        } else {
            TeardownStep::Call(ShutdownCall::Forced)
        }
    }

    /// After the forced shutdown: success ends teardown; failure of this
    /// last fallback is unrecoverable and must be surfaced, never
    /// swallowed.
    pub fn after_forced(&self, status: i32) -> (r: Result<(), JetError>)
        ensures
            status == JET_errSuccess ==> r is Ok,
            status != JET_errSuccess ==> (r matches Err(e) && e == spec_error_from(status)),
    {
        if status == JET_errSuccess {
            Ok(())
        } else {
            Err(JetError::from_code(status))
        }
    }
}

} // verus!
