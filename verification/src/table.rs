//! One cursor into a table: navigation, keyed seeking, column-id lookup,
//! and the typed column retrieval and update protocol.
//!
//! Every engine call is made by the caller, outside this library; the
//! functions here build the exact request each call needs and interpret
//! the status the engine returned, so that every decision of the cursor
//! protocol is verified.  A cursor is a small state machine: it either has
//! a current record or it does not, and each interpreted outcome says how
//! that state moved.

use vstd::prelude::*;
use crate::codes::{
    JET_errSuccess, JET_wrnColumnNull, JET_wrnBufferTruncated, JET_wrnSeekNotEqual,
    JET_errNoCurrentRecord, JET_MoveFirst, JET_MoveNext, JET_MovePrevious, JET_MoveLast,
    JET_bitMoveKeyNE, JET_bitNil, JET_bitSeekEQ, JET_bitSeekLT, JET_bitSeekLE, JET_bitSeekGE,
    JET_bitSeekGT, JET_bitSetIndexRange, JET_bitNewKey,
};
use crate::error::{JetError, spec_error_from};
use crate::util::{spec_le32, spec_le64, spec_wide_bytes, u32_to_bytes, u64_to_bytes,
    wide_to_bytes, bytes_to_wide, spec_wide_of_bytes};
use crate::wide_string::WideString;

verus! {

/// How a seek positions the cursor relative to the constructed key.
#[derive(Clone, Copy, Debug, PartialEq, Eq, Structural)]
pub enum SeekType {
    /// Exact match only.
    Equal,
    /// Exact match, additionally restricting all subsequent movement to an
    /// index range matching exactly this key.
    EqualOnly,
    /// The matching record, or the nearest greater one.
    EqualOrGreater,
    /// The matching record, or the nearest lesser one.
    EqualOrLesser,
    /// Strictly the nearest greater record.
    ClosestGreater,
    /// Strictly the nearest lesser record.
    ClosestLesser,
}

/// The option bits a seek of the given kind hands to the engine.
pub open spec fn spec_seek_grbit(t: SeekType) -> u32 {
    match t {
        SeekType::Equal => JET_bitSeekEQ,
        SeekType::EqualOnly => JET_bitSeekEQ | JET_bitSetIndexRange,
        SeekType::EqualOrGreater => JET_bitSeekGE,
        SeekType::EqualOrLesser => JET_bitSeekLE,
        SeekType::ClosestGreater => JET_bitSeekGT,
        SeekType::ClosestLesser => JET_bitSeekLT,
    }
}

/// Direction of one cursor movement.
#[derive(Clone, Copy, Debug, PartialEq, Eq, Structural)]
pub enum MoveDirection {
    First,
    Next,
    Previous,
    Last,
}

/// One movement request: the offset and option bits to hand the engine.
#[derive(Clone, Copy, Debug, PartialEq, Eq, Structural)]
pub struct MoveRequest {
    pub offset: i32,
    pub grbit: u32,
}

/// The offset the engine expects for a movement in the given direction.
pub open spec fn spec_move_offset(d: MoveDirection) -> i32 {
    match d {
        MoveDirection::First => JET_MoveFirst,
        MoveDirection::Next => JET_MoveNext,
        MoveDirection::Previous => JET_MovePrevious,
        MoveDirection::Last => JET_MoveLast,
    }
}

/// Outcome of one cursor movement.  Running past the first or last record
/// is the expected end of iteration, distinct from every failure.
#[derive(Debug)]
pub enum MoveOutcome {
    /// The cursor now has a current record.
    Moved,
    /// No record in that direction: iteration is over, the cursor has no
    /// current record.
    EndOfTable,
    /// A genuine failure; the cursor state is assumed unchanged.
    Fail(JetError),
}

/// One step of the two-phase column retrieval protocol.
#[derive(Debug)]
pub enum RetrieveStep {
    /// The probe reported this many bytes: allocate exactly that much and
    /// issue the fetch phase.
    Fetch(u32),
    /// The value is fully retrieved.
    Done(Vec<u8>),
    /// The engine broke the protocol's contract (the record changed
    /// between the phases, or a width mismatch): fatal for this read, not
    /// a retry condition.
    Abort,
    /// A genuine failure.
    Failed(JetError),
}

/// A keyed seek request: the key bytes and the option bits for the
/// key-construction and seek calls.
#[derive(Debug)]
pub struct SeekRequest {
    pub key: Vec<u8>,
    pub new_key_grbit: u32,
    pub seek_grbit: u32,
}

/// One open cursor: the session and cursor handles the engine assigned,
/// and whether the cursor currently has a record.
#[derive(Debug)]
pub struct JetTable {
    sesid: u64,
    tableid: u64,
    positioned: bool,
}

impl JetTable {
    /// Wrap the handles of a cursor the engine just opened.  A fresh
    /// cursor starts without a current record; the first movement or seek
    /// must position it.
    pub fn new(sesid: u64, tableid: u64) -> (r: JetTable)
        ensures
            r.spec_sesid() == sesid,
            r.spec_raw() == tableid,
            !r.has_current(),
    {
        JetTable { sesid, tableid, positioned: false }
    }

    /// The engine's cursor handle, as a specification value.
    pub closed spec fn spec_raw(&self) -> u64 {
        self.tableid
    }

    /// The session handle, as a specification value.
    pub closed spec fn spec_sesid(&self) -> u64 {
        self.sesid
    }

    /// Whether the cursor has a current record.
    pub closed spec fn has_current(&self) -> bool {
        self.positioned
    }

    /// Whether the cursor has a current record.
    pub fn has_current_record(&self) -> (r: bool)
        ensures
            r == self.has_current(),
    {
        self.positioned
    }

    /// The engine's cursor handle.
    pub fn raw(&self) -> (r: u64)
        ensures
            r == self.spec_raw(),
    {
        self.tableid
    }

    /// The session handle the cursor was opened under.
    pub fn sesid(&self) -> (r: u64)
        ensures
            r == self.spec_sesid(),
    {
        self.sesid
    }

    /// Request a movement: the offset for the direction, plus the
    /// restrict-to-current-key option when asked to stay within one key.
    pub fn move_request(&self, d: MoveDirection, within_same_key: bool) -> (r: MoveRequest)
        ensures
            r.offset == spec_move_offset(d),
            r.grbit == if within_same_key {
                JET_bitMoveKeyNE
            } else {
                JET_bitNil
            },
    {
        let offset = match d {
            MoveDirection::First => JET_MoveFirst,
            MoveDirection::Next => JET_MoveNext,
            MoveDirection::Previous => JET_MovePrevious,
            MoveDirection::Last => JET_MoveLast,
        };
        let grbit = if within_same_key {
            JET_bitMoveKeyNE
        } else {
            JET_bitNil
        };
        MoveRequest { offset, grbit }
    }

    /// Request: position on the first record.
    pub fn move_first(&self) -> (r: MoveRequest)
        ensures
            r.offset == JET_MoveFirst && r.grbit == JET_bitNil,
    {
        self.move_request(MoveDirection::First, false)
    }

    /// Request: advance to the next record.
    pub fn move_next(&self) -> (r: MoveRequest)
        ensures
            r.offset == JET_MoveNext && r.grbit == JET_bitNil,
    {
        self.move_request(MoveDirection::Next, false)
    }

    /// Request: advance to the next record with a different key.
    pub fn move_next_key(&self) -> (r: MoveRequest)
        ensures
            r.offset == JET_MoveNext && r.grbit == JET_bitMoveKeyNE,
    {
        self.move_request(MoveDirection::Next, true)
    }

    /// Request: step back to the previous record.
    pub fn move_prev(&self) -> (r: MoveRequest)
        ensures
            r.offset == JET_MovePrevious && r.grbit == JET_bitNil,
    {
        self.move_request(MoveDirection::Previous, false)
    }

    /// Request: step back to the previous record with a different key.
    pub fn move_prev_key(&self) -> (r: MoveRequest)
        ensures
            r.offset == JET_MovePrevious && r.grbit == JET_bitMoveKeyNE,
    {
        self.move_request(MoveDirection::Previous, true)
    }

    /// Request: position on the last record.
    pub fn move_last(&self) -> (r: MoveRequest)
        ensures
            r.offset == JET_MoveLast && r.grbit == JET_bitNil,
    {
        self.move_request(MoveDirection::Last, false)
    }

    /// Interpret the status of a movement.  Success means the cursor is on
    /// a record; the no-current-record status is the expected end of
    /// iteration, not a failure; everything else is a failure that leaves
    /// the cursor state as it was.
    pub fn apply_move(&mut self, status: i32) -> (r: MoveOutcome)
        ensures
            status == JET_errSuccess ==> (r is Moved && final(self).has_current()),
            status == JET_errNoCurrentRecord ==> (r is EndOfTable && !final(self).has_current()),
            status != JET_errSuccess && status != JET_errNoCurrentRecord ==> (r matches
                MoveOutcome::Fail(e) && e == spec_error_from(status) && final(self).has_current()
                == old(self).has_current()),
            final(self).spec_raw() == old(self).spec_raw() && final(self).spec_sesid() == old(self).spec_sesid(),
    {
        if status == JET_errSuccess {
            self.positioned = true;
            MoveOutcome::Moved
        } else if status == JET_errNoCurrentRecord {
            self.positioned = false;
            MoveOutcome::EndOfTable
        } else {
            MoveOutcome::Fail(JetError::from_code(status))
        }
    }

    /// Interpret the probe phase of a column retrieval, issued with a
    /// zero-capacity buffer.  A too-small-buffer warning is the expected
    /// outcome and carries the value's exact size for the fetch phase; a
    /// null column is complete at once with an empty buffer and no fetch
    /// phase; plain success cannot happen for a zero-capacity probe and is
    /// a protocol violation; everything else is a failure.
    pub fn retrieve_probe_step(&self, status: i32, reported_len: u32) -> (r: RetrieveStep)
        ensures
            status == JET_wrnBufferTruncated ==> (r matches RetrieveStep::Fetch(n) && n
                == reported_len),
            status == JET_wrnColumnNull ==> (r matches RetrieveStep::Done(v) && v@
                == Seq::<u8>::empty()),
            status == JET_errSuccess ==> r is Abort,
            status != JET_wrnBufferTruncated && status != JET_wrnColumnNull && status
                != JET_errSuccess ==> (r matches RetrieveStep::Failed(e) && e == spec_error_from(
                status,
            )),
    {
        if status == JET_wrnBufferTruncated {
            RetrieveStep::Fetch(reported_len)
        } else if status == JET_wrnColumnNull {
            RetrieveStep::Done(Vec::new())
        } else if status == JET_errSuccess {
            RetrieveStep::Abort
        } else {
            RetrieveStep::Failed(JetError::from_code(status))
        }
    }

    /// Interpret the fetch phase of a column retrieval, issued with a
    /// buffer of exactly the probed size.  The fetch is complete only when
    /// it succeeded and filled exactly the probed number of bytes; a
    /// too-small-buffer warning here means the record changed between the
    /// phases, fatal for this read; everything else is a failure.
    pub fn retrieve_fetch_step(&self, expected_len: u32, status: i32, data: Vec<u8>) -> (r:
        RetrieveStep)
        ensures
            status == JET_errSuccess && data@.len() == expected_len ==> (r matches
                RetrieveStep::Done(v) && v@ == data@),
            status == JET_errSuccess && data@.len() != expected_len ==> r is Abort,
            status == JET_wrnBufferTruncated ==> r is Abort,
            status != JET_errSuccess && status != JET_wrnBufferTruncated ==> (r matches
                RetrieveStep::Failed(e) && e == spec_error_from(status)),
    {
        if status == JET_errSuccess {
            if data.len() == expected_len as usize {
                RetrieveStep::Done(data)
            } else {
                RetrieveStep::Abort
            }
        } else if status == JET_wrnBufferTruncated {
            RetrieveStep::Abort
        } else {
            RetrieveStep::Failed(JetError::from_code(status))
        }
    }

    /// Interpret a fixed-width retrieval, issued with a buffer of the
    /// value's exact width.  The engine must report exactly that many
    /// bytes: a width mismatch means the column's type differs from the
    /// caller's, a caller error that must not silently succeed.
    pub fn retrieve(&self, expected_width: u32, status: i32, actual_len: u32, data: Vec<u8>) -> (r:
        RetrieveStep)
        ensures
            status == JET_errSuccess && actual_len == expected_width && data@.len()
                == expected_width ==> (r matches RetrieveStep::Done(v) && v@ == data@),
            status == JET_errSuccess && (actual_len != expected_width || data@.len()
                != expected_width) ==> r is Abort,
            status != JET_errSuccess ==> (r matches RetrieveStep::Failed(e) && e
                == spec_error_from(status)),
    {
        if status == JET_errSuccess {
            if actual_len == expected_width && data.len() == expected_width as usize {
                RetrieveStep::Done(data)
            } else {
                RetrieveStep::Abort
            }
        } else {
            RetrieveStep::Failed(JetError::from_code(status))
        }
    }

    /// Turn a fully retrieved column buffer into wide text.  The buffer
    /// must divide evenly into 16-bit units and carry the trailing
    /// terminator; anything else is rejected rather than truncated.
    pub fn retrieve_wstring(&self, data: Vec<u8>) -> (r: Option<WideString>)
        ensures
            r matches Some(w) ==> {
                &&& data@.len() % 2 == 0
                &&& w@ == spec_wide_of_bytes(data@)
                &&& w.wf()
            },
            r is None ==> (data@.len() % 2 != 0 || spec_wide_of_bytes(data@).len() == 0
                || spec_wide_of_bytes(data@).last() != 0),
    {
        match bytes_to_wide(data.as_slice()) {
            None => None,
            Some(units) => WideString::try_from_ucs2(units),
        }
    }

    /// Turn a fully retrieved column buffer into host text, decoding the
    /// wide units lossily after stripping the terminator.
    pub fn retrieve_string(&self, data: Vec<u8>) -> (r: Option<String>)
        ensures
            (r is Some) == (data@.len() % 2 == 0 && spec_wide_of_bytes(data@).len() != 0
                && spec_wide_of_bytes(data@).last() == 0),
            r matches Some(s) ==> crate::wide_string::spec_points(s@)
                == crate::wide_string::spec_decode_wide(spec_wide_of_bytes(data@).drop_last()),
    {
        match self.retrieve_wstring(data) {
            None => None,
            Some(w) => Some(w.to_string_lossy()),
        }
    }

    /// Interpret a column-id lookup: success hands back the id the engine
    /// reported.
    pub fn get_column_id(&self, status: i32, columnid: u32) -> (r: Result<u32, JetError>)
        ensures
            status == JET_errSuccess ==> r == Ok::<u32, JetError>(columnid),
            status != JET_errSuccess ==> (r matches Err(e) && e == spec_error_from(status)),
    {
        if status == JET_errSuccess {
            Ok(columnid)
        } else {
            Err(JetError::from_code(status))
        }
    }

    /// Interpret switching the active index.
    pub fn select_index(&self, status: i32) -> (r: Result<(), JetError>)
        ensures
            status == JET_errSuccess ==> r is Ok,
            status != JET_errSuccess ==> (r matches Err(e) && e == spec_error_from(status)),
    {
        if status == JET_errSuccess {
            Ok(())
        } else {
            Err(JetError::from_code(status))
        }
    }

    /// Build a seek request from already-encoded key bytes.
    pub fn seek(&self, seek_type: SeekType, key: Vec<u8>) -> (r: SeekRequest)
        ensures
            r.key@ == key@,
            r.new_key_grbit == JET_bitNewKey,
            r.seek_grbit == spec_seek_grbit(seek_type),
    {
        let seek_grbit = match seek_type {
            SeekType::Equal => JET_bitSeekEQ,
            SeekType::EqualOnly => JET_bitSeekEQ | JET_bitSetIndexRange,
            SeekType::EqualOrGreater => JET_bitSeekGE,
            SeekType::EqualOrLesser => JET_bitSeekLE,
            SeekType::ClosestGreater => JET_bitSeekGT,
            SeekType::ClosestLesser => JET_bitSeekLT,
        };
        SeekRequest { key, new_key_grbit: JET_bitNewKey, seek_grbit }
    }

    /// Build a seek request for a 32-bit key.
    pub fn seek_u32(&self, seek_type: SeekType, key: u32) -> (r: SeekRequest)
        ensures
            r.key@ == spec_le32(key),
            r.new_key_grbit == JET_bitNewKey,
            r.seek_grbit == spec_seek_grbit(seek_type),
    {
        self.seek(seek_type, u32_to_bytes(key))
    }

    /// Build a seek request for a 64-bit key.
    pub fn seek_u64(&self, seek_type: SeekType, key: u64) -> (r: SeekRequest)
        ensures
            r.key@ == spec_le64(key),
            r.new_key_grbit == JET_bitNewKey,
            r.seek_grbit == spec_seek_grbit(seek_type),
    {
        self.seek(seek_type, u64_to_bytes(key))
    }

    /// Build a seek request for a wide-text key, terminator included, as a
    /// raw byte buffer.
    pub fn seek_wstr(&self, seek_type: SeekType, wstr: &WideString) -> (r: SeekRequest)
        ensures
            r.key@ == spec_wide_bytes(wstr@),
            r.new_key_grbit == JET_bitNewKey,
            r.seek_grbit == spec_seek_grbit(seek_type),
    {
        self.seek(seek_type, wide_to_bytes(wstr.as_ucs2_slice()))
    }

    /// Interpret the status of a seek.  Success is an exact match; the
    /// not-equal warning is a valid outcome, the cursor standing on the
    /// nearest qualifying record; everything else is a failure — in
    /// particular, no qualifying record at all is a failure distinguishable
    /// from an inexact match.  The result is whether the match was exact.
    pub fn apply_seek(&mut self, status: i32) -> (r: Result<bool, JetError>)
        ensures
            status == JET_errSuccess ==> (r == Ok::<bool, JetError>(true) && final(self).has_current()),
            status == JET_wrnSeekNotEqual ==> (r == Ok::<bool, JetError>(false) && final(self).has_current()),
            status != JET_errSuccess && status != JET_wrnSeekNotEqual ==> (r matches Err(e) && e
                == spec_error_from(status) && final(self).has_current() == old(self).has_current()),
            final(self).spec_raw() == old(self).spec_raw() && final(self).spec_sesid() == old(self).spec_sesid(),
    {
        if status == JET_errSuccess {
            self.positioned = true;
            Ok(true)
        } else if status == JET_wrnSeekNotEqual {
            self.positioned = true;
            Ok(false)
        } else {
            Err(JetError::from_code(status))
        }
    }

    /// Interpret the status of a column update.
    pub fn apply_update(&self, status: i32) -> (r: Result<(), JetError>)
        ensures
            status == JET_errSuccess ==> r is Ok,
            status != JET_errSuccess ==> (r matches Err(e) && e == spec_error_from(status)),
    {
        if status == JET_errSuccess {
            Ok(())
        } else {
            Err(JetError::from_code(status))
        }
    }

    /// The byte buffer handed to the engine when updating a column with a
    /// 32-bit value.
    pub fn update_u32(&self, value: u32) -> (r: Vec<u8>)
        ensures
            r@ == spec_le32(value),
    {
        u32_to_bytes(value)
    }

    /// The byte buffer handed to the engine when updating a column with
    /// wide text, terminator included.
    pub fn update_wstr(&self, wstr: &WideString) -> (r: Vec<u8>)
        ensures
            r@ == spec_wide_bytes(wstr@),
    {
        wide_to_bytes(wstr.as_ucs2_slice())
    }
}

/// Whether a failure is the expected end-of-iteration signal rather than a
/// genuine error.
pub fn is_end_of_table(e: &JetError) -> (r: bool)
    ensures
        r == (e.code == JET_errNoCurrentRecord),
{
    e.code == JET_errNoCurrentRecord
}

} // verus!
