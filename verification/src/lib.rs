//! Client layer for a handle-based, transactional record-storage engine.
//!
//! The engine itself is an external collaborator reached through a C-style
//! procedural interface whose calls return signed status codes.  This crate
//! holds the engine-independent half of the client: the status-code catalog
//! and classification, the wide-text codec, byte-level value packing, the
//! two-phase column-retrieval protocol, seek and navigation outcome handling,
//! the instance lifecycle, and the ordered teardown of the resource
//! hierarchy.  Every decision the client makes is a verified function from
//! plain values (engine statuses, handles, byte buffers) to plain values;
//! the thin shell that actually performs the engine calls lives outside the
//! verified library and feeds the statuses in.

pub mod codes;
pub mod error;
pub mod util;
pub mod wide_string;
pub mod table;
pub mod instance;
pub mod session;
pub mod database;
pub mod cursor_model;
pub mod hierarchy;
