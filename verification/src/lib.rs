//! Core of a read-only object-storage gateway.
//!
//! The gateway maps one URL path segment to an object key, issues a single
//! backend fetch, and relays the object's byte stream to the client. This
//! crate holds the verified decision logic of that pipeline: judging the path
//! segment, planning the fetch, translating a fetch outcome into a response
//! head, mapping object metadata to response headers, stepping the
//! per-request session machine, and relaying body chunks byte for byte.
//! The unverified shell around it performs the actual network I/O.

pub mod key;
pub mod metadata;
pub mod outcome;
pub mod handler;
pub mod session;
