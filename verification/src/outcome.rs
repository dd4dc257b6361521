//! Fetch outcomes, failure kinds, status codes and log events.

use vstd::prelude::*;
use crate::metadata::MetadataView;
use crate::metadata::ObjectMetadata;

verus! {

/// Status of a response whose body is the object's bytes.
pub const STATUS_OK: u16 = 200;

/// Status owed to a blank path segment.
pub const STATUS_BAD_REQUEST: u16 = 400;

/// Status owed when the backend denies access.
pub const STATUS_FORBIDDEN: u16 = 403;

/// Status owed when the backend has no such key.
pub const STATUS_NOT_FOUND: u16 = 404;

/// Status owed to a configuration defect or an upstream failure found before
/// any header was sent.
pub const STATUS_INTERNAL_ERROR: u16 = 500;

/// Why a fetch, or the request around it, failed.
#[derive(Clone, Copy, Debug, PartialEq, Eq, Structural)]
pub enum FailureKind {
    /// The backend reports that the key does not exist.
    NotFound,
    /// The backend denies access with the credentials at hand.
    Unauthorized,
    /// The backend request failed for any other reason.
    Upstream,
    /// The bucket name is missing or invalid.
    Configuration,
}

/// What a request leaves in the log, so that operations can tell the
/// conditions apart even where two of them share a status code.
#[derive(Clone, Copy, Debug, PartialEq, Eq, Structural)]
pub enum LogEvent {
    /// The object was found and its stream attached to the response.
    Served,
    /// The path segment was blank; no backend call was made.
    BlankSegment,
    /// The bucket name was absent or empty; no backend call was made.
    ConfigurationMissing,
    /// The backend had no object under the key.
    ObjectMissing,
    /// The backend denied access.
    AccessDenied,
    /// The backend call failed before any header was sent.
    UpstreamFailure,
}

/// What one backend fetch came to: the object's metadata beside a live byte
/// stream held by the caller, or a failure. Never both.
pub enum FetchOutcome {
    Found(ObjectMetadata),
    Failed(FailureKind),
}

/// The mathematical shape of `FetchOutcome`.
pub enum OutcomeView {
    Found(MetadataView),
    Failed(FailureKind),
}

impl View for FetchOutcome {
    type V = OutcomeView;

    open spec fn view(&self) -> OutcomeView {
        match self {
            FetchOutcome::Found(m) => OutcomeView::Found(m@),
            FetchOutcome::Failed(k) => OutcomeView::Failed(*k),
        }
    }
}

/// The status owed to each failure kind. An upstream failure caught before
/// any header went out can still be answered, and shares the internal-error
/// status with a configuration defect; the log event tells them apart.
pub open spec fn spec_failure_status(k: FailureKind) -> u16 {
    match k {
        FailureKind::NotFound => STATUS_NOT_FOUND,
        FailureKind::Unauthorized => STATUS_FORBIDDEN,
        FailureKind::Upstream => STATUS_INTERNAL_ERROR,
        FailureKind::Configuration => STATUS_INTERNAL_ERROR,
    }
}

/// The log event owed to each failure kind.
pub open spec fn spec_failure_event(k: FailureKind) -> LogEvent {
    match k {
        FailureKind::NotFound => LogEvent::ObjectMissing,
        FailureKind::Unauthorized => LogEvent::AccessDenied,
        FailureKind::Upstream => LogEvent::UpstreamFailure,
        FailureKind::Configuration => LogEvent::ConfigurationMissing,
    }
}

/// Maps a failure kind to its status code.
pub fn failure_status(k: FailureKind) -> (s: u16)
    ensures
        s == spec_failure_status(k),
{
    match k {
        FailureKind::NotFound => STATUS_NOT_FOUND,
        FailureKind::Unauthorized => STATUS_FORBIDDEN,
        FailureKind::Upstream => STATUS_INTERNAL_ERROR,
        FailureKind::Configuration => STATUS_INTERNAL_ERROR,
    }
}

/// Maps a failure kind to its log event.
pub fn failure_event(k: FailureKind) -> (e: LogEvent)
    ensures
        e == spec_failure_event(k),
{
    match k {
        FailureKind::NotFound => LogEvent::ObjectMissing,
        FailureKind::Unauthorized => LogEvent::AccessDenied,
        FailureKind::Upstream => LogEvent::UpstreamFailure,
        FailureKind::Configuration => LogEvent::ConfigurationMissing,
    }
}

/// The failure kind owed to a failed backend call, judged from what the
/// backend's answer shows: a missing key makes the object not found; else a
/// forbidden HTTP status makes it a permission failure; anything else —
/// another status, or no answer at all — is an upstream failure.
pub open spec fn spec_classify_fetch_failure(no_such_key: bool, status: Option<u16>) -> FailureKind {
    if no_such_key {
        FailureKind::NotFound
    } else if status == Some(STATUS_FORBIDDEN) {
        FailureKind::Unauthorized
    } else {
        FailureKind::Upstream
    }
}

/// Classifies a failed backend call from plain values read off its answer:
/// whether the backend named the key as missing, and the HTTP status of the
/// answer, where one arrived.
pub fn classify_fetch_failure(no_such_key: bool, status: Option<u16>) -> (k: FailureKind)
    ensures
        k == spec_classify_fetch_failure(no_such_key, status),
{
    if no_such_key {
        FailureKind::NotFound
    } else if let Some(s) = status {
        if s == STATUS_FORBIDDEN {
            FailureKind::Unauthorized
        } else {
            FailureKind::Upstream
        }
    } else {
        FailureKind::Upstream
    }
}

/// A configuration defect and an upstream failure answer with the same
/// status, yet their log events differ: the two conditions can always be
/// told apart in telemetry.
pub proof fn lemma_configuration_distinguishable_in_logs()
    ensures
        spec_failure_status(FailureKind::Configuration) == spec_failure_status(
            FailureKind::Upstream,
        ),
        spec_failure_event(FailureKind::Configuration) != spec_failure_event(
            FailureKind::Upstream,
        ),
{
}

} // verus!
