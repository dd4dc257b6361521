//! The streaming request handler's decisions: planning the fetch from the
//! path segment and the configured bucket, and turning a fetch outcome into
//! a response head.

use vstd::prelude::*;
use crate::key::ObjectKey;
use crate::key::is_blank;
use crate::metadata::header_entries;
use crate::metadata::response_headers;
use crate::outcome::FetchOutcome;
use crate::outcome::LogEvent;
use crate::outcome::OutcomeView;
use crate::outcome::STATUS_BAD_REQUEST;
use crate::outcome::STATUS_INTERNAL_ERROR;
use crate::outcome::STATUS_OK;
use crate::outcome::failure_event;
use crate::outcome::failure_status;
use crate::outcome::spec_failure_event;
use crate::outcome::spec_failure_status;

verus! {

/// A configured bucket name is usable when it is present and non-empty.
pub open spec fn bucket_ok(bucket: Option<Seq<char>>) -> bool {
    match bucket {
        Some(b) => b.len() > 0,
        None => false,
    }
}

/// What to do with one inbound request, decided before any network call.
pub enum RequestPlan {
    /// Answer at once, with no backend call.
    Reject { status: u16, event: LogEvent },
    /// Issue exactly one backend fetch for this bucket and key.
    Fetch { bucket: String, key: ObjectKey },
}

/// The mathematical shape of `RequestPlan`.
pub enum PlanView {
    Reject { status: u16, event: LogEvent },
    Fetch { bucket: Seq<char>, key: Seq<char> },
}

impl View for RequestPlan {
    type V = PlanView;

    open spec fn view(&self) -> PlanView {
        match self {
            RequestPlan::Reject { status, event } => PlanView::Reject {
                status: *status,
                event: *event,
            },
            RequestPlan::Fetch { bucket, key } => PlanView::Fetch { bucket: bucket@, key: key@ },
        }
    }
}

/// The plan owed to a request: a blank segment is refused before anything
/// else; then a missing or empty bucket name; only then is a fetch planned,
/// for the segment's characters verbatim.
pub open spec fn spec_plan(bucket: Option<Seq<char>>, segment: Seq<char>) -> PlanView {
    if is_blank(segment) {
        PlanView::Reject { status: STATUS_BAD_REQUEST, event: LogEvent::BlankSegment }
    } else if !bucket_ok(bucket) {
        PlanView::Reject { status: STATUS_INTERNAL_ERROR, event: LogEvent::ConfigurationMissing }
    } else {
        PlanView::Fetch { bucket: bucket->0, key: segment }
    }
}

/// The view of an optional bucket name.
pub open spec fn bucket_view(bucket: Option<&String>) -> Option<Seq<char>> {
    match bucket {
        Some(b) => Some(b@),
        None => None,
    }
}

/// Decides one request. A blank segment is rejected with a client-error
/// status before any backend call; an unusable bucket name with an internal
/// error, logged as a configuration defect; otherwise exactly one fetch is
/// planned, and the key handed to it is character-identical to the segment.
pub fn plan_request(bucket: Option<&String>, segment: &str) -> (p: RequestPlan)
    ensures
        p@ == spec_plan(bucket_view(bucket), segment@),
{
    match ObjectKey::parse(segment) {
        None => RequestPlan::Reject {
            status: STATUS_BAD_REQUEST,
            event: LogEvent::BlankSegment,
        },
        Some(key) => match bucket {
            Some(b) if !b.as_str().is_empty() => RequestPlan::Fetch { bucket: b.clone(), key },
            _ => RequestPlan::Reject {
                status: STATUS_INTERNAL_ERROR,
                event: LogEvent::ConfigurationMissing,
            },
        },
    }
}

/// The head of the HTTP response: status, headers, and the log event the
/// request leaves behind. The body — the object's byte stream — travels
/// beside it on a successful fetch.
pub struct ResponseHead {
    pub status: u16,
    pub headers: Vec<(String, String)>,
    pub event: LogEvent,
}

/// The mathematical shape of `ResponseHead`.
pub struct ResponseHeadView {
    pub status: u16,
    pub headers: Seq<(Seq<char>, Seq<char>)>,
    pub event: LogEvent,
}

impl View for ResponseHead {
    type V = ResponseHeadView;

    open spec fn view(&self) -> ResponseHeadView {
        ResponseHeadView {
            status: self.status,
            headers: self.headers@.map_values(|p: (String, String)| (p.0@, p.1@)),
            event: self.event,
        }
    }
}

/// The response head owed to each fetch outcome: a success answers with the
/// ok status and one header per reported metadata field; a failure answers
/// with its status and no headers.
pub open spec fn spec_outcome_head(o: OutcomeView) -> ResponseHeadView {
    match o {
        OutcomeView::Found(m) => ResponseHeadView {
            status: STATUS_OK,
            headers: header_entries(m),
            event: LogEvent::Served,
        },
        OutcomeView::Failed(k) => ResponseHeadView {
            status: spec_failure_status(k),
            headers: Seq::empty(),
            event: spec_failure_event(k),
        },
    }
}

/// The whole decision pipeline of one request as a function of that
/// request's own inputs: the configured bucket name, the path segment, and —
/// for the case where a fetch was planned — the outcome the backend gave.
pub open spec fn spec_response(
    bucket: Option<Seq<char>>,
    segment: Seq<char>,
    o: OutcomeView,
) -> ResponseHeadView {
    match spec_plan(bucket, segment) {
        PlanView::Reject { status, event } => ResponseHeadView {
            status,
            headers: Seq::empty(),
            event,
        },
        PlanView::Fetch { .. } => spec_outcome_head(o),
    }
}

/// A blank path segment is answered with the client-error status, and no
/// fetch is ever planned for it, whatever the backend would have said.
pub proof fn lemma_blank_segment_rejected(
    bucket: Option<Seq<char>>,
    segment: Seq<char>,
    o: OutcomeView,
)
    requires
        is_blank(segment),
    ensures
        spec_plan(bucket, segment) matches PlanView::Reject { status, event } && status
            == STATUS_BAD_REQUEST && event == LogEvent::BlankSegment,
        spec_response(bucket, segment, o).status == STATUS_BAD_REQUEST,
{
}

/// With the bucket name absent or empty, every request that carries a usable
/// key is answered with the internal-error status, no fetch is planned, and
/// the log event names the configuration defect — not an upstream failure.
pub proof fn lemma_missing_configuration(
    bucket: Option<Seq<char>>,
    segment: Seq<char>,
    o: OutcomeView,
)
    requires
        !is_blank(segment),
        !bucket_ok(bucket),
    ensures
        spec_plan(bucket, segment) matches PlanView::Reject { status, event } && status
            == STATUS_INTERNAL_ERROR && event == LogEvent::ConfigurationMissing,
        spec_response(bucket, segment, o).event == LogEvent::ConfigurationMissing,
        spec_response(bucket, segment, o).event != LogEvent::UpstreamFailure,
{
}

/// Repeating a request changes nothing: with the same bucket, the same
/// segment and an unchanged backend answer, the response head is identical,
/// and the same body chunks assemble to the identical body.
pub proof fn lemma_repeated_request_identical(
    bucket: Option<Seq<char>>,
    segment: Seq<char>,
    o1: OutcomeView,
    o2: OutcomeView,
    chunks1: Seq<Seq<u8>>,
    chunks2: Seq<Seq<u8>>,
)
    requires
        o1 == o2,
        chunks1 == chunks2,
    ensures
        spec_response(bucket, segment, o1) == spec_response(bucket, segment, o2),
        crate::session::chunks_bytes(chunks1) == crate::session::chunks_bytes(chunks2),
{
}

/// The responses owed to a batch of concurrent requests, each from its own
/// segment and its own backend outcome.
pub open spec fn spec_batch_responses(
    bucket: Option<Seq<char>>,
    requests: Seq<(Seq<char>, OutcomeView)>,
) -> Seq<ResponseHeadView> {
    requests.map_values(|r: (Seq<char>, OutcomeView)| spec_response(bucket, r.0, r.1))
}

/// Concurrent requests are isolated: a request's response depends on its own
/// segment and its own backend outcome alone, so however the other requests
/// of a batch change or fail, its response stays the same.
pub proof fn lemma_requests_isolated(
    bucket: Option<Seq<char>>,
    requests1: Seq<(Seq<char>, OutcomeView)>,
    requests2: Seq<(Seq<char>, OutcomeView)>,
    i: int,
)
    requires
        requests1.len() == requests2.len(),
        0 <= i < requests1.len(),
        requests1[i] == requests2[i],
    ensures
        spec_batch_responses(bucket, requests1)[i] == spec_response(
            bucket,
            requests1[i].0,
            requests1[i].1,
        ),
        spec_batch_responses(bucket, requests1)[i] == spec_batch_responses(bucket, requests2)[i],
{
}

/// An existing object is served whole: where a fetch was planned and the
/// backend found the object, the response head carries the ok status and
/// exactly the reported metadata headers, and the body assembles to exactly
/// the object's bytes.
pub proof fn lemma_found_object_served(
    bucket: Option<Seq<char>>,
    segment: Seq<char>,
    m: crate::metadata::MetadataView,
    chunks: Seq<Seq<u8>>,
    content: Seq<u8>,
)
    requires
        !is_blank(segment),
        bucket_ok(bucket),
        chunks.flatten() == content,
    ensures
        spec_response(bucket, segment, OutcomeView::Found(m)).status == STATUS_OK,
        spec_response(bucket, segment, OutcomeView::Found(m)).headers == header_entries(m),
        crate::session::chunks_bytes(chunks) == content,
{
}

/// A missing object is answered with the not-found status, and the session
/// machine attempts the fetch at most once on the way there.
pub proof fn lemma_missing_object_not_found(
    bucket: Option<Seq<char>>,
    segment: Seq<char>,
    events: Seq<crate::session::SessionEvent>,
)
    requires
        !is_blank(segment),
        bucket_ok(bucket),
    ensures
        spec_response(
            bucket,
            segment,
            OutcomeView::Failed(crate::outcome::FailureKind::NotFound),
        ).status == crate::outcome::STATUS_NOT_FOUND,
        crate::session::count_fetch_starts(
            crate::session::spec_run_actions(crate::session::Phase::Received, events),
        ) <= 1,
{
    crate::session::lemma_at_most_one_fetch(events);
}

/// The response head owed to a request answered without a body: the given
/// status and log event, and not one header.
pub fn rejection_head(status: u16, event: LogEvent) -> (r: ResponseHead)
    ensures
        r@ == (ResponseHeadView { status, headers: Seq::empty(), event }),
{
    let hs: Vec<(String, String)> = Vec::new();
    proof {
        assert(hs@.map_values(|p: (String, String)| (p.0@, p.1@)) =~= Seq::<
            (Seq<char>, Seq<char>),
        >::empty());
    }
    ResponseHead { status, headers: hs, event }
}

/// Translates the outcome of the single planned fetch into the response
/// head.
pub fn respond_to_outcome(o: FetchOutcome) -> (r: ResponseHead)
    ensures
        r@ == spec_outcome_head(o@),
{
    match o {
        FetchOutcome::Found(m) => {
            let r = ResponseHead {
                status: STATUS_OK,
                headers: response_headers(&m),
                event: LogEvent::Served,
            };
            proof {
                assert(r@ =~= spec_outcome_head(FetchOutcome::Found(m)@));
            }
            r
        },
        FetchOutcome::Failed(k) => rejection_head(failure_status(k), failure_event(k)),
    }
}

} // verus!
