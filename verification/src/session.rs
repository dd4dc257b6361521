//! The per-request session machine and the byte relay.
//!
//! One session carries a request from arrival to a closed connection. The
//! machine decides, from the phase and the event that just happened, what
//! the shell must do next: start the single fetch, send the response head,
//! relay a chunk, or abort the upstream stream. The relay functions copy the
//! body through byte for byte.

use vstd::prelude::*;

verus! {

/// Where one request stands.
#[derive(Clone, Copy, Debug, PartialEq, Eq, Structural)]
pub enum Phase {
    /// The request arrived; the path segment is not yet judged.
    Received,
    /// The segment was judged a usable key.
    KeyParsed,
    /// The single backend fetch is in flight.
    Fetching,
    /// The response head went out; body chunks are being relayed.
    Streaming,
    /// An error status went out; nothing more will be sent.
    ErrorResponded,
    /// The connection is closed; the session is over.
    Closed,
}

/// What just happened to the session.
#[derive(Clone, Copy, Debug, PartialEq, Eq, Structural)]
pub enum SessionEvent {
    /// The path segment held a usable key.
    KeyAccepted,
    /// The path segment was blank.
    KeyRejected,
    /// The bucket name turned out absent or empty.
    ConfigurationAbsent,
    /// The bucket name was usable.
    ConfigurationResolved,
    /// The backend answered with metadata and an open stream.
    FetchSucceeded,
    /// The backend answered with a failure.
    FetchFailed,
    /// One body chunk arrived from the backend.
    ChunkArrived,
    /// The backend stream ended cleanly.
    StreamEnded,
    /// The client went away.
    ClientDisconnected,
    /// The backend stream broke after the head was sent.
    UpstreamBroke,
}

/// What the shell must do next.
#[derive(Clone, Copy, Debug, PartialEq, Eq, Structural)]
pub enum SessionAction {
    /// Issue the single backend fetch.
    StartFetch,
    /// Send the error response head; the session is then terminal.
    RespondError,
    /// Send the success response head; chunks follow.
    SendHeaders,
    /// Write the chunk that just arrived to the client.
    RelayChunk,
    /// Finish the response body cleanly.
    FinishResponse,
    /// Stop reading and release the upstream stream at once.
    AbortUpstream,
    /// Stop writing and close the connection without a second status line.
    CloseConnection,
    /// Nothing: the event does not concern this phase.
    Ignore,
}

/// The machine's transition relation. An event that does not concern the
/// phase leaves it unchanged and asks for nothing.
pub open spec fn spec_advance(p: Phase, e: SessionEvent) -> (Phase, SessionAction) {
    match (p, e) {
        (Phase::Received, SessionEvent::KeyAccepted) => (Phase::KeyParsed, SessionAction::Ignore),
        (Phase::Received, SessionEvent::KeyRejected) => (
            Phase::ErrorResponded,
            SessionAction::RespondError,
        ),
        (Phase::KeyParsed, SessionEvent::ConfigurationResolved) => (
            Phase::Fetching,
            SessionAction::StartFetch,
        ),
        (Phase::KeyParsed, SessionEvent::ConfigurationAbsent) => (
            Phase::ErrorResponded,
            SessionAction::RespondError,
        ),
        (Phase::Fetching, SessionEvent::FetchSucceeded) => (
            Phase::Streaming,
            SessionAction::SendHeaders,
        ),
        (Phase::Fetching, SessionEvent::FetchFailed) => (
            Phase::ErrorResponded,
            SessionAction::RespondError,
        ),
        (Phase::Streaming, SessionEvent::ChunkArrived) => (
            Phase::Streaming,
            SessionAction::RelayChunk,
        ),
        (Phase::Streaming, SessionEvent::StreamEnded) => (
            Phase::Closed,
            SessionAction::FinishResponse,
        ),
        (Phase::Streaming, SessionEvent::ClientDisconnected) => (
            Phase::Closed,
            SessionAction::AbortUpstream,
        ),
        (Phase::Streaming, SessionEvent::UpstreamBroke) => (
            Phase::Closed,
            SessionAction::CloseConnection,
        ),
        (Phase::ErrorResponded, _) => (Phase::Closed, SessionAction::Ignore),
        _ => (p, SessionAction::Ignore),
    }
}

/// Steps the session machine once.
pub fn advance(p: Phase, e: SessionEvent) -> (r: (Phase, SessionAction))
    ensures
        r == spec_advance(p, e),
{
    match (p, e) {
        (Phase::Received, SessionEvent::KeyAccepted) => (Phase::KeyParsed, SessionAction::Ignore),
        (Phase::Received, SessionEvent::KeyRejected) => (
            Phase::ErrorResponded,
            SessionAction::RespondError,
        ),
        (Phase::KeyParsed, SessionEvent::ConfigurationResolved) => (
            Phase::Fetching,
            SessionAction::StartFetch,
        ),
        (Phase::KeyParsed, SessionEvent::ConfigurationAbsent) => (
            Phase::ErrorResponded,
            SessionAction::RespondError,
        ),
        (Phase::Fetching, SessionEvent::FetchSucceeded) => (
            Phase::Streaming,
            SessionAction::SendHeaders,
        ),
        (Phase::Fetching, SessionEvent::FetchFailed) => (
            Phase::ErrorResponded,
            SessionAction::RespondError,
        ),
        (Phase::Streaming, SessionEvent::ChunkArrived) => (
            Phase::Streaming,
            SessionAction::RelayChunk,
        ),
        (Phase::Streaming, SessionEvent::StreamEnded) => (
            Phase::Closed,
            SessionAction::FinishResponse,
        ),
        (Phase::Streaming, SessionEvent::ClientDisconnected) => (
            Phase::Closed,
            SessionAction::AbortUpstream,
        ),
        (Phase::Streaming, SessionEvent::UpstreamBroke) => (
            Phase::Closed,
            SessionAction::CloseConnection,
        ),
        (Phase::ErrorResponded, _) => (Phase::Closed, SessionAction::Ignore),
        _ => (p, SessionAction::Ignore),
    }
}

/// How far along a phase is. Transitions never lower it, so the session
/// never moves backwards.
pub open spec fn phase_rank(p: Phase) -> int {
    match p {
        Phase::Received => 0,
        Phase::KeyParsed => 1,
        Phase::Fetching => 2,
        Phase::Streaming => 3,
        Phase::ErrorResponded => 3,
        Phase::Closed => 4,
    }
}

/// The session only moves forward: no transition lowers the rank, and in
/// particular none re-enters the fetching phase once it was left.
pub proof fn lemma_session_moves_forward(p: Phase, e: SessionEvent)
    ensures
        phase_rank(spec_advance(p, e).0) >= phase_rank(p),
        spec_advance(p, e).0 == Phase::Fetching ==> p == Phase::KeyParsed || p == Phase::Fetching,
{
}

/// A fetch starts only on the one transition out of the key-parsed phase.
pub proof fn lemma_fetch_starts_once_only(p: Phase, e: SessionEvent)
    ensures
        spec_advance(p, e).1 == SessionAction::StartFetch <==> p == Phase::KeyParsed
            && e == SessionEvent::ConfigurationResolved,
{
}

/// A disconnected client ends the session at once: the machine closes and
/// demands that the upstream stream be released, so no further byte is read
/// from the backend.
pub proof fn lemma_disconnect_aborts_upstream()
    ensures
        spec_advance(Phase::Streaming, SessionEvent::ClientDisconnected) == (
            Phase::Closed,
            SessionAction::AbortUpstream,
        ),
{
}

/// The actions a session emits on a whole run of events from a given phase.
pub open spec fn spec_run_actions(p: Phase, events: Seq<SessionEvent>) -> Seq<SessionAction>
    decreases events.len(),
{
    if events.len() == 0 {
        Seq::empty()
    } else {
        let step = spec_advance(p, events[0]);
        seq![step.1] + spec_run_actions(step.0, events.drop_first())
    }
}

/// How many fetches a run of actions asks for.
pub open spec fn count_fetch_starts(actions: Seq<SessionAction>) -> nat
    decreases actions.len(),
{
    if actions.len() == 0 {
        0
    } else {
        (if actions[0] == SessionAction::StartFetch {
            1nat
        } else {
            0nat
        }) + count_fetch_starts(actions.drop_first())
    }
}

/// From any phase past the key-parsed one, a run asks for no fetch at all;
/// from the start it asks for at most one.
pub proof fn lemma_at_most_one_fetch_from(p: Phase, events: Seq<SessionEvent>)
    ensures
        count_fetch_starts(spec_run_actions(p, events)) <= if phase_rank(p) <= 1 {
            1int
        } else {
            0int
        },
    decreases events.len(),
{
    if events.len() > 0 {
        let step = spec_advance(p, events[0]);
        lemma_session_moves_forward(p, events[0]);
        lemma_fetch_starts_once_only(p, events[0]);
        lemma_at_most_one_fetch_from(step.0, events.drop_first());
        assert(spec_run_actions(p, events).drop_first() =~= spec_run_actions(
            step.0,
            events.drop_first(),
        ));
    }
}

/// Whatever events a request sees, the backend fetch is attempted at most
/// once over the whole session.
pub proof fn lemma_at_most_one_fetch(events: Seq<SessionEvent>)
    ensures
        count_fetch_starts(spec_run_actions(Phase::Received, events)) <= 1,
{
    lemma_at_most_one_fetch_from(Phase::Received, events);
}

/// A request whose key and configuration were accepted issues the backend
/// fetch exactly once: never a second time, and never a retry, whatever
/// happens afterwards.
pub proof fn lemma_accepted_request_fetches_exactly_once(events: Seq<SessionEvent>)
    requires
        events.len() >= 2,
        events[0] == SessionEvent::KeyAccepted,
        events[1] == SessionEvent::ConfigurationResolved,
    ensures
        count_fetch_starts(spec_run_actions(Phase::Received, events)) == 1,
{
    let after_key = events.drop_first();
    let after_config = after_key.drop_first();
    let tail = spec_run_actions(Phase::Fetching, after_config);
    let from_key = spec_run_actions(Phase::KeyParsed, after_key);
    let run = spec_run_actions(Phase::Received, events);
    assert(after_key[0] == SessionEvent::ConfigurationResolved);
    assert(run == seq![SessionAction::Ignore] + from_key);
    assert(from_key == seq![SessionAction::StartFetch] + tail);
    lemma_at_most_one_fetch_from(Phase::Fetching, after_config);
    assert(count_fetch_starts(tail) == 0);
    assert(from_key.drop_first() =~= tail);
    assert(from_key[0] == SessionAction::StartFetch);
    assert(count_fetch_starts(from_key) == 1 + count_fetch_starts(tail));
    assert(run.drop_first() =~= from_key);
    assert(run[0] == SessionAction::Ignore);
    assert(count_fetch_starts(run) == count_fetch_starts(from_key));
}

/// How many response heads a run of actions sends, counting an error status
/// and a success head alike.
pub open spec fn count_head_sends(actions: Seq<SessionAction>) -> nat
    decreases actions.len(),
{
    if actions.len() == 0 {
        0
    } else {
        (if actions[0] == SessionAction::RespondError || actions[0]
            == SessionAction::SendHeaders {
            1nat
        } else {
            0nat
        }) + count_head_sends(actions.drop_first())
    }
}

/// A head is sent only on a transition into the streaming or error phase,
/// both of which the session never leaves for an earlier one.
pub proof fn lemma_head_send_enters_late_phase(p: Phase, e: SessionEvent)
    ensures
        (spec_advance(p, e).1 == SessionAction::RespondError || spec_advance(p, e).1
            == SessionAction::SendHeaders) ==> phase_rank(p) <= 2 && phase_rank(
            spec_advance(p, e).0,
        ) >= 3,
{
}

/// From any phase past the fetch, a run sends no further head; from the
/// start it sends at most one. One request is answered by one response.
pub proof fn lemma_at_most_one_head_from(p: Phase, events: Seq<SessionEvent>)
    ensures
        count_head_sends(spec_run_actions(p, events)) <= if phase_rank(p) <= 2 {
            1int
        } else {
            0int
        },
    decreases events.len(),
{
    if events.len() > 0 {
        let step = spec_advance(p, events[0]);
        lemma_session_moves_forward(p, events[0]);
        lemma_head_send_enters_late_phase(p, events[0]);
        lemma_at_most_one_head_from(step.0, events.drop_first());
        assert(spec_run_actions(p, events).drop_first() =~= spec_run_actions(
            step.0,
            events.drop_first(),
        ));
    }
}

/// Whatever events a request sees, at most one response head goes out over
/// the whole session: exactly one response per request, never a second
/// status line.
pub proof fn lemma_at_most_one_response(events: Seq<SessionEvent>)
    ensures
        count_head_sends(spec_run_actions(Phase::Received, events)) <= 1,
{
    lemma_at_most_one_head_from(Phase::Received, events);
}

/// The bytes of a body delivered as a sequence of chunks.
pub open spec fn chunks_bytes(chunks: Seq<Seq<u8>>) -> Seq<u8> {
    chunks.flatten()
}

/// Appends one arrived chunk to the bytes delivered so far, changing no byte
/// and dropping none.
pub fn relay_chunk(delivered: &mut Vec<u8>, chunk: &Vec<u8>)
    ensures
        final(delivered)@ == old(delivered)@ + chunk@,
{
    let mut i: usize = 0;
    while i < chunk.len()
        invariant
            i <= chunk@.len(),
            delivered@ == old(delivered)@ + chunk@.take(i as int),
        decreases chunk@.len() - i,
    {
        delivered.push(chunk[i]);
        proof {
            assert(delivered@ =~= old(delivered)@ + chunk@.take(i + 1));
        }
        i += 1;
    }
    proof {
        assert(delivered@ =~= old(delivered)@ + chunk@);
    }
}

/// Relays a whole body chunk by chunk: the delivered bytes are exactly the
/// chunks' bytes in order — nothing altered, truncated or reordered.
pub fn assemble_body(chunks: &Vec<Vec<u8>>) -> (body: Vec<u8>)
    ensures
        body@ == chunks_bytes(chunks@.map_values(|c: Vec<u8>| c@)),
{
    let ghost all: Seq<Seq<u8>> = chunks@.map_values(|c: Vec<u8>| c@);
    let mut body: Vec<u8> = Vec::new();
    let mut i: usize = 0;
    while i < chunks.len()
        invariant
            i <= chunks@.len(),
            all == chunks@.map_values(|c: Vec<u8>| c@),
            body@ == all.take(i as int).flatten(),
        decreases chunks@.len() - i,
    {
        relay_chunk(&mut body, &chunks[i]);
        proof {
            assert(all.take(i as int).push(all[i as int]) =~= all.take(i + 1));
            all.take(i as int).lemma_flatten_push(all[i as int]);
        }
        i += 1;
    }
    proof {
        assert(all.take(chunks@.len() as int) =~= all);
    }
    body
}

} // verus!
