use object_gateway::session::{advance, assemble_body, relay_chunk, Phase, SessionAction, SessionEvent};

fn run(events: &[SessionEvent]) -> (Phase, Vec<SessionAction>) {
    let mut phase = Phase::Received;
    let mut actions = Vec::new();
    for &e in events {
        let (next, action) = advance(phase, e);
        phase = next;
        actions.push(action);
    }
    (phase, actions)
}

fn fetch_starts(actions: &[SessionAction]) -> usize {
    actions
        .iter()
        .filter(|a| **a == SessionAction::StartFetch)
        .count()
}

#[test]
fn successful_download_runs_to_a_clean_close() {
    let (phase, actions) = run(&[
        SessionEvent::KeyAccepted,
        SessionEvent::ConfigurationResolved,
        SessionEvent::FetchSucceeded,
        SessionEvent::ChunkArrived,
        SessionEvent::ChunkArrived,
        SessionEvent::StreamEnded,
    ]);
    assert_eq!(phase, Phase::Closed);
    assert_eq!(
        actions,
        vec![
            SessionAction::Ignore,
            SessionAction::StartFetch,
            SessionAction::SendHeaders,
            SessionAction::RelayChunk,
            SessionAction::RelayChunk,
            SessionAction::FinishResponse,
        ]
    );
    assert_eq!(fetch_starts(&actions), 1);
}

#[test]
fn failed_fetch_is_attempted_exactly_once() {
    let (phase, actions) = run(&[
        SessionEvent::KeyAccepted,
        SessionEvent::ConfigurationResolved,
        SessionEvent::FetchFailed,
        SessionEvent::FetchFailed,
        SessionEvent::ConfigurationResolved,
    ]);
    assert_eq!(phase, Phase::Closed);
    assert_eq!(fetch_starts(&actions), 1);
}

#[test]
fn rejected_key_never_reaches_the_backend() {
    let (phase, actions) = run(&[
        SessionEvent::KeyRejected,
        SessionEvent::ConfigurationResolved,
        SessionEvent::FetchSucceeded,
    ]);
    assert_eq!(phase, Phase::Closed);
    assert_eq!(fetch_starts(&actions), 0);
    assert_eq!(actions[0], SessionAction::RespondError);
}

#[test]
fn client_disconnect_aborts_the_upstream_stream() {
    let (next, action) = advance(Phase::Streaming, SessionEvent::ClientDisconnected);
    assert_eq!(next, Phase::Closed);
    assert_eq!(action, SessionAction::AbortUpstream);
}

#[test]
fn disconnect_early_in_a_long_download_stops_all_reading() {
    // A tenth of the way through a long body, the client goes away: the very
    // next action releases the upstream stream, and no later event makes the
    // session read or write again.
    let mut events = vec![
        SessionEvent::KeyAccepted,
        SessionEvent::ConfigurationResolved,
        SessionEvent::FetchSucceeded,
    ];
    for _ in 0..100 {
        events.push(SessionEvent::ChunkArrived);
    }
    events.push(SessionEvent::ClientDisconnected);
    for _ in 0..900 {
        events.push(SessionEvent::ChunkArrived);
    }
    let (phase, actions) = run(&events);
    assert_eq!(phase, Phase::Closed);
    assert_eq!(actions[103], SessionAction::AbortUpstream);
    assert!(actions[104..]
        .iter()
        .all(|a| *a == SessionAction::Ignore));
    assert_eq!(fetch_starts(&actions), 1);
}

#[test]
fn upstream_break_mid_stream_closes_without_second_status() {
    let (next, action) = advance(Phase::Streaming, SessionEvent::UpstreamBroke);
    assert_eq!(next, Phase::Closed);
    assert_eq!(action, SessionAction::CloseConnection);
}

#[test]
fn error_response_is_terminal() {
    let (next, action) = advance(Phase::ErrorResponded, SessionEvent::ChunkArrived);
    assert_eq!(next, Phase::Closed);
    assert_eq!(action, SessionAction::Ignore);
    let (next2, action2) = advance(Phase::Closed, SessionEvent::FetchSucceeded);
    assert_eq!(next2, Phase::Closed);
    assert_eq!(action2, SessionAction::Ignore);
}

fn head_sends(actions: &[SessionAction]) -> usize {
    actions
        .iter()
        .filter(|a| **a == SessionAction::RespondError || **a == SessionAction::SendHeaders)
        .count()
}

#[test]
fn exactly_one_response_head_per_request() {
    let (_, served) = run(&[
        SessionEvent::KeyAccepted,
        SessionEvent::ConfigurationResolved,
        SessionEvent::FetchSucceeded,
        SessionEvent::ChunkArrived,
        SessionEvent::UpstreamBroke,
        SessionEvent::FetchSucceeded,
    ]);
    assert_eq!(head_sends(&served), 1);
    let (_, errored) = run(&[
        SessionEvent::KeyRejected,
        SessionEvent::KeyRejected,
        SessionEvent::FetchFailed,
    ]);
    assert_eq!(head_sends(&errored), 1);
}

#[test]
fn relay_appends_chunk_bytes_exactly() {
    let mut delivered: Vec<u8> = vec![1, 2];
    relay_chunk(&mut delivered, &vec![3, 4, 5]);
    assert_eq!(delivered, vec![1, 2, 3, 4, 5]);
    relay_chunk(&mut delivered, &Vec::new());
    assert_eq!(delivered, vec![1, 2, 3, 4, 5]);
}

#[test]
fn assembled_body_is_byte_identical_to_the_object() {
    let chunks = vec![b"he".to_vec(), b"llo ".to_vec(), Vec::new(), b"world".to_vec()];
    let body = assemble_body(&chunks);
    assert_eq!(body, b"hello world".to_vec());
}

#[test]
fn assembled_empty_stream_is_empty() {
    let body = assemble_body(&Vec::new());
    assert!(body.is_empty());
}

#[test]
fn assembly_neither_reorders_nor_merges_across_calls() {
    let chunks = vec![vec![9, 8], vec![7]];
    let once = assemble_body(&chunks);
    let again = assemble_body(&chunks);
    assert_eq!(once, vec![9, 8, 7]);
    assert_eq!(once, again);
}
