use buildcore::chunk::StreamChunk;
use buildcore::container::{
    collect_log_chunk, collect_logs, convert_id, exec_transcript, ContainerHandle, ExecSession,
    ExecStep,
};
use buildcore::error::BuildError;
use buildcore::output::Output;

#[test]
fn convert_id_returns_first_twelve_characters() {
    let full = "0123456789abcdef0123456789abcdef";
    assert_eq!(convert_id(full), "0123456789ab");
}

#[test]
fn handle_id_is_display_prefix_of_engine_id() {
    let mut handle = ContainerHandle::new();
    let engine_id = "f00dfeedbeef4242deadc0de0123456789abcdef0123456789abcdef01234567";
    handle.record_spawned(engine_id.to_string());
    assert_eq!(handle.full_id(), engine_id);
    assert_eq!(handle.id(), "f00dfeedbeef");
    assert_eq!(handle.id().len(), 12);
}

#[test]
fn handle_must_tear_down_only_when_signal_cleared() {
    let handle = ContainerHandle::new();
    assert!(!handle.must_tear_down(true));
    assert!(handle.must_tear_down(false));
}

#[test]
fn exec_with_no_chunks_returns_empty_sides() {
    let result = exec_transcript(Vec::new());
    let out = result.expect("an empty stream is a successful command");
    assert!(out.stdout.is_empty());
    assert!(out.stderr.is_empty());
}

#[test]
fn exec_strips_exactly_one_trailing_newline() {
    let events = vec![
        (true, StreamChunk::StdOut(b"hello\n".to_vec())),
        (true, StreamChunk::StdOut(b"a\n\n".to_vec())),
        (true, StreamChunk::StdOut(b"bare".to_vec())),
    ];
    let out = exec_transcript(events).expect("valid text chunks succeed");
    assert_eq!(out.stdout, vec!["hello".to_string(), "a\n".to_string(), "bare".to_string()]);
    assert!(out.stderr.is_empty());
}

#[test]
fn exec_keeps_per_side_order() {
    let events = vec![
        (true, StreamChunk::StdOut(b"one\n".to_vec())),
        (true, StreamChunk::StdErr(b"warn\n".to_vec())),
        (true, StreamChunk::StdOut(b"two\n".to_vec())),
    ];
    let out = exec_transcript(events).expect("valid text chunks succeed");
    assert_eq!(out.stdout, vec!["one".to_string(), "two".to_string()]);
    assert_eq!(out.stderr, vec!["warn".to_string()]);
}

#[test]
fn invalid_text_fails_with_decode_error_and_commits_nothing() {
    let mut session = ExecSession::new();
    let step = session.on_chunk(true, StreamChunk::StdOut(vec![0xff, 0xfe]));
    assert!(matches!(step, ExecStep::InvalidText));
    assert!(matches!(step.verdict(), Some(BuildError::Decode)));
    let out = session.finish();
    assert!(out.stdout.is_empty());
    assert!(out.stderr.is_empty());
}

#[test]
fn invalid_text_fails_whole_transcript() {
    let events = vec![
        (true, StreamChunk::StdOut(b"fine\n".to_vec())),
        (true, StreamChunk::StdErr(vec![0xc3, 0x28])),
    ];
    match exec_transcript(events) {
        Err(BuildError::Decode) => {}
        other => panic!("expected a decode failure, got {:?}", other),
    }
}

#[test]
fn cleared_signal_cancels_at_next_chunk_boundary() {
    let mut session = ExecSession::new();
    let step = session.on_chunk(true, StreamChunk::StdOut(b"started\n".to_vec()));
    assert!(matches!(step, ExecStep::Appended));
    let step = session.on_chunk(false, StreamChunk::StdOut(b"never seen\n".to_vec()));
    assert!(matches!(step, ExecStep::CancelTeardown));
    assert!(matches!(step.verdict(), Some(BuildError::Cancelled)));
    let out = session.finish();
    assert_eq!(out.stdout, vec!["started".to_string()]);
}

#[test]
fn cancellation_is_distinct_from_step_and_engine_failures() {
    let events = vec![
        (true, StreamChunk::StdOut(b"x\n".to_vec())),
        (false, StreamChunk::StdOut(b"y\n".to_vec())),
        (true, StreamChunk::StdOut(b"z\n".to_vec())),
    ];
    match exec_transcript(events) {
        Err(BuildError::Cancelled) => {}
        other => panic!("expected cancellation, got {:?}", other),
    }
}

#[test]
fn log_chunks_append_bytes_to_matching_side() {
    let mut out: Output<u8> = Output::new();
    collect_log_chunk(&mut out, StreamChunk::StdOut(b"ab".to_vec()));
    collect_log_chunk(&mut out, StreamChunk::StdErr(b"E1".to_vec()));
    collect_log_chunk(&mut out, StreamChunk::StdOut(b"cd".to_vec()));
    assert_eq!(out.stdout, b"abcd".to_vec());
    assert_eq!(out.stderr, b"E1".to_vec());
}

#[test]
fn whole_log_stream_collects_per_side() {
    let chunks = vec![
        StreamChunk::StdOut(b"log ".to_vec()),
        StreamChunk::StdErr(b"oops".to_vec()),
        StreamChunk::StdOut(b"line\n".to_vec()),
    ];
    let out = collect_logs(chunks);
    assert_eq!(out.stdout, b"log line\n".to_vec());
    assert_eq!(out.stderr, b"oops".to_vec());
}

#[test]
fn default_output_is_empty() {
    let out: Output<String> = Output::default();
    assert!(out.stdout.is_empty());
    assert!(out.stderr.is_empty());
}
