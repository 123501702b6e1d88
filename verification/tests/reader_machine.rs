//! The reader loop's state machine on concrete observations.

use pty_sessions::reader::classify_read;
use pty_sessions::reader::classify_wait;
use pty_sessions::reader::reader_step;
use pty_sessions::ReadEvent;
use pty_sessions::ReaderState;
use pty_sessions::SinkEvent;

#[test]
fn empty_read_classifies_as_eof() {
    assert!(matches!(classify_read(Ok(Vec::new())), ReadEvent::Eof));
}

#[test]
fn nonempty_read_classifies_as_chunk_with_same_bytes() {
    let ev = classify_read(Ok(vec![1u8, 2, 3]));
    match ev {
        ReadEvent::Chunk(b) => assert_eq!(b, vec![1u8, 2, 3]),
        _ => panic!("expected a chunk"),
    }
}

#[test]
fn failed_read_classifies_as_read_failed() {
    let ev = classify_read(Err("broken pipe".to_string()));
    assert!(matches!(ev, ReadEvent::ReadFailed));
}

#[test]
fn successful_wait_classifies_with_exact_code() {
    let ev = classify_wait(Ok(5));
    assert!(matches!(ev, ReadEvent::ChildExited(5)));
}

#[test]
fn failed_wait_classifies_as_wait_failed() {
    let ev = classify_wait(Err("no child".to_string()));
    assert!(matches!(ev, ReadEvent::WaitFailed));
}

#[test]
fn chunk_decodes_to_text() {
    let id = "t1".to_string();
    let (st, out) = reader_step(ReaderState::Reading, &id, ReadEvent::Chunk(b"hi".to_vec()));
    assert_eq!(st, ReaderState::Reading);
    match out {
        Some(SinkEvent::Data(d)) => {
            assert_eq!(d.id, "t1");
            assert_eq!(d.data, "hi");
        }
        _ => panic!("expected a data event"),
    }
}

#[test]
fn invalid_bytes_are_replaced_never_dropped() {
    let id = "t1".to_string();
    let (st, out) = reader_step(
        ReaderState::Reading,
        &id,
        ReadEvent::Chunk(vec![0x68, 0xFF, 0x69]),
    );
    assert_eq!(st, ReaderState::Reading);
    match out {
        Some(SinkEvent::Data(d)) => {
            assert_eq!(d.data, "h\u{FFFD}i");
        }
        _ => panic!("expected a data event"),
    }
}

#[test]
fn eof_moves_to_awaiting_exit_silently() {
    let id = "t1".to_string();
    let (st, out) = reader_step(ReaderState::Reading, &id, ReadEvent::Eof);
    assert_eq!(st, ReaderState::AwaitingExit);
    assert!(out.is_none());
}

#[test]
fn read_failure_treated_like_eof() {
    let id = "t1".to_string();
    let (st, out) = reader_step(ReaderState::Reading, &id, ReadEvent::ReadFailed);
    assert_eq!(st, ReaderState::AwaitingExit);
    assert!(out.is_none());
}

#[test]
fn child_exit_emits_code_and_terminates() {
    let id = "t1".to_string();
    let (st, out) = reader_step(ReaderState::AwaitingExit, &id, ReadEvent::ChildExited(7));
    assert_eq!(st, ReaderState::Exited);
    match out {
        Some(SinkEvent::Exit(x)) => {
            assert_eq!(x.id, "t1");
            assert_eq!(x.exit_code, 7);
        }
        _ => panic!("expected an exit event"),
    }
}

#[test]
fn wait_failure_ends_loop_silently() {
    let id = "t1".to_string();
    let (st, out) = reader_step(ReaderState::AwaitingExit, &id, ReadEvent::WaitFailed);
    assert_eq!(st, ReaderState::Exited);
    assert!(out.is_none());
}

#[test]
fn exited_state_absorbs_everything() {
    let id = "t1".to_string();
    let (st, out) = reader_step(
        ReaderState::Exited,
        &id,
        ReadEvent::Chunk(b"late".to_vec()),
    );
    assert_eq!(st, ReaderState::Exited);
    assert!(out.is_none());
    let (st2, out2) = reader_step(ReaderState::Exited, &id, ReadEvent::ChildExited(1));
    assert_eq!(st2, ReaderState::Exited);
    assert!(out2.is_none());
}
