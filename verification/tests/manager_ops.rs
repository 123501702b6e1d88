//! Session manager behaviour against the real PTY backend.

use pty_sessions::manager::SpawnedSession;
use pty_sessions::manager::TerminalManager;
use pty_sessions::reader::observe_exit;
use pty_sessions::reader::observe_read;
use pty_sessions::reader::reader_step;
use pty_sessions::ReadEvent;
use pty_sessions::ReaderState;
use pty_sessions::SinkEvent;
use pty_sessions::TermError;

/// Runs a session's reader loop to completion, collecting every sink event
/// in order.
fn drain_session(sess: SpawnedSession) -> Vec<SinkEvent> {
    let SpawnedSession {
        id,
        mut reader,
        mut child,
    } = sess;
    let mut st = ReaderState::Reading;
    let mut out = Vec::new();
    loop {
        let ev: ReadEvent = match st {
            ReaderState::Reading => observe_read(&mut reader),
            ReaderState::AwaitingExit => observe_exit(&mut child),
            ReaderState::Exited => break,
        };
        let (next, emitted) = reader_step(st, &id, ev);
        st = next;
        if let Some(e) = emitted {
            out.push(e);
        }
    }
    out
}

#[test]
fn write_unknown_id_not_found() {
    let mut m = TerminalManager::new();
    let r = m.write_to_terminal(&"ghost".to_string(), "x");
    assert!(matches!(r, Err(TermError::NotFound)));
}

#[test]
fn close_unknown_id_not_found() {
    let mut m = TerminalManager::new();
    let r = m.close_terminal(&"ghost".to_string());
    assert!(matches!(r, Err(TermError::NotFound)));
}

#[test]
fn resize_unknown_id_not_found() {
    let m = TerminalManager::new();
    let r = m.resize_terminal(&"ghost".to_string(), 100, 40);
    assert!(matches!(r, Err(TermError::NotFound)));
}

#[test]
fn create_then_close_forgets_id() {
    let mut m = TerminalManager::new();
    let id = "t1".to_string();
    let created = m.create_terminal(id.clone(), None, None).expect("create");
    assert_eq!(created.id, id);
    assert!(matches!(m.close_terminal(&id), Ok(())));
    assert!(matches!(
        m.write_to_terminal(&id, "x"),
        Err(TermError::NotFound)
    ));
    assert!(matches!(
        m.resize_terminal(&id, 100, 40),
        Err(TermError::NotFound)
    ));
    assert!(matches!(m.close_terminal(&id), Err(TermError::NotFound)));
}

#[test]
fn double_close_reports_not_found() {
    let mut m = TerminalManager::new();
    let id = "t1".to_string();
    m.create_terminal(id.clone(), None, None).expect("create");
    assert!(matches!(m.close_terminal(&id), Ok(())));
    assert!(matches!(m.close_terminal(&id), Err(TermError::NotFound)));
}

#[test]
fn duplicate_create_rejected_original_still_writable() {
    let mut m = TerminalManager::new();
    let id = "t1".to_string();
    m.create_terminal(id.clone(), None, None).expect("create");
    let again = m.create_terminal(id.clone(), None, None);
    assert!(matches!(again, Err(TermError::DuplicateId)));
    assert!(matches!(m.write_to_terminal(&id, "echo still here\n"), Ok(())));
    assert!(matches!(m.close_terminal(&id), Ok(())));
}

#[test]
fn resize_live_session_succeeds() {
    let mut m = TerminalManager::new();
    let id = "t1".to_string();
    m.create_terminal(id.clone(), None, None).expect("create");
    assert!(matches!(m.resize_terminal(&id, 100, 40), Ok(())));
    assert!(matches!(m.close_terminal(&id), Ok(())));
}

#[test]
fn echo_output_then_exit_code() {
    let mut m = TerminalManager::new();
    let id = "t1".to_string();
    let sess = m.create_terminal(id.clone(), None, None).expect("create");
    assert_eq!(sess.id, "t1");
    assert!(matches!(m.write_to_terminal(&id, "echo hi\n"), Ok(())));
    assert!(matches!(m.write_to_terminal(&id, "exit\n"), Ok(())));
    let events = drain_session(sess);

    let mut all_data = String::new();
    let mut exit_code: Option<i32> = None;
    let mut saw_data_after_exit = false;
    for e in &events {
        match e {
            SinkEvent::Data(d) => {
                assert_eq!(d.id, "t1");
                if exit_code.is_some() {
                    saw_data_after_exit = true;
                }
                all_data.push_str(&d.data);
            }
            SinkEvent::Exit(x) => {
                assert_eq!(x.id, "t1");
                assert!(exit_code.is_none(), "more than one exit event");
                exit_code = Some(x.exit_code);
            }
        }
    }
    assert!(all_data.contains("hi"), "output was: {all_data:?}");
    assert_eq!(exit_code, Some(0));
    assert!(!saw_data_after_exit, "a data event followed the exit event");
    assert!(matches!(m.close_terminal(&id), Ok(())));
}

#[test]
fn writes_to_sessions_are_isolated() {
    let mut m = TerminalManager::new();
    let a = m.create_terminal("a".to_string(), None, None).expect("create a");
    let b = m.create_terminal("b".to_string(), None, None).expect("create b");
    assert!(matches!(
        m.write_to_terminal(&"a".to_string(), "echo alpha-marker\nexit\n"),
        Ok(())
    ));
    assert!(matches!(
        m.write_to_terminal(&"b".to_string(), "echo beta-marker\nexit\n"),
        Ok(())
    ));
    let mut text_a = String::new();
    for e in drain_session(a) {
        if let SinkEvent::Data(d) = e {
            assert_eq!(d.id, "a");
            text_a.push_str(&d.data);
        }
    }
    let mut text_b = String::new();
    for e in drain_session(b) {
        if let SinkEvent::Data(d) = e {
            assert_eq!(d.id, "b");
            text_b.push_str(&d.data);
        }
    }
    assert!(text_a.contains("alpha-marker") && !text_a.contains("beta-marker"));
    assert!(text_b.contains("beta-marker") && !text_b.contains("alpha-marker"));
    assert!(matches!(m.close_terminal(&"a".to_string()), Ok(())));
    assert!(matches!(m.close_terminal(&"b".to_string()), Ok(())));
}

#[test]
fn exit_event_carries_real_exit_code() {
    let mut m = TerminalManager::new();
    let id = "t2".to_string();
    let sess = m.create_terminal(id.clone(), None, None).expect("create");
    assert!(matches!(m.write_to_terminal(&id, "exit 7\n"), Ok(())));
    let events = drain_session(sess);
    let exit = events.iter().find_map(|e| match e {
        SinkEvent::Exit(x) => Some(x.exit_code),
        _ => None,
    });
    assert_eq!(exit, Some(7));
    assert!(matches!(m.close_terminal(&id), Ok(())));
}

#[test]
fn session_starts_in_given_directory() {
    let mut m = TerminalManager::new();
    let id = "cwd".to_string();
    let sess = m
        .create_terminal(id.clone(), Some("/tmp".to_string()), None)
        .expect("create");
    assert!(matches!(m.write_to_terminal(&id, "pwd\nexit\n"), Ok(())));
    let events = drain_session(sess);
    let mut all_data = String::new();
    for e in &events {
        if let SinkEvent::Data(d) = e {
            all_data.push_str(&d.data);
        }
    }
    assert!(all_data.contains("/tmp"), "output was: {all_data:?}");
    assert!(matches!(m.close_terminal(&id), Ok(())));
}

#[test]
fn environment_override_reaches_child() {
    let mut m = TerminalManager::new();
    let id = "env".to_string();
    let env = vec![
        ("GREETING".to_string(), "first".to_string()),
        ("GREETING".to_string(), "second".to_string()),
    ];
    let sess = m.create_terminal(id.clone(), None, Some(env)).expect("create");
    assert!(matches!(
        m.write_to_terminal(&id, "echo marker-$GREETING\nexit\n"),
        Ok(())
    ));
    let events = drain_session(sess);
    let mut all_data = String::new();
    for e in &events {
        if let SinkEvent::Data(d) = e {
            all_data.push_str(&d.data);
        }
    }
    assert!(
        all_data.contains("marker-second"),
        "output was: {all_data:?}"
    );
    assert!(matches!(m.close_terminal(&id), Ok(())));
}
