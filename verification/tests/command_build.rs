//! Command preparation: TERM, working directory and environment overrides.

use pty_sessions::command::build_command;
use pty_sessions::command::command_env_value;

#[test]
fn term_is_always_set() {
    let c = build_command(&None, &None);
    let v = command_env_value(&c, &"TERM".to_string());
    assert_eq!(v.as_deref(), Some("xterm-256color"));
}

#[test]
fn override_applies_to_env() {
    let env = vec![("GREETING".to_string(), "hello".to_string())];
    let c = build_command(&None, &Some(env));
    let v = command_env_value(&c, &"GREETING".to_string());
    assert_eq!(v.as_deref(), Some("hello"));
}

#[test]
fn last_write_wins_on_duplicate_keys() {
    let env = vec![
        ("GREETING".to_string(), "first".to_string()),
        ("OTHER".to_string(), "kept".to_string()),
        ("GREETING".to_string(), "second".to_string()),
    ];
    let c = build_command(&None, &Some(env));
    assert_eq!(
        command_env_value(&c, &"GREETING".to_string()).as_deref(),
        Some("second")
    );
    assert_eq!(
        command_env_value(&c, &"OTHER".to_string()).as_deref(),
        Some("kept")
    );
}

#[test]
fn caller_may_override_term() {
    let env = vec![("TERM".to_string(), "dumb".to_string())];
    let c = build_command(&None, &Some(env));
    assert_eq!(
        command_env_value(&c, &"TERM".to_string()).as_deref(),
        Some("dumb")
    );
}

#[test]
fn unset_key_is_absent() {
    let c = build_command(&None, &None);
    assert!(command_env_value(&c, &"NO_SUCH_SESSION_KEY".to_string()).is_none());
}
