use crossterm_bridge::channel::{
    crossterm_clear_last_error, crossterm_has_error, crossterm_last_error_length,
    crossterm_last_error_message, error_message, set_last_error, take_last_error,
};
use crossterm_bridge::{CUnwrapper, ErrorChannel, Failure, FALLBACK_MESSAGE};

fn failing(channel: &mut ErrorChannel, message: &str) -> u16 {
    let outcome: Result<u16, Failure> = Err(Failure::new(message));
    outcome.c_unwrap(channel)
}

#[test]
fn new_channel_is_clean() {
    let channel = ErrorChannel::new();
    assert_eq!(channel.status(), 0);
    assert!(!crossterm_has_error(&channel));
}

#[test]
fn failure_sets_error_and_status() {
    let mut channel = ErrorChannel::new();
    let value = failing(&mut channel, "Raw mode is not enabled");
    assert_eq!(value, 0);
    assert_eq!(channel.status(), -1);
    assert!(crossterm_has_error(&channel));
}

#[test]
fn success_clears_earlier_error() {
    let mut channel = ErrorChannel::new();
    failing(&mut channel, "first");
    let outcome: Result<u16, Failure> = Ok(42);
    assert_eq!(outcome.c_unwrap(&mut channel), 42);
    assert_eq!(channel.status(), 0);
    assert!(!crossterm_has_error(&channel));
}

#[test]
fn error_message_is_read_and_clear() {
    let mut channel = ErrorChannel::new();
    failing(&mut channel, "cannot read");
    assert_eq!(error_message(&mut channel), Some("cannot read".to_string()));
    assert_eq!(error_message(&mut channel), None);
    assert!(!crossterm_has_error(&channel));
    assert_eq!(channel.status(), -1);
}

#[test]
fn transferable_message_then_fallback() {
    let mut channel = ErrorChannel::new();
    failing(&mut channel, "boom");
    let first = crossterm_last_error_message(&mut channel).unwrap();
    assert_eq!(first.as_bytes(), b"boom\0");
    let second = crossterm_last_error_message(&mut channel).unwrap();
    assert_eq!(second.to_text(), FALLBACK_MESSAGE);
    assert_ne!(first.to_text(), second.to_text());
}

#[test]
fn message_length_counts_terminator_then_zero() {
    let mut channel = ErrorChannel::new();
    failing(&mut channel, "héllo");
    assert_eq!(crossterm_last_error_length(&mut channel), 7);
    assert_eq!(crossterm_last_error_length(&mut channel), 0);
}

#[test]
fn message_renders_whole_chain() {
    let mut channel = ErrorChannel::new();
    let failure = Failure::new("Unable to write").caused_by("broken pipe").caused_by("os error 32");
    let outcome: Result<(), Failure> = Err(failure);
    outcome.c_unwrap(&mut channel);
    assert_eq!(
        error_message(&mut channel),
        Some("Unable to write: broken pipe: os error 32".to_string())
    );
}

#[test]
fn take_last_error_clears() {
    let mut channel = ErrorChannel::new();
    failing(&mut channel, "gone");
    let taken = take_last_error(&mut channel).unwrap();
    assert_eq!(taken.render(), "gone");
    assert!(take_last_error(&mut channel).is_none());
}

#[test]
fn set_last_error_keeps_status() {
    let mut channel = ErrorChannel::new();
    set_last_error(&mut channel, Failure::new("noted"));
    assert!(crossterm_has_error(&channel));
    assert_eq!(channel.status(), 0);
}

#[test]
fn clear_is_idempotent() {
    let mut channel = ErrorChannel::new();
    failing(&mut channel, "x");
    crossterm_clear_last_error(&mut channel);
    assert!(!crossterm_has_error(&channel));
    crossterm_clear_last_error(&mut channel);
    assert!(!crossterm_has_error(&channel));
}

#[test]
fn raw_mode_failure_scenario() {
    let mut channel = ErrorChannel::new();
    failing(&mut channel, "Failed to initialize input reader");
    assert_eq!(channel.status(), -1);
    assert!(crossterm_has_error(&channel));
    let message = crossterm_last_error_message(&mut channel).unwrap();
    let bytes = message.as_bytes();
    assert!(bytes.len() > 1);
    assert_eq!(bytes[bytes.len() - 1], 0);
    assert_eq!(crossterm_bridge::bridge::crossterm_free_c_char(&mut channel, 0x1000), 0);
    assert!(!crossterm_has_error(&channel));
}

#[test]
fn channels_do_not_share_failures() {
    let mut first = ErrorChannel::new();
    let mut second = ErrorChannel::new();
    failing(&mut first, "first failure");
    failing(&mut second, "second failure");
    assert_eq!(error_message(&mut first), Some("first failure".to_string()));
    assert_eq!(error_message(&mut second), Some("second failure".to_string()));
}

#[test]
fn default_value_on_failure_for_bool() {
    let mut channel = ErrorChannel::new();
    let outcome: Result<bool, Failure> = Err(Failure::new("no tty"));
    assert!(!outcome.c_unwrap(&mut channel));
}

#[test]
fn message_length_of_ok_is_three() {
    let mut channel = ErrorChannel::new();
    failing(&mut channel, "ok");
    assert_eq!(crossterm_last_error_length(&mut channel), 3);
}
