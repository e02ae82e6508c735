use crossterm_bridge::bridge::{crossterm_free_c_char, decode_inbound, encode_transferable, to_transferable};
use crossterm_bridge::channel::{crossterm_has_error, error_message};
use crossterm_bridge::ErrorChannel;

#[test]
fn ok_is_three_bytes() {
    let mut channel = ErrorChannel::new();
    let t = to_transferable(&mut channel, "ok").unwrap();
    assert_eq!(t.as_bytes(), &[b'o', b'k', 0]);
    assert_eq!(t.len(), 3);
    assert_eq!(channel.status(), 0);
    assert!(!crossterm_has_error(&channel));
}

#[test]
fn round_trip_keeps_text() {
    let mut channel = ErrorChannel::new();
    for text in ["", "plain", "héllo wörld ✓ 🦀", "tab\tand\nnewline"] {
        let t = to_transferable(&mut channel, text).unwrap();
        let bytes = t.as_bytes();
        assert_eq!(bytes[bytes.len() - 1], 0);
        let decoded = std::str::from_utf8(&bytes[..bytes.len() - 1]).unwrap();
        assert_eq!(decoded, text);
        assert_eq!(t.to_text(), text);
    }
}

#[test]
fn empty_text_is_terminator_only() {
    let t = encode_transferable("").unwrap();
    assert_eq!(t.as_bytes(), &[0]);
    assert_eq!(t.len(), 1);
}

#[test]
fn embedded_null_is_refused() {
    let mut channel = ErrorChannel::new();
    assert!(to_transferable(&mut channel, "a\0b").is_none());
    assert_eq!(channel.status(), -1);
    assert!(crossterm_has_error(&channel));
    assert_eq!(error_message(&mut channel), Some("Unable to convert a\0b to CString".to_string()));
}

#[test]
fn embedded_null_message_has_no_buffer() {
    let mut channel = ErrorChannel::new();
    assert!(to_transferable(&mut channel, "\0").is_none());
    assert!(crossterm_bridge::channel::crossterm_last_error_message(&mut channel).is_none());
    assert!(!crossterm_has_error(&channel));
}

#[test]
fn free_null_fails() {
    let mut channel = ErrorChannel::new();
    assert_eq!(crossterm_free_c_char(&mut channel, 0), -1);
    assert_eq!(channel.status(), -1);
    assert_eq!(error_message(&mut channel), Some("Received null pointer to free".to_string()));
}

#[test]
fn free_valid_address_succeeds() {
    let mut channel = ErrorChannel::new();
    assert_eq!(crossterm_free_c_char(&mut channel, 0xdead_beef), 0);
    assert_eq!(channel.status(), 0);
    assert!(!crossterm_has_error(&channel));
}

#[test]
fn inbound_null_is_refused() {
    let mut channel = ErrorChannel::new();
    assert!(decode_inbound(&mut channel, None, "title string").is_none());
    assert_eq!(channel.status(), -1);
    assert_eq!(error_message(&mut channel), Some("Received null pointer for title string".to_string()));
}

#[test]
fn inbound_invalid_utf8_is_refused() {
    let mut channel = ErrorChannel::new();
    assert!(decode_inbound(&mut channel, Some(vec![b'a', 0xff, b'b']), "print string").is_none());
    assert_eq!(channel.status(), -1);
    assert_eq!(
        error_message(&mut channel),
        Some("Received invalid UTF-8 string for print string".to_string())
    );
}

#[test]
fn inbound_valid_text_is_decoded() {
    let mut channel = ErrorChannel::new();
    let text = decode_inbound(&mut channel, Some("grüße".as_bytes().to_vec()), "title").unwrap();
    assert_eq!(text, "grüße");
    assert_eq!(channel.status(), 0);
    assert!(!crossterm_has_error(&channel));
}
