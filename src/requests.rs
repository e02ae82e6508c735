use vstd::prelude::*;
use vstd::string::StringExecFns;
use vstd::utf8::is_scalar;

use crossterm::event::KeyboardEnhancementFlags as TerminalEnhancements;

use crate::channel::{failed, succeeded, ErrorChannel};
use crate::failure::{rendered, Failure};

verus! {

#[verifier::external_type_specification]
#[verifier::external_body]
pub struct ExTerminalEnhancements(TerminalEnhancements);

/// The decimal digit `d`.
pub open spec fn digit_char(d: nat) -> char {
    seq!['0', '1', '2', '3', '4', '5', '6', '7', '8', '9'][d as int]
}

/// The decimal representation of `n`, without leading zeros.
pub open spec fn decimal(n: nat) -> Seq<char>
    decreases n,
{
    if n < 10 {
        seq![digit_char(n)]
    } else {
        decimal(n / 10).push(digit_char(n % 10))
    }
}

/// The message recorded when `code` is no character.
pub open spec fn invalid_char_failure(code: u32) -> Seq<char> {
    "Unable to convert "@ + decimal(code as nat) + " to valid char"@
}

/// The message recorded when `bits` holds a bit that names no keyboard enhancement.
pub open spec fn unknown_flags_failure(bits: u8) -> Seq<char> {
    "Unknown keyboard enhancement flags "@ + decimal(bits as nat)
}

/// The prefix of the message that reports a failed event read.
pub open spec fn read_failure_prefix() -> Seq<char> {
    "Something went wrong with crossterm_event_read(): "@
}

/// The JSON object `{"error":...}` whose member is the JSON string `quoted`.
pub open spec fn error_object(quoted: Seq<char>) -> Seq<char> {
    "{\"error\":"@ + quoted + "}"@
}

/// What serde_json writes for the JSON string that holds `s`, quotes and
/// escapes included.
pub uninterp spec fn json_string_of(s: Seq<char>) -> Seq<char>;

/// Relies on `u32`'s `Display` (through `to_string`): the decimal digits of `n`.
#[verifier::external_body]
fn decimal_text(n: u32) -> (r: String)
    ensures
        r@ == decimal(n as nat),
{
    n.to_string()
}

/// Relies on `char::from_u32`: a character exactly for the Unicode scalar values.
#[verifier::external_body]
fn char_of(code: u32) -> (r: Option<char>)
    ensures
        match r {
            Some(c) => is_scalar(code) && c as u32 == code,
            None => !is_scalar(code),
        },
{
    char::from_u32(code)
}

/// Relies on `KeyboardEnhancementFlags::from_bits` of crossterm (a bitflags
/// type of four flags, bits 0 to 3): `None` exactly when another bit is set.
#[verifier::external_body]
fn crossterm_enhancement_flags(bits: u8) -> (r: Option<TerminalEnhancements>)
    ensures
        r is Some <==> bits < 16,
{
    TerminalEnhancements::from_bits(bits)
}

/// Relies on the `Display` of serde_json's `Value::String`: the compact JSON
/// form of the string `s`.
#[verifier::external_body]
fn json_quoted(s: String) -> (r: String)
    ensures
        r@ == json_string_of(s@),
{
    serde_json::Value::String(s).to_string()
}

/// The status that a poll reports: `1` when an event is ready, `0` when none
/// is, `-1` when polling failed. The outcome is recorded on the channel.
pub fn poll_status(channel: &mut ErrorChannel, outcome: Result<bool, Failure>) -> (r: i32)
    ensures
        match outcome {
            Ok(ready) => r == (if ready {
                1i32
            } else {
                0i32
            }) && final(channel)@ == succeeded(),
            Err(f) => r == -1 && final(channel)@ == failed(f@),
        },
{
    match outcome {
        Ok(ready) => {
            channel.record_success();
            if ready {
                1
            } else {
                0
            }
        },
        Err(f) => {
            channel.record_failure(f);
            -1
        },
    }
}

/// The character whose code is `code`, for printing. When `code` is no
/// Unicode scalar value the failure is recorded and `None` returned; otherwise
/// the channel is left as it was.
pub fn char_from_code(channel: &mut ErrorChannel, code: u32) -> (r: Option<char>)
    ensures
        is_scalar(code) ==> r is Some && r->0 as u32 == code && final(channel)@ == old(channel)@,
        !is_scalar(code) ==> r is None && final(channel)@ == failed(
            seq![invalid_char_failure(code)],
        ),
{
    match char_of(code) {
        Some(c) => Some(c),
        None => {
            let mut message = String::from_str("Unable to convert ");
            let digits = decimal_text(code);
            message.append(digits.as_str());
            message.append(" to valid char");
            channel.record_failure(Failure::new(message.as_str()));
            None
        },
    }
}

/// The keyboard enhancements that `bits` selects. A bit that names no
/// enhancement (any of bits 4 to 7) is refused: the failure is recorded and
/// `None` returned. Otherwise the channel is left as it was.
pub fn keyboard_enhancement_flags(channel: &mut ErrorChannel, bits: u8) -> (r: Option<TerminalEnhancements>)
    ensures
        r is Some <==> bits < 16,
        bits < 16 ==> final(channel)@ == old(channel)@,
        bits >= 16 ==> final(channel)@ == failed(seq![unknown_flags_failure(bits)]),
{
    let flags = crossterm_enhancement_flags(bits);
    if flags.is_none() {
        let mut message = String::from_str("Unknown keyboard enhancement flags ");
        let digits = decimal_text(bits as u32);
        message.append(digits.as_str());
        channel.record_failure(Failure::new(message.as_str()));
    }
    flags
}

/// The error object around the JSON string `quoted`.
pub fn error_object_of(quoted: &str) -> (r: String)
    ensures
        r@ == error_object(quoted@),
{
    let mut out = String::from_str("{\"error\":");
    out.append(quoted);
    out.append("}");
    out
}

/// The JSON object that reports `message` as an error: `{"error":"..."}`.
pub fn error_payload(message: &str) -> (r: String)
    ensures
        r@ == error_object(json_string_of(message@)),
{
    let quoted = json_quoted(String::from_str(message));
    error_object_of(quoted.as_str())
}

/// The payload of an event read that failed with `failure`.
pub fn read_failure_payload(failure: &Failure) -> (r: String)
    ensures
        r@ == error_object(json_string_of(read_failure_prefix() + rendered(failure@))),
{
    let mut message = String::from_str("Something went wrong with crossterm_event_read(): ");
    let detail = failure.render();
    message.append(detail.as_str());
    error_payload(message.as_str())
}

/// The payload of an event read that succeeded: the event's JSON text when it
/// could be written (`json`), else an error object that names the event by
/// its debug text.
pub fn event_payload(json: Option<String>, event_debug: &str) -> (r: String)
    ensures
        match json {
            Some(j) => r@ == j@,
            None => r@ == error_object(
                json_string_of("Unable to convert event "@ + event_debug@ + " to JSON"@),
            ),
        },
{
    match json {
        Some(j) => j,
        None => {
            let mut message = String::from_str("Unable to convert event ");
            message.append(event_debug);
            message.append(" to JSON");
            error_payload(message.as_str())
        },
    }
}

} // verus!
