use vstd::prelude::*;

use vstd::string::StringExecFns;
use vstd::utf8::encode_utf8;

use crate::bridge::{encode_transferable, has_embedded_null, transferable_bytes, Transferable};
use crate::failure::{rendered, Failure};

verus! {

/// What a caller can observe of an [`ErrorChannel`].
pub struct ChannelState {
    /// `0` after a success, `-1` after a failure.
    pub status: i32,
    /// The chain of the failure that has not been read yet, if any.
    pub last_error: Option<Seq<Seq<char>>>,
}

/// The view of an optional failure.
pub open spec fn failure_view(f: Option<Failure>) -> Option<Seq<Seq<char>>> {
    match f {
        Some(e) => Some(e@),
        None => None,
    }
}

/// The state left by a successful operation: status `0` and no pending failure.
pub open spec fn succeeded() -> ChannelState {
    ChannelState { status: 0i32, last_error: None }
}

/// The state left by an operation that failed with `chain`.
pub open spec fn failed(chain: Seq<Seq<char>>) -> ChannelState {
    ChannelState { status: -1i32, last_error: Some(chain) }
}

/// `state` with its pending failure removed and its status kept.
pub open spec fn cleared(state: ChannelState) -> ChannelState {
    ChannelState { status: state.status, last_error: None }
}

/// The outcome of the most recent operation of one execution context.
///
/// Each thread that calls the library holds its own channel, so two threads
/// never see each other's failures.
pub struct ErrorChannel {
    status: i32,
    last_error: Option<Failure>,
}

impl View for ErrorChannel {
    type V = ChannelState;

    closed spec fn view(&self) -> ChannelState {
        ChannelState { status: self.status, last_error: failure_view(self.last_error) }
    }
}

impl ErrorChannel {
    /// A channel on which nothing has happened yet.
    pub fn new() -> (r: ErrorChannel)
        ensures
            r@ == succeeded(),
    {
        ErrorChannel { status: 0, last_error: None }
    }

    /// The status left by the most recent operation.
    pub fn status(&self) -> (r: i32)
        ensures
            r == self@.status,
    {
        self.status
    }

    /// Records a success: status `0`, and any earlier failure is discarded.
    pub fn record_success(&mut self)
        ensures
            final(self)@ == succeeded(),
    {
        self.status = 0;
        self.last_error = None;
    }

    /// Records a failure: status `-1`, and `failure` becomes the pending failure.
    pub fn record_failure(&mut self, failure: Failure)
        ensures
            final(self)@ == failed(failure@),
    {
        self.status = -1;
        self.last_error = Some(failure);
    }
}

/// Stores `err` as the pending failure, replacing any earlier one; the status is kept.
pub fn set_last_error(channel: &mut ErrorChannel, err: Failure)
    ensures
        final(channel)@ == (ChannelState { status: old(channel)@.status, last_error: Some(err@) }),
{
    channel.last_error = Some(err);
}

/// Takes the pending failure, leaving none behind.
pub fn take_last_error(channel: &mut ErrorChannel) -> (r: Option<Failure>)
    ensures
        failure_view(r) == old(channel)@.last_error,
        final(channel)@ == cleared(old(channel)@),
{
    let r = channel.last_error.take();
    r
}

/// Whether a failure is pending.
pub fn crossterm_has_error(channel: &ErrorChannel) -> (r: bool)
    ensures
        r == channel@.last_error.is_some(),
{
    channel.last_error.is_some()
}

/// Discards the pending failure, if any.
pub fn crossterm_clear_last_error(channel: &mut ErrorChannel)
    ensures
        final(channel)@ == cleared(old(channel)@),
{
    let _ = take_last_error(channel);
}

/// The message of the pending failure, which is thereby cleared; `None` when
/// no failure is pending.
pub fn error_message(channel: &mut ErrorChannel) -> (r: Option<String>)
    ensures
        match old(channel)@.last_error {
            Some(chain) => r is Some && r->0@ == rendered(chain),
            None => r is None,
        },
        final(channel)@ == cleared(old(channel)@),
{
    match take_last_error(channel) {
        Some(f) => Some(f.render()),
        None => None,
    }
}

/// The text reported when no failure is pending.
pub const FALLBACK_MESSAGE: &'static str =
    "No error message found. Check library documentation for more information.";

/// The text that a read of the message reports: the pending failure rendered,
/// or the fallback text when none is pending.
pub open spec fn report_text(pending: Option<Seq<Seq<char>>>) -> Seq<char> {
    match pending {
        Some(chain) => rendered(chain),
        None => FALLBACK_MESSAGE@,
    }
}

/// The length that a read of the message length reports: the UTF-8 size of the
/// rendered failure plus one for the terminator (at most `i32::MAX`), or `0`
/// when none is pending.
pub open spec fn length_report(pending: Option<Seq<Seq<char>>>) -> int {
    match pending {
        Some(chain) => {
            let n = encode_utf8(rendered(chain)).len() as int + 1;
            if n <= i32::MAX {
                n
            } else {
                i32::MAX as int
            }
        },
        None => 0,
    }
}

/// The size, terminator included, of the buffer that would carry the pending
/// failure's message; `0` when none is pending. The failure is thereby cleared.
pub fn crossterm_last_error_length(channel: &mut ErrorChannel) -> (r: i32)
    ensures
        r as int == length_report(old(channel)@.last_error),
        final(channel)@ == cleared(old(channel)@),
{
    match take_last_error(channel) {
        Some(f) => {
            let text = f.render();
            let n = text.as_str().as_bytes().len();
            if n < i32::MAX as usize {
                (n + 1) as i32
            } else {
                i32::MAX
            }
        },
        None => 0,
    }
}

/// The pending failure's message in a buffer for the caller, or the fallback
/// text when none is pending; the failure is thereby cleared. `None` only when
/// the message holds a null byte. The status is kept.
pub fn crossterm_last_error_message(channel: &mut ErrorChannel) -> (r: Option<Transferable>)
    ensures
        final(channel)@ == cleared(old(channel)@),
        match r {
            Some(t) => !has_embedded_null(report_text(old(channel)@.last_error)) && t@
                == transferable_bytes(report_text(old(channel)@.last_error)),
            None => has_embedded_null(report_text(old(channel)@.last_error)),
        },
{
    let text = match take_last_error(channel) {
        Some(f) => f.render(),
        None => String::from_str(FALLBACK_MESSAGE),
    };
    encode_transferable(text.as_str())
}

/// After a failure, the failure is pending and the status is `-1`; after a
/// success, nothing is pending and the status is `0`.
pub proof fn lemma_outcome_visible(chain: Seq<Seq<char>>)
    ensures
        failed(chain).status == -1,
        failed(chain).last_error == Some(chain),
        succeeded().status == 0,
        succeeded().last_error is None,
{
}

/// Reading the message clears it: after a failure with `chain`, the first read
/// reports its rendered text and the second the fallback text, a zero length
/// and no message, so the two reads differ unless the failure's own text is
/// the fallback text.
pub proof fn lemma_read_and_clear(chain: Seq<Seq<char>>)
    ensures
        report_text(failed(chain).last_error) == rendered(chain),
        cleared(failed(chain)).last_error is None,
        report_text(cleared(failed(chain)).last_error) == FALLBACK_MESSAGE@,
        length_report(cleared(failed(chain)).last_error) == 0,
        rendered(chain) != FALLBACK_MESSAGE@ ==> report_text(failed(chain).last_error)
            != report_text(cleared(failed(chain)).last_error),
{
}

/// Turns the outcome of an operation into its plain result, recording the
/// outcome on the channel.
pub trait CUnwrapper<T>: Sized {
    /// Whether the outcome is a success.
    spec fn is_success(&self) -> bool;

    /// The value carried by a success.
    spec fn success_value(&self) -> T;

    /// The chain of the failure carried by a failure.
    spec fn failure_chain(&self) -> Seq<Seq<char>>;

    /// On success returns the value and records a success; on failure records
    /// the failure and returns the type's default value.
    fn c_unwrap(self, channel: &mut ErrorChannel) -> (r: T)
        ensures
            self.is_success() ==> r == self.success_value() && final(channel)@ == succeeded(),
            !self.is_success() ==> final(channel)@ == failed(self.failure_chain()),
    ;
}

impl<T: Default> CUnwrapper<T> for Result<T, Failure> {
    open spec fn is_success(&self) -> bool {
        self is Ok
    }

    open spec fn success_value(&self) -> T {
        self->Ok_0
    }

    open spec fn failure_chain(&self) -> Seq<Seq<char>> {
        self->Err_0@
    }

    fn c_unwrap(self, channel: &mut ErrorChannel) -> (r: T) {
        match self {
            Ok(t) => {
                channel.record_success();
                t
            },
            Err(err) => {
                channel.record_failure(err);
                T::default()
            },
        }
    }
}

} // verus!
