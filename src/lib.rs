//! Error reporting and string hand-over for a C-callable terminal-control layer.
//!
//! Every operation reports its outcome through an [`ErrorChannel`]: a status
//! code (`0` success, `-1` failure) and the most recent [`Failure`], which a
//! caller reads once and thereby clears. Text crosses the boundary as a
//! [`Transferable`]: UTF-8 bytes followed by one null terminator. The
//! terminal vocabulary (keys, colors, attributes) lives in [`events`] and
//! [`style`].
pub mod bridge;
pub mod channel;
pub mod events;
pub mod failure;
pub mod requests;
pub mod style;

pub use bridge::Transferable;
pub use channel::{CUnwrapper, ErrorChannel, FALLBACK_MESSAGE};
pub use failure::Failure;
