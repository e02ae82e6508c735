use vstd::prelude::*;
use vstd::string::StringExecFns;
use vstd::utf8::{
    decode_utf8, encode_scalar, encode_utf8, encode_utf8_decode_utf8, encode_utf8_valid_utf8,
    has_width_1_encoding, has_width_2_encoding, has_width_3_encoding, valid_utf8,
};

use crate::channel::{failed, succeeded, ErrorChannel};
use crate::failure::Failure;

verus! {

/// Whether `b` is a well-formed transferable buffer: valid UTF-8 text without
/// null bytes, followed by exactly one null terminator.
pub open spec fn is_transferable(b: Seq<u8>) -> bool {
    &&& b.len() > 0
    &&& b.last() == 0u8
    &&& !b.drop_last().contains(0u8)
    &&& valid_utf8(b.drop_last())
}

/// The buffer that carries `text`: its UTF-8 encoding and a null terminator.
pub open spec fn transferable_bytes(text: Seq<char>) -> Seq<u8> {
    encode_utf8(text).push(0u8)
}

/// Whether the UTF-8 encoding of `text` holds a null byte, which no
/// null-terminated buffer can carry.
pub open spec fn has_embedded_null(text: Seq<char>) -> bool {
    encode_utf8(text).contains(0u8)
}

/// The message recorded when `text` cannot be made into a buffer.
pub open spec fn conversion_failure(text: Seq<char>) -> Seq<char> {
    "Unable to convert "@ + text + " to CString"@
}

/// The message recorded when a null address is released.
pub open spec fn null_release_failure() -> Seq<char> {
    "Received null pointer to free"@
}

/// The message recorded when an inbound text is absent.
pub open spec fn null_inbound_failure(subject: Seq<char>) -> Seq<char> {
    "Received null pointer for "@ + subject
}

/// The message recorded when an inbound text is not UTF-8.
pub open spec fn invalid_inbound_failure(subject: Seq<char>) -> Seq<char> {
    "Received invalid UTF-8 string for "@ + subject
}

/// Relies on `String::from_utf8`: it succeeds exactly on valid UTF-8, and the
/// string it returns holds those bytes.
#[verifier::external_body]
fn utf8_to_string(bytes: Vec<u8>) -> (r: Option<String>)
    ensures
        match r {
            Some(s) => valid_utf8(bytes@) && s@ == decode_utf8(bytes@),
            None => !valid_utf8(bytes@),
        },
{
    String::from_utf8(bytes).ok()
}

/// A null-terminated UTF-8 buffer whose ownership passes to the receiver.
pub struct Transferable {
    bytes: Vec<u8>,
}

impl View for Transferable {
    type V = Seq<u8>;

    closed spec fn view(&self) -> Seq<u8> {
        self.bytes@
    }
}

impl Transferable {
    #[verifier::type_invariant]
    spec fn well_formed(&self) -> bool {
        is_transferable(self.bytes@)
    }

    /// The size of the buffer, terminator included.
    pub fn len(&self) -> (r: usize)
        ensures
            r == self@.len(),
            is_transferable(self@),
    {
        proof {
            use_type_invariant(self);
        }
        self.bytes.len()
    }

    /// The whole buffer, terminator included.
    pub fn as_bytes(&self) -> (r: &[u8])
        ensures
            r@ == self@,
            is_transferable(self@),
    {
        proof {
            use_type_invariant(self);
        }
        self.bytes.as_slice()
    }

    /// The text that the buffer carries: its bytes before the terminator, decoded.
    pub fn to_text(&self) -> (r: String)
        ensures
            r@ == decode_utf8(self@.drop_last()),
    {
        proof {
            use_type_invariant(self);
        }
        let n = self.bytes.len() - 1;
        let mut content: Vec<u8> = Vec::new();
        let mut i: usize = 0;
        while i < n
            invariant
                n == self.bytes@.len() - 1,
                i <= n,
                content@ == self.bytes@.subrange(0, i as int),
            decreases n - i,
        {
            content.push(self.bytes[i]);
            i = i + 1;
            assert(content@ =~= self.bytes@.subrange(0, i as int));
        }
        assert(content@ =~= self@.drop_last());
        match utf8_to_string(content) {
            Some(s) => s,
            None => {
                assert(false);
                String::new()
            },
        }
    }
}

/// The buffer that carries `text`, or `None` when `text` holds a null byte.
pub fn encode_transferable(text: &str) -> (r: Option<Transferable>)
    ensures
        match r {
            Some(t) => !has_embedded_null(text@) && t@ == transferable_bytes(text@),
            None => has_embedded_null(text@),
        },
{
    let bytes = text.as_bytes();
    let mut out: Vec<u8> = Vec::new();
    let mut i: usize = 0;
    while i < bytes.len()
        invariant
            bytes@ == encode_utf8(text@),
            i <= bytes@.len(),
            out@ == bytes@.subrange(0, i as int),
            !out@.contains(0u8),
        decreases bytes@.len() - i,
    {
        let b = bytes[i];
        if b == 0 {
            assert(bytes@[i as int] == 0u8);
            return None;
        }
        out.push(b);
        i = i + 1;
        assert(out@ =~= bytes@.subrange(0, i as int));
    }
    assert(out@ =~= encode_utf8(text@));
    out.push(0u8);
    proof {
        encode_utf8_valid_utf8(text@);
        assert(out@.drop_last() =~= encode_utf8(text@));
    }
    Some(Transferable { bytes: out })
}

/// Makes `text` into a buffer for the caller. On success the channel records
/// a success; when `text` holds a null byte it records the failure and no
/// buffer is made.
pub fn to_transferable(channel: &mut ErrorChannel, text: &str) -> (r: Option<Transferable>)
    ensures
        match r {
            Some(t) => !has_embedded_null(text@) && t@ == transferable_bytes(text@) && final(channel)@
                == succeeded(),
            None => has_embedded_null(text@) && final(channel)@ == failed(
                seq![conversion_failure(text@)],
            ),
        },
        r is None <==> text@.contains('\0'),
{
    proof {
        lemma_embedded_null_is_nul_char(text@);
    }
    match encode_transferable(text) {
        Some(t) => {
            channel.record_success();
            Some(t)
        },
        None => {
            let mut message = String::from_str("Unable to convert ");
            message.append(text);
            message.append(" to CString");
            channel.record_failure(Failure::new(message.as_str()));
            None
        },
    }
}

/// Checks a request to release the buffer at `address`, which the caller then
/// frees. A null address (`0`) is a misuse: it is refused with `-1` and a
/// recorded failure. Any other address is accepted with `0`.
pub fn crossterm_free_c_char(channel: &mut ErrorChannel, address: usize) -> (r: i32)
    ensures
        address == 0 ==> r == -1 && final(channel)@ == failed(seq![null_release_failure()]),
        address != 0 ==> r == 0 && final(channel)@ == succeeded(),
{
    if address == 0 {
        channel.record_failure(Failure::new("Received null pointer to free"));
        -1
    } else {
        channel.record_success();
        0
    }
}

/// Reads a text handed in by the caller: `None` stands for a null address,
/// and `bytes` are those before its terminator. `subject` names the text in
/// the failure. On success the channel is left as it was.
pub fn decode_inbound(channel: &mut ErrorChannel, bytes: Option<Vec<u8>>, subject: &str) -> (r:
    Option<String>)
    ensures
        match bytes {
            None => r is None && final(channel)@ == failed(seq![null_inbound_failure(subject@)]),
            Some(b) => if valid_utf8(b@) {
                r is Some && r->0@ == decode_utf8(b@) && final(channel)@ == old(channel)@
            } else {
                r is None && final(channel)@ == failed(seq![invalid_inbound_failure(subject@)])
            },
        },
{
    match bytes {
        None => {
            let mut message = String::from_str("Received null pointer for ");
            message.append(subject);
            channel.record_failure(Failure::new(message.as_str()));
            None
        },
        Some(b) => match utf8_to_string(b) {
            Some(s) => Some(s),
            None => {
                let mut message = String::from_str("Received invalid UTF-8 string for ");
                message.append(subject);
                channel.record_failure(Failure::new(message.as_str()));
                None
            },
        },
    }
}

/// A text without null bytes survives the trip through a buffer: the buffer
/// is well formed, and decoding it without its terminator gives the text back.
pub proof fn lemma_transferable_round_trip(text: Seq<char>)
    requires
        !has_embedded_null(text),
    ensures
        is_transferable(transferable_bytes(text)),
        transferable_bytes(text).drop_last() == encode_utf8(text),
        decode_utf8(transferable_bytes(text).drop_last()) == text,
{
    assert(transferable_bytes(text).drop_last() =~= encode_utf8(text));
    encode_utf8_valid_utf8(text);
    encode_utf8_decode_utf8(text);
}

/// The encoding of one character holds a null byte exactly when the
/// character is `'\0'`: every byte of a longer encoding has its high bit set.
proof fn lemma_scalar_null(c: char)
    ensures
        encode_scalar(c as u32).contains(0u8) <==> c == '\0',
{
    let v = c as u32;
    let e = encode_scalar(v);
    assert('\0' as u32 == 0u32);
    if has_width_1_encoding(v) {
        assert(v <= 0x7F ==> ((v & 0x7F) as u8 == 0u8 <==> v == 0u32)) by (bit_vector);
        if c == '\0' {
            assert(e[0] == 0u8);
        }
        if e.contains(0u8) {
            assert(v == 0u32);
            assert(c == '\0');
        }
    } else {
        assert(0x80u8 | (v & 0x3F) as u8 != 0u8) by (bit_vector);
        assert(0x80u8 | ((v >> 6) & 0x3F) as u8 != 0u8) by (bit_vector);
        assert(0x80u8 | ((v >> 12) & 0x3F) as u8 != 0u8) by (bit_vector);
        assert(0xC0u8 | ((v >> 6) & 0x1F) as u8 != 0u8) by (bit_vector);
        assert(0xE0u8 | ((v >> 12) & 0x0F) as u8 != 0u8) by (bit_vector);
        assert(0xF0u8 | ((v >> 18) & 0x7) as u8 != 0u8) by (bit_vector);
        if has_width_2_encoding(v) {
            assert(e.len() == 2);
        } else if has_width_3_encoding(v) {
            assert(e.len() == 3);
        } else {
            assert(e.len() == 4);
        }
        assert forall|i: int| 0 <= i < e.len() implies e[i] != 0u8 by {}
        assert(v != 0u32);
    }
}

/// The encoding of a text holds a null byte exactly when the text holds the
/// character `'\0'`.
pub proof fn lemma_embedded_null_is_nul_char(text: Seq<char>)
    ensures
        has_embedded_null(text) <==> text.contains('\0'),
    decreases text.len(),
{
    if text.len() == 0 {
        assert(encode_utf8(text) =~= Seq::<u8>::empty());
    } else {
        let head = encode_scalar(text[0] as u32);
        let rest = text.drop_first();
        let tail = encode_utf8(rest);
        let all = encode_utf8(text);
        lemma_embedded_null_is_nul_char(rest);
        lemma_scalar_null(text[0]);
        assert(all == head + tail);
        if all.contains(0u8) {
            let k = choose|k: int| 0 <= k < all.len() && all[k] == 0u8;
            if k < head.len() {
                assert(head[k] == 0u8);
                assert(text[0] == '\0');
            } else {
                assert(tail[k - head.len()] == 0u8);
                let j = choose|j: int| 0 <= j < rest.len() && rest[j] == '\0';
                assert(text[j + 1] == '\0');
            }
        }
        if text.contains('\0') {
            let j = choose|j: int| 0 <= j < text.len() && text[j] == '\0';
            if j == 0 {
                let k = choose|k: int| 0 <= k < head.len() && head[k] == 0u8;
                assert(all[k] == 0u8);
            } else {
                assert(rest[j - 1] == '\0');
                let k = choose|k: int| 0 <= k < tail.len() && tail[k] == 0u8;
                assert(all[head.len() + k] == 0u8);
            }
        }
    }
}

} // verus!
