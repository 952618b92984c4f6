//! The host functions imported by the guest: `send_message`, `send_binary`
//! and `set_timer`. Each reads its arguments from a snapshot of guest memory
//! taken when the guest made the call, and hands the room's context sink a
//! plain value.

use vstd::prelude::*;
use crate::recipient::{decoded, MessageRecipient};
#[allow(unused_imports)]
use vstd::string::StringSliceAdditionalSpecFns;
#[allow(unused_imports)]
use vstd::utf8::{decode_utf8, encode_utf8_decode_utf8, valid_utf8};

verus! {

/// Where the guest's outbound events go. The runtime gives each room its own
/// sink, shared by the room's three imports.
pub trait ContextSink {
    fn send_message(&self, recipient: MessageRecipient, message: &str);

    fn send_binary(&self, recipient: MessageRecipient, message: &[u8]);

    fn set_timer(&self, ms_delay: u32);
}

/// Why an imported call was refused; the runtime turns it into a trap in the
/// guest.
#[derive(Clone, Copy, Debug, PartialEq, Eq, Structural)]
pub enum BridgeError {
    /// The recipient integer names no recipient.
    InvalidRecipient,
    /// `[ptr, ptr + len)` is not inside guest memory.
    GuestMemoryOutOfBounds,
    /// The text is not UTF-8.
    InvalidUtf8,
}

/// An outbound event decoded from an imported call.
#[derive(Clone, Debug)]
pub enum HostCall {
    SendMessage { recipient: MessageRecipient, text: String },
    SendBinary { recipient: MessageRecipient, data: Vec<u8> },
    SetTimer { ms_delay: u32 },
}

/// The bytes `[start, start + len)` of guest memory, if they lie inside it.
pub open spec fn guest_range(memory: Seq<u8>, start: u32, len: u32) -> Option<Seq<u8>> {
    if start as int + len as int <= memory.len() {
        Some(memory.subrange(start as int, start as int + len as int))
    } else {
        None
    }
}

/// Copies `[start, start + len)` out of guest memory.
pub fn guest_bytes(memory: &[u8], start: u32, len: u32) -> (r: Result<Vec<u8>, BridgeError>)
    ensures
        r is Ok <==> guest_range(memory@, start, len) is Some,
        r is Ok ==> r->Ok_0@ == guest_range(memory@, start, len)->Some_0,
        r is Err ==> r->Err_0 == BridgeError::GuestMemoryOutOfBounds,
{
    let s = start as usize;
    let n = len as usize;
    if s > memory.len() || memory.len() - s < n {
        return Err(BridgeError::GuestMemoryOutOfBounds);
    }
    let mut r: Vec<u8> = Vec::new();
    let mut i: usize = 0;
    while i < n
        invariant
            i <= n,
            s + n <= memory.len(),
            r@ == memory@.subrange(s as int, s as int + i as int),
        decreases n - i,
    {
        r.push(memory[s + i]);
        i = i + 1;
        assert(r@ =~= memory@.subrange(s as int, s as int + i as int));
    }
    Ok(r)
}

/// Relies on `std::str::from_utf8`: `Ok` exactly for valid UTF-8, and then
/// the same bytes viewed as a string.
#[verifier::external_body]
fn utf8_str<'a>(bytes: &'a [u8]) -> (r: Option<&'a str>)
    ensures
        r is Some <==> valid_utf8(bytes@),
        r is Some ==> r->Some_0.spec_bytes() == bytes@,
{
    std::str::from_utf8(bytes).ok()
}

/// The text of a UTF-8 byte sequence.
pub fn text_of(bytes: &[u8]) -> (r: Result<String, BridgeError>)
    ensures
        r is Ok <==> valid_utf8(bytes@),
        r is Ok ==> r->Ok_0@ == decode_utf8(bytes@),
        r is Err ==> r->Err_0 == BridgeError::InvalidUtf8,
{
    match utf8_str(bytes) {
        Some(s) => {
            proof {
                encode_utf8_decode_utf8(s@);
            }
            Ok(s.to_owned())
        },
        None => Err(BridgeError::InvalidUtf8),
    }
}

/// Decodes `send_message(recipient, start, len)`: the recipient must decode,
/// the range lie in memory, and its bytes be UTF-8, checked in that order.
pub fn decode_send_message(memory: &[u8], recipient: i32, start: u32, len: u32) -> (r: Result<
    HostCall,
    BridgeError,
>)
    ensures
        decoded(recipient) is None ==> r == Err::<HostCall, BridgeError>(BridgeError::InvalidRecipient),
        decoded(recipient) is Some && guest_range(memory@, start, len) is None ==> r == Err::<
            HostCall,
            BridgeError,
        >(BridgeError::GuestMemoryOutOfBounds),
        decoded(recipient) is Some && guest_range(memory@, start, len) is Some && !valid_utf8(
            guest_range(memory@, start, len)->Some_0,
        ) ==> r == Err::<HostCall, BridgeError>(BridgeError::InvalidUtf8),
        r is Ok <==> decoded(recipient) is Some && guest_range(memory@, start, len) is Some
            && valid_utf8(guest_range(memory@, start, len)->Some_0),
        r is Ok ==> (match r->Ok_0 {
            HostCall::SendMessage { recipient: to, text } => Some(to) == decoded(recipient)
                && text@ == decode_utf8(guest_range(memory@, start, len)->Some_0),
            _ => false,
        }),
{
    let to = match MessageRecipient::decode_i32(recipient) {
        Some(to) => to,
        None => return Err(BridgeError::InvalidRecipient),
    };
    let bytes = guest_bytes(memory, start, len)?;
    let text = text_of(bytes.as_slice())?;
    Ok(HostCall::SendMessage { recipient: to, text })
}

/// Decodes `send_binary(recipient, start, len)`: the recipient must decode and
/// the range lie in memory, checked in that order.
pub fn decode_send_binary(memory: &[u8], recipient: i32, start: u32, len: u32) -> (r: Result<
    HostCall,
    BridgeError,
>)
    ensures
        decoded(recipient) is None ==> r == Err::<HostCall, BridgeError>(BridgeError::InvalidRecipient),
        decoded(recipient) is Some && guest_range(memory@, start, len) is None ==> r == Err::<
            HostCall,
            BridgeError,
        >(BridgeError::GuestMemoryOutOfBounds),
        r is Ok <==> decoded(recipient) is Some && guest_range(memory@, start, len) is Some,
        r is Ok ==> (match r->Ok_0 {
            HostCall::SendBinary { recipient: to, data } => Some(to) == decoded(recipient)
                && data@ == guest_range(memory@, start, len)->Some_0,
            _ => false,
        }),
{
    let to = match MessageRecipient::decode_i32(recipient) {
        Some(to) => to,
        None => return Err(BridgeError::InvalidRecipient),
    };
    let data = guest_bytes(memory, start, len)?;
    Ok(HostCall::SendBinary { recipient: to, data })
}

/// Decodes `set_timer(ms_delay)`; it reads no memory and cannot fail.
pub fn decode_set_timer(ms_delay: u32) -> (r: HostCall)
    ensures
        r matches HostCall::SetTimer { ms_delay: d } && d == ms_delay,
{
    HostCall::SetTimer { ms_delay }
}

impl HostCall {
    /// Hands the event to the room's sink.
    pub fn dispatch<C: ContextSink>(&self, sink: &C) {
        match self {
            HostCall::SendMessage { recipient, text } => sink.send_message(*recipient, text.as_str()),
            HostCall::SendBinary { recipient, data } => sink.send_binary(*recipient, data.as_slice()),
            HostCall::SetTimer { ms_delay } => sink.set_timer(*ms_delay),
        }
    }
}

} // verus!
