//! Clients of a room and the recipients of outbound messages.

use vstd::prelude::*;

verus! {

/// A client connected to one room.
#[derive(Clone, Copy, Debug, PartialEq, Eq, Structural)]
pub struct ClientId(pub u32);

/// Who receives a message sent by the guest.
///
/// Across the ABI a recipient is one signed 32-bit integer: `0` is
/// `Broadcast`, a positive `n` is `Client(n)` and a negative `-n` is
/// `EveryoneExcept(n)`. `i32::MIN` names no recipient.
#[derive(Clone, Copy, Debug, PartialEq, Eq, Structural)]
pub enum MessageRecipient {
    Broadcast,
    EveryoneExcept(ClientId),
    Client(ClientId),
}

/// The recipient that an ABI integer names, if any.
pub open spec fn decoded(v: i32) -> Option<MessageRecipient> {
    if v == 0 {
        Some(MessageRecipient::Broadcast)
    } else if v > 0 {
        Some(MessageRecipient::Client(ClientId(v as u32)))
    } else if v == i32::MIN {
        None
    } else {
        Some(MessageRecipient::EveryoneExcept(ClientId((-v) as u32)))
    }
}

impl MessageRecipient {
    /// Whether the recipient has an ABI integer: a named client must be
    /// between 1 and `i32::MAX`.
    pub open spec fn encodable(self) -> bool {
        match self {
            MessageRecipient::Broadcast => true,
            MessageRecipient::EveryoneExcept(c) => 1 <= c.0 <= i32::MAX,
            MessageRecipient::Client(c) => 1 <= c.0 <= i32::MAX,
        }
    }

    /// The ABI integer of an encodable recipient.
    pub open spec fn encoded(self) -> int {
        match self {
            MessageRecipient::Broadcast => 0,
            MessageRecipient::EveryoneExcept(c) => -(c.0 as int),
            MessageRecipient::Client(c) => c.0 as int,
        }
    }

    /// Reads a recipient from its ABI integer; `None` for `i32::MIN`.
    pub fn decode_i32(v: i32) -> (r: Option<MessageRecipient>)
        ensures
            r == decoded(v),
    {
        if v == 0 {
            Some(MessageRecipient::Broadcast)
        } else if v > 0 {
            Some(MessageRecipient::Client(ClientId(v as u32)))
        } else if v == i32::MIN {
            None
        } else {
            Some(MessageRecipient::EveryoneExcept(ClientId((-v) as u32)))
        }
    }

    /// Writes a recipient as its ABI integer; `None` when a named client
    /// lies outside `1..=i32::MAX`.
    pub fn encode_i32(&self) -> (r: Option<i32>)
        ensures
            r is Some <==> self.encodable(),
            r is Some ==> r->Some_0 as int == self.encoded(),
    {
        match self {
            MessageRecipient::Broadcast => Some(0),
            MessageRecipient::EveryoneExcept(c) => {
                if 1 <= c.0 && c.0 <= 0x7fff_ffff {
                    Some(-(c.0 as i32))
                } else {
                    None
                }
            },
            MessageRecipient::Client(c) => {
                if 1 <= c.0 && c.0 <= 0x7fff_ffff {
                    Some(c.0 as i32)
                } else {
                    None
                }
            },
        }
    }
}

/// Decoding an encoded recipient gives the recipient back.
pub proof fn lemma_decode_encode(r: MessageRecipient)
    requires
        r.encodable(),
    ensures
        decoded(r.encoded() as i32) == Some(r),
{
}

/// Every integer but `i32::MIN` names exactly one recipient, and encoding that
/// recipient gives the integer back.
pub proof fn lemma_encode_decode(v: i32)
    ensures
        decoded(v) is None <==> v == i32::MIN,
        decoded(v) is Some ==> decoded(v)->Some_0.encodable() && decoded(v)->Some_0.encoded()
            == v as int,
{
}

} // verus!
