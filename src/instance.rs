//! The per-room guest instance: which guest calls the host makes, in what
//! order, and what a trap does to the instance.
//!
//! The runtime that owns the guest performs each call that [`Delivery::next_step`]
//! names and appends its [`Outcome`]; the library decides the next call from
//! the outcomes so far. A payload is handed over by the put-call-free
//! sequence: `jam_malloc(len)`, a write of the payload at the returned
//! address, the target call with `(client, ptr, len)`, and `jam_free(ptr, len)`.
//!
//! Policy on traps: a trap in any guest call poisons the instance, and every
//! later event on a poisoned instance is refused with `Poisoned` without
//! calling the guest. A trap in `jam_free` leaves the delivery's result `Ok`,
//! since the guest did receive the event, but poisons the instance too.

use vstd::prelude::*;
use crate::abi::{
    SpawnError, VersionsChecked, EXT_FN_BINARY, EXT_FN_CONNECT, EXT_FN_DISCONNECT, EXT_FN_FREE,
    EXT_FN_INITIALIZE, EXT_FN_MALLOC, EXT_FN_MESSAGE, EXT_FN_TIMER,
};
use crate::recipient::ClientId;
#[allow(unused_imports)]
use vstd::utf8::{decode_utf8, encode_utf8, encode_utf8_decode_utf8};
#[allow(unused_imports)]
use vstd::string::StringSliceAdditionalSpecFns;

verus! {

/// A function that the guest exports.
#[derive(Clone, Copy, Debug, PartialEq, Eq, Structural)]
pub enum Export {
    Initialize,
    Connect,
    Disconnect,
    Message,
    Binary,
    Timer,
    Malloc,
    Free,
}

impl Export {
    /// The export's name in the guest module.
    pub fn name(&self) -> (r: &'static str)
        ensures
            *self == Export::Initialize ==> r == EXT_FN_INITIALIZE,
            *self == Export::Connect ==> r == EXT_FN_CONNECT,
            *self == Export::Disconnect ==> r == EXT_FN_DISCONNECT,
            *self == Export::Message ==> r == EXT_FN_MESSAGE,
            *self == Export::Binary ==> r == EXT_FN_BINARY,
            *self == Export::Timer ==> r == EXT_FN_TIMER,
            *self == Export::Malloc ==> r == EXT_FN_MALLOC,
            *self == Export::Free ==> r == EXT_FN_FREE,
    {
        match self {
            Export::Initialize => EXT_FN_INITIALIZE,
            Export::Connect => EXT_FN_CONNECT,
            Export::Disconnect => EXT_FN_DISCONNECT,
            Export::Message => EXT_FN_MESSAGE,
            Export::Binary => EXT_FN_BINARY,
            Export::Timer => EXT_FN_TIMER,
            Export::Malloc => EXT_FN_MALLOC,
            Export::Free => EXT_FN_FREE,
        }
    }
}

/// What became of one guest call, as the runtime reports it.
#[derive(Clone, Copy, Debug, PartialEq, Eq, Structural)]
pub enum Outcome {
    /// `jam_malloc` returned this address.
    Allocated(u32),
    /// The call or the write finished.
    Completed,
    /// The guest trapped.
    Trapped,
    /// The write would run past the end of guest memory.
    OutOfBounds,
}

/// One guest call that the runtime is to make.
#[derive(Clone, Copy, Debug, PartialEq, Eq, Structural)]
pub enum GuestCall {
    /// Call `jam_malloc(len)`.
    Alloc { len: u32 },
    /// Write the delivery's payload into guest memory at `ptr`.
    Write { ptr: u32 },
    /// Call `target` with `(client, ptr, len)`, or `(ptr, len)` without a client.
    Invoke { target: Export, client: Option<u32>, ptr: u32, len: u32 },
    /// Call `jam_free(ptr, len)`.
    Free { ptr: u32, len: u32 },
}

/// Failures while delivering an event to the guest.
#[derive(Clone, Copy, Debug, PartialEq, Eq, Structural)]
pub enum DeliveryError {
    /// The guest trapped in `method`.
    GuestTrap { method: Export },
    /// `jam_malloc` returned 0 for a non-empty payload: the guest is out of
    /// memory, and nothing was written or needs freeing.
    AllocationFailed,
    /// The payload did not fit in guest memory at the address it was given.
    GuestMemoryOutOfBounds,
    /// The payload is longer than the 32-bit ABI can describe.
    PayloadTooLarge,
    /// The instance trapped earlier and takes no more calls.
    Poisoned,
}

/// The next thing to do in a delivery.
#[derive(Clone, Copy, Debug)]
pub enum Step {
    Call(GuestCall),
    Finish(Result<(), DeliveryError>),
}

/// The put-call-free sequence for a payload of `len` bytes, given the
/// outcomes of the calls made so far.
pub open spec fn protocol(target: Export, client: Option<u32>, len: u32, o: Seq<Outcome>) -> Step {
    if o.len() == 0 {
        Step::Call(GuestCall::Alloc { len })
    } else {
        match o[0] {
            Outcome::Allocated(p) => {
                if p == 0 && len != 0 {
                    Step::Finish(Err(DeliveryError::AllocationFailed))
                } else if o.len() == 1 {
                    Step::Call(GuestCall::Write { ptr: p })
                } else if o[1] == Outcome::Completed {
                    if o.len() == 2 {
                        Step::Call(GuestCall::Invoke { target, client, ptr: p, len })
                    } else if o[2] == Outcome::Completed {
                        if o.len() == 3 {
                            Step::Call(GuestCall::Free { ptr: p, len })
                        } else {
                            Step::Finish(Ok(()))
                        }
                    } else {
                        Step::Finish(Err(DeliveryError::GuestTrap { method: target }))
                    }
                } else if o.len() == 2 {
                    Step::Call(GuestCall::Free { ptr: p, len })
                } else {
                    Step::Finish(Err(DeliveryError::GuestMemoryOutOfBounds))
                }
            },
            _ => Step::Finish(Err(DeliveryError::GuestTrap { method: Export::Malloc })),
        }
    }
}

/// Whether any reported outcome is a trap.
pub open spec fn any_trap(o: Seq<Outcome>) -> bool {
    exists|i: int| 0 <= i < o.len() && o[i] == Outcome::Trapped
}

/// A payload on its way to one guest function.
pub struct Delivery {
    pub target: Export,
    pub client: Option<u32>,
    pub payload: Vec<u8>,
}

impl Delivery {
    pub open spec fn wf(&self) -> bool {
        self.payload@.len() <= u32::MAX
    }

    pub open spec fn spec_len(&self) -> u32 {
        self.payload@.len() as u32
    }

    /// The next step, given the outcomes of the calls made so far.
    pub fn next_step(&self, outcomes: &Vec<Outcome>) -> (r: Step)
        requires
            self.wf(),
        ensures
            r == protocol(self.target, self.client, self.spec_len(), outcomes@),
    {
        let len = self.payload.len() as u32;
        if outcomes.len() == 0 {
            return Step::Call(GuestCall::Alloc { len });
        }
        match outcomes[0] {
            Outcome::Allocated(p) => {
                if p == 0 && len != 0 {
                    Step::Finish(Err(DeliveryError::AllocationFailed))
                } else if outcomes.len() == 1 {
                    Step::Call(GuestCall::Write { ptr: p })
                } else if outcomes[1] == Outcome::Completed {
                    if outcomes.len() == 2 {
                        Step::Call(
                            GuestCall::Invoke { target: self.target, client: self.client, ptr: p, len },
                        )
                    } else if outcomes[2] == Outcome::Completed {
                        if outcomes.len() == 3 {
                            Step::Call(GuestCall::Free { ptr: p, len })
                        } else {
                            Step::Finish(Ok(()))
                        }
                    } else {
                        Step::Finish(Err(DeliveryError::GuestTrap { method: self.target }))
                    }
                } else if outcomes.len() == 2 {
                    Step::Call(GuestCall::Free { ptr: p, len })
                } else {
                    Step::Finish(Err(DeliveryError::GuestMemoryOutOfBounds))
                }
            },
            _ => Step::Finish(Err(DeliveryError::GuestTrap { method: Export::Malloc })),
        }
    }
}

/// Whether any outcome is a trap.
pub fn has_trap(outcomes: &Vec<Outcome>) -> (r: bool)
    ensures
        r == any_trap(outcomes@),
{
    let mut i: usize = 0;
    while i < outcomes.len()
        invariant
            i <= outcomes@.len(),
            forall|j: int| 0 <= j < i ==> outcomes@[j] != Outcome::Trapped,
        decreases outcomes@.len() - i,
    {
        if outcomes[i] == Outcome::Trapped {
            return true;
        }
        i = i + 1;
    }
    false
}

/// A copy of `bytes`.
pub(crate) fn copy_bytes(bytes: &[u8]) -> (r: Vec<u8>)
    ensures
        r@ == bytes@,
{
    let mut r: Vec<u8> = Vec::new();
    let mut i: usize = 0;
    while i < bytes.len()
        invariant
            i <= bytes@.len(),
            r@ == bytes@.subrange(0, i as int),
        decreases bytes@.len() - i,
    {
        r.push(bytes[i]);
        i = i + 1;
        assert(r@ =~= bytes@.subrange(0, i as int));
    }
    assert(r@ =~= bytes@);
    r
}

/// The invocations of a delivery that the guest sees, each with the bytes
/// that the host wrote at the pointer it passes: one when the allocation and
/// the write went through, none otherwise.
pub open spec fn seen_by_guest(target: Export, client: Option<u32>, payload: Seq<u8>, o: Seq<Outcome>) -> Seq<(Export, Option<u32>, Seq<u8>)> {
    if o.len() >= 3 && o[0] is Allocated && (o[0]->Allocated_0 != 0 || payload.len() == 0)
        && o[1] == Outcome::Completed {
        seq![(target, client, payload)]
    } else {
        Seq::empty()
    }
}

/// A delivery that finishes with `Ok` allocated `len` bytes once and freed the
/// same `len` bytes at the same address once: its calls were exactly
/// allocate, write, invoke and free.
pub proof fn lemma_alloc_free_balance(target: Export, client: Option<u32>, len: u32, o: Seq<Outcome>)
    requires
        protocol(target, client, len, o) == Step::Finish(Ok(())),
    ensures
        o.len() >= 4,
        o[0] is Allocated,
        o[0]->Allocated_0 != 0 || len == 0,
        protocol(target, client, len, o.take(0)) == Step::Call(GuestCall::Alloc { len }),
        protocol(target, client, len, o.take(1)) == Step::Call(GuestCall::Write { ptr: o[0]->Allocated_0 }),
        protocol(target, client, len, o.take(2)) == Step::Call(
            GuestCall::Invoke { target, client, ptr: o[0]->Allocated_0, len },
        ),
        protocol(target, client, len, o.take(3)) == Step::Call(GuestCall::Free { ptr: o[0]->Allocated_0, len }),
{
    assert(o.take(1)[0] == o[0]);
    assert(o.take(2)[0] == o[0] && o.take(2)[1] == o[1]);
    assert(o.take(3)[0] == o[0] && o.take(3)[1] == o[1] && o.take(3)[2] == o[2]);
}

/// Two payloads delivered one after the other, both finishing with `Ok`,
/// reach the guest in that order, each with its own bytes.
pub proof fn lemma_delivery_order(
    target: Export,
    client: Option<u32>,
    a: Seq<u8>,
    oa: Seq<Outcome>,
    b: Seq<u8>,
    ob: Seq<Outcome>,
)
    requires
        a.len() <= u32::MAX,
        b.len() <= u32::MAX,
        protocol(target, client, a.len() as u32, oa) == Step::Finish(Ok(())),
        protocol(target, client, b.len() as u32, ob) == Step::Finish(Ok(())),
    ensures
        seen_by_guest(target, client, a, oa) + seen_by_guest(target, client, b, ob) == seq![
            (target, client, a),
            (target, client, b),
        ],
{
    lemma_alloc_free_balance(target, client, a.len() as u32, oa);
    lemma_alloc_free_balance(target, client, b.len() as u32, ob);
    assert(seen_by_guest(target, client, a, oa) + seen_by_guest(target, client, b, ob) =~= seq![
        (target, client, a),
        (target, client, b),
    ]);
}

/// A trap in the target function ends the delivery with `GuestTrap` naming
/// that function, instead of unwinding into the host, and marks the outcomes
/// as trapped, which poisons the instance.
pub proof fn lemma_trap_contained(target: Export, client: Option<u32>, len: u32, o: Seq<Outcome>)
    requires
        o.len() >= 3,
        o[0] is Allocated,
        o[0]->Allocated_0 != 0 || len == 0,
        o[1] == Outcome::Completed,
        o[2] == Outcome::Trapped,
    ensures
        protocol(target, client, len, o) == Step::Finish(Err(DeliveryError::GuestTrap { method: target })),
        any_trap(o),
{
}

/// Instances built for different rooms are handed different bytes by
/// `initialize`, and each decodes to its own room id.
pub proof fn lemma_room_ids_apart(r1: Seq<char>, r2: Seq<char>)
    requires
        r1 != r2,
    ensures
        encode_utf8(r1) != encode_utf8(r2),
        decode_utf8(encode_utf8(r1)) == r1,
        decode_utf8(encode_utf8(r2)) == r2,
{
    encode_utf8_decode_utf8(r1);
    encode_utf8_decode_utf8(r2);
}


/// A call without a payload: `connect`, `disconnect` or `timer`.
#[derive(Clone, Copy, Debug, PartialEq, Eq, Structural)]
pub struct PlainCall {
    pub target: Export,
    pub client: Option<u32>,
}

/// The host's record of one guest instance.
pub struct GuestState {
    poisoned: bool,
}

impl GuestState {
    pub closed spec fn spec_poisoned(&self) -> bool {
        self.poisoned
    }

    /// Whether a trap has poisoned the instance.
    pub fn is_poisoned(&self) -> (r: bool)
        ensures
            r == self.spec_poisoned(),
    {
        self.poisoned
    }

    /// The delivery of the room id to `initialize`, made once the version
    /// cells have matched; `PayloadTooLarge` for a room id over `u32::MAX` bytes.
    pub fn initialization(_checked: &VersionsChecked, room_id: &str) -> (r: Result<Delivery, DeliveryError>)
        ensures
            r is Ok <==> room_id.spec_bytes().len() <= u32::MAX,
            r is Err ==> r->Err_0 == DeliveryError::PayloadTooLarge,
            r is Ok ==> r->Ok_0.target == Export::Initialize && r->Ok_0.client is None
                && r->Ok_0.payload@ == room_id.spec_bytes() && r->Ok_0.wf(),
    {
        let bytes = room_id.as_bytes();
        if bytes.len() > 0xffff_ffff {
            return Err(DeliveryError::PayloadTooLarge);
        }
        Ok(Delivery { target: Export::Initialize, client: None, payload: copy_bytes(bytes) })
    }

    /// Builds the instance's record once `initialize` has run: `Ok` when the
    /// initialization finished and nothing trapped, else `InitializeTrapped`.
    pub fn new(_checked: VersionsChecked, init: &Delivery, outcomes: &Vec<Outcome>) -> (r: Result<GuestState, SpawnError>)
        requires
            init.wf(),
        ensures
            r is Ok <==> protocol(init.target, init.client, init.spec_len(), outcomes@) == Step::Finish(Ok(()))
                && !any_trap(outcomes@),
            r is Ok ==> !r->Ok_0.spec_poisoned(),
            r is Err ==> r->Err_0 == SpawnError::InitializeTrapped,
    {
        let finished = match init.next_step(outcomes) {
            Step::Finish(Ok(())) => true,
            _ => false,
        };
        if finished && !has_trap(outcomes) {
            Ok(GuestState { poisoned: false })
        } else {
            Err(SpawnError::InitializeTrapped)
        }
    }

    /// The delivery of a text message from `client`: its UTF-8 bytes go to
    /// the guest's `message`.
    pub fn message(&self, client: ClientId, text: &str) -> (r: Result<Delivery, DeliveryError>)
        ensures
            self.spec_poisoned() ==> r == Err::<Delivery, DeliveryError>(DeliveryError::Poisoned),
            !self.spec_poisoned() && text.spec_bytes().len() > u32::MAX ==> r == Err::<Delivery, DeliveryError>(DeliveryError::PayloadTooLarge),
            r is Ok <==> !self.spec_poisoned() && text.spec_bytes().len() <= u32::MAX,
            r is Ok ==> r->Ok_0.target == Export::Message && r->Ok_0.client == Some(client.0)
                && r->Ok_0.payload@ == text.spec_bytes() && r->Ok_0.wf(),
    {
        self.payload_delivery(Export::Message, client, text.as_bytes())
    }

    /// The delivery of binary data from `client` to the guest's `binary`.
    pub fn binary(&self, client: ClientId, data: &[u8]) -> (r: Result<Delivery, DeliveryError>)
        ensures
            self.spec_poisoned() ==> r == Err::<Delivery, DeliveryError>(DeliveryError::Poisoned),
            !self.spec_poisoned() && data@.len() > u32::MAX ==> r == Err::<Delivery, DeliveryError>(DeliveryError::PayloadTooLarge),
            r is Ok <==> !self.spec_poisoned() && data@.len() <= u32::MAX,
            r is Ok ==> r->Ok_0.target == Export::Binary && r->Ok_0.client == Some(client.0)
                && r->Ok_0.payload@ == data@ && r->Ok_0.wf(),
    {
        self.payload_delivery(Export::Binary, client, data)
    }

    fn payload_delivery(&self, target: Export, client: ClientId, data: &[u8]) -> (r: Result<Delivery, DeliveryError>)
        ensures
            self.spec_poisoned() ==> r == Err::<Delivery, DeliveryError>(DeliveryError::Poisoned),
            !self.spec_poisoned() && data@.len() > u32::MAX ==> r == Err::<Delivery, DeliveryError>(DeliveryError::PayloadTooLarge),
            r is Ok <==> !self.spec_poisoned() && data@.len() <= u32::MAX,
            r is Ok ==> r->Ok_0.target == target && r->Ok_0.client == Some(client.0)
                && r->Ok_0.payload@ == data@ && r->Ok_0.wf(),
    {
        if self.poisoned {
            Err(DeliveryError::Poisoned)
        } else if data.len() > 0xffff_ffff {
            Err(DeliveryError::PayloadTooLarge)
        } else {
            Ok(Delivery { target, client: Some(client.0), payload: copy_bytes(data) })
        }
    }

    /// The call that tells the guest `client` joined.
    pub fn connect(&self, client: ClientId) -> (r: Result<PlainCall, DeliveryError>)
        ensures
            r == (if self.spec_poisoned() {
                Err(DeliveryError::Poisoned)
            } else {
                Ok(PlainCall { target: Export::Connect, client: Some(client.0) })
            }),
    {
        self.plain_call(Export::Connect, Some(client.0))
    }

    /// The call that tells the guest `client` left.
    pub fn disconnect(&self, client: ClientId) -> (r: Result<PlainCall, DeliveryError>)
        ensures
            r == (if self.spec_poisoned() {
                Err(DeliveryError::Poisoned)
            } else {
                Ok(PlainCall { target: Export::Disconnect, client: Some(client.0) })
            }),
    {
        self.plain_call(Export::Disconnect, Some(client.0))
    }

    /// The call that tells the guest its timer fired.
    pub fn timer(&self) -> (r: Result<PlainCall, DeliveryError>)
        ensures
            r == (if self.spec_poisoned() {
                Err(DeliveryError::Poisoned)
            } else {
                Ok(PlainCall { target: Export::Timer, client: None })
            }),
    {
        self.plain_call(Export::Timer, None)
    }

    fn plain_call(&self, target: Export, client: Option<u32>) -> (r: Result<PlainCall, DeliveryError>)
        ensures
            r == (if self.spec_poisoned() {
                Err(DeliveryError::Poisoned)
            } else {
                Ok(PlainCall { target, client })
            }),
    {
        if self.poisoned {
            Err(DeliveryError::Poisoned)
        } else {
            Ok(PlainCall { target, client })
        }
    }

    /// Records a finished delivery and returns its result; any trap on the
    /// way poisons the instance.
    pub fn finish_delivery(&mut self, d: &Delivery, outcomes: &Vec<Outcome>) -> (r: Result<(), DeliveryError>)
        requires
            d.wf(),
            protocol(d.target, d.client, d.spec_len(), outcomes@) is Finish,
        ensures
            Step::Finish(r) == protocol(d.target, d.client, d.spec_len(), outcomes@),
            final(self).spec_poisoned() == (old(self).spec_poisoned() || any_trap(outcomes@)),
    {
        let step = d.next_step(outcomes);
        if has_trap(outcomes) {
            self.poisoned = true;
        }
        match step {
            Step::Finish(r) => r,
            Step::Call(_) => Ok(()),
        }
    }

    /// Records the outcome of a plain call: anything but `Completed` is a
    /// trap in that call and poisons the instance.
    pub fn finish_call(&mut self, call: &PlainCall, outcome: Outcome) -> (r: Result<(), DeliveryError>)
        ensures
            r == (if outcome == Outcome::Completed {
                Ok(())
            } else {
                Err(DeliveryError::GuestTrap { method: call.target })
            }),
            final(self).spec_poisoned() == (old(self).spec_poisoned() || outcome != Outcome::Completed),
    {
        if outcome == Outcome::Completed {
            Ok(())
        } else {
            self.poisoned = true;
            Err(DeliveryError::GuestTrap { method: call.target })
        }
    }
}

} // verus!
