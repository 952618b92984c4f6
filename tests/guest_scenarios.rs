use std::cell::RefCell;

use stateroom_wasm_host::abi::{check_versions, get_global, GlobalLookup, SpawnError, VersionField};
use stateroom_wasm_host::bridge::{decode_send_binary, decode_send_message, decode_set_timer, ContextSink};
use stateroom_wasm_host::instance::{
    Delivery, DeliveryError, Export, GuestCall, GuestState, Outcome, PlainCall, Step,
};
use stateroom_wasm_host::recipient::{ClientId, MessageRecipient};

#[derive(Debug, Clone, PartialEq)]
enum Sent {
    Message(MessageRecipient, String),
    Binary(MessageRecipient, Vec<u8>),
    Timer(u32),
}

#[derive(Default)]
struct RecordingSink {
    sent: RefCell<Vec<Sent>>,
}

impl ContextSink for RecordingSink {
    fn send_message(&self, recipient: MessageRecipient, message: &str) {
        self.sent.borrow_mut().push(Sent::Message(recipient, message.to_string()));
    }

    fn send_binary(&self, recipient: MessageRecipient, message: &[u8]) {
        self.sent.borrow_mut().push(Sent::Binary(recipient, message.to_vec()));
    }

    fn set_timer(&self, ms_delay: u32) {
        self.sent.borrow_mut().push(Sent::Timer(ms_delay));
    }
}

#[derive(Clone, Copy, PartialEq)]
enum Behaviour {
    Echo,
    ExcludeSender,
    Timer,
    TrapOnMessage,
}

/// A guest simulated in Rust: a bump allocator over a small linear memory,
/// and the behaviour of one test program.
struct SimGuest {
    memory: Vec<u8>,
    next: u32,
    live_bytes: i64,
    behaviour: Behaviour,
    room_id: Option<String>,
    seen: Vec<(Export, Option<u32>, Vec<u8>)>,
}

impl SimGuest {
    fn new(behaviour: Behaviour) -> SimGuest {
        SimGuest { memory: vec![0; 4096], next: 64, live_bytes: 0, behaviour, room_id: None, seen: vec![] }
    }

    fn guest_send(&mut self, sink: &RecordingSink, recipient: i32, text: &str) {
        let ptr = self.next;
        self.memory[ptr as usize..ptr as usize + text.len()].copy_from_slice(text.as_bytes());
        decode_send_message(&self.memory, recipient, ptr, text.len() as u32).unwrap().dispatch(sink);
    }

    fn invoke(&mut self, sink: &RecordingSink, target: Export, client: Option<u32>, ptr: u32, len: u32) -> Outcome {
        let bytes = self.memory[ptr as usize..(ptr + len) as usize].to_vec();
        self.seen.push((target, client, bytes.clone()));
        match (target, self.behaviour) {
            (Export::Initialize, _) => {
                self.room_id = Some(String::from_utf8(bytes).unwrap());
            }
            (Export::Message, Behaviour::TrapOnMessage) => return Outcome::Trapped,
            (Export::Message, Behaviour::Echo) => {
                decode_send_message(&self.memory, 0, ptr, len).unwrap().dispatch(sink);
            }
            (Export::Message, Behaviour::ExcludeSender) => {
                let to = MessageRecipient::EveryoneExcept(ClientId(client.unwrap())).encode_i32().unwrap();
                decode_send_message(&self.memory, to, ptr, len).unwrap().dispatch(sink);
            }
            (Export::Binary, _) => {
                decode_send_binary(&self.memory, 0, ptr, len).unwrap().dispatch(sink);
            }
            _ => {}
        }
        Outcome::Completed
    }

    fn perform(&mut self, sink: &RecordingSink, call: GuestCall, payload: &[u8]) -> Outcome {
        match call {
            GuestCall::Alloc { len } => {
                let p = self.next;
                self.next += len.max(1);
                self.live_bytes += len as i64;
                Outcome::Allocated(p)
            }
            GuestCall::Write { ptr } => {
                let end = ptr as usize + payload.len();
                if end > self.memory.len() {
                    return Outcome::OutOfBounds;
                }
                self.memory[ptr as usize..end].copy_from_slice(payload);
                Outcome::Completed
            }
            GuestCall::Invoke { target, client, ptr, len } => self.invoke(sink, target, client, ptr, len),
            GuestCall::Free { len, .. } => {
                self.live_bytes -= len as i64;
                Outcome::Completed
            }
        }
    }

    fn plain(&mut self, sink: &RecordingSink, call: &PlainCall) -> Outcome {
        match (call.target, self.behaviour) {
            (Export::Connect, Behaviour::Timer) => {
                decode_set_timer(100).dispatch(sink);
            }
            (Export::Timer, Behaviour::Timer) => {
                self.guest_send(sink, 0, "tick");
            }
            _ => {}
        }
        Outcome::Completed
    }
}

fn drive(guest: &mut SimGuest, sink: &RecordingSink, d: &Delivery) -> (Result<(), DeliveryError>, Vec<Outcome>) {
    let mut outcomes = vec![];
    loop {
        match d.next_step(&outcomes) {
            Step::Call(call) => {
                let o = guest.perform(sink, call, &d.payload);
                outcomes.push(o);
            }
            Step::Finish(r) => return (r, outcomes),
        }
    }
}

fn build(guest: &mut SimGuest, sink: &RecordingSink, room_id: &str) -> GuestState {
    let checked = check_versions(1, 0).unwrap();
    let init = GuestState::initialization(&checked, room_id).unwrap();
    let (_, outcomes) = drive(guest, sink, &init);
    GuestState::new(checked, &init, &outcomes).unwrap()
}

fn message(state: &mut GuestState, guest: &mut SimGuest, sink: &RecordingSink, c: u32, text: &str) -> Result<(), DeliveryError> {
    let d = state.message(ClientId(c), text)?;
    let (_, outcomes) = drive(guest, sink, &d);
    state.finish_delivery(&d, &outcomes)
}

fn binary(state: &mut GuestState, guest: &mut SimGuest, sink: &RecordingSink, c: u32, data: &[u8]) -> Result<(), DeliveryError> {
    let d = state.binary(ClientId(c), data)?;
    let (_, outcomes) = drive(guest, sink, &d);
    state.finish_delivery(&d, &outcomes)
}

fn connect(state: &mut GuestState, guest: &mut SimGuest, sink: &RecordingSink, c: u32) -> Result<(), DeliveryError> {
    let call = state.connect(ClientId(c))?;
    let o = guest.plain(sink, &call);
    state.finish_call(&call, o)
}

fn timer(state: &mut GuestState, guest: &mut SimGuest, sink: &RecordingSink) -> Result<(), DeliveryError> {
    let call = state.timer()?;
    let o = guest.plain(sink, &call);
    state.finish_call(&call, o)
}

#[test]
fn echo_guest_broadcasts_message() {
    let sink = RecordingSink::default();
    let mut guest = SimGuest::new(Behaviour::Echo);
    let mut state = build(&mut guest, &sink, "r1");
    assert_eq!(guest.room_id.as_deref(), Some("r1"));
    assert_eq!(connect(&mut state, &mut guest, &sink, 7), Ok(()));
    assert_eq!(message(&mut state, &mut guest, &sink, 7, "hello"), Ok(()));
    assert_eq!(*sink.sent.borrow(), vec![Sent::Message(MessageRecipient::Broadcast, "hello".to_string())]);
}

#[test]
fn exclude_sender_recipient() {
    let sink = RecordingSink::default();
    let mut guest = SimGuest::new(Behaviour::ExcludeSender);
    let mut state = build(&mut guest, &sink, "room");
    connect(&mut state, &mut guest, &sink, 1).unwrap();
    connect(&mut state, &mut guest, &sink, 2).unwrap();
    message(&mut state, &mut guest, &sink, 2, "hi").unwrap();
    assert_eq!(
        *sink.sent.borrow(),
        vec![Sent::Message(MessageRecipient::EveryoneExcept(ClientId(2)), "hi".to_string())]
    );
}

#[test]
fn timer_then_tick() {
    let sink = RecordingSink::default();
    let mut guest = SimGuest::new(Behaviour::Timer);
    let mut state = build(&mut guest, &sink, "room");
    connect(&mut state, &mut guest, &sink, 1).unwrap();
    timer(&mut state, &mut guest, &sink).unwrap();
    assert_eq!(
        *sink.sent.borrow(),
        vec![Sent::Timer(100), Sent::Message(MessageRecipient::Broadcast, "tick".to_string())]
    );
}

#[test]
fn binary_round_trip() {
    let sink = RecordingSink::default();
    let mut guest = SimGuest::new(Behaviour::Echo);
    let mut state = build(&mut guest, &sink, "room");
    binary(&mut state, &mut guest, &sink, 3, &[0x00, 0xFF, 0x10]).unwrap();
    assert_eq!(*sink.sent.borrow(), vec![Sent::Binary(MessageRecipient::Broadcast, vec![0x00, 0xFF, 0x10])]);
}

#[test]
fn protocol_version_rejected() {
    let mut memory = vec![0u8; 64];
    memory[16..20].copy_from_slice(&1i32.to_le_bytes());
    memory[32..36].copy_from_slice(&1i32.to_le_bytes());
    let api = get_global(&memory, "JAMSOCKET_API_VERSION", GlobalLookup::I32(32)).unwrap();
    let protocol = get_global(&memory, "JAMSOCKET_API_PROTOCOL", GlobalLookup::I32(16)).unwrap();
    let err = check_versions(api, protocol).err().unwrap();
    assert_eq!(err, SpawnError::VersionMismatch { field: VersionField::Protocol, expected: 0, found: 1 });
    assert_eq!(VersionField::Protocol.name(), "protocol");
}

#[test]
fn api_version_two_rejected() {
    let err = check_versions(2, 0).err().unwrap();
    assert_eq!(err, SpawnError::VersionMismatch { field: VersionField::Api, expected: 1, found: 2 });
    assert_eq!(VersionField::Api.name(), "api");
}

#[test]
fn trap_in_message_poisons_instance() {
    let sink = RecordingSink::default();
    let mut guest = SimGuest::new(Behaviour::TrapOnMessage);
    let mut state = build(&mut guest, &sink, "room");
    let seen_before = guest.seen.len();
    assert_eq!(
        message(&mut state, &mut guest, &sink, 1, "x"),
        Err(DeliveryError::GuestTrap { method: Export::Message })
    );
    assert!(state.is_poisoned());
    assert_eq!(guest.seen.len(), seen_before + 1);
    assert_eq!(binary(&mut state, &mut guest, &sink, 1, &[0x01]), Err(DeliveryError::Poisoned));
    assert_eq!(connect(&mut state, &mut guest, &sink, 1), Err(DeliveryError::Poisoned));
    assert_eq!(guest.seen.len(), seen_before + 1);
    assert!(sink.sent.borrow().is_empty());
}

#[test]
fn deliveries_balance_allocations() {
    let sink = RecordingSink::default();
    let mut guest = SimGuest::new(Behaviour::Echo);
    let mut state = build(&mut guest, &sink, "a-room");
    assert_eq!(guest.live_bytes, 0);
    message(&mut state, &mut guest, &sink, 4, "some text").unwrap();
    assert_eq!(guest.live_bytes, 0);
    binary(&mut state, &mut guest, &sink, 4, &[1, 2, 3, 4, 5]).unwrap();
    assert_eq!(guest.live_bytes, 0);
}

#[test]
fn messages_arrive_in_order() {
    let sink = RecordingSink::default();
    let mut guest = SimGuest::new(Behaviour::Echo);
    let mut state = build(&mut guest, &sink, "room");
    guest.seen.clear();
    message(&mut state, &mut guest, &sink, 5, "A").unwrap();
    message(&mut state, &mut guest, &sink, 5, "B").unwrap();
    assert_eq!(
        guest.seen,
        vec![(Export::Message, Some(5), b"A".to_vec()), (Export::Message, Some(5), b"B".to_vec())]
    );
}

#[test]
fn rooms_see_their_own_ids() {
    let sink_a = RecordingSink::default();
    let sink_b = RecordingSink::default();
    let mut guest_a = SimGuest::new(Behaviour::Echo);
    let mut guest_b = SimGuest::new(Behaviour::Echo);
    let mut a = build(&mut guest_a, &sink_a, "room-a");
    let _b = build(&mut guest_b, &sink_b, "room-β");
    assert_eq!(guest_a.room_id.as_deref(), Some("room-a"));
    assert_eq!(guest_b.room_id.as_deref(), Some("room-β"));
    message(&mut a, &mut guest_a, &sink_a, 1, "only a").unwrap();
    assert_eq!(sink_a.sent.borrow().len(), 1);
    assert!(sink_b.sent.borrow().is_empty());
}

#[test]
fn write_out_of_bounds_still_frees() {
    let sink = RecordingSink::default();
    let mut guest = SimGuest::new(Behaviour::Echo);
    let mut state = build(&mut guest, &sink, "room");
    guest.next = 4090;
    let d = state.message(ClientId(1), "too long for the end").unwrap();
    let (r, outcomes) = drive(&mut guest, &sink, &d);
    assert_eq!(r, Err(DeliveryError::GuestMemoryOutOfBounds));
    assert_eq!(outcomes, vec![Outcome::Allocated(4090), Outcome::OutOfBounds, Outcome::Completed]);
    assert_eq!(guest.live_bytes, 0);
    assert_eq!(state.finish_delivery(&d, &outcomes), Err(DeliveryError::GuestMemoryOutOfBounds));
    assert!(!state.is_poisoned());
}

#[test]
fn alloc_trap_is_reported() {
    let d = GuestState::initialization(&check_versions(1, 0).unwrap(), "r").unwrap();
    assert!(matches!(d.next_step(&vec![]), Step::Call(GuestCall::Alloc { len: 1 })));
    let r = d.next_step(&vec![Outcome::Trapped]);
    assert!(matches!(r, Step::Finish(Err(DeliveryError::GuestTrap { method: Export::Malloc }))));
    let built = GuestState::new(check_versions(1, 0).unwrap(), &d, &vec![Outcome::Trapped]);
    assert_eq!(built.err(), Some(SpawnError::InitializeTrapped));
}

#[test]
fn free_trap_during_initialize_fails_construction() {
    let checked = check_versions(1, 0).unwrap();
    let d = GuestState::initialization(&checked, "r").unwrap();
    let outcomes = vec![Outcome::Allocated(8), Outcome::Completed, Outcome::Completed, Outcome::Trapped];
    assert!(matches!(d.next_step(&outcomes), Step::Finish(Ok(()))));
    assert_eq!(GuestState::new(checked, &d, &outcomes).err(), Some(SpawnError::InitializeTrapped));
}

#[test]
fn protocol_steps_in_order() {
    let checked = check_versions(1, 0).unwrap();
    let state = GuestState::new(
        check_versions(1, 0).unwrap(),
        &GuestState::initialization(&checked, "").unwrap(),
        &vec![Outcome::Allocated(8), Outcome::Completed, Outcome::Completed, Outcome::Completed],
    )
    .unwrap();
    let d = state.message(ClientId(9), "abc").unwrap();
    assert_eq!(d.payload, b"abc".to_vec());
    let mut o = vec![];
    assert!(matches!(d.next_step(&o), Step::Call(GuestCall::Alloc { len: 3 })));
    o.push(Outcome::Allocated(100));
    assert!(matches!(d.next_step(&o), Step::Call(GuestCall::Write { ptr: 100 })));
    o.push(Outcome::Completed);
    assert!(matches!(
        d.next_step(&o),
        Step::Call(GuestCall::Invoke { target: Export::Message, client: Some(9), ptr: 100, len: 3 })
    ));
    o.push(Outcome::Completed);
    assert!(matches!(d.next_step(&o), Step::Call(GuestCall::Free { ptr: 100, len: 3 })));
    o.push(Outcome::Trapped);
    assert!(matches!(d.next_step(&o), Step::Finish(Ok(()))));
    let mut state = state;
    assert_eq!(state.finish_delivery(&d, &o), Ok(()));
    assert!(state.is_poisoned());
}

#[test]
fn export_names() {
    assert_eq!(Export::Malloc.name(), "jam_malloc");
    assert_eq!(Export::Free.name(), "jam_free");
    assert_eq!(Export::Message.name(), "message");
    assert_eq!(Export::Initialize.name(), "initialize");
}

#[test]
fn zero_address_is_allocation_failure() {
    let checked = check_versions(1, 0).unwrap();
    let d = GuestState::initialization(&checked, "room").unwrap();
    let r = d.next_step(&vec![Outcome::Allocated(0)]);
    assert!(matches!(r, Step::Finish(Err(DeliveryError::AllocationFailed))));
    let empty = GuestState::initialization(&checked, "").unwrap();
    assert!(matches!(empty.next_step(&vec![Outcome::Allocated(0)]), Step::Call(GuestCall::Write { ptr: 0 })));
    assert_eq!(GuestState::new(checked, &d, &vec![Outcome::Allocated(0)]).err(), Some(SpawnError::InitializeTrapped));
}
