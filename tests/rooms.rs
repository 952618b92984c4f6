use stateroom_wasm_host::bridge::HostCall;
use stateroom_wasm_host::cli_opts::{DeployCommand, LoginCommand};
use stateroom_wasm_host::recipient::{ClientId, MessageRecipient};
use stateroom_wasm_host::room_id::{
    GeneratorKind, RoomIdGenerator, RoomIdStrategy, ShortRoomIdGenerator, UuidRoomIdGenerator,
};
use stateroom_wasm_host::stdio::{MessageFromProcess, MessagePayload, MessageToProcess, StdioProcessServiceFactory};

#[test]
fn strategy_names() {
    assert_eq!(RoomIdStrategy::from_str("api").ok(), Some(RoomIdStrategy::Explicit));
    assert_eq!(RoomIdStrategy::from_str("implicit").ok(), Some(RoomIdStrategy::Implicit));
    assert_eq!(RoomIdStrategy::from_str("singleton").ok(), Some(RoomIdStrategy::Singleton));
    assert_eq!(RoomIdStrategy::from_str("uuid").ok(), Some(RoomIdStrategy::Generator(GeneratorKind::Uuid)));
    assert_eq!(RoomIdStrategy::from_str("short").ok(), Some(RoomIdStrategy::Generator(GeneratorKind::Short(4))));
    assert_eq!(RoomIdStrategy::from_str("short12").ok(), Some(RoomIdStrategy::Generator(GeneratorKind::Short(12))));
    assert_eq!(RoomIdStrategy::from_str("short+3").ok(), Some(RoomIdStrategy::Generator(GeneratorKind::Short(3))));
    assert_eq!(RoomIdStrategy::from_str("short0").ok(), Some(RoomIdStrategy::Generator(GeneratorKind::Short(0))));
}

#[test]
fn bad_strategy_names() {
    for name in ["", "bogus", "shortx", "short-1", "short+", "short99999999999999999999999", "API", "uuid "] {
        let err = RoomIdStrategy::from_str(name).err().unwrap();
        assert_eq!(err.0, name);
    }
}

#[test]
fn bad_name_message() {
    let err = RoomIdStrategy::from_str("nope").err().unwrap();
    assert_eq!(
        err.message(),
        "Bad room ID generator 'nope', expected one of {singleton,short,uuid,api,implicit}."
    );
}

#[test]
fn std_from_str_agrees() {
    let s: RoomIdStrategy = "short7".parse().ok().unwrap();
    assert_eq!(s, RoomIdStrategy::Generator(GeneratorKind::Short(7)));
}

#[test]
fn short_ids() {
    let id = ShortRoomIdGenerator(6).generate();
    assert_eq!(id.chars().count(), 6);
    assert!(id.chars().all(|c| ('A'..'Z').contains(&c)));
    assert_eq!(ShortRoomIdGenerator(0).generate(), "");
}

#[test]
fn uuid_ids() {
    let id = UuidRoomIdGenerator.generate();
    assert_eq!(id.len(), 36);
    for (i, c) in id.chars().enumerate() {
        if [8, 13, 18, 23].contains(&i) {
            assert_eq!(c, '-');
        } else {
            assert!(c.is_ascii_digit() || ('a'..='f').contains(&c));
        }
    }
    assert_eq!(id.as_bytes()[14], b'4');
    assert!(b"89ab".contains(&id.as_bytes()[19]));
    assert_ne!(id, UuidRoomIdGenerator.generate());
}

#[test]
fn new_room_ids() {
    assert_eq!(RoomIdStrategy::Explicit.new_room_id(), None);
    assert_eq!(RoomIdStrategy::Singleton.new_room_id(), None);
    assert_eq!(RoomIdStrategy::Implicit.new_room_id().unwrap().len(), 36);
    assert_eq!(RoomIdStrategy::Generator(GeneratorKind::Uuid).new_room_id().unwrap().len(), 36);
    let short = RoomIdStrategy::Generator(GeneratorKind::Short(5)).new_room_id().unwrap();
    assert_eq!(short.len(), 5);
    assert!(short.chars().all(|c| c.is_ascii_uppercase() && c != 'Z'));
}

#[test]
fn stdio_factory_command() {
    let f = StdioProcessServiceFactory::new("python3 room.py");
    assert_eq!(f.command(), "python3 room.py");
}

#[test]
fn stdio_messages() {
    match MessageToProcess::text(ClientId(3), "hey") {
        MessageToProcess::Message { client, message: MessagePayload::Text(t) } => {
            assert_eq!(client, ClientId(3));
            assert_eq!(t, "hey");
        }
        _ => panic!("expected text"),
    }
    match MessageToProcess::binary(ClientId(4), &[9, 8]) {
        MessageToProcess::Message { client, message: MessagePayload::Bytes(b) } => {
            assert_eq!(client, ClientId(4));
            assert_eq!(b, vec![9, 8]);
        }
        _ => panic!("expected bytes"),
    }
    let from = MessageFromProcess::Message {
        recipient: MessageRecipient::Client(ClientId(1)),
        message: MessagePayload::Bytes(vec![5]),
    };
    match from.into_host_call() {
        HostCall::SendBinary { recipient, data } => {
            assert_eq!(recipient, MessageRecipient::Client(ClientId(1)));
            assert_eq!(data, vec![5]);
        }
        _ => panic!("expected binary"),
    }
    let from = MessageFromProcess::Message {
        recipient: MessageRecipient::Broadcast,
        message: MessagePayload::Text("t".to_string()),
    };
    assert!(matches!(from.into_host_call(), HostCall::SendMessage { recipient: MessageRecipient::Broadcast, .. }));
}

#[test]
fn command_options() {
    let d = DeployCommand { service_id: Some("svc".to_string()) };
    assert_eq!(d.service_id.as_deref(), Some("svc"));
    let l = LoginCommand { token: None, clear: true };
    assert!(l.clear && l.token.is_none());
}
