use discord_mute::discord_ipc::client::{DiscordIpc, Received, Reply, VoiceSettings};
use discord_mute::discord_ipc::frame::{
    encode_frame, read_body, read_header, write_frame, OPCODE_CLOSE, OPCODE_FRAME, OPCODE_PING,
    OPCODE_PONG,
};
use discord_mute::discord_ipc::message::IpcError;
use discord_mute::discord_ipc::request::{close_frame, RpcRequest};
use discord_mute::discord_ipc::socket::{
    socket_paths, ReadAction, ReadExact, ReadOutcome,
};
use serde_json::Value;

fn body(frame: &[u8]) -> Value {
    serde_json::from_slice(&frame[8..]).unwrap()
}

fn opcode(frame: &[u8]) -> i32 {
    read_header(&frame[..8]).unwrap().opcode
}

fn nonce(frame: &[u8]) -> String {
    body(frame)["nonce"].as_str().unwrap().to_string()
}

fn connected() -> DiscordIpc {
    let (mut ipc, _) = DiscordIpc::connect("42").unwrap();
    assert!(matches!(
        ipc.receive(OPCODE_FRAME, br#"{"evt":"READY"}"#),
        Received::Done(Reply::Connected)
    ));
    ipc
}

fn reply(nonce: &str, rest: &str) -> Vec<u8> {
    format!("{{\"nonce\":\"{nonce}\"{rest}}}").into_bytes()
}

#[test]
fn frames_are_little_endian_with_a_length() {
    let frame = encode_frame(1, b"{}");
    assert_eq!(frame, vec![1, 0, 0, 0, 2, 0, 0, 0, b'{', b'}']);
    let header = read_header(&frame[..8]).unwrap();
    assert_eq!((header.opcode, header.len), (1, 2));
    let frame = encode_frame(-2, &[7; 300]);
    assert_eq!(&frame[..8], &[0xfe, 0xff, 0xff, 0xff, 0x2c, 1, 0, 0]);
    assert_eq!(read_header(&frame[..8]).unwrap().opcode, -2);
}

#[test]
fn negative_length_is_refused() {
    let error = read_header(&[0, 0, 0, 0, 0xff, 0xff, 0xff, 0xff]).unwrap_err();
    assert_eq!(error.message(), "Discord IPC frame had a negative length: -1");
    let error = read_header(&[0, 0, 0, 0, 0, 0, 0, 0x80]).unwrap_err();
    assert_eq!(error.message(), "Discord IPC frame had a negative length: -2147483648");
}

#[test]
fn bodies_are_json() {
    assert_eq!(read_body(b"[1,2]").unwrap(), Value::from(vec![1, 2]));
    let error = read_body(b"[1,").unwrap_err();
    assert!(matches!(error, IpcError::Decode));
    assert_eq!(error.message(), "failed to decode Discord IPC JSON");
    assert_eq!(IpcError::Encode.message(), "failed to encode Discord IPC JSON");
    let frame = write_frame(OPCODE_PONG, &Value::from("x")).unwrap();
    assert_eq!(frame, vec![4, 0, 0, 0, 3, 0, 0, 0, b'"', b'x', b'"']);
}

#[test]
fn handshake_introduces_the_client() {
    let (mut ipc, frame) = DiscordIpc::connect("42").unwrap();
    assert_eq!(opcode(&frame), 0);
    assert_eq!(&frame[8..], br#"{"client_id":"42","v":1}"#);
    match ipc.receive(OPCODE_FRAME, br#"{"evt":"ERROR","data":{}}"#) {
        Received::Failed(error) => assert_eq!(
            error.message(),
            "Discord IPC did not return READY after handshake: {\"data\":{},\"evt\":\"ERROR\"}"
        ),
        other => panic!("unexpected {other:?}"),
    }
}

#[test]
fn payloads_of_all_requests() {
    let payload = |request: RpcRequest| request.payload("n").to_string();
    assert_eq!(
        payload(RpcRequest::Authenticate { access_token: "t\"".to_string() }),
        r#"{"args":{"access_token":"t\""},"cmd":"AUTHENTICATE","nonce":"n"}"#
    );
    assert_eq!(
        payload(RpcRequest::Authorize {
            client_id: "42".to_string(),
            scopes: vec!["rpc".to_string(), "x".to_string()],
        }),
        r#"{"args":{"client_id":"42","scopes":["rpc","x"]},"cmd":"AUTHORIZE","nonce":"n"}"#
    );
    assert_eq!(
        payload(RpcRequest::GetVoiceSettings),
        r#"{"args":{},"cmd":"GET_VOICE_SETTINGS","nonce":"n"}"#
    );
    assert_eq!(
        payload(RpcRequest::SetMute(true)),
        r#"{"args":{"mute":true},"cmd":"SET_VOICE_SETTINGS","nonce":"n"}"#
    );
    assert_eq!(
        payload(RpcRequest::SetDeaf(false)),
        r#"{"args":{"deaf":false},"cmd":"SET_VOICE_SETTINGS","nonce":"n"}"#
    );
    assert_eq!(close_frame().unwrap(), vec![2, 0, 0, 0, 2, 0, 0, 0, b'{', b'}']);
}

#[test]
fn nonces_are_random_uuids() {
    let mut ipc = connected();
    let first = nonce(&ipc.get_voice_settings().unwrap());
    let second = nonce(&ipc.get_voice_settings().unwrap());
    assert_ne!(first, second);
    for text in [first, second] {
        let chars: Vec<char> = text.chars().collect();
        assert_eq!(chars.len(), 36);
        assert_eq!(chars[14], '4');
        assert!(matches!(chars[19], '8' | '9' | 'a' | 'b'));
        for (i, c) in chars.iter().enumerate() {
            if i == 8 || i == 13 || i == 18 || i == 23 {
                assert_eq!(*c, '-');
            } else {
                assert!(c.is_ascii_digit() || ('a'..='f').contains(c));
            }
        }
    }
}

#[test]
fn toggle_flips_what_discord_reports() {
    let mut ipc = connected();
    let ask = ipc.toggle_mute().unwrap();
    assert_eq!(body(&ask)["cmd"], Value::from("GET_VOICE_SETTINGS"));
    let foreign = ipc.receive(OPCODE_FRAME, &reply("someone else", r#","data":{"mute":true}"#));
    assert!(matches!(foreign, Received::Wait));
    let answer = reply(&nonce(&ask), r#","data":{"mute":false}"#);
    let set = match ipc.receive(OPCODE_FRAME, &answer) {
        Received::Send(frame) => frame,
        other => panic!("unexpected {other:?}"),
    };
    assert_eq!(body(&set)["cmd"], Value::from("SET_VOICE_SETTINGS"));
    assert_eq!(body(&set)["args"]["mute"], Value::from(true));
    assert_ne!(nonce(&set), nonce(&ask));
    let done = ipc.receive(OPCODE_FRAME, &reply(&nonce(&set), ""));
    assert!(matches!(done, Received::Done(Reply::Muted(true))));
}

#[test]
fn toggle_without_mute_fails() {
    let mut ipc = connected();
    let ask = ipc.toggle_mute().unwrap();
    let answer = reply(&nonce(&ask), r#","data":{"mute":1}"#);
    match ipc.receive(OPCODE_FRAME, &answer) {
        Received::Failed(error) => {
            assert!(matches!(error, IpcError::MissingMute(_)));
            assert!(error.message().starts_with("Discord response did not contain data.mute: {"));
        }
        other => panic!("unexpected {other:?}"),
    }
}

#[test]
fn pings_are_answered_and_disturb_nothing() {
    let mut ipc = connected();
    let ask = ipc.authenticate("token").unwrap();
    let pong = match ipc.receive(OPCODE_PING, br#"{ "b" : 2, "a" : [ true ] }"#) {
        Received::Send(frame) => frame,
        other => panic!("unexpected {other:?}"),
    };
    assert_eq!(opcode(&pong), OPCODE_PONG);
    assert_eq!(&pong[8..], br#"{"a":[true],"b":2}"#);
    let done = ipc.receive(OPCODE_FRAME, &reply(&nonce(&ask), ""));
    assert!(matches!(done, Received::Done(Reply::Authenticated)));
}

#[test]
fn error_replies_read_as_discord_puts_them() {
    let cases = [
        (r#","evt":"ERROR","data":{"message":"bad","code":4006}"#, "bad (code 4006)"),
        (r#","evt":"ERROR","data":{"message":"bad","code":"x"}"#, "bad"),
        (r#","evt":"ERROR","data":{"code":-1}"#, "Discord returned an RPC error (code -1)"),
        (r#","evt":"ERROR""#, "Discord returned an RPC error"),
    ];
    for (rest, text) in cases {
        let mut ipc = connected();
        let ask = ipc.authenticate("token").unwrap();
        match ipc.receive(OPCODE_FRAME, &reply(&nonce(&ask), rest)) {
            Received::Failed(error) => assert_eq!(error.message(), text),
            other => panic!("unexpected {other:?}"),
        }
    }
}

#[test]
fn authorization_gives_a_code() {
    let mut ipc = connected();
    let ask = ipc.authorize("42", vec!["rpc".to_string()]).unwrap();
    let answer = reply(&nonce(&ask), r#","data":{"code":"abc"}"#);
    match ipc.receive(OPCODE_FRAME, &answer) {
        Received::Done(Reply::Authorized(code)) => assert_eq!(code, "abc"),
        other => panic!("unexpected {other:?}"),
    }
    let ask = ipc.authorize("42", Vec::new()).unwrap();
    match ipc.receive(OPCODE_FRAME, &reply(&nonce(&ask), "")) {
        Received::Failed(error) => assert!(
            error.message().starts_with("Discord AUTHORIZE response did not contain data.code: {")
        ),
        other => panic!("unexpected {other:?}"),
    }
}

#[test]
fn voice_settings_need_both_flags() {
    let mut ipc = connected();
    let ask = ipc.get_voice_settings().unwrap();
    let answer = reply(&nonce(&ask), r#","data":{"mute":true,"deaf":false}"#);
    match ipc.receive(OPCODE_FRAME, &answer) {
        Received::Done(Reply::Voice(settings)) => {
            assert_eq!(settings, VoiceSettings { mute: true, deaf: false })
        }
        other => panic!("unexpected {other:?}"),
    }
    let ask = ipc.get_voice_settings().unwrap();
    let answer = reply(&nonce(&ask), r#","data":{"mute":true}"#);
    assert!(matches!(
        ipc.receive(OPCODE_FRAME, &answer),
        Received::Failed(IpcError::MissingDeaf(_))
    ));
}

#[test]
fn setting_is_accepted() {
    let mut ipc = connected();
    let ask = ipc.set_mute(true).unwrap();
    assert_eq!(body(&ask)["args"]["mute"], Value::from(true));
    assert!(matches!(
        ipc.receive(OPCODE_FRAME, &reply(&nonce(&ask), "")),
        Received::Done(Reply::Accepted)
    ));
    let ask = ipc.set_deaf(true).unwrap();
    assert_eq!(body(&ask)["args"]["deaf"], Value::from(true));
    assert!(matches!(
        ipc.receive(OPCODE_FRAME, &reply(&nonce(&ask), "")),
        Received::Done(Reply::Accepted)
    ));
}

#[test]
fn closing_and_strange_frames_fail_a_request() {
    let mut ipc = connected();
    ipc.authenticate("token").unwrap();
    match ipc.receive(OPCODE_CLOSE, br#"{"code":4000}"#) {
        Received::Failed(error) => assert_eq!(
            error.message(),
            "Discord closed the IPC connection: {\"code\":4000}"
        ),
        other => panic!("unexpected {other:?}"),
    }
    let mut ipc = connected();
    ipc.authenticate("token").unwrap();
    match ipc.receive(9, b"null") {
        Received::Failed(error) => assert_eq!(
            error.message(),
            "received unsupported Discord IPC opcode 9: null"
        ),
        other => panic!("unexpected {other:?}"),
    }
    let mut ipc = connected();
    ipc.authenticate("token").unwrap();
    assert!(matches!(ipc.receive(OPCODE_FRAME, b"{"), Received::Failed(IpcError::Decode)));
    assert_eq!(opcode(&ipc.close().unwrap()), OPCODE_CLOSE);
}

fn nested(levels: usize) -> Value {
    let mut value = Value::from(-7);
    for _ in 0..levels {
        value = Value::from(vec![value]);
    }
    value
}

#[test]
fn frames_give_back_plain_values() {
    let mut members = serde_json::Map::new();
    members.insert("é\"\\\n\u{0}\u{10ffff}".to_string(), Value::from(u64::MAX));
    members.insert(String::new(), Value::from(vec![i64::MIN, 0, i64::MAX]));
    members.insert("n".to_string(), Value::Null);
    members.insert("$serde_json::private::Number".to_string(), Value::from(true));
    for value in [Value::Object(members), nested(127), Value::from("\u{2028}\u{7f}")] {
        let frame = write_frame(-3, &value).unwrap();
        let header = read_header(&frame[..8]).unwrap();
        assert_eq!((header.opcode, header.len), (-3, frame.len() - 8));
        assert_eq!(read_body(&frame[8..]).unwrap(), value);
    }
    let deep = write_frame(1, &nested(128)).unwrap();
    assert!(read_body(&deep[8..]).is_err());
}

#[test]
fn sockets_are_looked_for_in_order() {
    let bytes = |text: &str| Some(text.as_bytes().to_vec());
    let paths = socket_paths(None, bytes("/var/tmp/"), bytes("/a"), None);
    assert_eq!(paths.len(), 10);
    assert_eq!(paths[0], b"/var/tmp/discord-ipc-0");
    assert_eq!(paths[9], b"/var/tmp/discord-ipc-9");
    assert_eq!(socket_paths(bytes("/run"), bytes("/b"), None, None)[3], b"/run/discord-ipc-3");
    assert_eq!(socket_paths(None, None, None, bytes("/t"))[1], b"/t/discord-ipc-1");
    assert_eq!(socket_paths(None, None, None, None)[0], b"/tmp/discord-ipc-0");
}

#[test]
fn reads_go_on_until_everything_came() {
    let (mut read, action) = ReadExact::start(8);
    assert_eq!(action, ReadAction::ReadOn);
    assert_eq!(read.on_read(ReadOutcome::Bytes(3)), ReadAction::ReadOn);
    assert_eq!(read.on_read(ReadOutcome::TryAgain), ReadAction::PauseAndReadOn);
    assert_eq!(read.missing, 5);
    assert_eq!(read.on_read(ReadOutcome::Bytes(5)), ReadAction::Done);
    assert_eq!(ReadExact::start(0).1, ReadAction::Done);
    let (mut read, _) = ReadExact::start(2);
    assert_eq!(read.on_read(ReadOutcome::Bytes(0)), ReadAction::SocketClosed);
    assert_eq!(read.on_read(ReadOutcome::Failed), ReadAction::ReadFailed);
}
