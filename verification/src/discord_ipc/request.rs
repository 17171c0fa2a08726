//! The requests the client makes, as JSON.

use serde_json::Value;
use vstd::prelude::*;
use crate::discord_ipc::frame::{
    gives_back, json_frame, write_frame, HEADER_LEN, OPCODE_CLOSE, OPCODE_FRAME, OPCODE_HANDSHAKE,
};
use crate::discord_ipc::message::IpcError;
use crate::json::{
    array_value, bool_value, empty_object, integer_value, is_plain, json_of, set_member,
    text_value, Json, MAX_NESTING,
};
use crate::text::texts;

verus! {

/// A command to Discord.
#[derive(Debug)]
pub enum RpcRequest {
    Authenticate { access_token: String },
    Authorize { client_id: String, scopes: Vec<String> },
    GetVoiceSettings,
    SetMute(bool),
    SetDeaf(bool),
}

/// An `RpcRequest` as contracts speak of it.
pub enum RpcRequestView {
    Authenticate { access_token: Seq<char> },
    Authorize { client_id: Seq<char>, scopes: Seq<Seq<char>> },
    GetVoiceSettings,
    SetMute(bool),
    SetDeaf(bool),
}

impl View for RpcRequest {
    type V = RpcRequestView;

    open spec fn view(&self) -> RpcRequestView {
        match self {
            RpcRequest::Authenticate { access_token } => RpcRequestView::Authenticate {
                access_token: access_token@,
            },
            RpcRequest::Authorize { client_id, scopes } => RpcRequestView::Authorize {
                client_id: client_id@,
                scopes: texts(scopes@),
            },
            RpcRequest::GetVoiceSettings => RpcRequestView::GetVoiceSettings,
            RpcRequest::SetMute(mute) => RpcRequestView::SetMute(*mute),
            RpcRequest::SetDeaf(deaf) => RpcRequestView::SetDeaf(*deaf),
        }
    }
}

/// The name of a command.
pub open spec fn command_name(request: RpcRequestView) -> Seq<char> {
    match request {
        RpcRequestView::Authenticate { .. } => "AUTHENTICATE"@,
        RpcRequestView::Authorize { .. } => "AUTHORIZE"@,
        RpcRequestView::GetVoiceSettings => "GET_VOICE_SETTINGS"@,
        RpcRequestView::SetMute(_) => "SET_VOICE_SETTINGS"@,
        RpcRequestView::SetDeaf(_) => "SET_VOICE_SETTINGS"@,
    }
}

/// The arguments of a command.
pub open spec fn command_args(request: RpcRequestView) -> Map<Seq<char>, Json> {
    match request {
        RpcRequestView::Authenticate { access_token } => map!["access_token"@ => Json::Text(
            access_token,
        )],
        RpcRequestView::Authorize { client_id, scopes } => Map::empty().insert(
            "client_id"@,
            Json::Text(client_id),
        ).insert("scopes"@, Json::Array(scopes.map_values(|s: Seq<char>| Json::Text(s)))),
        RpcRequestView::GetVoiceSettings => Map::empty(),
        RpcRequestView::SetMute(mute) => map!["mute"@ => Json::Bool(mute)],
        RpcRequestView::SetDeaf(deaf) => map!["deaf"@ => Json::Bool(deaf)],
    }
}

/// A command with the nonce that its reply will carry.
pub open spec fn request_json(request: RpcRequestView, nonce: Seq<char>) -> Json {
    Json::Object(
        Map::empty().insert("cmd"@, Json::Text(command_name(request))).insert(
            "args"@,
            Json::Object(command_args(request)),
        ).insert("nonce"@, Json::Text(nonce)),
    )
}

/// What the client introduces itself with.
pub open spec fn handshake_json(client_id: Seq<char>) -> Json {
    Json::Object(
        Map::empty().insert("v"@, Json::Integer(1)).insert("client_id"@, Json::Text(client_id)),
    )
}

/// Whether `c` is a lower-case hexadecimal digit.
pub open spec fn is_hex_digit(c: char) -> bool {
    '0' <= c <= '9' || 'a' <= c <= 'f'
}

/// Whether `text` is a random (version 4) UUID in its hyphenated lower-case
/// form.
pub open spec fn is_random_uuid(text: Seq<char>) -> bool {
    &&& text.len() == 36
    &&& forall|i: int|
        0 <= i < 36 ==> if i == 8 || i == 13 || i == 18 || i == 23 {
            #[trigger] text[i] == '-'
        } else {
            is_hex_digit(text[i])
        }
    &&& text[14] == '4'
    &&& text[19] == '8' || text[19] == '9' || text[19] == 'a' || text[19] == 'b'
}

/// Calls `uuid::Uuid::new_v4` and displays the result. It is a random UUID in
/// hyphenated lower-case form; which one, chance decides. Nothing says that two
/// calls differ.
#[verifier::external_body]
pub(crate) fn new_nonce() -> (r: String)
    ensures
        is_random_uuid(r@),
{
    uuid::Uuid::new_v4().to_string()
}

fn scope_values(scopes: &Vec<String>) -> (r: Vec<Value>)
    ensures
        r@.map_values(|v: Value| json_of(v)) == texts(scopes@).map_values(
            |s: Seq<char>| Json::Text(s),
        ),
{
    let mut out: Vec<Value> = Vec::new();
    let mut i: usize = 0;
    while i < scopes.len()
        invariant
            i <= scopes@.len(),
            out@.len() == i,
            forall|k: int| 0 <= k < i ==> json_of(#[trigger] out@[k]) == Json::Text(scopes@[k]@),
        decreases scopes@.len() - i,
    {
        out.push(text_value(scopes[i].as_str()));
        i += 1;
    }
    assert(out@.map_values(|v: Value| json_of(v)) =~= texts(scopes@).map_values(
        |s: Seq<char>| Json::Text(s),
    ));
    out
}

fn args_value(request: &RpcRequest) -> (r: Value)
    ensures
        json_of(r) == Json::Object(command_args(request@)),
{
    let mut args = empty_object();
    match request {
        RpcRequest::Authenticate { access_token } => {
            set_member(&mut args, "access_token", text_value(access_token.as_str()));
        },
        RpcRequest::Authorize { client_id, scopes } => {
            set_member(&mut args, "client_id", text_value(client_id.as_str()));
            set_member(&mut args, "scopes", array_value(scope_values(scopes)));
        },
        RpcRequest::GetVoiceSettings => {},
        RpcRequest::SetMute(mute) => {
            set_member(&mut args, "mute", bool_value(*mute));
        },
        RpcRequest::SetDeaf(deaf) => {
            set_member(&mut args, "deaf", bool_value(*deaf));
        },
    }
    args
}

proof fn lemma_plain_nests_deeper(value: Json, nesting: nat, deeper: nat)
    requires
        is_plain(value, nesting),
        nesting <= deeper,
    ensures
        is_plain(value, deeper),
    decreases nesting,
{
    match value {
        Json::Array(items) => {
            assert forall|i: int| 0 <= i < items.len() implies is_plain(
                #[trigger] items[i],
                (deeper - 1) as nat,
            ) by {
                lemma_plain_nests_deeper(items[i], (nesting - 1) as nat, (deeper - 1) as nat);
            }
        },
        Json::Object(members) => {
            assert forall|key: Seq<char>| members.contains_key(key) implies is_plain(
                #[trigger] members[key],
                (deeper - 1) as nat,
            ) by {
                lemma_plain_nests_deeper(members[key], (nesting - 1) as nat, (deeper - 1) as nat);
            }
        },
        _ => {},
    }
}

proof fn lemma_requests_are_plain(request: RpcRequestView, nonce: Seq<char>)
    ensures
        is_plain(request_json(request, nonce), MAX_NESTING as nat),
{
    reveal_with_fuel(is_plain, 4);
    let args = command_args(request);
    assert forall|key: Seq<char>| args.contains_key(key) implies is_plain(
        #[trigger] args[key],
        1,
    ) by {
        match request {
            RpcRequestView::Authorize { client_id, scopes } => {
                let items = scopes.map_values(|s: Seq<char>| Json::Text(s));
                assert(forall|i: int|
                    0 <= i < items.len() ==> is_plain(#[trigger] items[i], 0));
            },
            _ => {},
        }
    }
    assert(is_plain(Json::Object(args), 2));
    assert(is_plain(request_json(request, nonce), 3));
    lemma_plain_nests_deeper(request_json(request, nonce), 3, MAX_NESTING as nat);
}

impl RpcRequest {
    fn command(&self) -> (r: &'static str)
        ensures
            r@ == command_name(self@),
    {
        match self {
            RpcRequest::Authenticate { .. } => "AUTHENTICATE",
            RpcRequest::Authorize { .. } => "AUTHORIZE",
            RpcRequest::GetVoiceSettings => "GET_VOICE_SETTINGS",
            RpcRequest::SetMute(_) => "SET_VOICE_SETTINGS",
            RpcRequest::SetDeaf(_) => "SET_VOICE_SETTINGS",
        }
    }

    /// The request as JSON, with the nonce `nonce`.
    pub fn payload(&self, nonce: &str) -> (r: Value)
        ensures
            json_of(r) == request_json(self@, nonce@),
    {
        let mut payload = empty_object();
        set_member(&mut payload, "cmd", text_value(self.command()));
        set_member(&mut payload, "args", args_value(self));
        set_member(&mut payload, "nonce", text_value(nonce));
        payload
    }

    /// The frame that makes the request, with the nonce `nonce`. Whoever reads
    /// it gets just that request.
    pub fn frame(&self, nonce: &str) -> (r: Result<Vec<u8>, IpcError>)
        ensures
            r is Ok,
            r->Ok_0@.len() <= HEADER_LEN + i32::MAX ==> gives_back(
                r->Ok_0@,
                OPCODE_FRAME,
                request_json(self@, nonce@),
            ),
            match r {
                Ok(frame) => json_frame(OPCODE_FRAME, request_json(self@, nonce@)) == Some(frame@),
                Err(e) => json_frame(OPCODE_FRAME, request_json(self@, nonce@)) is None
                    && e is Encode,
            },
    {
        proof {
            lemma_requests_are_plain(self@, nonce@);
        }
        write_frame(OPCODE_FRAME, &self.payload(nonce))
    }
}

/// The frame that opens a connection. Whoever reads it gets just that
/// introduction.
pub fn handshake_frame(client_id: &str) -> (r: Result<Vec<u8>, IpcError>)
    ensures
        r is Ok,
        r->Ok_0@.len() <= HEADER_LEN + i32::MAX ==> gives_back(
            r->Ok_0@,
            OPCODE_HANDSHAKE,
            handshake_json(client_id@),
        ),
        match r {
            Ok(frame) => json_frame(OPCODE_HANDSHAKE, handshake_json(client_id@)) == Some(frame@),
            Err(e) => json_frame(OPCODE_HANDSHAKE, handshake_json(client_id@)) is None
                && e is Encode,
        },
{
    let mut payload = empty_object();
    set_member(&mut payload, "v", integer_value(1));
    set_member(&mut payload, "client_id", text_value(client_id));
    proof {
        reveal_with_fuel(is_plain, 2);
        assert(is_plain(handshake_json(client_id@), MAX_NESTING as nat));
    }
    write_frame(OPCODE_HANDSHAKE, &payload)
}

/// The frame that closes a connection.
pub fn close_frame() -> (r: Result<Vec<u8>, IpcError>)
    ensures
        r is Ok,
        match r {
            Ok(frame) => json_frame(OPCODE_CLOSE, Json::Object(Map::empty())) == Some(frame@),
            Err(e) => json_frame(OPCODE_CLOSE, Json::Object(Map::empty())) is None && e is Encode,
        },
{
    write_frame(OPCODE_CLOSE, &empty_object())
}

} // verus!
