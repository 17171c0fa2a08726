//! What passes between the client and Discord, told from outside: what is asked
//! for, what an answer says, and what comes of it.

use vstd::prelude::*;
use crate::discord_ipc::client::{
    awaited_nonce, progress, received, request_started, PendingView, ProgressView, Received,
    ReplyView, VoiceSettings,
};
use crate::discord_ipc::frame::{
    frame_bytes, json_frame, length_field, opcode_field, OPCODE_FRAME,
};
use crate::discord_ipc::message::{
    error_of, error_text, is_error, message_of, IpcError, IpcErrorView, MessageView,
};
use crate::discord_ipc::request::{
    handshake_json, is_random_uuid, request_json, RpcRequestView,
};
use crate::discord_ipc::socket::{
    after_read, missing_after, socket_dir, socket_name, ReadAction, ReadOutcome,
};
use crate::json::{json_shown, json_written, Json};

verus! {

/// A frame is its opcode and the length of its body, four bytes each with the
/// lowest first, and then the body.
pub proof fn law_frames_byte_by_byte(opcode: i32, body: Seq<u8>, i: int)
    requires
        opcode >= 0,
        body.len() <= i32::MAX,
        0 <= i < body.len(),
    ensures
        ({
            let frame = frame_bytes(opcode, body);
            &&& frame.len() == 8 + body.len()
            &&& frame[0] + 0x100 * frame[1] + 0x1_0000 * frame[2] + 0x100_0000 * frame[3] == opcode
            &&& frame[4] + 0x100 * frame[5] + 0x1_0000 * frame[6] + 0x100_0000 * frame[7]
                == body.len()
            &&& frame[8 + i] == body[i]
        }),
{
    crate::wire::law_little_end_first(opcode as int);
    crate::wire::law_little_end_first(body.len() as int);
}

/// The opcode of a frame is its first four bytes and the length of its body the
/// four after them; a length whose topmost bit is set is negative.
pub proof fn law_headers_byte_by_byte(header: Seq<u8>)
    requires
        header.len() == 8,
    ensures
        header[3] < 0x80 ==> opcode_field(header) == header[0] + 0x100 * header[1] + 0x1_0000
            * header[2] + 0x100_0000 * header[3],
        header[7] < 0x80 ==> length_field(header) == header[4] + 0x100 * header[5] + 0x1_0000
            * header[6] + 0x100_0000 * header[7],
        header[3] >= 0x80 <==> opcode_field(header) < 0,
        header[7] >= 0x80 <==> length_field(header) < 0,
{
    assert(header.take(4) =~= seq![header[0], header[1], header[2], header[3]]);
    assert(header.subrange(4, 8) =~= seq![header[4], header[5], header[6], header[7]]);
    crate::wire::law_reading_little_end_first(header[0], header[1], header[2], header[3]);
    crate::wire::law_reading_little_end_first(header[4], header[5], header[6], header[7]);
}

/// A frame carries the opcode it was made with and the text of its value, so
/// two opcodes or two texts make two frames.
pub proof fn law_frames_carry_their_value(opcode: i32, value: Json)
    ensures
        json_frame(opcode, value) is Some <==> json_written(value) is Some,
        json_written(value) matches Some(text) ==> json_frame(opcode, value)->0.skip(8) == text
            && json_frame(opcode, value)->0.len() == 8 + text.len(),
{
    if json_written(value) is Some {
        assert(json_frame(opcode, value)->0.skip(8) =~= json_written(value)->0);
    }
}

/// A message's event and nonce are its members `evt` and `nonce`, where those are
/// texts.
pub proof fn law_event_and_nonce_of_a_message(members: Map<Seq<char>, Json>, text: Seq<char>)
    ensures
        ({
            let message = message_of(Json::Object(members));
            &&& message.event == Some(text) <==> members.contains_key("evt"@) && members["evt"@]
                == Json::Text(text)
            &&& message.nonce == Some(text) <==> members.contains_key("nonce"@)
                && members["nonce"@] == Json::Text(text)
            &&& !members.contains_key("evt"@) ==> message.event is None
            &&& !members.contains_key("nonce"@) ==> message.nonce is None
            &&& message.shown == json_shown(Json::Object(members))
        }),
{
}

/// What a message says of voice and errors stands in the members of its member
/// `data`: `mute` and `deaf` where they are truth values, `message` where it is a
/// text, and `code` as an error's number or as an authorization's text.
pub proof fn law_data_of_a_message(
    members: Map<Seq<char>, Json>,
    data: Map<Seq<char>, Json>,
    flag: bool,
    text: Seq<char>,
    number: i64,
)
    requires
        members.contains_key("data"@),
        members["data"@] == Json::Object(data),
    ensures
        ({
            let message = message_of(Json::Object(members));
            &&& message.mute == Some(flag) <==> data.contains_key("mute"@) && data["mute"@]
                == Json::Bool(flag)
            &&& message.deaf == Some(flag) <==> data.contains_key("deaf"@) && data["deaf"@]
                == Json::Bool(flag)
            &&& message.error_message == Some(text) <==> data.contains_key("message"@)
                && data["message"@] == Json::Text(text)
            &&& message.code == Some(text) <==> data.contains_key("code"@) && data["code"@]
                == Json::Text(text)
            &&& message.error_code == Some(number) <==> data.contains_key("code"@) && data["code"@]
                == Json::Integer(number as int)
        }),
{
}

/// A message without `data` says nothing of voice, codes or errors.
pub proof fn law_messages_without_data(members: Map<Seq<char>, Json>)
    requires
        !members.contains_key("data"@) || !(members["data"@] is Object),
    ensures
        ({
            let message = message_of(Json::Object(members));
            &&& message.mute is None
            &&& message.deaf is None
            &&& message.error_message is None
            &&& message.code is None
            &&& message.error_code is None
        }),
{
}

/// Only the event `ERROR` makes a message an error. The error says what Discord
/// says, with its number where it has one.
pub proof fn law_errors_of_discord(message: MessageView)
    ensures
        is_error(message) <==> message.event == Some("ERROR"@),
        error_of(message) is Rpc,
        error_of(message)->code == message.error_code,
        message.error_message matches Some(text) ==> error_of(message)->message == text,
        message.error_message is None ==> error_of(message)->message
            == "Discord returned an RPC error"@,
        message.error_message is Some && message.error_code is None ==> error_text(
            error_of(message),
        ) == message.error_message->0,
        message.error_message is Some && message.error_code is Some ==> message.error_message->0
            .is_prefix_of(error_text(error_of(message))),
        message.error_code matches Some(code) ==> error_text(error_of(message))
            == error_of(message)->message + (" (code "@ + crate::text::signed_decimal_text(
            code as int,
        ) + ")"@),
{
    let text = error_text(error_of(message));
    let said = error_of(message)->message;
    if message.error_code is Some {
        let rest = " (code "@ + crate::text::signed_decimal_text(
            message.error_code->0 as int,
        ) + ")"@;
        assert(text =~= said + rest);
        assert(text.take(said.len() as int) =~= said);
    } else {
        assert(text.take(said.len() as int) =~= said);
    }
}

/// What an error was about can be read in it.
pub proof fn law_errors_read_what_they_are_about(shown: Seq<char>, opcode: i32)
    ensures
        error_text(IpcErrorView::NotReady(shown))
            == "Discord IPC did not return READY after handshake: "@ + shown,
        error_text(IpcErrorView::Closed(shown)) == "Discord closed the IPC connection: "@ + shown,
        error_text(IpcErrorView::UnsupportedOpcode(opcode, shown))
            == "received unsupported Discord IPC opcode "@ + crate::text::signed_decimal_text(
            opcode as int,
        ) + ": "@ + shown,
        error_text(IpcErrorView::MissingCode(shown))
            == "Discord AUTHORIZE response did not contain data.code: "@ + shown,
        error_text(IpcErrorView::MissingMute(shown))
            == "Discord response did not contain data.mute: "@ + shown,
        error_text(IpcErrorView::MissingDeaf(shown))
            == "Discord response did not contain data.deaf: "@ + shown,
        error_text(IpcErrorView::NegativeLength(opcode))
            == "Discord IPC frame had a negative length: "@ + crate::text::signed_decimal_text(
            opcode as int,
        ),
        error_text(IpcErrorView::Encode) == "failed to encode Discord IPC JSON"@,
        error_text(IpcErrorView::Decode) == "failed to decode Discord IPC JSON"@,
{
}

/// Every request is an object of a command, its arguments and the nonce, and of
/// nothing else; each command takes just its own arguments.
pub proof fn law_requests_as_json(
    nonce: Seq<char>,
    token: Seq<char>,
    client_id: Seq<char>,
    scopes: Seq<Seq<char>>,
    flag: bool,
)
    ensures
        request_json(RpcRequestView::Authenticate { access_token: token }, nonce) == Json::Object(
            map!["cmd"@ => Json::Text("AUTHENTICATE"@), "args"@ => Json::Object(
                map!["access_token"@ => Json::Text(token)],
            ), "nonce"@ => Json::Text(nonce)],
        ),
        request_json(RpcRequestView::Authorize { client_id, scopes }, nonce) == Json::Object(
            map!["cmd"@ => Json::Text("AUTHORIZE"@), "args"@ => Json::Object(
                map!["client_id"@ => Json::Text(client_id), "scopes"@ => Json::Array(
                    Seq::new(scopes.len(), |i: int| Json::Text(scopes[i])),
                )],
            ), "nonce"@ => Json::Text(nonce)],
        ),
        request_json(RpcRequestView::GetVoiceSettings, nonce) == Json::Object(
            map!["cmd"@ => Json::Text("GET_VOICE_SETTINGS"@), "args"@ => Json::Object(
                Map::<Seq<char>, Json>::empty(),
            ), "nonce"@ => Json::Text(nonce)],
        ),
        request_json(RpcRequestView::SetMute(flag), nonce) == Json::Object(
            map!["cmd"@ => Json::Text("SET_VOICE_SETTINGS"@), "args"@ => Json::Object(
                map!["mute"@ => Json::Bool(flag)],
            ), "nonce"@ => Json::Text(nonce)],
        ),
        request_json(RpcRequestView::SetDeaf(flag), nonce) == Json::Object(
            map!["cmd"@ => Json::Text("SET_VOICE_SETTINGS"@), "args"@ => Json::Object(
                map!["deaf"@ => Json::Bool(flag)],
            ), "nonce"@ => Json::Text(nonce)],
        ),
        handshake_json(client_id) == Json::Object(
            map!["v"@ => Json::Integer(1), "client_id"@ => Json::Text(client_id)],
        ),
{
    assert(scopes.map_values(|s: Seq<char>| Json::Text(s)) =~= Seq::new(
        scopes.len(),
        |i: int| Json::Text(scopes[i]),
    ));
}

/// Every request but the handshake waits for the nonce that it was made with.
pub proof fn law_requests_wait_for_their_nonce(nonce: Seq<char>, mute: bool)
    ensures
        awaited_nonce(PendingView::Authenticate(nonce)) == Some(nonce),
        awaited_nonce(PendingView::Authorize(nonce)) == Some(nonce),
        awaited_nonce(PendingView::ToggleRead(nonce)) == Some(nonce),
        awaited_nonce(PendingView::ToggleWrite(nonce, mute)) == Some(nonce),
        awaited_nonce(PendingView::VoiceRead(nonce)) == Some(nonce),
        awaited_nonce(PendingView::VoiceWrite(nonce)) == Some(nonce),
        awaited_nonce(PendingView::Handshake) is None,
        awaited_nonce(PendingView::Idle) is None,
{
}

/// A handshake is answered by `READY`, and by nothing else.
pub proof fn law_handshakes(message: MessageView)
    ensures
        message.event == Some("READY"@) ==> progress(PendingView::Handshake, message)
            == ProgressView::Done(ReplyView::Connected),
        message.event != Some("READY"@) ==> progress(PendingView::Handshake, message)
            == ProgressView::Failed(IpcErrorView::NotReady(message.shown)),
        progress(PendingView::Idle, message) == ProgressView::Wait,
{
}

/// A reply to a settings read gives just the flags that Discord reports, and
/// without one of them it is of no use.
pub proof fn law_settings_are_read_as_reported(
    nonce: Seq<char>,
    message: MessageView,
    mute: bool,
    deaf: bool,
)
    requires
        message.nonce == Some(nonce),
        message.event != Some("ERROR"@),
    ensures
        message.mute == Some(mute) && message.deaf == Some(deaf) ==> progress(
            PendingView::VoiceRead(nonce),
            message,
        ) == ProgressView::Done(ReplyView::Voice(VoiceSettings { mute, deaf })),
        message.mute is None ==> progress(PendingView::VoiceRead(nonce), message)
            == ProgressView::Failed(IpcErrorView::MissingMute(message.shown)),
        message.mute is Some && message.deaf is None ==> progress(
            PendingView::VoiceRead(nonce),
            message,
        ) == ProgressView::Failed(IpcErrorView::MissingDeaf(message.shown)),
{
}

/// What the other requests come to when their reply is no error: authentication
/// and settings are accepted, an authorization gives its code, and a toggle sets
/// the opposite of what it read and reports what it set.
pub proof fn law_replies_settle_their_requests(
    nonce: Seq<char>,
    message: MessageView,
    mute: bool,
    code: Seq<char>,
)
    requires
        message.nonce == Some(nonce),
        message.event != Some("ERROR"@),
    ensures
        progress(PendingView::Authenticate(nonce), message) == ProgressView::Done(
            ReplyView::Authenticated,
        ),
        progress(PendingView::VoiceWrite(nonce), message) == ProgressView::Done(
            ReplyView::Accepted,
        ),
        progress(PendingView::ToggleWrite(nonce, mute), message) == ProgressView::Done(
            ReplyView::Muted(mute),
        ),
        message.code == Some(code) ==> progress(PendingView::Authorize(nonce), message)
            == ProgressView::Done(ReplyView::Authorized(code)),
        message.code is None ==> progress(PendingView::Authorize(nonce), message)
            == ProgressView::Failed(IpcErrorView::MissingCode(message.shown)),
        message.mute == Some(mute) ==> progress(PendingView::ToggleRead(nonce), message)
            == ProgressView::SetMute(!mute),
        message.mute is None ==> progress(PendingView::ToggleRead(nonce), message)
            == ProgressView::Failed(IpcErrorView::MissingMute(message.shown)),
{
}

/// An error reply fails its request with just the error that Discord reports,
/// whichever request it is; a reply to another leaves it waiting.
pub proof fn law_errors_and_strangers(pending: PendingView, nonce: Seq<char>, message: MessageView)
    requires
        awaited_nonce(pending) == Some(nonce),
    ensures
        message.nonce == Some(nonce) && message.event == Some("ERROR"@) ==> progress(
            pending,
            message,
        ) == ProgressView::Failed(error_of(message)),
        message.nonce != Some(nonce) ==> progress(pending, message) == ProgressView::Wait,
        message.nonce == Some(nonce) ==> !(progress(pending, message) is Wait),
{
}

/// What a frame with a plain reply comes to: a request that is done or failed is
/// no longer waited for, with just what the reply says; one that is still waited
/// for is still the same.
pub proof fn law_frames_settle_requests(
    before: PendingView,
    value: Json,
    after: PendingView,
    r: Received,
)
    requires
        received(before, 1, Some(value), after, r),
    ensures
        progress(before, message_of(value)) matches ProgressView::Done(reply) ==> r is Done
            && r->Done_0@ == reply && after == PendingView::Idle,
        progress(before, message_of(value)) matches ProgressView::Failed(error) ==> r is Failed
            && r->Failed_0@ == error && after == PendingView::Idle,
        progress(before, message_of(value)) == ProgressView::Wait ==> r is Wait && after == before,
        r is Done ==> progress(before, message_of(value)) is Done,
{
}

/// A toggle that has read mute goes on to set it: the next frame asks for just
/// that, under a nonce of its own, which is then waited for.
pub proof fn law_toggles_go_on_to_set(
    before: PendingView,
    value: Json,
    after: PendingView,
    r: Received,
    mute: bool,
)
    requires
        received(before, 1, Some(value), after, r),
        progress(before, message_of(value)) == ProgressView::SetMute(mute),
        r is Send,
    ensures
        exists|nonce: Seq<char>|
            #[trigger] is_random_uuid(nonce) && after == PendingView::ToggleWrite(nonce, mute)
                && Some(r->Send_0@) == json_frame(
                1,
                request_json(RpcRequestView::SetMute(mute), nonce),
            ),
{
}

/// A ping is answered by a pong, opcode 4, with the same value; a close, opcode 2,
/// and any other opcode but 1 fail the request with what came; so does a body
/// that is not JSON, whatever its opcode.
pub proof fn law_other_frames(
    before: PendingView,
    opcode: i32,
    value: Json,
    after: PendingView,
    r: Received,
)
    ensures
        received(before, 3, Some(value), after, r) && json_frame(4, value) is Some ==> r is Send
            && Some(r->Send_0@) == json_frame(4, value) && after == before,
        received(before, 2, Some(value), after, r) ==> r is Failed && r->Failed_0@
            == IpcErrorView::Closed(json_shown(value)) && after == PendingView::Idle,
        received(before, opcode, Some(value), after, r) && opcode != 1 && opcode != 2 && opcode
            != 3 ==> r is Failed && r->Failed_0@ == IpcErrorView::UnsupportedOpcode(
            opcode,
            json_shown(value),
        ) && after == PendingView::Idle,
        received(before, opcode, None, after, r) ==> r is Failed && r->Failed_0@
            == IpcErrorView::Decode && after == PendingView::Idle,
{
}

/// A request that was started is what is waited for, and its frame, with opcode
/// 1, is what was sent.
pub proof fn law_started_requests_are_waited_for(
    request: RpcRequestView,
    nonce: Seq<char>,
    waiting: PendingView,
    before: PendingView,
    pending: PendingView,
    sent: Result<Vec<u8>, IpcError>,
)
    requires
        request_started(request, nonce, waiting, before, pending, sent),
        sent is Ok,
    ensures
        pending == waiting,
        Some(sent->Ok_0@) == json_frame(1, request_json(request, nonce)),
        OPCODE_FRAME == 1,
{
}

/// Discord's sockets are looked for in the first directory that is set, in this
/// order, and else in `/tmp`; their names end in their number.
pub proof fn law_where_sockets_are(a: Seq<u8>, b: Option<Seq<u8>>, c: Option<Seq<u8>>, d: Option<
    Seq<u8>,
>)
    ensures
        socket_dir(seq![Some(a), b, c, d]) == a,
        socket_dir(seq![None, Some(a), c, d]) == a,
        socket_dir(seq![None, None, Some(a), d]) == a,
        socket_dir(seq![None, None, None, Some(a)]) == a,
        socket_dir(seq![None, None, None, None]) == vstd::utf8::encode_utf8("/tmp"@),
        forall|id: nat|
            id < 10 ==> #[trigger] socket_name(id) == "discord-ipc-"@ + seq![(48 + id) as char],
{
    reveal_with_fuel(socket_dir, 5);
    let none: Option<Seq<u8>> = None;
    assert(seq![Some(a), b, c, d].first() == Some(a));
    let two = seq![none, Some(a), c, d];
    assert(two.drop_first() =~= seq![Some(a), c, d]);
    let three = seq![none, none, Some(a), d];
    assert(three.drop_first() =~= seq![none, Some(a), d]);
    assert(three.drop_first().drop_first() =~= seq![Some(a), d]);
    let four = seq![none, none, none, Some(a)];
    assert(four.drop_first() =~= seq![none, none, Some(a)]);
    assert(four.drop_first().drop_first() =~= seq![none, Some(a)]);
    assert(four.drop_first().drop_first().drop_first() =~= seq![Some(a)]);
    let five = seq![none, none, none, none];
    assert(five.drop_first() =~= seq![none, none, none]);
    assert(five.drop_first().drop_first() =~= seq![none, none]);
    assert(five.drop_first().drop_first().drop_first() =~= seq![none]);
    assert(five.drop_first().drop_first().drop_first().drop_first() =~= seq![]);
}

/// A read takes what it brought off what is missing, and what is done next goes
/// by it: nothing at all means that the socket is closed, everything that reading
/// is done; a read that brought nothing yet is tried again.
pub proof fn law_reads(missing: nat, n: usize)
    requires
        n <= missing,
    ensures
        missing_after(missing, ReadOutcome::Bytes(n)) == missing - n,
        missing_after(missing, ReadOutcome::TryAgain) == missing,
        missing_after(missing, ReadOutcome::Failed) == missing,
        n == 0 ==> after_read(missing, ReadOutcome::Bytes(n)) == ReadAction::SocketClosed,
        0 < n < missing ==> after_read(missing, ReadOutcome::Bytes(n)) == ReadAction::ReadOn,
        0 < n == missing ==> after_read(missing, ReadOutcome::Bytes(n)) == ReadAction::Done,
        after_read(missing, ReadOutcome::TryAgain) == ReadAction::PauseAndReadOn,
        after_read(missing, ReadOutcome::Failed) == ReadAction::ReadFailed,
{
}

} // verus!
