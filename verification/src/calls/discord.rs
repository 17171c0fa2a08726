//! Calls on Discord's side.

use vstd::prelude::*;
use crate::config::AppConfig;
use crate::discord_ipc::client::{
    DiscordIpc, Pending, Progress, Received, Reply, VoiceSettings,
};
use crate::discord_ipc::frame::{json_frame, read_header, FrameHeader};
use crate::discord_ipc::message::{message_of, IpcError, Message};
use crate::discord_ipc::request::{is_random_uuid, request_json, RpcRequestView};
use crate::discord_ipc::socket::{socket_paths, ReadAction, ReadExact, ReadOutcome};
use crate::discord_mute::{
    Attempt, Connecting, DiscordMute, Event, Exchange, Operation, Outcome, Purpose, Task,
};
use crate::json::{json_read, json_shown, Json};
use crate::paths::path_joined;
use crate::text::{decimal_text, signed_decimal_text, texts};
use crate::token::TokenData;

verus! {

/// A connection opens with the handshake, opcode 0, that names version 1 and the
/// application, and waits for its answer.
pub proof fn law_connections_open_with_a_handshake(
    client_id: &str,
    r: Result<(DiscordIpc, Vec<u8>), IpcError>,
)
    requires
        call_ensures(DiscordIpc::connect, (client_id,), r),
    ensures
        r is Ok,
        (r->Ok_0).0.pending is Handshake,
        Some((r->Ok_0).1@) == json_frame(
            0,
            Json::Object(map!["v"@ => Json::Integer(1), "client_id"@ => Json::Text(client_id@)]),
        ),
{
}

/// To authenticate is to send the token in a request of its own, under a fresh
/// nonce, and to wait for the reply with that nonce.
pub proof fn law_authentication_sends_the_token(
    ipc: &mut DiscordIpc,
    access_token: &str,
    r: Result<Vec<u8>, IpcError>,
)
    requires
        call_ensures(DiscordIpc::authenticate, (ipc, access_token), r),
    ensures
        r is Ok,
        final(ipc).pending is Authenticate,
        is_random_uuid(final(ipc).pending->Authenticate_0@),
        Some(r->Ok_0@) == json_frame(
            1,
            request_json(
                RpcRequestView::Authenticate { access_token: access_token@ },
                final(ipc).pending->Authenticate_0@,
            ),
        ),
{
}

/// To authorize is to send the application and the scopes, all of them in order.
pub proof fn law_authorization_sends_the_scopes(
    ipc: &mut DiscordIpc,
    client_id: &str,
    scopes: Vec<String>,
    r: Result<Vec<u8>, IpcError>,
)
    requires
        call_ensures(DiscordIpc::authorize, (ipc, client_id, scopes), r),
    ensures
        r is Ok,
        final(ipc).pending is Authorize,
        is_random_uuid(final(ipc).pending->Authorize_0@),
        Some(r->Ok_0@) == json_frame(
            1,
            request_json(
                RpcRequestView::Authorize {
                    client_id: client_id@,
                    scopes: Seq::new(scopes@.len(), |i: int| scopes@[i]@),
                },
                final(ipc).pending->Authorize_0@,
            ),
        ),
{
    assert(texts(scopes@) =~= Seq::new(scopes@.len(), |i: int| scopes@[i]@));
}

/// A toggle and a read of the settings both ask for the settings first; only the
/// toggle goes on from there.
pub proof fn law_settings_are_asked_for(ipc: &mut DiscordIpc, r: Result<Vec<u8>, IpcError>)
    ensures
        call_ensures(DiscordIpc::toggle_mute, (ipc,), r) ==> r is Ok && final(ipc).pending
            is ToggleRead && is_random_uuid(final(ipc).pending->ToggleRead_0@) && Some(r->Ok_0@)
            == json_frame(
            1,
            request_json(
                RpcRequestView::GetVoiceSettings,
                final(ipc).pending->ToggleRead_0@,
            ),
        ),
        call_ensures(DiscordIpc::get_voice_settings, (ipc,), r) ==> r is Ok && final(ipc).pending
            is VoiceRead && is_random_uuid(final(ipc).pending->VoiceRead_0@) && Some(r->Ok_0@)
            == json_frame(
            1,
            request_json(RpcRequestView::GetVoiceSettings, final(ipc).pending->VoiceRead_0@),
        ),
{
}

/// A setting is sent as it was given, mute as mute and deafen as deafen.
pub proof fn law_settings_are_sent(ipc: &mut DiscordIpc, on: bool, r: Result<Vec<u8>, IpcError>)
    ensures
        call_ensures(DiscordIpc::set_mute, (ipc, on), r) ==> r is Ok && final(ipc).pending
            is VoiceWrite && is_random_uuid(final(ipc).pending->VoiceWrite_0@) && Some(r->Ok_0@)
            == json_frame(
            1,
            request_json(RpcRequestView::SetMute(on), final(ipc).pending->VoiceWrite_0@),
        ),
        call_ensures(DiscordIpc::set_deaf, (ipc, on), r) ==> r is Ok && final(ipc).pending
            is VoiceWrite && is_random_uuid(final(ipc).pending->VoiceWrite_0@) && Some(r->Ok_0@)
            == json_frame(
            1,
            request_json(RpcRequestView::SetDeaf(on), final(ipc).pending->VoiceWrite_0@),
        ),
{
}

/// A connection is closed by opcode 2 and an empty object, and waits for nothing
/// more.
pub proof fn law_connections_are_closed(ipc: &mut DiscordIpc, r: Result<Vec<u8>, IpcError>)
    requires
        call_ensures(DiscordIpc::close, (ipc,), r),
    ensures
        r is Ok,
        final(ipc).pending is Idle,
        Some(r->Ok_0@) == json_frame(2, Json::Object(Map::empty())),
{
}

/// A reply to a read of the settings gives mute and deafen just as it reports
/// them, each for itself.
pub proof fn law_settings_come_back_as_reported(
    pending: &Pending,
    message: &Message,
    mute: bool,
    deaf: bool,
    progress: Progress,
)
    requires
        *pending is VoiceRead,
        message.nonce is Some,
        message.nonce->0@ == pending->VoiceRead_0@,
        message.event is Some ==> message.event->0@ != "ERROR"@,
        message.mute == Some(mute),
        message.deaf == Some(deaf),
        call_ensures(Pending::on_message, (pending, message), progress),
    ensures
        progress is Done,
        progress->Done_0 is Voice,
        progress->Done_0->Voice_0.mute == mute,
        progress->Done_0->Voice_0.deaf == deaf,
{
}

/// A toggle sets the opposite of what it read, and reports what it set.
pub proof fn law_toggles_set_the_opposite(
    pending: &Pending,
    message: &Message,
    nonce: String,
    mute: bool,
    progress: Progress,
)
    requires
        message.nonce is Some,
        message.nonce->0@ == nonce@,
        message.event is Some ==> message.event->0@ != "ERROR"@,
        call_ensures(Pending::on_message, (pending, message), progress),
    ensures
        *pending == Pending::ToggleRead(nonce) && message.mute == Some(mute) ==> progress
            == Progress::SetMute(!mute),
        *pending == Pending::ToggleWrite(nonce, mute) ==> progress is Done && progress->Done_0
            == Reply::Muted(mute),
        *pending == Pending::Authenticate(nonce) ==> progress is Done && progress->Done_0
            is Authenticated,
        *pending == Pending::VoiceWrite(nonce) ==> progress is Done && progress->Done_0
            is Accepted,
        *pending == Pending::Authorize(nonce) && message.code is Some ==> progress is Done
            && progress->Done_0 is Authorized && progress->Done_0->Authorized_0@
            == message.code->0@,
{
}

/// A frame with a reply to a read of the settings ends the read with what the
/// frame says.
pub proof fn law_frames_end_reads(
    ipc: &mut DiscordIpc,
    body: &[u8],
    value: Json,
    nonce: String,
    mute: bool,
    deaf: bool,
    r: Received,
)
    requires
        old(ipc).pending == Pending::VoiceRead(nonce),
        json_read(body@) == Some(value),
        message_of(value).nonce == Some(nonce@),
        message_of(value).event != Some("ERROR"@),
        message_of(value).mute == Some(mute),
        message_of(value).deaf == Some(deaf),
        call_ensures(DiscordIpc::receive, (ipc, 1i32, body), r),
    ensures
        r is Done,
        r->Done_0 == Reply::Voice(VoiceSettings { mute, deaf }),
        final(ipc).pending is Idle,
{
}

/// A frame for another request is passed over, and a ping is answered, without
/// what is waited for being forgotten.
pub proof fn law_frames_for_others(
    ipc: &mut DiscordIpc,
    body: &[u8],
    value: Json,
    nonce: String,
    r: Received,
)
    requires
        old(ipc).pending == Pending::VoiceRead(nonce) || old(ipc).pending == Pending::VoiceWrite(
            nonce,
        ) || old(ipc).pending == Pending::ToggleRead(nonce) || old(ipc).pending
            == Pending::Authenticate(nonce) || old(ipc).pending == Pending::Authorize(nonce),
        json_read(body@) == Some(value),
    ensures
        call_ensures(DiscordIpc::receive, (ipc, 1i32, body), r) && message_of(value).nonce != Some(
            nonce@,
        ) ==> r is Wait && final(ipc).pending@ == old(ipc).pending@,
        call_ensures(DiscordIpc::receive, (ipc, 3i32, body), r) ==> r is Send && Some(r->Send_0@)
            == json_frame(4, value) && final(ipc).pending@ == old(ipc).pending@,
        call_ensures(DiscordIpc::receive, (ipc, 2i32, body), r) ==> r is Failed && r->Failed_0
            is Closed && r->Failed_0->Closed_0@ == json_shown(value) && final(ipc).pending is Idle,
{
}

/// A header gives the opcode and the length that its bytes stand for, lowest
/// first; a negative length is refused.
pub proof fn law_headers_are_read(header: &[u8], r: Result<FrameHeader, IpcError>)
    requires
        header@.len() == 8,
        call_ensures(read_header, (header,), r),
    ensures
        r is Ok <==> header@[7] < 0x80,
        r is Ok ==> (r->Ok_0).len == header@[4] + 0x100 * header@[5] + 0x1_0000 * header@[6]
            + 0x100_0000 * header@[7],
        r is Ok && header@[3] < 0x80 ==> (r->Ok_0).opcode == header@[0] + 0x100 * header@[1]
            + 0x1_0000 * header@[2] + 0x100_0000 * header@[3],
        r is Err ==> r->Err_0 is NegativeLength && r->Err_0->NegativeLength_0 < 0,
{
    crate::discord_ipc::laws::law_headers_byte_by_byte(header@);
}

/// A read of a buffer starts unless nothing is missing, and goes on until
/// everything came.
pub proof fn law_buffers_are_filled(
    missing: usize,
    started: (ReadExact, ReadAction),
    read: &mut ReadExact,
    n: usize,
    action: ReadAction,
)
    requires
        call_ensures(ReadExact::start, (missing,), started),
        old(read).missing == missing,
        n <= missing,
        call_ensures(ReadExact::on_read, (read, ReadOutcome::Bytes(n)), action),
    ensures
        started.0.missing == missing,
        missing == 0 <==> started.1 == ReadAction::Done,
        missing > 0 <==> started.1 == ReadAction::ReadOn,
        final(read).missing == missing - n,
        n > 0 && n == missing <==> action == ReadAction::Done,
        0 < n < missing <==> action == ReadAction::ReadOn,
        n == 0 <==> action == ReadAction::SocketClosed,
{
}

/// A read that brought nothing is tried again, and a failed one is not.
pub proof fn law_reads_that_bring_nothing(read: &mut ReadExact, action: ReadAction)
    ensures
        call_ensures(ReadExact::on_read, (read, ReadOutcome::TryAgain), action) ==> action
            == ReadAction::PauseAndReadOn && final(read).missing == old(read).missing,
        call_ensures(ReadExact::on_read, (read, ReadOutcome::Failed), action) ==> action
            == ReadAction::ReadFailed && final(read).missing == old(read).missing,
{
}

/// Ten sockets are tried, numbered from 0, in the first directory that is set:
/// `XDG_RUNTIME_DIR`, `TMPDIR`, `TMP`, `TEMP`, and else `/tmp`.
pub proof fn law_ten_sockets_are_tried(
    xdg: Option<Vec<u8>>,
    tmpdir: Option<Vec<u8>>,
    tmp: Option<Vec<u8>>,
    temp: Option<Vec<u8>>,
    paths: Vec<Vec<u8>>,
    id: int,
)
    requires
        call_ensures(socket_paths, (xdg, tmpdir, tmp, temp), paths),
        0 <= id < 10,
    ensures
        paths@.len() == 10,
        ({
            let dir = if xdg is Some {
                xdg->0@
            } else if tmpdir is Some {
                tmpdir->0@
            } else if tmp is Some {
                tmp->0@
            } else if temp is Some {
                temp->0@
            } else {
                vstd::utf8::encode_utf8("/tmp"@)
            };
            paths@[id]@ == path_joined(
                dir,
                vstd::utf8::encode_utf8("discord-ipc-"@ + decimal_text(id as nat)),
            )
        }),
{
    let dirs = seq![
        crate::paths::opt_bytes(xdg),
        crate::paths::opt_bytes(tmpdir),
        crate::paths::opt_bytes(tmp),
        crate::paths::opt_bytes(temp),
    ];
    reveal_with_fuel(crate::discord_ipc::socket::socket_dir, 5);
    assert(dirs.drop_first() =~= dirs.skip(1));
    assert(dirs.drop_first().drop_first() =~= dirs.skip(2));
    assert(dirs.drop_first().drop_first().drop_first() =~= dirs.skip(3));
}

/// What an error was about can be read in it.
pub proof fn law_errors_say_what_they_are_about(
    error: &IpcError,
    shown: String,
    number: i64,
    text: String,
)
    requires
        call_ensures(IpcError::message, (error,), text),
    ensures
        *error == IpcError::NotReady(shown) ==> text@
            == "Discord IPC did not return READY after handshake: "@ + shown@,
        *error == IpcError::Closed(shown) ==> text@ == "Discord closed the IPC connection: "@
            + shown@,
        *error == IpcError::MissingCode(shown) ==> text@
            == "Discord AUTHORIZE response did not contain data.code: "@ + shown@,
        *error == IpcError::MissingMute(shown) ==> text@
            == "Discord response did not contain data.mute: "@ + shown@,
        *error == IpcError::MissingDeaf(shown) ==> text@
            == "Discord response did not contain data.deaf: "@ + shown@,
        *error == (IpcError::Rpc { message: shown, code: None }) ==> text@ == shown@,
        *error == (IpcError::Rpc { message: shown, code: Some(number) }) ==> text@ == shown@
            + " (code "@ + signed_decimal_text(number as int) + ")"@,
        *error is Encode ==> text@ == "failed to encode Discord IPC JSON"@,
        *error is Decode ==> text@ == "failed to decode Discord IPC JSON"@,
{
}

/// The switches start by opening a connection, with the token at hand.
pub proof fn law_switches_start_by_connecting(
    config: AppConfig,
    token: Option<TokenData>,
    switches: DiscordMute,
)
    requires
        call_ensures(DiscordMute::connect, (config, token), switches),
    ensures
        switches.config@ == config@,
        switches.token is Some <==> token is Some,
        token is Some ==> switches.token->0@ == token->0@,
        !switches.connected,
        switches.task is Reconnect,
        switches.task->Reconnect_0 is Open,
        switches.task->Reconnect_1 is Connect,
{
}

/// Each operation starts as itself: by reading the settings if there is a
/// session, and by making one if there is none.
pub proof fn law_operations_start(switches: &mut DiscordMute, operation: Operation, r: ())
    requires
        match operation {
            Operation::ToggleMute => call_ensures(DiscordMute::toggle_mute, (switches,), r),
            Operation::ToggleDeafen => call_ensures(DiscordMute::toggle_deafen, (switches,), r),
            Operation::ReadVoice => call_ensures(DiscordMute::voice_settings, (switches,), r),
        },
    ensures
        final(switches).connected == old(switches).connected,
        final(switches).config@ == old(switches).config@,
        old(switches).connected ==> final(switches).task is Exchange
            && final(switches).task->Exchange_0 == operation && final(switches).task->Exchange_1
            == Exchange::Read && final(switches).task->Exchange_2 is First,
        !old(switches).connected ==> final(switches).task is Reconnect
            && final(switches).task->Reconnect_0 is Open && final(switches).task->Reconnect_1
            is Retry && final(switches).task->Reconnect_1->Retry_0 == operation
            && final(switches).task->Reconnect_1->Retry_1@
            == "Discord IPC session is not connected"@,
{
}

/// A toggle sets the opposite of what was read; a read is just given back.
pub proof fn law_what_was_read_is_used(
    switches: &mut DiscordMute,
    operation: Operation,
    attempt: Attempt,
    current: VoiceSettings,
    outcome: Outcome,
)
    requires
        old(switches).task == Task::Exchange(operation, Exchange::Read, attempt),
        call_ensures(DiscordMute::step, (switches, Event::Voice(Ok(current))), outcome),
    ensures
        operation == Operation::ToggleMute ==> outcome is Continue && final(switches).task
            is Exchange && final(switches).task->Exchange_0 == Operation::ToggleMute
            && final(switches).task->Exchange_1 == Exchange::SetMute(!current.mute, current),
        operation == Operation::ToggleDeafen ==> outcome is Continue && final(switches).task
            is Exchange && final(switches).task->Exchange_0 == Operation::ToggleDeafen
            && final(switches).task->Exchange_1 == Exchange::SetDeaf(!current.deaf),
        operation == Operation::ReadVoice ==> outcome == Outcome::Voice(current)
            && final(switches).task is Idle,
        final(switches).connected == old(switches).connected,
{
}

/// A mute that was set is reported with the deafen that was read; after a deafen
/// the settings are read again, and reported as they are.
pub proof fn law_what_was_set_is_reported(
    switches: &mut DiscordMute,
    operation: Operation,
    attempt: Attempt,
    mute: bool,
    current: VoiceSettings,
    outcome: Outcome,
)
    ensures
        old(switches).task == Task::Exchange(
            operation,
            Exchange::SetMute(mute, current),
            attempt,
        ) && call_ensures(DiscordMute::step, (switches, Event::Accepted(Ok(()))), outcome)
            ==> outcome == Outcome::Voice(VoiceSettings { mute, deaf: current.deaf })
            && final(switches).task is Idle && final(switches).connected == old(switches).connected,
        old(switches).task == Task::Exchange(operation, Exchange::SetDeaf(mute), attempt)
            && call_ensures(DiscordMute::step, (switches, Event::Accepted(Ok(()))), outcome)
            ==> outcome is Continue && final(switches).task is Exchange
            && final(switches).task->Exchange_1 == Exchange::ReadBack,
        old(switches).task == Task::Exchange(operation, Exchange::ReadBack, attempt)
            && call_ensures(DiscordMute::step, (switches, Event::Voice(Ok(current))), outcome)
            ==> outcome == Outcome::Voice(current) && final(switches).task is Idle,
{
}

/// A first attempt that fails makes a new session to try again, and a second one
/// fails with the first one's error.
pub proof fn law_failed_attempts(
    switches: &mut DiscordMute,
    operation: Operation,
    attempt: Attempt,
    error: String,
    outcome: Outcome,
)
    requires
        old(switches).task == Task::Exchange(operation, Exchange::Read, attempt),
        call_ensures(DiscordMute::step, (switches, Event::Voice(Err(error))), outcome),
    ensures
        attempt is First ==> outcome is Continue && !final(switches).connected
            && final(switches).task is Reconnect && final(switches).task->Reconnect_0 is Open
            && final(switches).task->Reconnect_1 is Retry && final(switches).task->Reconnect_1->Retry_0 == operation && final(switches).task->Reconnect_1->Retry_1@
            == error@,
        attempt is Second ==> outcome is Failed && outcome->Failed_0@ == "retry after Discord "@ + (
        match operation {
            Operation::ToggleMute => "mute toggle"@,
            Operation::ToggleDeafen => "deafen toggle"@,
            Operation::ReadVoice => "voice settings read"@,
        }) + " also failed; first error was: "@ + attempt->Second_0@ && final(switches).task is Idle,
{
}

/// A session that was made to try again is used for just that, and one that could
/// not be made fails what it was for.
pub proof fn law_sessions_are_made_for_their_purpose(
    switches: &mut DiscordMute,
    purpose: Purpose,
    error: String,
    outcome: Outcome,
)
    ensures
        old(switches).task == Task::Reconnect(Connecting::Authenticate, purpose) && call_ensures(
            DiscordMute::step,
            (switches, Event::Authenticated(Ok(()))),
            outcome,
        ) ==> {
            &&& final(switches).connected
            &&& purpose is Connect ==> outcome is Connected && final(switches).task is Idle
            &&& purpose is Retry ==> outcome is Continue && final(switches).task is Exchange
                && final(switches).task->Exchange_0 == purpose->Retry_0
                && final(switches).task->Exchange_1 == Exchange::Read
                && final(switches).task->Exchange_2 is Second
                && final(switches).task->Exchange_2->Second_0@ == purpose->Retry_1@
        },
        old(switches).task == Task::Reconnect(Connecting::Open, purpose) && call_ensures(
            DiscordMute::step,
            (switches, Event::Opened(Err(error))),
            outcome,
        ) ==> {
            &&& outcome is Failed
            &&& final(switches).task is Idle
            &&& purpose is Connect ==> outcome->Failed_0@ == error@
            &&& purpose is Retry ==> outcome->Failed_0@
                == "failed to reconnect Discord IPC after "@ + (match purpose->Retry_0 {
                Operation::ToggleMute => "mute toggle"@,
                Operation::ToggleDeafen => "deafen toggle"@,
                Operation::ReadVoice => "voice settings read"@,
            })
        },
{
}

/// What is read of a frame is what its value says, member by member.
pub proof fn law_messages_are_read(value: &serde_json::Value, message: Message)
    requires
        call_ensures(Message::read, (value,), message),
    ensures
        ({
            let said = message_of(crate::json::json_of(*value));
            &&& message.mute == said.mute
            &&& message.deaf == said.deaf
            &&& message.error_code == said.error_code
            &&& message.shown@ == said.shown
            &&& message.event is Some <==> said.event is Some
            &&& message.event is Some ==> Some(message.event->0@) == said.event
            &&& message.nonce is Some <==> said.nonce is Some
            &&& message.nonce is Some ==> Some(message.nonce->0@) == said.nonce
            &&& message.code is Some <==> said.code is Some
            &&& message.code is Some ==> Some(message.code->0@) == said.code
            &&& message.error_message is Some <==> said.error_message is Some
            &&& message.error_message is Some ==> Some(message.error_message->0@)
                == said.error_message
        }),
{
}

/// An error reply fails its request with Discord's own words, and a handshake is
/// answered by `READY` alone.
pub proof fn law_errors_and_handshakes(
    pending: &Pending,
    message: &Message,
    nonce: String,
    progress: Progress,
)
    requires
        call_ensures(Pending::on_message, (pending, message), progress),
    ensures
        *pending == Pending::VoiceRead(nonce) && message.nonce is Some && message.nonce->0@
            == nonce@ && message.event is Some && message.event->0@ == "ERROR"@
            && message.error_message is Some ==> progress is Failed && progress->Failed_0 is Rpc
            && progress->Failed_0->message@ == message.error_message->0@
            && progress->Failed_0->code == message.error_code,
        *pending is Handshake && message.event is Some && message.event->0@ == "READY"@
            ==> progress is Done && progress->Done_0 is Connected,
        *pending is Handshake && (message.event is None || message.event->0@ != "READY"@)
            ==> progress is Failed && progress->Failed_0 is NotReady
            && progress->Failed_0->NotReady_0@ == message.shown@,
        *pending is Idle ==> progress is Wait,
        *pending == Pending::VoiceRead(nonce) && (message.nonce is None || message.nonce->0@
            != nonce@) ==> progress is Wait,
{
}

/// Errors about numbers tell them.
pub proof fn law_errors_tell_numbers(
    error: &IpcError,
    number: i32,
    shown: String,
    text: String,
)
    requires
        call_ensures(IpcError::message, (error,), text),
    ensures
        *error == IpcError::NegativeLength(number) ==> text@
            == "Discord IPC frame had a negative length: "@ + signed_decimal_text(number as int),
        *error == IpcError::UnsupportedOpcode(number, shown) ==> text@
            == "received unsupported Discord IPC opcode "@ + signed_decimal_text(number as int)
            + ": "@ + shown@,
{
}

/// A token that does not do has a fresh one got, and so has none; one that does
/// is kept.
pub proof fn law_tokens_are_tried(
    switches: &mut DiscordMute,
    purpose: Purpose,
    error: String,
    outcome: Outcome,
)
    ensures
        old(switches).task == Task::Reconnect(Connecting::Open, purpose) && call_ensures(
            DiscordMute::step,
            (switches, Event::Opened(Ok(()))),
            outcome,
        ) ==> outcome is Continue && final(switches).task is Reconnect && (old(switches).token
            is Some <==> final(switches).task->Reconnect_0 is Authenticate) && (old(switches).token
            is None <==> final(switches).task->Reconnect_0 is Refresh),
        old(switches).task == Task::Reconnect(Connecting::Authenticate, purpose) && call_ensures(
            DiscordMute::step,
            (switches, Event::Authenticated(Err(error))),
            outcome,
        ) ==> outcome is Continue && final(switches).task is Reconnect
            && final(switches).task->Reconnect_0 is Refresh
            && final(switches).task->Reconnect_0->Refresh_0 is Authorize,
{
}

/// A fresh token that does is the token at hand from then on; one that does not
/// leaves the one before.
pub proof fn law_fresh_tokens(
    switches: &mut DiscordMute,
    fresh: TokenData,
    purpose: Purpose,
    error: String,
    outcome: Outcome,
)
    requires
        old(switches).task == Task::Reconnect(Connecting::AuthenticateFresh(fresh), purpose),
    ensures
        call_ensures(DiscordMute::step, (switches, Event::Authenticated(Ok(()))), outcome) ==> final(
            switches).connected && final(switches).token is Some && final(switches).token->0@
            == fresh@,
        call_ensures(DiscordMute::step, (switches, Event::Authenticated(Err(error))), outcome)
            ==> outcome is Failed && (purpose is Connect ==> outcome->Failed_0@ == error@) && final(
            switches).connected == old(switches).connected && (final(switches).token is Some
            <==> old(switches).token is Some),
{
}

/// A read that would block is tried again after a hundredth of a second.
pub proof fn law_retries_are_timed()
    ensures
        crate::discord_ipc::socket::RETRY_PAUSE == 10_000_000,
        crate::discord_ipc::frame::HEADER_LEN == 8,
{
}

/// A frame that tells a toggle the setting has the opposite set: the next frame
/// asks for just that, and its own reply is waited for.
pub proof fn law_toggles_go_on(
    ipc: &mut DiscordIpc,
    body: &[u8],
    value: Json,
    nonce: String,
    mute: bool,
    r: Received,
)
    requires
        old(ipc).pending == Pending::ToggleRead(nonce),
        json_read(body@) == Some(value),
        message_of(value).nonce == Some(nonce@),
        message_of(value).event != Some("ERROR"@),
        message_of(value).mute == Some(mute),
        call_ensures(DiscordIpc::receive, (ipc, 1i32, body), r),
    ensures
        r is Send,
        final(ipc).pending is ToggleWrite,
        final(ipc).pending->ToggleWrite_1 == !mute,
        is_random_uuid(final(ipc).pending->ToggleWrite_0@),
        Some(r->Send_0@) == json_frame(
            1,
            request_json(RpcRequestView::SetMute(!mute), final(ipc).pending->ToggleWrite_0@),
        ),
{
}

/// Negative opcodes and lengths are read as such, by the sign of their topmost
/// bit.
pub proof fn law_negative_headers(header: &[u8], r: Result<FrameHeader, IpcError>)
    requires
        header@.len() == 8,
        call_ensures(read_header, (header,), r),
    ensures
        r is Ok && header@[3] >= 0x80 ==> (r->Ok_0).opcode == header@[0] + 0x100 * header@[1]
            + 0x1_0000 * header@[2] + 0x100_0000 * header@[3] - 0x1_0000_0000,
        r is Err ==> r->Err_0->NegativeLength_0 == header@[4] + 0x100 * header@[5] + 0x1_0000
            * header@[6] + 0x100_0000 * header@[7] - 0x1_0000_0000,
{
    let h = header@;
    assert(h.take(4) =~= seq![h[0], h[1], h[2], h[3]]);
    assert(h.subrange(4, 8) =~= seq![h[4], h[5], h[6], h[7]]);
    crate::wire::law_reading_little_end_first(h[0], h[1], h[2], h[3]);
    crate::wire::law_reading_little_end_first(h[4], h[5], h[6], h[7]);
}

} // verus!
