//! The client: it starts one request at a time and follows it to its end.

use vstd::prelude::*;
use crate::discord_ipc::frame::{
    json_frame, read_body, write_frame, OPCODE_CLOSE, OPCODE_FRAME, OPCODE_PING, OPCODE_PONG,
};
use crate::discord_ipc::message::{
    discord_error, error_of, is_error, message_of, IpcError, IpcErrorView, Message, MessageView,
};
use crate::discord_ipc::request::{
    close_frame, handshake_frame, handshake_json, is_random_uuid, new_nonce, request_json,
    RpcRequest, RpcRequestView,
};
use crate::json::{json_read, json_shown, Json};
use crate::text::{opt_text, same_text, texts};

verus! {

/// Discord's own voice settings of the user.
#[derive(Debug, Clone, Copy, PartialEq, Eq, Structural)]
pub struct VoiceSettings {
    pub mute: bool,
    pub deaf: bool,
}

/// What the client is waiting for, by the nonce its reply will carry.
#[derive(Debug)]
pub enum Pending {
    Idle,
    Handshake,
    Authenticate(String),
    Authorize(String),
    /// The settings, to set mute to the opposite.
    ToggleRead(String),
    /// The confirmation that mute was set to this.
    ToggleWrite(String, bool),
    VoiceRead(String),
    VoiceWrite(String),
}

/// A `Pending` as contracts speak of it.
pub enum PendingView {
    Idle,
    Handshake,
    Authenticate(Seq<char>),
    Authorize(Seq<char>),
    ToggleRead(Seq<char>),
    ToggleWrite(Seq<char>, bool),
    VoiceRead(Seq<char>),
    VoiceWrite(Seq<char>),
}

impl View for Pending {
    type V = PendingView;

    open spec fn view(&self) -> PendingView {
        match self {
            Pending::Idle => PendingView::Idle,
            Pending::Handshake => PendingView::Handshake,
            Pending::Authenticate(nonce) => PendingView::Authenticate(nonce@),
            Pending::Authorize(nonce) => PendingView::Authorize(nonce@),
            Pending::ToggleRead(nonce) => PendingView::ToggleRead(nonce@),
            Pending::ToggleWrite(nonce, mute) => PendingView::ToggleWrite(nonce@, *mute),
            Pending::VoiceRead(nonce) => PendingView::VoiceRead(nonce@),
            Pending::VoiceWrite(nonce) => PendingView::VoiceWrite(nonce@),
        }
    }
}

/// The nonce of the reply that is waited for, if it has one.
pub open spec fn awaited_nonce(pending: PendingView) -> Option<Seq<char>> {
    match pending {
        PendingView::Idle => None,
        PendingView::Handshake => None,
        PendingView::Authenticate(nonce) => Some(nonce),
        PendingView::Authorize(nonce) => Some(nonce),
        PendingView::ToggleRead(nonce) => Some(nonce),
        PendingView::ToggleWrite(nonce, _) => Some(nonce),
        PendingView::VoiceRead(nonce) => Some(nonce),
        PendingView::VoiceWrite(nonce) => Some(nonce),
    }
}

/// What came of a request.
#[derive(Debug)]
pub enum Reply {
    Connected,
    Authenticated,
    /// The authorization code.
    Authorized(String),
    /// Mute was set to this.
    Muted(bool),
    Voice(VoiceSettings),
    /// A setting was accepted.
    Accepted,
}

/// A `Reply` as contracts speak of it.
pub enum ReplyView {
    Connected,
    Authenticated,
    Authorized(Seq<char>),
    Muted(bool),
    Voice(VoiceSettings),
    Accepted,
}

impl View for Reply {
    type V = ReplyView;

    open spec fn view(&self) -> ReplyView {
        match self {
            Reply::Connected => ReplyView::Connected,
            Reply::Authenticated => ReplyView::Authenticated,
            Reply::Authorized(code) => ReplyView::Authorized(code@),
            Reply::Muted(mute) => ReplyView::Muted(*mute),
            Reply::Voice(settings) => ReplyView::Voice(*settings),
            Reply::Accepted => ReplyView::Accepted,
        }
    }
}

/// How a message moves a pending request on.
#[derive(Debug)]
pub enum Progress {
    /// It is about something else.
    Wait,
    Done(Reply),
    Failed(IpcError),
    /// Mute is to be set to this next.
    SetMute(bool),
}

/// A `Progress` as contracts speak of it.
pub enum ProgressView {
    Wait,
    Done(ReplyView),
    Failed(IpcErrorView),
    SetMute(bool),
}

impl View for Progress {
    type V = ProgressView;

    open spec fn view(&self) -> ProgressView {
        match self {
            Progress::Wait => ProgressView::Wait,
            Progress::Done(reply) => ProgressView::Done(reply@),
            Progress::Failed(error) => ProgressView::Failed(error@),
            Progress::SetMute(mute) => ProgressView::SetMute(*mute),
        }
    }
}

/// What a reply to the pending request, which is not an error, amounts to.
pub open spec fn settled(pending: PendingView, message: MessageView) -> ProgressView {
    match pending {
        PendingView::Authenticate(_) => ProgressView::Done(ReplyView::Authenticated),
        PendingView::Authorize(_) => match message.code {
            Some(code) => ProgressView::Done(ReplyView::Authorized(code)),
            None => ProgressView::Failed(IpcErrorView::MissingCode(message.shown)),
        },
        PendingView::ToggleRead(_) => match message.mute {
            Some(mute) => ProgressView::SetMute(!mute),
            None => ProgressView::Failed(IpcErrorView::MissingMute(message.shown)),
        },
        PendingView::ToggleWrite(_, mute) => ProgressView::Done(ReplyView::Muted(mute)),
        PendingView::VoiceRead(_) => match (message.mute, message.deaf) {
            (Some(mute), Some(deaf)) => ProgressView::Done(
                ReplyView::Voice(VoiceSettings { mute, deaf }),
            ),
            (None, _) => ProgressView::Failed(IpcErrorView::MissingMute(message.shown)),
            (_, None) => ProgressView::Failed(IpcErrorView::MissingDeaf(message.shown)),
        },
        PendingView::VoiceWrite(_) => ProgressView::Done(ReplyView::Accepted),
        _ => ProgressView::Wait,
    }
}

/// How a message moves the pending request on. A handshake is answered by the
/// first message, and by READY only; any other request by the first message
/// with its nonce. An error reply fails the request.
pub open spec fn progress(pending: PendingView, message: MessageView) -> ProgressView {
    match pending {
        PendingView::Idle => ProgressView::Wait,
        PendingView::Handshake => if message.event == Some("READY"@) {
            ProgressView::Done(ReplyView::Connected)
        } else {
            ProgressView::Failed(IpcErrorView::NotReady(message.shown))
        },
        _ => if message.nonce != awaited_nonce(pending) {
            ProgressView::Wait
        } else if is_error(message) {
            ProgressView::Failed(error_of(message))
        } else {
            settled(pending, message)
        },
    }
}

/// What the client makes of a frame.
#[derive(Debug)]
pub enum Received {
    /// Read the next frame.
    Wait,
    /// Write these bytes, then read the next frame.
    Send(Vec<u8>),
    Done(Reply),
    Failed(IpcError),
}

fn is_text(text: &Option<String>, wanted: &str) -> (r: bool)
    ensures
        r == (opt_text(*text) == Some(wanted@)),
{
    match text {
        Some(text) => same_text(text.as_str(), wanted),
        None => false,
    }
}

fn settle(pending: &Pending, message: &Message) -> (r: Progress)
    ensures
        r@ == settled(pending@, message@),
{
    match pending {
        Pending::Authenticate(_) => Progress::Done(Reply::Authenticated),
        Pending::Authorize(_) => match &message.code {
            Some(code) => Progress::Done(Reply::Authorized(code.clone())),
            None => Progress::Failed(IpcError::MissingCode(message.shown.clone())),
        },
        Pending::ToggleRead(_) => match message.mute {
            Some(mute) => Progress::SetMute(!mute),
            None => Progress::Failed(IpcError::MissingMute(message.shown.clone())),
        },
        Pending::ToggleWrite(_, mute) => Progress::Done(Reply::Muted(*mute)),
        Pending::VoiceRead(_) => match (message.mute, message.deaf) {
            (Some(mute), Some(deaf)) => Progress::Done(
                Reply::Voice(VoiceSettings { mute, deaf }),
            ),
            (None, _) => Progress::Failed(IpcError::MissingMute(message.shown.clone())),
            (_, None) => Progress::Failed(IpcError::MissingDeaf(message.shown.clone())),
        },
        Pending::VoiceWrite(_) => Progress::Done(Reply::Accepted),
        _ => Progress::Wait,
    }
}

impl Pending {
    fn nonce(&self) -> (r: Option<&String>)
        ensures
            match r {
                Some(nonce) => awaited_nonce(self@) == Some(nonce@),
                None => awaited_nonce(self@) is None,
            },
    {
        match self {
            Pending::Idle => None,
            Pending::Handshake => None,
            Pending::Authenticate(nonce) => Some(nonce),
            Pending::Authorize(nonce) => Some(nonce),
            Pending::ToggleRead(nonce) => Some(nonce),
            Pending::ToggleWrite(nonce, _) => Some(nonce),
            Pending::VoiceRead(nonce) => Some(nonce),
            Pending::VoiceWrite(nonce) => Some(nonce),
        }
    }

    /// How a message moves this request on.
    pub fn on_message(&self, message: &Message) -> (r: Progress)
        ensures
            r@ == progress(self@, message@),
    {
        match self {
            Pending::Idle => Progress::Wait,
            Pending::Handshake => if is_text(&message.event, "READY") {
                Progress::Done(Reply::Connected)
            } else {
                Progress::Failed(IpcError::NotReady(message.shown.clone()))
            },
            _ => {
                let ours = match self.nonce() {
                    Some(nonce) => is_text(&message.nonce, nonce.as_str()),
                    None => false,
                };
                if !ours {
                    Progress::Wait
                } else if is_text(&message.event, "ERROR") {
                    Progress::Failed(discord_error(message))
                } else {
                    settle(self, message)
                }
            },
        }
    }
}

/// A connection to Discord, without its socket.
#[derive(Debug)]
pub struct DiscordIpc {
    pub pending: Pending,
}

/// Whether starting `request` with `nonce` left the client `pending` and gave
/// `sent`: the request's frame, or nothing but the failure to encode it.
pub open spec fn request_started(
    request: RpcRequestView,
    nonce: Seq<char>,
    waiting: PendingView,
    before: PendingView,
    pending: PendingView,
    sent: Result<Vec<u8>, IpcError>,
) -> bool {
    match json_frame(OPCODE_FRAME, request_json(request, nonce)) {
        Some(frame) => sent is Ok && sent->Ok_0@ == frame && pending == waiting,
        None => sent is Err && sent->Err_0 is Encode && pending == before,
    }
}

impl DiscordIpc {
    fn start(&mut self, request: &RpcRequest, pending: Pending, nonce: &str) -> (r: Result<
        Vec<u8>,
        IpcError,
    >)
        ensures
            r is Ok,
            request_started(
                request@,
                nonce@,
                pending@,
                old(self).pending@,
                final(self).pending@,
                r,
            ),
    {
        let frame = request.frame(nonce);
        if frame.is_ok() {
            self.pending = pending;
        }
        frame
    }

    /// Starts a connection: the handshake is to be sent, and its answer to be
    /// waited for.
    pub fn connect(client_id: &str) -> (r: Result<(DiscordIpc, Vec<u8>), IpcError>)
        ensures
            r is Ok,
            match json_frame(
                crate::discord_ipc::frame::OPCODE_HANDSHAKE,
                handshake_json(client_id@),
            ) {
                Some(frame) => r matches Ok((ipc, sent)) && sent@ == frame && ipc.pending@
                    == PendingView::Handshake,
                None => r matches Err(e) && e is Encode,
            },
    {
        match handshake_frame(client_id) {
            Ok(frame) => Ok((DiscordIpc { pending: Pending::Handshake }, frame)),
            Err(e) => Err(e),
        }
    }

    /// Starts to authenticate with an access token.
    pub fn authenticate(&mut self, access_token: &str) -> (r: Result<Vec<u8>, IpcError>)
        ensures
            r is Ok,
            exists|nonce: Seq<char>|
                is_random_uuid(nonce) && #[trigger] request_started(
                    RpcRequestView::Authenticate { access_token: access_token@ },
                    nonce,
                    PendingView::Authenticate(nonce),
                    old(self).pending@,
                    final(self).pending@,
                    r,
                ),
    {
        let nonce = new_nonce();
        let request = RpcRequest::Authenticate { access_token: access_token.to_owned() };
        self.start(&request, Pending::Authenticate(nonce.clone()), nonce.as_str())
    }

    /// Starts to ask for the user's authorization.
    pub fn authorize(&mut self, client_id: &str, scopes: Vec<String>) -> (r: Result<
        Vec<u8>,
        IpcError,
    >)
        ensures
            r is Ok,
            exists|nonce: Seq<char>|
                is_random_uuid(nonce) && #[trigger] request_started(
                    RpcRequestView::Authorize { client_id: client_id@, scopes: texts(scopes@) },
                    nonce,
                    PendingView::Authorize(nonce),
                    old(self).pending@,
                    final(self).pending@,
                    r,
                ),
    {
        let nonce = new_nonce();
        let request = RpcRequest::Authorize { client_id: client_id.to_owned(), scopes };
        self.start(&request, Pending::Authorize(nonce.clone()), nonce.as_str())
    }

    /// Starts to flip self-mute, by reading it first.
    pub fn toggle_mute(&mut self) -> (r: Result<Vec<u8>, IpcError>)
        ensures
            r is Ok,
            exists|nonce: Seq<char>|
                is_random_uuid(nonce) && #[trigger] request_started(
                    RpcRequestView::GetVoiceSettings,
                    nonce,
                    PendingView::ToggleRead(nonce),
                    old(self).pending@,
                    final(self).pending@,
                    r,
                ),
    {
        let nonce = new_nonce();
        self.start(
            &RpcRequest::GetVoiceSettings,
            Pending::ToggleRead(nonce.clone()),
            nonce.as_str(),
        )
    }

    /// Starts to read the voice settings.
    pub fn get_voice_settings(&mut self) -> (r: Result<Vec<u8>, IpcError>)
        ensures
            r is Ok,
            exists|nonce: Seq<char>|
                is_random_uuid(nonce) && #[trigger] request_started(
                    RpcRequestView::GetVoiceSettings,
                    nonce,
                    PendingView::VoiceRead(nonce),
                    old(self).pending@,
                    final(self).pending@,
                    r,
                ),
    {
        let nonce = new_nonce();
        self.start(
            &RpcRequest::GetVoiceSettings,
            Pending::VoiceRead(nonce.clone()),
            nonce.as_str(),
        )
    }

    /// Starts to set self-mute.
    pub fn set_mute(&mut self, mute: bool) -> (r: Result<Vec<u8>, IpcError>)
        ensures
            r is Ok,
            exists|nonce: Seq<char>|
                is_random_uuid(nonce) && #[trigger] request_started(
                    RpcRequestView::SetMute(mute),
                    nonce,
                    PendingView::VoiceWrite(nonce),
                    old(self).pending@,
                    final(self).pending@,
                    r,
                ),
    {
        let nonce = new_nonce();
        self.start(&RpcRequest::SetMute(mute), Pending::VoiceWrite(nonce.clone()), nonce.as_str())
    }

    /// Starts to set self-deafen.
    pub fn set_deaf(&mut self, deaf: bool) -> (r: Result<Vec<u8>, IpcError>)
        ensures
            r is Ok,
            exists|nonce: Seq<char>|
                is_random_uuid(nonce) && #[trigger] request_started(
                    RpcRequestView::SetDeaf(deaf),
                    nonce,
                    PendingView::VoiceWrite(nonce),
                    old(self).pending@,
                    final(self).pending@,
                    r,
                ),
    {
        let nonce = new_nonce();
        self.start(&RpcRequest::SetDeaf(deaf), Pending::VoiceWrite(nonce.clone()), nonce.as_str())
    }

    /// The frame that closes the connection.
    pub fn close(&mut self) -> (r: Result<Vec<u8>, IpcError>)
        ensures
            r is Ok,
            final(self).pending@ == PendingView::Idle,
            match json_frame(OPCODE_CLOSE, Json::Object(Map::empty())) {
                Some(frame) => r matches Ok(sent) && sent@ == frame,
                None => r matches Err(e) && e is Encode,
            },
    {
        self.pending = Pending::Idle;
        close_frame()
    }

    fn fail(&mut self, error: IpcError) -> (r: Received)
        ensures
            final(self).pending@ == PendingView::Idle,
            r == Received::Failed(error),
    {
        self.pending = Pending::Idle;
        Received::Failed(error)
    }

    fn write_mute(&mut self, mute: bool) -> (r: Received)
        ensures
            r is Send,
            exists|nonce: Seq<char>|
                #[trigger] is_random_uuid(nonce) && set_mute_follows(
                    mute,
                    nonce,
                    final(self).pending@,
                    r,
                ),
    {
        let nonce = new_nonce();
        let pending = Pending::ToggleWrite(nonce.clone(), mute);
        let request = RpcRequest::SetMute(mute);
        let started = self.start(&request, pending, nonce.as_str());
        let r = match started {
            Ok(frame) => Received::Send(frame),
            Err(e) => self.fail(e),
        };
        assert(is_random_uuid(nonce@) && set_mute_follows(mute, nonce@, self.pending@, r));
        r
    }

    fn on_progress(&mut self, progress: Progress) -> (r: Received)
        ensures
            moved_on(progress@, old(self).pending@, final(self).pending@, r),
            progress@ is SetMute ==> r is Send,
    {
        match progress {
            Progress::Wait => Received::Wait,
            Progress::Done(reply) => {
                self.pending = Pending::Idle;
                Received::Done(reply)
            },
            Progress::Failed(error) => self.fail(error),
            Progress::SetMute(mute) => self.write_mute(mute),
        }
    }

    /// Takes in one frame. A ping is answered by a pong with the same payload
    /// and anything but a plain frame fails the request; a plain frame moves it
    /// on.
    pub fn receive(&mut self, opcode: i32, body: &[u8]) -> (r: Received)
        ensures
            received(old(self).pending@, opcode, json_read(body@), final(self).pending@, r),
            json_read(body@) is Some && opcode == OPCODE_PING ==> r is Send,
            json_read(body@) is Some && opcode == OPCODE_FRAME && progress(
                old(self).pending@,
                message_of(json_read(body@)->0),
            ) is SetMute ==> r is Send,
    {
        let value = match read_body(body) {
            Ok(value) => value,
            Err(e) => {
                return self.fail(e);
            },
        };
        if opcode == OPCODE_FRAME {
            let message = Message::read(&value);
            let progress = self.pending.on_message(&message);
            self.on_progress(progress)
        } else if opcode == OPCODE_PING {
            match write_frame(OPCODE_PONG, &value) {
                Ok(frame) => Received::Send(frame),
                Err(e) => self.fail(e),
            }
        } else if opcode == OPCODE_CLOSE {
            let shown = Message::read(&value).shown;
            self.fail(IpcError::Closed(shown))
        } else {
            let shown = Message::read(&value).shown;
            self.fail(IpcError::UnsupportedOpcode(opcode, shown))
        }
    }
}

/// Whether mute is being set to `mute` next, under `nonce`.
pub open spec fn set_mute_follows(
    mute: bool,
    nonce: Seq<char>,
    pending: PendingView,
    r: Received,
) -> bool {
    match json_frame(OPCODE_FRAME, request_json(RpcRequestView::SetMute(mute), nonce)) {
        Some(frame) => r is Send && r->Send_0@ == frame && pending == PendingView::ToggleWrite(
            nonce,
            mute,
        ),
        None => r is Failed && r->Failed_0 is Encode && pending == PendingView::Idle,
    }
}

/// Whether the request failed with `error`, leaving the client idle.
pub open spec fn failed_with(error: IpcErrorView, pending: PendingView, r: Received) -> bool {
    r is Failed && r->Failed_0@ == error && pending == PendingView::Idle
}

/// Whether `r`, with `after` pending, is what `progress` leads to while
/// `before` is pending.
pub open spec fn moved_on(
    progress: ProgressView,
    before: PendingView,
    after: PendingView,
    r: Received,
) -> bool {
    match progress {
        ProgressView::Wait => r is Wait && after == before,
        ProgressView::Done(reply) => r is Done && r->Done_0@ == reply && after
            == PendingView::Idle,
        ProgressView::Failed(error) => failed_with(error, after, r),
        ProgressView::SetMute(mute) => exists|nonce: Seq<char>|
            #[trigger] is_random_uuid(nonce) && set_mute_follows(mute, nonce, after, r),
    }
}

/// Whether `r`, with `after` pending, is what a frame with the JSON `value`
/// (`None` if its body is not JSON) leads to while `before` is pending.
pub open spec fn received(
    before: PendingView,
    opcode: i32,
    value: Option<Json>,
    after: PendingView,
    r: Received,
) -> bool {
    match value {
        None => failed_with(IpcErrorView::Decode, after, r),
        Some(value) => if opcode == OPCODE_FRAME {
            moved_on(progress(before, message_of(value)), before, after, r)
        } else if opcode == OPCODE_PING {
            match json_frame(OPCODE_PONG, value) {
                Some(frame) => r is Send && r->Send_0@ == frame && after == before,
                None => failed_with(IpcErrorView::Encode, after, r),
            }
        } else if opcode == OPCODE_CLOSE {
            failed_with(IpcErrorView::Closed(json_shown(value)), after, r)
        } else {
            failed_with(IpcErrorView::UnsupportedOpcode(opcode, json_shown(value)), after, r)
        },
    }
}

/// A reply to another request is never taken for one's own: a message whose
/// nonce differs leaves every request but the handshake waiting.
pub proof fn law_foreign_replies_are_passed_over(pending: PendingView, message: MessageView)
    requires
        pending != PendingView::Handshake,
        message.nonce != awaited_nonce(pending),
    ensures
        progress(pending, message) == ProgressView::Wait,
{
}

/// An error reply fails the request it answers, whatever else it says.
pub proof fn law_error_replies_fail(pending: PendingView, message: MessageView)
    requires
        awaited_nonce(pending) is Some,
        message.nonce == awaited_nonce(pending),
        is_error(message),
    ensures
        progress(pending, message) == ProgressView::Failed(error_of(message)),
{
}

/// A toggle sets mute to the opposite of what Discord reported, and reports
/// just what it set once Discord accepts it.
pub proof fn law_toggle_flips(
    first: Seq<char>,
    second: Seq<char>,
    settings: MessageView,
    accepted: MessageView,
    mute: bool,
)
    requires
        settings.nonce == Some(first),
        !is_error(settings),
        settings.mute == Some(mute),
        accepted.nonce == Some(second),
        !is_error(accepted),
    ensures
        progress(PendingView::ToggleRead(first), settings) == ProgressView::SetMute(!mute),
        progress(PendingView::ToggleWrite(second, !mute), accepted) == ProgressView::Done(
            ReplyView::Muted(!mute),
        ),
{
}

/// A ping never disturbs the request that is waited for.
pub proof fn law_pings_are_transparent(
    before: PendingView,
    value: Json,
    after: PendingView,
    r: Received,
)
    requires
        received(before, OPCODE_PING, Some(value), after, r),
        json_frame(OPCODE_PONG, value) is Some,
    ensures
        after == before,
        r is Send,
        json_frame(OPCODE_PONG, value) == Some(r->Send_0@),
{
}

} // verus!
