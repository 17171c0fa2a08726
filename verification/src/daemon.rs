//! The detached daemon: its control API, and how it is started and asked.

pub mod laws;

use vstd::prelude::*;
use vstd::utf8::encode_utf8;
use crate::controller::output::MILLISECOND;
use crate::controller::step::after;
use crate::text::{
    chars_of, decimal, decimal_text, find, join, join_all, joined, lines, lines_of,
    occurs_at, opt_text, starts_with, texts, trim, trimmed,
};
use crate::wire::begins_with;

verus! {

/// What the mic button does.
#[derive(Debug, Clone, Copy, PartialEq, Eq, Structural)]
pub enum DaemonMode {
    Mute,
    PushToTalk,
}

impl DaemonMode {
    /// What the mode is called.
    pub open spec fn spec_label(self) -> Seq<char> {
        match self {
            DaemonMode::Mute => "mute"@,
            DaemonMode::PushToTalk => "ptt"@,
        }
    }

    /// What the mode is called.
    pub fn label(self) -> (r: &'static str)
        ensures
            r@ == self.spec_label(),
    {
        match self {
            DaemonMode::Mute => "mute",
            DaemonMode::PushToTalk => "ptt",
        }
    }

    /// The command by which the daemon is run in this mode.
    pub fn serve_command(self) -> (r: &'static str)
        ensures
            r@ == match self {
                DaemonMode::Mute => "serve"@,
                DaemonMode::PushToTalk => "serve-ptt"@,
            },
    {
        match self {
            DaemonMode::Mute => "serve",
            DaemonMode::PushToTalk => "serve-ptt",
        }
    }
}

/// The body that a status request is answered with.
pub open spec fn status_body_of(
    mode: DaemonMode,
    pid: u32,
    uptime_seconds: u64,
    addr: Seq<char>,
) -> Seq<char> {
    "{\"ok\":true,\"mode\":\""@ + mode.spec_label() + "\",\"pid\":"@ + decimal_text(pid as nat)
        + ",\"uptimeSeconds\":"@ + decimal_text(uptime_seconds as nat) + ",\"api\":\""@ + addr
        + "\"}\n"@
}

fn status_body(mode: DaemonMode, pid: u32, uptime_seconds: u64, addr: &str) -> (r: String)
    ensures
        r@ == status_body_of(mode, pid, uptime_seconds, addr@),
{
    let mut out = join("{\"ok\":true,\"mode\":\"", mode.label());
    out.append("\",\"pid\":");
    out.append(decimal(pid as u64).as_str());
    out.append(",\"uptimeSeconds\":");
    out.append(decimal(uptime_seconds).as_str());
    out.append(",\"api\":\"");
    out.append(addr);
    out.append("\"}\n");
    out
}

/// What a response begins with, up to the empty line before its body.
pub open spec fn response_head(status: nat, reason: Seq<char>, body: Seq<char>) -> Seq<char> {
    "HTTP/1.1 "@ + decimal_text(status) + " "@ + reason + "\r\n"@
        + "Content-Type: application/json; charset=utf-8"@ + "\r\n"@ + "Content-Length: "@
        + decimal_text(encode_utf8(body).len()) + "\r\n"@ + "Connection: close"@
}

/// A whole response.
pub open spec fn response_of(status: nat, reason: Seq<char>, body: Seq<char>) -> Seq<char> {
    response_head(status, reason, body) + "\r\n\r\n"@ + body
}

/// Writes a response.
pub fn write_response(status: u16, reason: &str, body: &str) -> (r: String)
    ensures
        r@ == response_of(status as nat, reason@, body@),
{
    let mut out = join("HTTP/1.1 ", decimal(status as u64).as_str());
    out.append(" ");
    out.append(reason);
    out.append("\r\n");
    out.append("Content-Type: application/json; charset=utf-8");
    out.append("\r\n");
    out.append("Content-Length: ");
    out.append(decimal(body.as_bytes().len() as u64).as_str());
    out.append("\r\n");
    out.append("Connection: close");
    out.append("\r\n\r\n");
    out.append(body);
    out
}

/// What the control API makes of a request.
#[derive(Debug)]
pub struct Response {
    pub text: String,
    /// Whether the daemon is to end once the response is out.
    pub quit: bool,
}

/// Whether a request asks for the status.
pub open spec fn asks_for_status(request: Seq<u8>) -> bool {
    encode_utf8("GET /status "@).is_prefix_of(request)
}

/// Whether a request asks the daemon to quit.
pub open spec fn asks_to_quit(request: Seq<u8>) -> bool {
    encode_utf8("POST /quit "@).is_prefix_of(request)
}

/// The response to a request.
pub open spec fn answer_to(
    request: Seq<u8>,
    mode: DaemonMode,
    pid: u32,
    uptime_seconds: u64,
    addr: Seq<char>,
) -> Seq<char> {
    if asks_for_status(request) {
        response_of(200, "OK"@, status_body_of(mode, pid, uptime_seconds, addr))
    } else if asks_to_quit(request) {
        response_of(200, "OK"@, "{\"ok\":true,\"message\":\"quitting\"}\n"@)
    } else {
        response_of(404, "Not Found"@, "{\"ok\":false,\"error\":\"not found\"}\n"@)
    }
}

/// Answers a request to the control API, as far as it was read.
pub fn handle_connection(
    request: &[u8],
    mode: DaemonMode,
    pid: u32,
    uptime_seconds: u64,
    addr: &str,
) -> (r: Response)
    ensures
        r.text@ == answer_to(request@, mode, pid, uptime_seconds, addr@),
        r.quit == (!asks_for_status(request@) && asks_to_quit(request@)),
{
    if begins_with(request, "GET /status ".as_bytes()) {
        let body = status_body(mode, pid, uptime_seconds, addr);
        Response { text: write_response(200, "OK", body.as_str()), quit: false }
    } else if begins_with(request, "POST /quit ".as_bytes()) {
        let body = "{\"ok\":true,\"message\":\"quitting\"}\n";
        Response { text: write_response(200, "OK", body), quit: true }
    } else {
        let body = "{\"ok\":false,\"error\":\"not found\"}\n";
        Response { text: write_response(404, "Not Found", body), quit: false }
    }
}

/// A request to the control API.
pub open spec fn request_of(method: Seq<char>, path: Seq<char>, addr: Seq<char>) -> Seq<char> {
    method + " "@ + path + " HTTP/1.1\r\nHost: "@ + addr
        + "\r\nConnection: close\r\nContent-Length: 0\r\n\r\n"@
}

/// Writes a request to the control API.
pub fn write_request(method: &str, path: &str, addr: &str) -> (r: String)
    ensures
        r@ == request_of(method@, path@, addr@),
{
    let mut out = join(method, " ");
    out.append(path);
    out.append(" HTTP/1.1\r\nHost: ");
    out.append(addr);
    out.append("\r\nConnection: close\r\nContent-Length: 0\r\n\r\n");
    out
}

/// Why a response is of no use.
#[derive(Debug)]
pub enum ControlError {
    /// It has no empty line.
    Invalid(String),
    /// It reports an error, with this body.
    Refused(String),
}

/// A `ControlError` as contracts speak of it.
pub enum ControlErrorView {
    Invalid(Seq<char>),
    Refused(Seq<char>),
}

impl View for ControlError {
    type V = ControlErrorView;

    open spec fn view(&self) -> ControlErrorView {
        match self {
            ControlError::Invalid(response) => ControlErrorView::Invalid(response@),
            ControlError::Refused(body) => ControlErrorView::Refused(body@),
        }
    }
}

impl ControlError {
    /// How the error reads.
    pub fn message(&self) -> (r: String)
        ensures
            r@ == match self@ {
                ControlErrorView::Invalid(response) => "invalid control API response: "@
                    + response,
                ControlErrorView::Refused(body) => "control API returned an error:\n"@ + body,
            },
    {
        match self {
            ControlError::Invalid(response) => join(
                "invalid control API response: ",
                response.as_str(),
            ),
            ControlError::Refused(body) => join("control API returned an error:\n", body.as_str()),
        }
    }
}

/// Whether the first empty line of `response` stands at `at`.
pub open spec fn splits_at(response: Seq<char>, at: int) -> bool {
    &&& occurs_at(response, "\r\n\r\n"@, at)
    &&& forall|j: int| j < at ==> !occurs_at(response, "\r\n\r\n"@, j)
}

/// Whether `r` is what `response` says: without an empty line it says nothing;
/// what comes before the first one tells whether it went well, and what comes
/// after it is the body.
pub open spec fn says(response: Seq<char>, r: Result<Seq<char>, ControlErrorView>) -> bool {
    ||| (r == Err::<Seq<char>, ControlErrorView>(ControlErrorView::Invalid(response)) && forall|
        j: int,
    |
        !occurs_at(response, "\r\n\r\n"@, j))
    ||| exists|at: int|
        {
            let body = response.skip(at + "\r\n\r\n"@.len());
            #[trigger] splits_at(response, at) && r == if "HTTP/1.1 200 "@.is_prefix_of(
                response.take(at),
            ) {
                Ok::<Seq<char>, ControlErrorView>(trimmed(body))
            } else {
                Err(ControlErrorView::Refused(body))
            }
        }
}

/// A response's outcome as contracts speak of it.
pub open spec fn outcome_view(r: Result<String, ControlError>) -> Result<
    Seq<char>,
    ControlErrorView,
> {
    match r {
        Ok(body) => Ok(body@),
        Err(e) => Err(e@),
    }
}

/// Reads a response of the control API.
pub fn read_response(response: &str) -> (r: Result<String, ControlError>)
    ensures
        says(response@, outcome_view(r)),
{
    let chars = chars_of(response);
    let blank = chars_of("\r\n\r\n");
    let len: usize = chars.len();
    match find(&chars, &blank) {
        None => Err(ControlError::Invalid(response.to_owned())),
        Some(at) => {
            let head = chars_of(response.substring_char(0, at));
            let body = response.substring_char(at + blank.len(), len);
            let ok = starts_with(&head, &chars_of("HTTP/1.1 200 "));
            let r = if ok {
                Ok(trim(body))
            } else {
                Err(ControlError::Refused(body.to_owned()))
            };
            proof {
                assert(splits_at(response@, at as int));
                assert(head@ =~= response@.take(at as int));
                assert(body@ =~= response@.skip(at + "\r\n\r\n"@.len()));
            }
            r
        },
    }
}

/// How long to wait for the daemon to become ready.
pub const READY_TIMEOUT: u64 = 5_000 * MILLISECOND;

/// How long to hold still before the daemon is asked again.
pub const READY_PAUSE: u64 = 150 * MILLISECOND;

/// The wait for the daemon to become ready.
#[derive(Debug)]
pub struct Startup {
    /// When to give up.
    pub deadline: u64,
    /// Why the daemon was not ready when it was asked last.
    pub last_error: Option<String>,
}

/// What to do next in a wait.
#[derive(Debug, Clone, Copy, PartialEq, Eq, Structural)]
pub enum StartupTask {
    /// Ask the daemon for its status.
    Ask,
    GiveUp,
}

impl Startup {
    /// Starts to wait at the time `now`.
    pub fn new(now: u64) -> (r: Startup)
        ensures
            r.deadline == after(now, READY_TIMEOUT),
            r.last_error is None,
    {
        Startup { deadline: now.saturating_add(READY_TIMEOUT), last_error: None }
    }

    /// What to do at the time `now`.
    pub fn next(&self, now: u64) -> (r: StartupTask)
        ensures
            r == if now < self.deadline {
                StartupTask::Ask
            } else {
                StartupTask::GiveUp
            },
    {
        if now < self.deadline {
            StartupTask::Ask
        } else {
            StartupTask::GiveUp
        }
    }

    /// Takes in that the daemon is not ready. Returns how long to hold still.
    pub fn not_ready(&mut self, error: String) -> (r: u64)
        ensures
            final(self).deadline == old(self).deadline,
            final(self).last_error == Some(error),
            r == READY_PAUSE,
    {
        self.last_error = Some(error);
        READY_PAUSE
    }

    /// How it reads that the daemon did not become ready.
    pub fn failure(&self, log_path: &str, log_tail: &str) -> (r: String)
        ensures
            r@ == "daemon did not become ready within 5 seconds ("@ + match opt_text(
                self.last_error,
            ) {
                Some(e) => e,
                None => "no status response"@,
            } + ").\nLog: "@ + log_path@ + "\n\n"@ + log_tail@,
    {
        let detail: &str = match &self.last_error {
            Some(e) => e.as_str(),
            None => "no status response",
        };
        let mut out = join("daemon did not become ready within 5 seconds (", detail);
        out.append(").\nLog: ");
        out.append(log_path);
        out.append("\n\n");
        out.append(log_tail);
        out
    }
}

/// How many lines of the log are shown.
pub const LOG_TAIL_LINES: usize = 40;

/// The last lines of a log.
pub open spec fn last_lines(log: Seq<char>) -> Seq<char> {
    let all = lines_of(log);
    joined(
        if all.len() > LOG_TAIL_LINES {
            all.skip(all.len() - LOG_TAIL_LINES)
        } else {
            all
        },
        "\n"@,
    )
}

/// The last lines of a log, or a note that there are none worth showing.
pub open spec fn log_tail_of(log: Seq<char>) -> Seq<char> {
    if trimmed(last_lines(log)).len() == 0 {
        "(daemon log is empty)"@
    } else {
        last_lines(log)
    }
}

/// Takes the last lines of a log.
pub fn read_log_tail(log: &str) -> (r: String)
    ensures
        r@ == log_tail_of(log@),
{
    let all = lines(log);
    let from: usize = if all.len() > LOG_TAIL_LINES {
        all.len() - LOG_TAIL_LINES
    } else {
        0
    };
    assert(texts(all@).skip(0) =~= texts(all@));
    let tail = join_all(&all, from, "\n");
    if trim(tail.as_str()).as_str().is_empty() {
        "(daemon log is empty)".to_owned()
    } else {
        tail
    }
}

/// How it reads that the daemon is running already.
pub fn already_running(status: &str) -> (r: String)
    ensures
        r@ == "discord-mute-rs already appears to be running:\n"@ + status@,
{
    join("discord-mute-rs already appears to be running:\n", status)
}

} // verus!
