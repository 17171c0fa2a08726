//! Calls about the API, the daemon, the key and the command line.

use vstd::prelude::*;
use vstd::utf8::encode_utf8;
use crate::api::{
    address_in_use, api_addr, has_live_parent, is_orphaned, listening_line, on_socket_event,
    orphan_notice, startup_lines, watchdog_notice, ApiState, ListenerStatus, ListenerWorker,
    SocketAction, SocketEvent, StatusResponse,
};
use crate::cli::wants_help;
use crate::controller::{Battery, ChargeState};
use crate::daemon::{
    already_running, handle_connection, read_log_tail, read_response, write_request,
    write_response, ControlError, DaemonMode, Response, Startup, StartupTask,
};
use crate::keyboard::RightOptionKey;
use crate::text::{decimal_text, is_blank, trimmed};

verus! {

/// The API listens where it was asked to, and else at its own address.
pub proof fn law_where_the_api_listens(configured: String, addr: String)
    ensures
        call_ensures(api_addr, (Some(configured),), addr) ==> addr@ == configured@,
        call_ensures(api_addr, (None,), addr) ==> addr@ == "127.0.0.1:3219"@,
{
}

/// What is said at the start: the line for whoever started the API comes first,
/// and every line tells the address.
pub proof fn law_what_is_said_at_the_start(addr: &str, line: String, lines: Vec<String>)
    requires
        call_ensures(listening_line, (addr,), line),
        call_ensures(startup_lines, (addr,), lines),
    ensures
        line@ == "DISCORD_MUTE_API_LISTENING="@ + addr@,
        lines@.len() == 4,
        lines@[0]@ == line@,
        lines@[1]@ == "Discord mute API listening at http://"@ + addr@,
        lines@[2]@ == "Try: curl http://"@ + addr@ + "/status"@,
        lines@[3]@ == "UI:  http://"@ + addr@ + "/"@,
{
}

/// That the address is taken is said with the address, and with how to stop who
/// has it.
pub proof fn law_taken_addresses(addr: &str, text: String)
    requires
        call_ensures(address_in_use, (addr,), text),
    ensures
        text@ == addr@ + " is already in use — another discord-mute-rs is probably still running.\n"@
            + "Stop it with `curl -X POST http://"@ + addr@
            + "/quit`, or start this one on a free port with `DISCORD_MUTE_API_ADDR=127.0.0.1:0` "@
            + "(port 0 picks any free port and prints it as `"@ + "DISCORD_MUTE_API_LISTENING="@
            + "<addr>`)."@,
{
}

/// A listener is running until it is finished, and remembers its last error.
pub proof fn law_listeners_as_they_are_seen(worker: ListenerWorker, status: ListenerStatus)
    requires
        call_ensures(ListenerWorker::new, (), worker),
        call_ensures(ListenerWorker::status, (&worker,), status),
    ensures
        status.running,
        status.last_error is None,
{
}

/// A listener shows the error that was recorded last, or none.
pub proof fn law_recorded_errors_are_seen(
    worker: &mut ListenerWorker,
    error: Option<String>,
    r: (),
    status: ListenerStatus,
)
    requires
        call_ensures(ListenerWorker::record_error, (worker, error), r),
        call_ensures(ListenerWorker::status, (&*final(worker),), status),
    ensures
        status.running == !old(worker).finished,
        status.last_error is Some <==> error is Some,
        error is Some ==> status.last_error->0@ == error->0@,
{
}

/// A listener that ended is not running, with its own error, or else the one
/// before.
pub proof fn law_finished_listeners_are_seen(
    worker: &mut ListenerWorker,
    error: Option<String>,
    r: (),
    status: ListenerStatus,
)
    requires
        call_ensures(ListenerWorker::finish_listener, (worker, error), r),
        call_ensures(ListenerWorker::status, (&*final(worker),), status),
    ensures
        !status.running,
        error is Some ==> status.last_error is Some && status.last_error->0@ == error->0@,
        error is None ==> (status.last_error is Some <==> old(worker).last_error is Some),
        error is None && old(worker).last_error is Some ==> status.last_error->0@ == old(worker).last_error->0@,
{
}

/// At first nothing is known but the address.
pub proof fn law_the_first_status(addr: String, state: ApiState)
    requires
        call_ensures(ApiState::new, (addr,), state),
    ensures
        state.bound_addr@ == addr@,
        state.last_muted is None,
        !state.controller_connected,
        state.controller_error is None,
        state.controller_battery is None,
{
}

/// A press that went through is the mute state from then on and clears the
/// listener's error; one that failed is its error, and changes no mute state.
/// Neither says anything of the controller.
pub proof fn law_presses_are_noted(
    state: &mut ApiState,
    worker: &mut ListenerWorker,
    outcome: Result<bool, String>,
    r: (),
)
    requires
        call_ensures(ApiState::on_press, (state, worker, outcome), r),
    ensures
        outcome is Ok ==> final(state).last_muted == Some(outcome->Ok_0) && final(worker).last_error is None,
        outcome is Err ==> final(state).last_muted == old(state).last_muted && final(worker).last_error is Some && final(worker).last_error->0@ == outcome->Err_0@,
        final(worker).finished == old(worker).finished,
        final(state).bound_addr@ == old(state).bound_addr@,
        final(state).controller_connected == old(state).controller_connected,
        final(state).controller_battery == old(state).controller_battery,
        final(state).controller_error is Some <==> old(state).controller_error is Some,
{
}

/// A mute state that is noted is the last one known, and nothing else changes.
pub proof fn law_mute_states_are_noted(state: &mut ApiState, muted: bool, r: ())
    requires
        call_ensures(ApiState::set_muted, (state, muted), r),
    ensures
        final(state).last_muted == Some(muted),
        final(state).bound_addr@ == old(state).bound_addr@,
        final(state).controller_connected == old(state).controller_connected,
        final(state).controller_battery == old(state).controller_battery,
        final(state).controller_error is Some <==> old(state).controller_error is Some,
{
}

/// A controller that connects is connected, without an error, and is given the
/// mute state that is known; its battery and the address stay as they are.
pub proof fn law_connected_controllers(state: &mut ApiState, known: Option<bool>)
    requires
        call_ensures(ApiState::on_connected, (state,), known),
    ensures
        final(state).controller_connected,
        final(state).controller_error is None,
        known == old(state).last_muted,
        final(state).last_muted == old(state).last_muted,
        final(state).controller_battery == old(state).controller_battery,
        final(state).bound_addr@ == old(state).bound_addr@,
{
}

/// A battery reading is the last one known, and nothing else changes.
pub proof fn law_battery_readings(state: &mut ApiState, battery: Battery, r: ())
    requires
        call_ensures(ApiState::on_battery, (state, battery), r),
    ensures
        final(state).controller_battery == Some(battery),
        final(state).controller_connected == old(state).controller_connected,
        final(state).last_muted == old(state).last_muted,
        final(state).bound_addr@ == old(state).bound_addr@,
        final(state).controller_error is Some <==> old(state).controller_error is Some,
{
}

/// A controller that goes away takes its battery reading with it, and leaves the
/// mute state behind.
pub proof fn law_controllers_that_go_away(state: &mut ApiState, r: ())
    requires
        call_ensures(ApiState::on_disconnected, (state,), r),
    ensures
        !final(state).controller_connected,
        final(state).controller_battery is None,
        final(state).last_muted == old(state).last_muted,
        final(state).bound_addr@ == old(state).bound_addr@,
        final(state).controller_error is Some <==> old(state).controller_error is Some,
{
}

/// Why there is no controller is kept, and is news only if it is another reason
/// than before.
pub proof fn law_reasons_for_waiting(state: &mut ApiState, reason: &str, news: bool)
    requires
        call_ensures(ApiState::on_waiting, (state, reason), news),
    ensures
        final(state).controller_error is Some,
        final(state).controller_error->0@ == reason@,
        news <==> old(state).controller_error is None || old(state).controller_error->0@ != reason@,
        final(state).controller_connected == old(state).controller_connected,
        final(state).controller_battery == old(state).controller_battery,
        final(state).last_muted == old(state).last_muted,
        final(state).bound_addr@ == old(state).bound_addr@,
{
}

/// Without a listener nothing is said of a controller; the mute state stays.
pub proof fn law_without_a_listener(state: &mut ApiState, r: ())
    requires
        call_ensures(ApiState::on_listener_gone, (state,), r),
    ensures
        !final(state).controller_connected,
        final(state).controller_error is None,
        final(state).controller_battery is None,
        final(state).last_muted == old(state).last_muted,
        final(state).bound_addr@ == old(state).bound_addr@,
{
}

/// The status says just what is known.
pub proof fn law_the_status_says_what_is_known(
    state: &ApiState,
    listener: Option<&ListenerWorker>,
    pid: u32,
    uptime: u64,
    status: StatusResponse,
)
    requires
        call_ensures(ApiState::build_status, (state, listener, pid, uptime), status),
    ensures
        status.ok,
        status.pid == pid,
        status.uptime_seconds == uptime,
        status.api@ == state.bound_addr@,
        status.muted == state.last_muted,
        status.controller_connected == state.controller_connected,
        status.controller_error is Some <==> state.controller_error is Some,
        state.controller_error is Some ==> status.controller_error->0@
            == state.controller_error->0@,
        status.battery is Some <==> state.controller_battery is Some,
        state.controller_battery matches Some(battery) ==> (status.battery->0).percent
            == battery.percent && (status.battery->0).state@ == match battery.state {
            ChargeState::Discharging => "discharging"@,
            ChargeState::Charging => "charging"@,
            ChargeState::Full => "full"@,
            ChargeState::Unknown => "unknown"@,
        },
        status.listener is Some <==> listener is Some,
        listener matches Some(worker) ==> (status.listener->0).running == !worker.finished && (
        (status.listener->0).last_error is Some <==> worker.last_error is Some),
        listener is Some && (listener->0).last_error is Some ==> (
        status.listener->0).last_error->0@ == (listener->0).last_error->0@,
{
}

/// A socket is sent every snapshot and an answer to every ping, as they came; it
/// is closed once there is nothing more to come from either side, and only then.
pub proof fn law_sockets(event: SocketEvent, text: String, bytes: Vec<u8>, action: SocketAction)
    requires
        call_ensures(on_socket_event, (event,), action),
    ensures
        event == SocketEvent::Snapshot(text) ==> action == SocketAction::SendText(text),
        event == SocketEvent::Ping(bytes) ==> action == SocketAction::SendPong(bytes),
        action is Close <==> event is NoMoreSnapshots || event is Gone,
        action is Wait <==> event is Lagged || event is Other,
{
}

/// A parent is alive unless it is process 0 or 1, and is gone once the parent is
/// another one or none.
pub proof fn law_parents(original: u32, parent: u32, alive: bool, orphaned: bool)
    requires
        call_ensures(has_live_parent, (original,), alive),
        call_ensures(is_orphaned, (original, parent), orphaned),
    ensures
        !alive <==> original == 0 || original == 1,
        parent != original ==> orphaned,
        parent == original ==> orphaned == !alive,
{
}

/// What is said of the parent names it.
pub proof fn law_what_is_said_of_the_parent(parent: u32, watched: String, gone: String)
    requires
        call_ensures(watchdog_notice, (parent,), watched),
        call_ensures(orphan_notice, (parent,), gone),
    ensures
        parent > 1 ==> watched@ == "Watching parent pid "@ + decimal_text(parent as nat)
            + "; will exit if it goes away."@,
        parent <= 1 ==> watched@
            == "Started without a live parent; skipping the orphan watchdog."@,
        gone@ == "Parent pid "@ + decimal_text(parent as nat) + " is gone; shutting down."@,
{
}

/// What the modes and their commands are called.
pub proof fn law_modes(mode: DaemonMode, label: &'static str, command: &'static str)
    requires
        call_ensures(DaemonMode::label, (mode,), label),
        call_ensures(DaemonMode::serve_command, (mode,), command),
    ensures
        mode == DaemonMode::Mute ==> label@ == "mute"@ && command@ == "serve"@,
        mode == DaemonMode::PushToTalk ==> label@ == "ptt"@ && command@ == "serve-ptt"@,
{
}

/// The status is told to who asks for it, and to nobody else; whoever asks to
/// quit is told so, and it is done; anything else is not found.
pub proof fn law_the_daemon_answers(
    request: &[u8],
    mode: DaemonMode,
    label: &'static str,
    pid: u32,
    uptime: u64,
    addr: &str,
    r: Response,
)
    requires
        call_ensures(handle_connection, (request, mode, pid, uptime, addr), r),
        call_ensures(DaemonMode::label, (mode,), label),
    ensures
        ({
            let status = encode_utf8("GET /status "@).is_prefix_of(request@);
            let quit = encode_utf8("POST /quit "@).is_prefix_of(request@);
            let body = "{\"ok\":true,\"mode\":\""@ + label@ + "\",\"pid\":"@ + decimal_text(
                pid as nat,
            ) + ",\"uptimeSeconds\":"@ + decimal_text(uptime as nat) + ",\"api\":\""@ + addr@
                + "\"}\n"@;
            &&& status ==> !r.quit && r.text@ == crate::daemon::response_of(200, "OK"@, body)
            &&& !status && quit ==> r.quit && r.text@ == crate::daemon::response_of(
                200,
                "OK"@,
                "{\"ok\":true,\"message\":\"quitting\"}\n"@,
            )
            &&& !status && !quit ==> !r.quit && r.text@ == crate::daemon::response_of(
                404,
                "Not Found"@,
                "{\"ok\":false,\"error\":\"not found\"}\n"@,
            )
        }),
{
}

/// A response is a status line, the kind and the length of its body, and then
/// the body.
pub proof fn law_responses_line_by_line(status: u16, reason: &str, body: &str, text: String)
    requires
        call_ensures(write_response, (status, reason, body), text),
    ensures
        text@ == "HTTP/1.1 "@ + decimal_text(status as nat) + " "@ + reason@ + "\r\n"@
            + "Content-Type: application/json; charset=utf-8"@ + "\r\n"@ + "Content-Length: "@
            + decimal_text(encode_utf8(body@).len()) + "\r\n"@ + "Connection: close"@
            + "\r\n\r\n"@ + body@,
{
}

/// A request is its method and path, the address, and no body.
pub proof fn law_requests_line_by_line(method: &str, path: &str, addr: &str, text: String)
    requires
        call_ensures(write_request, (method, path, addr), text),
    ensures
        text@ == method@ + " "@ + path@ + " HTTP/1.1\r\nHost: "@ + addr@
            + "\r\nConnection: close\r\nContent-Length: 0\r\n\r\n"@,
{
}

/// What is read of a response is what was written into it: its body, without
/// white space around it if the status is 200, and as the error it is otherwise.
pub proof fn law_responses_are_read_as_written(
    status: u16,
    reason: &str,
    body: &str,
    text: String,
    r: Result<String, ControlError>,
)
    requires
        crate::daemon::laws::has_no_return(reason@),
        call_ensures(write_response, (status, reason, body), text),
        exists|response: &str| response@ == text@ && #[trigger] call_ensures(
            read_response,
            (response,),
            r,
        ),
    ensures
        status == 200 ==> r is Ok && r->Ok_0@ == trimmed(body@),
        status != 200 ==> r is Err && r->Err_0 is Refused && r->Err_0->Refused_0@ == body@,
{
    crate::daemon::laws::law_responses_are_understood(
        status as nat,
        reason@,
        body@,
        crate::daemon::outcome_view(r),
    );
}

/// A response without an empty line is of no use, and is told as it is.
pub proof fn law_responses_without_an_empty_line(
    response: &str,
    r: Result<String, ControlError>,
    text: String,
)
    requires
        forall|i: int| !crate::text::occurs_at(response@, "\r\n\r\n"@, i),
        call_ensures(read_response, (response,), r),
    ensures
        r is Err,
        r->Err_0 is Invalid,
        r->Err_0->Invalid_0@ == response@,
        call_ensures(ControlError::message, (&r->Err_0,), text) ==> text@
            == "invalid control API response: "@ + response@,
{
}

/// An error of the control API reads as its body.
pub proof fn law_refusals_read(error: &ControlError, body: String, text: String)
    requires
        *error == ControlError::Refused(body),
        call_ensures(ControlError::message, (error,), text),
    ensures
        text@ == "control API returned an error:\n"@ + body@,
{
}

/// The daemon is asked for five seconds, at least once every 150 milliseconds,
/// and given up on after that.
pub proof fn law_the_wait_for_the_daemon(
    start: u64,
    now: u64,
    wait: Startup,
    task: StartupTask,
)
    requires
        call_ensures(Startup::new, (start,), wait),
        call_ensures(Startup::next, (&wait, now), task),
        start + 5_000_000_000 <= u64::MAX,
    ensures
        wait.last_error is None,
        now < start + 5_000_000_000 <==> task == StartupTask::Ask,
        now >= start + 5_000_000_000 <==> task == StartupTask::GiveUp,
{
}

/// Not being ready does not put the end off, and the last reason is told when
/// it comes.
pub proof fn law_daemons_that_are_not_ready(
    wait: &mut Startup,
    error: String,
    pause: u64,
    log_path: &str,
    log_tail: &str,
    text: String,
)
    requires
        call_ensures(Startup::not_ready, (wait, error), pause),
        call_ensures(Startup::failure, (&*final(wait), log_path, log_tail), text),
    ensures
        pause == 150_000_000,
        final(wait).deadline == old(wait).deadline,
        text@ == "daemon did not become ready within 5 seconds ("@ + error@ + ").\nLog: "@
            + log_path@ + "\n\n"@ + log_tail@,
{
}

/// What is shown of a log are its last forty lines, or all if there are no more;
/// a log with nothing but white space in those is said to be empty.
pub proof fn law_the_end_of_the_log(log: &str, text: String)
    requires
        call_ensures(read_log_tail, (log,), text),
    ensures
        ({
            let all = crate::text::lines_of(log@);
            let shown = crate::text::joined(
                if all.len() <= 40 {
                    all
                } else {
                    all.subrange(all.len() - 40, all.len() as int)
                },
                "\n"@,
            );
            &&& is_blank(shown) ==> text@ == "(daemon log is empty)"@
            &&& !is_blank(shown) ==> text@ == shown
        }),
{
    let all = crate::text::lines_of(log@);
    if all.len() > 40 {
        assert(all.skip(all.len() - 40) =~= all.subrange(all.len() - 40, all.len() as int));
    }
    crate::text::law_only_white_space_is_blank(crate::daemon::last_lines(log@));
}

/// That the daemon is running already is said with its status.
pub proof fn law_daemons_that_are_running(status: &str, text: String)
    requires
        call_ensures(already_running, (status,), text),
    ensures
        text@ == "discord-mute-rs already appears to be running:\n"@ + status@,
{
}

/// The key is up at first. A press of it posts that it went down and a release
/// that it went up, unless it is so already.
pub proof fn law_the_key(
    key: &RightOptionKey,
    first: RightOptionKey,
    pressed: Option<bool>,
    released: Option<bool>,
)
    requires
        call_ensures(RightOptionKey::new, (), first),
        call_ensures(RightOptionKey::press, (key,), pressed),
        call_ensures(RightOptionKey::release, (key,), released),
    ensures
        !first.held,
        key.held ==> pressed is None && released == Some(false),
        !key.held ==> pressed == Some(true) && released is None,
{
}

/// A post that goes through leaves the key as it says, and one that fails as it
/// was.
pub proof fn law_posts(key: &mut RightOptionKey, key_down: bool, ok: bool, r: ())
    requires
        call_ensures(RightOptionKey::posted, (key, key_down, ok), r),
    ensures
        ok ==> final(key).held == key_down,
        !ok ==> final(key).held == old(key).held,
{
}

/// Help is asked for by `-h`, `--help` or `help`, wherever it stands, and by
/// nothing else.
pub proof fn law_help(args: &Vec<String>, wanted: bool, i: int)
    requires
        call_ensures(wants_help, (args,), wanted),
        0 <= i < args@.len(),
    ensures
        args@[i]@ == "-h"@ || args@[i]@ == "--help"@ || args@[i]@ == "help"@ ==> wanted,
        wanted ==> exists|j: int|
            0 <= j < args@.len() && ((#[trigger] args@[j])@ == "-h"@ || args@[j]@ == "--help"@
                || args@[j]@ == "help"@),
{
    let all = crate::text::texts(args@);
    assert(all.len() == args@.len());
    assert(all[i] == args@[i]@);
    assert(wanted == crate::cli::asks_for_help(all));
    if wanted {
        let j = choose|j: int| 0 <= j < all.len() && crate::cli::is_help(#[trigger] all[j]);
        assert(all[j] == args@[j]@);
    }
}

/// A daemon that never said why is said to have given no status; a wait that would
/// go past the end of the clock ends there.
pub proof fn law_silent_daemons(
    wait: &Startup,
    late: Startup,
    start: u64,
    log_path: &str,
    log_tail: &str,
    text: String,
)
    requires
        wait.last_error is None,
        call_ensures(Startup::failure, (wait, log_path, log_tail), text),
        start + 5_000_000_000 > u64::MAX,
        call_ensures(Startup::new, (start,), late),
    ensures
        text@ == "daemon did not become ready within 5 seconds ("@ + "no status response"@
            + ").\nLog: "@ + log_path@ + "\n\n"@ + log_tail@,
        late.deadline == u64::MAX,
{
}

} // verus!
