//! What the web API knows and says: the state it shows, and the small
//! decisions around it.

use vstd::prelude::*;
use crate::controller::{Battery, ChargeState};
use crate::text::{decimal, decimal_text, join, opt_text, same_text};

verus! {

/// Where the API listens if nothing else is asked for.
pub const DEFAULT_API_ADDR: &'static str = "127.0.0.1:3219";

/// Prefix of the handshake line a supervising process parses out of stdout to
/// learn which address was actually bound, which it cannot know when it asks
/// for an ephemeral port.
pub const LISTENING_PREFIX: &'static str = "DISCORD_MUTE_API_LISTENING=";

/// The text of the address to listen at, by the value of
/// `DISCORD_MUTE_API_ADDR`.
pub open spec fn api_addr_of(configured: Option<Seq<char>>) -> Seq<char> {
    match configured {
        Some(addr) => addr,
        None => DEFAULT_API_ADDR@,
    }
}

/// The address to listen at, by the value of `DISCORD_MUTE_API_ADDR`.
pub fn api_addr(configured: Option<String>) -> (r: String)
    ensures
        r@ == api_addr_of(opt_text(configured)),
{
    match configured {
        Some(addr) => addr,
        None => DEFAULT_API_ADDR.to_owned(),
    }
}

/// The handshake line for an address that was bound.
pub open spec fn listening_line_of(addr: Seq<char>) -> Seq<char> {
    LISTENING_PREFIX@ + addr
}

/// The handshake line for an address that was bound.
pub fn listening_line(addr: &str) -> (r: String)
    ensures
        r@ == listening_line_of(addr@),
{
    join(LISTENING_PREFIX, addr)
}

/// What is said once the API listens, line by line: the handshake line before
/// all else, then where to look.
pub fn startup_lines(addr: &str) -> (r: Vec<String>)
    ensures
        r@.len() == 4,
        r@[0]@ == listening_line_of(addr@),
        r@[1]@ == "Discord mute API listening at http://"@ + addr@,
        r@[2]@ == "Try: curl http://"@ + addr@ + "/status"@,
        r@[3]@ == "UI:  http://"@ + addr@ + "/"@,
{
    let mut status = join("Try: curl http://", addr);
    status.append("/status");
    let mut ui = join("UI:  http://", addr);
    ui.append("/");
    let mut lines: Vec<String> = Vec::new();
    lines.push(listening_line(addr));
    lines.push(join("Discord mute API listening at http://", addr));
    lines.push(status);
    lines.push(ui);
    lines
}

/// How it reads that the address is taken: what probably happened, and what to
/// do about it.
pub open spec fn address_in_use_text(addr: Seq<char>) -> Seq<char> {
    addr + " is already in use — another discord-mute-rs is probably still running.\n"@
        + "Stop it with `curl -X POST http://"@ + addr
        + "/quit`, or start this one on a free port with `DISCORD_MUTE_API_ADDR=127.0.0.1:0` "@
        + "(port 0 picks any free port and prints it as `"@ + LISTENING_PREFIX@ + "<addr>`)."@
}

/// Says that the address is taken.
pub fn address_in_use(addr: &str) -> (r: String)
    ensures
        r@ == address_in_use_text(addr@),
{
    let mut out = join(
        addr,
        " is already in use — another discord-mute-rs is probably still running.\n",
    );
    out.append("Stop it with `curl -X POST http://");
    out.append(addr);
    out.append("/quit`, or start this one on a free port with `DISCORD_MUTE_API_ADDR=127.0.0.1:0` ");
    out.append("(port 0 picks any free port and prints it as `");
    out.append(LISTENING_PREFIX);
    out.append("<addr>`).");
    out
}

/// How a listener is doing.
#[derive(Debug)]
pub struct ListenerStatus {
    pub running: bool,
    pub last_error: Option<String>,
}

/// What is known of a listener.
#[derive(Debug)]
pub struct ListenerWorker {
    pub finished: bool,
    pub last_error: Option<String>,
}

/// A `ListenerWorker` as contracts speak of it.
pub struct ListenerWorkerView {
    pub finished: bool,
    pub last_error: Option<Seq<char>>,
}

impl View for ListenerWorker {
    type V = ListenerWorkerView;

    open spec fn view(&self) -> ListenerWorkerView {
        ListenerWorkerView { finished: self.finished, last_error: opt_text(self.last_error) }
    }
}

fn copied(text: &Option<String>) -> (r: Option<String>)
    ensures
        opt_text(r) == opt_text(*text),
{
    match text {
        Some(text) => Some(text.clone()),
        None => None,
    }
}

impl ListenerWorker {
    /// A listener that was just started.
    pub fn new() -> (r: ListenerWorker)
        ensures
            r@ == (ListenerWorkerView { finished: false, last_error: None }),
    {
        ListenerWorker { finished: false, last_error: None }
    }

    /// Notes what went wrong last, or that nothing is wrong any more.
    pub fn record_error(&mut self, error: Option<String>)
        ensures
            final(self)@ == (ListenerWorkerView { last_error: opt_text(error), ..old(self)@ }),
    {
        self.last_error = error;
    }

    /// Notes that the listener has ended, and with what error if it failed. An
    /// earlier error stays on record otherwise.
    pub fn finish_listener(&mut self, error: Option<String>)
        ensures
            final(self)@ == (ListenerWorkerView {
                finished: true,
                last_error: if error is Some {
                    opt_text(error)
                } else {
                    old(self)@.last_error
                },
            }),
    {
        if error.is_some() {
            self.last_error = error;
        }
        self.finished = true;
    }

    /// How the listener is doing.
    pub fn status(&self) -> (r: ListenerStatus)
        ensures
            r.running == !self.finished,
            opt_text(r.last_error) == self@.last_error,
    {
        ListenerStatus { running: !self.finished, last_error: copied(&self.last_error) }
    }
}

/// A battery reading in the form in which it is shown.
#[derive(Debug, Clone, Copy)]
pub struct BatteryStatus {
    /// Charge level 0-100, in the controller's own ~10% steps.
    pub percent: u8,
    /// "discharging", "charging", "full" or "unknown".
    pub state: &'static str,
}

impl From<Battery> for BatteryStatus {
    fn from(battery: Battery) -> (r: BatteryStatus) {
        BatteryStatus {
            percent: battery.percent,
            state: match battery.state {
                ChargeState::Discharging => "discharging",
                ChargeState::Charging => "charging",
                ChargeState::Full => "full",
                ChargeState::Unknown => "unknown",
            },
        }
    }
}

impl vstd::std_specs::convert::FromSpecImpl<Battery> for BatteryStatus {
    open spec fn obeys_from_spec() -> bool {
        true
    }

    open spec fn from_spec(battery: Battery) -> BatteryStatus {
        BatteryStatus {
            percent: battery.percent,
            state: match battery.state {
                ChargeState::Discharging => "discharging",
                ChargeState::Charging => "charging",
                ChargeState::Full => "full",
                ChargeState::Unknown => "unknown",
            },
        }
    }
}

/// The state that the API shows.
#[derive(Debug)]
pub struct ApiState {
    /// The address actually bound, which is not necessarily the one requested:
    /// asking for port 0 yields an ephemeral one.
    pub bound_addr: String,
    /// Last known mute state, however it came about.
    pub last_muted: Option<bool>,
    /// Whether the running listener currently holds an open controller. A
    /// listener can be running while this is false: it waits for a controller
    /// to appear rather than failing.
    pub controller_connected: bool,
    /// Why the listener cannot open a controller, when it cannot.
    pub controller_error: Option<String>,
    /// Last battery reading from the connected controller, or `None` when no
    /// controller is attached or it hasn't sent a full report yet.
    pub controller_battery: Option<Battery>,
}

/// An `ApiState` as contracts speak of it.
pub struct ApiStateView {
    pub bound_addr: Seq<char>,
    pub last_muted: Option<bool>,
    pub controller_connected: bool,
    pub controller_error: Option<Seq<char>>,
    pub controller_battery: Option<Battery>,
}

impl View for ApiState {
    type V = ApiStateView;

    open spec fn view(&self) -> ApiStateView {
        ApiStateView {
            bound_addr: self.bound_addr@,
            last_muted: self.last_muted,
            controller_connected: self.controller_connected,
            controller_error: opt_text(self.controller_error),
            controller_battery: self.controller_battery,
        }
    }
}

/// What a status request is answered with.
#[derive(Debug)]
pub struct StatusResponse {
    pub ok: bool,
    pub pid: u32,
    pub uptime_seconds: u64,
    pub api: String,
    pub muted: Option<bool>,
    pub controller_connected: bool,
    pub controller_error: Option<String>,
    pub battery: Option<BatteryStatus>,
    pub listener: Option<ListenerStatus>,
}

/// The state once it is known whether the user is muted.
pub open spec fn now_muted(state: ApiStateView, muted: bool) -> ApiStateView {
    ApiStateView { last_muted: Some(muted), ..state }
}

/// The state once a controller is connected.
pub open spec fn now_connected(state: ApiStateView) -> ApiStateView {
    ApiStateView { controller_connected: true, controller_error: None, ..state }
}

/// The state once the controller has reported its battery.
pub open spec fn now_charged(state: ApiStateView, battery: Battery) -> ApiStateView {
    ApiStateView { controller_battery: Some(battery), ..state }
}

/// The state once the controller went away. A stale battery reading would
/// outlive the controller that reported it, so it is cleared.
pub open spec fn now_disconnected(state: ApiStateView) -> ApiStateView {
    ApiStateView { controller_connected: false, controller_battery: None, ..state }
}

/// The state once no controller could be opened for this reason.
pub open spec fn now_waiting(state: ApiStateView, reason: Seq<char>) -> ApiStateView {
    ApiStateView { controller_error: Some(reason), ..state }
}

/// The state once no listener is running.
pub open spec fn now_unattended(state: ApiStateView) -> ApiStateView {
    ApiStateView {
        controller_connected: false,
        controller_error: None,
        controller_battery: None,
        ..state
    }
}

impl ApiState {
    /// The state at first.
    pub fn new(bound_addr: String) -> (r: ApiState)
        ensures
            r@ == (ApiStateView {
                bound_addr: bound_addr@,
                last_muted: None,
                controller_connected: false,
                controller_error: None,
                controller_battery: None,
            }),
    {
        ApiState {
            bound_addr,
            last_muted: None,
            controller_connected: false,
            controller_error: None,
            controller_battery: None,
        }
    }

    /// Notes whether the user is muted.
    pub fn set_muted(&mut self, muted: bool)
        ensures
            final(self)@ == now_muted(old(self)@, muted),
    {
        self.last_muted = Some(muted);
    }

    /// Notes what came of a press of the mic button: the new mute state, which
    /// also clears a failure that has since resolved itself, or why the toggle
    /// failed.
    pub fn on_press(&mut self, listener: &mut ListenerWorker, outcome: Result<bool, String>)
        ensures
            match outcome {
                Ok(muted) => final(self)@ == now_muted(old(self)@, muted) && final(listener)@ == (
                ListenerWorkerView { last_error: None, ..old(listener)@ }),
                Err(e) => final(self)@ == old(self)@ && final(listener)@ == (ListenerWorkerView {
                    last_error: Some(e@),
                    ..old(listener)@
                }),
            },
    {
        match outcome {
            Ok(muted) => {
                listener.record_error(None);
                self.set_muted(muted);
            },
            Err(e) => listener.record_error(Some(e)),
        }
    }

    /// Notes that a controller is connected. Returns the mute state to restore
    /// to it, if it is known.
    pub fn on_connected(&mut self) -> (r: Option<bool>)
        ensures
            final(self)@ == now_connected(old(self)@),
            r == old(self)@.last_muted,
    {
        self.controller_connected = true;
        self.controller_error = None;
        self.last_muted
    }

    /// Notes a battery reading.
    pub fn on_battery(&mut self, battery: Battery)
        ensures
            final(self)@ == now_charged(old(self)@, battery),
    {
        self.controller_battery = Some(battery);
    }

    /// Notes that the controller went away.
    pub fn on_disconnected(&mut self)
        ensures
            final(self)@ == now_disconnected(old(self)@),
    {
        self.controller_connected = false;
        self.controller_battery = None;
    }

    /// Notes that no controller could be opened. Returns whether the reason is
    /// a new one, and so worth showing: this comes up on every attempt.
    pub fn on_waiting(&mut self, reason: &str) -> (r: bool)
        ensures
            final(self)@ == now_waiting(old(self)@, reason@),
            r == (old(self)@.controller_error != Some(reason@)),
    {
        let changed = match &self.controller_error {
            Some(current) => !same_text(current.as_str(), reason),
            None => true,
        };
        if changed {
            self.controller_error = Some(reason.to_owned());
        }
        changed
    }

    /// Notes that no listener is running any more.
    pub fn on_listener_gone(&mut self)
        ensures
            final(self)@ == now_unattended(old(self)@),
    {
        self.controller_connected = false;
        self.controller_error = None;
        self.controller_battery = None;
    }

    /// What a status request is answered with.
    pub fn build_status(
        &self,
        listener: Option<&ListenerWorker>,
        pid: u32,
        uptime_seconds: u64,
    ) -> (r: StatusResponse)
        ensures
            r.ok,
            r.pid == pid,
            r.uptime_seconds == uptime_seconds,
            r.api@ == self@.bound_addr,
            r.muted == self@.last_muted,
            r.controller_connected == self@.controller_connected,
            opt_text(r.controller_error) == self@.controller_error,
            match self@.controller_battery {
                Some(battery) => r.battery matches Some(shown) && shown.percent == battery.percent
                    && shown.state@ == battery.state.spec_label(),
                None => r.battery is None,
            },
            match listener {
                Some(worker) => r.listener matches Some(status) && status.running
                    == !worker.finished && opt_text(status.last_error) == worker@.last_error,
                None => r.listener is None,
            },
    {
        let battery = match self.controller_battery {
            Some(battery) => Some(BatteryStatus::from(battery)),
            None => None,
        };
        let listener = match listener {
            Some(worker) => Some(worker.status()),
            None => None,
        };
        StatusResponse {
            ok: true,
            pid,
            uptime_seconds,
            api: self.bound_addr.clone(),
            muted: self.last_muted,
            controller_connected: self.controller_connected,
            controller_error: copied(&self.controller_error),
            battery,
            listener,
        }
    }
}

/// What happens to a WebSocket.
#[derive(Debug)]
pub enum SocketEvent {
    /// There is a new snapshot to show.
    Snapshot(String),
    /// Some snapshots were missed.
    Lagged,
    /// There will be no more snapshots.
    NoMoreSnapshots,
    Ping(Vec<u8>),
    /// The other side sent something else.
    Other,
    /// The other side closed or broke the connection.
    Gone,
}

/// What to do with a WebSocket.
#[derive(Debug)]
pub enum SocketAction {
    SendText(String),
    SendPong(Vec<u8>),
    Wait,
    Close,
}

/// Decides what to do with a WebSocket: it is shown every snapshot and kept
/// alive, and missing a few is no reason to close it.
pub fn on_socket_event(event: SocketEvent) -> (r: SocketAction)
    ensures
        r == match event {
            SocketEvent::Snapshot(payload) => SocketAction::SendText(payload),
            SocketEvent::Lagged => SocketAction::Wait,
            SocketEvent::NoMoreSnapshots => SocketAction::Close,
            SocketEvent::Ping(payload) => SocketAction::SendPong(payload),
            SocketEvent::Other => SocketAction::Wait,
            SocketEvent::Gone => SocketAction::Close,
        },
{
    match event {
        SocketEvent::Snapshot(payload) => SocketAction::SendText(payload),
        SocketEvent::Lagged => SocketAction::Wait,
        SocketEvent::NoMoreSnapshots => SocketAction::Close,
        SocketEvent::Ping(payload) => SocketAction::SendPong(payload),
        SocketEvent::Other => SocketAction::Wait,
        SocketEvent::Gone => SocketAction::Close,
    }
}

/// Whether there is a living parent to watch, by its process id.
pub fn has_live_parent(parent: u32) -> (r: bool)
    ensures
        r == (parent > 1),
{
    parent > 1
}

/// Whether the parent that there was at the start is gone: an orphan is handed
/// over to another process, and in the end to process 1.
pub fn is_orphaned(original_parent: u32, parent: u32) -> (r: bool)
    ensures
        r == (parent != original_parent || parent <= 1),
{
    parent != original_parent || parent <= 1
}

/// Says what is being watched.
pub fn watchdog_notice(parent: u32) -> (r: String)
    ensures
        r@ == if parent > 1 {
            "Watching parent pid "@ + decimal_text(parent as nat) + "; will exit if it goes away."@
        } else {
            "Started without a live parent; skipping the orphan watchdog."@
        },
{
    if has_live_parent(parent) {
        let mut out = join("Watching parent pid ", decimal(parent as u64).as_str());
        out.append("; will exit if it goes away.");
        out
    } else {
        "Started without a live parent; skipping the orphan watchdog.".to_owned()
    }
}

/// Says that the parent is gone.
pub fn orphan_notice(parent: u32) -> (r: String)
    ensures
        r@ == "Parent pid "@ + decimal_text(parent as nat) + " is gone; shutting down."@,
{
    let mut out = join("Parent pid ", decimal(parent as u64).as_str());
    out.append(" is gone; shutting down.");
    out
}

/// Whether no battery reading is shown that outlived its controller.
pub open spec fn no_ghost_battery(state: ApiStateView) -> bool {
    state.controller_battery is Some ==> state.controller_connected
}

/// No battery reading outlives the controller that reported it: with readings
/// that come from a connected controller only, a reading is never shown
/// without one.
pub proof fn law_no_ghost_battery(
    state: ApiStateView,
    muted: bool,
    battery: Battery,
    reason: Seq<char>,
)
    requires
        no_ghost_battery(state),
    ensures
        no_ghost_battery(now_muted(state, muted)),
        no_ghost_battery(now_connected(state)),
        state.controller_connected ==> no_ghost_battery(now_charged(state, battery)),
        no_ghost_battery(now_disconnected(state)),
        no_ghost_battery(now_waiting(state, reason)),
        no_ghost_battery(now_unattended(state)),
{
}

/// The mute state outlasts a controller that goes away and comes back, so that
/// it can be restored.
pub proof fn law_mute_survives_reconnects(state: ApiStateView, muted: bool, reason: Seq<char>)
    ensures
        now_connected(now_waiting(now_disconnected(now_muted(state, muted)), reason)).last_muted
            == Some(muted),
{
}

/// A controller that is connected is not also reported as one that cannot be
/// opened, and once no listener is running there is nothing left to report of
/// a controller.
pub proof fn law_errors_end_with_their_cause(state: ApiStateView, reason: Seq<char>)
    ensures
        now_connected(now_waiting(state, reason)).controller_error is None,
        now_unattended(now_waiting(state, reason)).controller_error is None,
        !now_unattended(state).controller_connected,
        now_unattended(state).controller_battery is None,
        now_unattended(state).last_muted == state.last_muted,
{
}

/// A reason for waiting is only worth showing when it changes: the same one is
/// not news a second time.
pub proof fn law_the_same_reason_is_no_news(state: ApiStateView, reason: Seq<char>)
    ensures
        now_waiting(state, reason).controller_error == Some(reason),
        now_waiting(now_waiting(state, reason), reason) == now_waiting(state, reason),
{
}

/// The handshake line tells the bound address: no two addresses share one.
pub proof fn law_listening_line_tells_address(a: Seq<char>, b: Seq<char>)
    requires
        listening_line_of(a) == listening_line_of(b),
    ensures
        a == b,
        listening_line_of(a).skip(LISTENING_PREFIX@.len() as int) == a,
{
    assert(listening_line_of(a).skip(LISTENING_PREFIX@.len() as int) =~= a);
    assert(listening_line_of(b).skip(LISTENING_PREFIX@.len() as int) =~= b);
}

/// Each piece of news changes just what it is about, and leaves the rest of what
/// is shown as it was.
pub proof fn law_news_changes_what_it_is_about(
    state: ApiStateView,
    muted: bool,
    battery: Battery,
    reason: Seq<char>,
)
    ensures
        now_muted(state, muted) == (ApiStateView {
            bound_addr: state.bound_addr,
            last_muted: Some(muted),
            controller_connected: state.controller_connected,
            controller_error: state.controller_error,
            controller_battery: state.controller_battery,
        }),
        now_connected(state) == (ApiStateView {
            bound_addr: state.bound_addr,
            last_muted: state.last_muted,
            controller_connected: true,
            controller_error: None,
            controller_battery: state.controller_battery,
        }),
        now_charged(state, battery) == (ApiStateView {
            bound_addr: state.bound_addr,
            last_muted: state.last_muted,
            controller_connected: state.controller_connected,
            controller_error: state.controller_error,
            controller_battery: Some(battery),
        }),
        now_disconnected(state) == (ApiStateView {
            bound_addr: state.bound_addr,
            last_muted: state.last_muted,
            controller_connected: false,
            controller_error: state.controller_error,
            controller_battery: None,
        }),
        now_waiting(state, reason) == (ApiStateView {
            bound_addr: state.bound_addr,
            last_muted: state.last_muted,
            controller_connected: state.controller_connected,
            controller_error: Some(reason),
            controller_battery: state.controller_battery,
        }),
        now_unattended(state) == (ApiStateView {
            bound_addr: state.bound_addr,
            last_muted: state.last_muted,
            controller_connected: false,
            controller_error: None,
            controller_battery: None,
        }),
{
}

} // verus!
