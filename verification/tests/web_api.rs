use discord_mute::api::{
    address_in_use, api_addr, has_live_parent, is_orphaned, listening_line, on_socket_event,
    orphan_notice, startup_lines, watchdog_notice, ApiState, BatteryStatus, ListenerWorker,
    SocketAction, SocketEvent,
};
use discord_mute::cli::wants_help;
use discord_mute::controller::{Battery, ChargeState};
use discord_mute::keyboard::RightOptionKey;

const BATTERY: Battery = Battery { percent: 45, state: ChargeState::Charging };

fn state() -> ApiState {
    ApiState::new("127.0.0.1:3219".to_string())
}

#[test]
fn address_is_configurable() {
    assert_eq!(api_addr(None), "127.0.0.1:3219");
    assert_eq!(api_addr(Some("[::1]:0".to_string())), "[::1]:0");
}

#[test]
fn handshake_line_comes_first() {
    assert_eq!(
        listening_line("127.0.0.1:53538"),
        "DISCORD_MUTE_API_LISTENING=127.0.0.1:53538"
    );
    assert_eq!(
        startup_lines("a:1"),
        vec![
            "DISCORD_MUTE_API_LISTENING=a:1",
            "Discord mute API listening at http://a:1",
            "Try: curl http://a:1/status",
            "UI:  http://a:1/",
        ]
    );
}

#[test]
fn taken_address_is_explained() {
    assert_eq!(
        address_in_use("a:1"),
        "a:1 is already in use — another discord-mute-rs is probably still running.\n\
         Stop it with `curl -X POST http://a:1/quit`, or start this one on a free port with \
         `DISCORD_MUTE_API_ADDR=127.0.0.1:0` (port 0 picks any free port and prints it as \
         `DISCORD_MUTE_API_LISTENING=<addr>`)."
    );
}

#[test]
fn press_records_and_clears_errors() {
    let mut api = state();
    let mut worker = ListenerWorker::new();
    api.on_press(&mut worker, Err("no Discord".to_string()));
    assert_eq!(api.last_muted, None);
    assert_eq!(worker.last_error.as_deref(), Some("no Discord"));
    api.on_press(&mut worker, Ok(true));
    assert_eq!(api.last_muted, Some(true));
    assert_eq!(worker.last_error, None);
}

#[test]
fn mute_is_restored_after_a_reconnect() {
    let mut api = state();
    assert_eq!(api.on_connected(), None);
    api.set_muted(true);
    api.on_disconnected();
    assert!(api.on_waiting("unplugged"));
    assert_eq!(api.on_connected(), Some(true));
    assert_eq!(api.controller_error, None);
}

#[test]
fn battery_goes_with_its_controller() {
    let mut api = state();
    api.on_connected();
    api.on_battery(BATTERY);
    assert_eq!(api.controller_battery, Some(BATTERY));
    api.on_disconnected();
    assert!(!api.controller_connected);
    assert_eq!(api.controller_battery, None);
}

#[test]
fn same_reason_is_no_news() {
    let mut api = state();
    assert!(api.on_waiting("a"));
    assert!(!api.on_waiting("a"));
    assert!(api.on_waiting("b"));
    assert_eq!(api.controller_error.as_deref(), Some("b"));
    api.on_disconnected();
    assert_eq!(api.controller_error.as_deref(), Some("b"));
}

#[test]
fn listener_leaves_nothing_behind() {
    let mut api = state();
    api.on_waiting("a");
    api.on_connected();
    api.on_battery(BATTERY);
    api.set_muted(false);
    api.on_listener_gone();
    assert!(!api.controller_connected);
    assert_eq!(api.controller_error, None);
    assert_eq!(api.controller_battery, None);
    assert_eq!(api.last_muted, Some(false));
}

#[test]
fn finished_listener_keeps_its_last_error() {
    let mut worker = ListenerWorker::new();
    assert!(worker.status().running);
    worker.record_error(Some("late".to_string()));
    worker.finish_listener(None);
    assert!(!worker.status().running);
    assert_eq!(worker.status().last_error.as_deref(), Some("late"));
    let mut worker = ListenerWorker::new();
    worker.finish_listener(Some("fatal".to_string()));
    assert_eq!(worker.status().last_error.as_deref(), Some("fatal"));
}

#[test]
fn status_shows_the_state() {
    let mut api = state();
    let status = api.build_status(None, 7, 9);
    assert!(status.ok);
    assert_eq!((status.pid, status.uptime_seconds), (7, 9));
    assert_eq!(status.api, "127.0.0.1:3219");
    assert_eq!(status.muted, None);
    assert!(status.battery.is_none());
    assert!(status.listener.is_none());
    api.on_connected();
    api.on_battery(BATTERY);
    api.set_muted(true);
    api.on_waiting("why");
    let status = api.build_status(Some(&ListenerWorker::new()), 7, 9);
    assert!(status.controller_connected);
    assert_eq!(status.muted, Some(true));
    assert_eq!(status.controller_error.as_deref(), Some("why"));
    let battery = status.battery.unwrap();
    assert_eq!((battery.percent, battery.state), (45, "charging"));
    assert!(status.listener.unwrap().running);
}

#[test]
fn battery_status_is_labelled() {
    let shown = |state: ChargeState| BatteryStatus::from(Battery { percent: 5, state }).state;
    assert_eq!(shown(ChargeState::Discharging), "discharging");
    assert_eq!(shown(ChargeState::Charging), "charging");
    assert_eq!(shown(ChargeState::Full), "full");
    assert_eq!(shown(ChargeState::Unknown), "unknown");
}

#[test]
fn web_socket_decisions() {
    assert!(matches!(
        on_socket_event(SocketEvent::Snapshot("s".to_string())),
        SocketAction::SendText(text) if text == "s"
    ));
    assert!(matches!(
        on_socket_event(SocketEvent::Ping(vec![1, 2])),
        SocketAction::SendPong(bytes) if bytes == vec![1, 2]
    ));
    assert!(matches!(on_socket_event(SocketEvent::Lagged), SocketAction::Wait));
    assert!(matches!(on_socket_event(SocketEvent::Other), SocketAction::Wait));
    assert!(matches!(on_socket_event(SocketEvent::NoMoreSnapshots), SocketAction::Close));
    assert!(matches!(on_socket_event(SocketEvent::Gone), SocketAction::Close));
}

#[test]
fn orphans_are_noticed() {
    assert!(!has_live_parent(0));
    assert!(!has_live_parent(1));
    assert!(has_live_parent(2));
    assert!(!is_orphaned(10, 10));
    assert!(is_orphaned(10, 11));
    assert!(is_orphaned(10, 1));
    assert_eq!(watchdog_notice(10), "Watching parent pid 10; will exit if it goes away.");
    assert_eq!(
        watchdog_notice(1),
        "Started without a live parent; skipping the orphan watchdog."
    );
    assert_eq!(
        orphan_notice(4_294_967_295),
        "Parent pid 4294967295 is gone; shutting down."
    );
}

#[test]
fn help_is_asked_for_in_three_ways() {
    let args = |texts: &[&str]| texts.iter().map(|text| text.to_string()).collect::<Vec<_>>();
    assert!(wants_help(&args(&["app", "-h"])));
    assert!(wants_help(&args(&["app", "x", "--help"])));
    assert!(wants_help(&args(&["app", "help", "y"])));
    assert!(!wants_help(&args(&["app", "-help", "Help"])));
    assert!(!wants_help(&Vec::new()));
}

#[test]
fn key_is_pressed_and_released_once() {
    let mut key = RightOptionKey::new();
    assert_eq!(key.release(), None);
    assert_eq!(key.press(), Some(true));
    key.posted(true, false);
    assert!(!key.held);
    key.posted(true, true);
    assert!(key.held);
    assert_eq!(key.press(), None);
    assert_eq!(key.release(), Some(false));
    key.posted(false, false);
    assert!(key.held);
    key.posted(false, true);
    assert!(!key.held);
}

#[test]
fn key_events_alternate() {
    let mut key = RightOptionKey::new();
    let mut events = Vec::new();
    for press in [false, true, true, false, false, true, false, true] {
        let event = if press { key.press() } else { key.release() };
        if let Some(key_down) = event {
            events.push(key_down);
            key.posted(key_down, true);
        }
    }
    if let Some(key_down) = key.release() {
        events.push(key_down);
        key.posted(key_down, true);
    }
    assert_eq!(events, vec![true, false, true, false, true, false]);
    assert!(!key.held);
}
