use discord_mute::controller::handler::{consult, event_of, Answer, MicButtonHandler};
use discord_mute::controller::input::{InputReport, UnusableReport};
use discord_mute::controller::listener::{Listener, Stage, RECONNECT_DELAY};
use discord_mute::controller::notes::{note, Note};
use discord_mute::controller::output::MILLISECOND;
use discord_mute::controller::restore::RESTORE_TIMEOUT;
use discord_mute::controller::session::{
    Session, HELD_TOO_LONG, REPORT_STALE_AFTER, SYNC_POLL_INTERVAL, UNUSABLE_LOG_EVERY,
};
use discord_mute::controller::step::{Event, Output, Request, SessionEnd, Step};
use discord_mute::controller::{Battery, ChargeState, VoiceState};

fn report(pressed: Option<bool>) -> InputReport {
    InputReport { id: 0x01, battery: None, pressed, unusable: UnusableReport::Empty }
}

fn steps(session: &mut Session, events: &[Event]) -> Step {
    let mut last = None;
    for event in events {
        last = Some(session.step(*event));
    }
    last.unwrap()
}

/// From the stop check to the button check of one report.
fn feed(session: &mut Session, input: InputReport, now: u64) -> Step {
    steps(
        session,
        &[
            Event::Stop(false),
            Event::Report(input, now),
            Event::Lightbar(true),
            Event::RumbleTest(false),
        ],
    )
}

#[test]
fn press_toggles_syncs_and_rumbles() {
    let mut session = Session::new(0, true, None);
    assert_eq!(feed(&mut session, report(Some(true)), 10).request, Request::ReadClock);
    assert_eq!(session.step(Event::Clock(10)).request, Request::Press);
    let pressed = session.step(Event::Pressed(Some(VoiceState::Muted)));
    assert_eq!(pressed.request, Request::ReadLightbar);
    let synced = session.step(Event::Lightbar(true));
    assert_eq!(synced.request, Request::ReadRumbleStrength);
    assert!(matches!(&synced.outputs[..], [Output::Write(bytes)] if bytes[9] == 1 && bytes[45] == 130));
    let buzzed = session.step(Event::RumbleStrength(100));
    assert_eq!(buzzed.request, Request::CheckStop);
    assert_eq!(buzzed.outputs.len(), 3);
    assert_eq!(session.last_synced, Some(VoiceState::Muted));
}

#[test]
fn held_button_counts_once() {
    let mut session = Session::new(0, true, None);
    feed(&mut session, report(Some(true)), 10);
    assert_eq!(session.step(Event::Clock(10)).request, Request::Press);
    session.step(Event::Pressed(None));
    feed(&mut session, report(Some(true)), 20);
    assert_eq!(session.step(Event::Clock(20)).request, Request::CheckStop);
    feed(&mut session, report(Some(false)), 30);
    assert_eq!(session.step(Event::Clock(30)).request, Request::CheckStop);
    feed(&mut session, report(Some(true)), 40);
    assert_eq!(session.step(Event::Clock(40)).request, Request::Press);
}

#[test]
fn edge_detector_resets_after_eight_hundred_milliseconds() {
    let mut session = Session::new(0, true, None);
    feed(&mut session, report(Some(true)), 0);
    session.step(Event::Clock(0));
    session.step(Event::Pressed(None));
    feed(&mut session, report(Some(true)), HELD_TOO_LONG);
    assert_eq!(session.step(Event::Clock(HELD_TOO_LONG)).request, Request::CheckStop);
    assert!(session.was_pressed);
    feed(&mut session, report(Some(true)), HELD_TOO_LONG + 1);
    assert_eq!(session.step(Event::Clock(HELD_TOO_LONG + 1)).request, Request::CheckStop);
    assert!(!session.was_pressed);
    feed(&mut session, report(Some(true)), HELD_TOO_LONG + 2);
    assert_eq!(session.step(Event::Clock(HELD_TOO_LONG + 2)).request, Request::Press);
}

#[test]
fn failed_toggle_keeps_the_session() {
    let mut session = Session::new(0, true, None);
    feed(&mut session, report(Some(true)), 10);
    session.step(Event::Clock(10));
    let step = session.step(Event::Pressed(None));
    assert_eq!(step.request, Request::CheckStop);
    assert!(step.outputs.is_empty());
    assert_eq!(session.last_synced, None);
}

#[test]
fn silence_ends_a_session_only_after_five_seconds() {
    let mut session = Session::new(0, true, None);
    session.step(Event::Stop(false));
    assert_eq!(session.step(Event::Silence(REPORT_STALE_AFTER)).request, Request::CheckStop);
    session.step(Event::Stop(false));
    assert_eq!(
        session.step(Event::Silence(REPORT_STALE_AFTER + 1)).request,
        Request::EndSession(SessionEnd::Disconnected)
    );
}

#[test]
fn read_error_ends_a_session() {
    let mut session = Session::new(0, true, None);
    session.step(Event::Stop(false));
    assert_eq!(
        session.step(Event::ReadFailed).request,
        Request::EndSession(SessionEnd::Disconnected)
    );
}

#[test]
fn stop_ends_a_session() {
    let mut session = Session::new(0, true, None);
    assert_eq!(
        session.step(Event::Stop(true)).request,
        Request::EndSession(SessionEnd::Stopped)
    );
}

#[test]
fn outside_change_is_synced_without_rumble() {
    let mut session = Session::new(0, true, None);
    let polled = steps(
        &mut session,
        &[Event::Stop(false), Event::Report(report(Some(false)), SYNC_POLL_INTERVAL)],
    );
    assert_eq!(polled.request, Request::PollVoice);
    let moved = session.step(Event::Voice(Some(VoiceState::Deafened)));
    assert_eq!(moved.request, Request::ReadLightbar);
    let synced = session.step(Event::Lightbar(true));
    assert!(matches!(&synced.outputs[..], [Output::Write(bytes)] if bytes[45] == 140 && bytes[46] == 40));
    assert_eq!(synced.request, Request::ReadLightbar);
    let settled = session.step(Event::Lightbar(true));
    assert!(settled.outputs.is_empty());
    assert_eq!(settled.request, Request::TakeRumbleTest);
}

#[test]
fn unchanged_voice_state_is_not_rewritten() {
    let mut session = Session::new(0, true, None);
    session.last_synced = Some(VoiceState::Muted);
    let step = steps(
        &mut session,
        &[
            Event::Stop(false),
            Event::Report(report(Some(false)), SYNC_POLL_INTERVAL),
            Event::Voice(Some(VoiceState::Muted)),
            Event::Lightbar(true),
        ],
    );
    assert!(step.outputs.is_empty());
    assert_eq!(step.request, Request::TakeRumbleTest);
}

#[test]
fn flipped_lightbar_setting_is_applied_at_once() {
    let mut session = Session::new(0, true, None);
    session.last_synced = Some(VoiceState::Muted);
    let step = steps(
        &mut session,
        &[Event::Stop(false), Event::Report(report(Some(false)), 1), Event::Lightbar(false)],
    );
    assert!(matches!(&step.outputs[..], [Output::Write(bytes)] if bytes[9] == 1 && bytes[45] == 0));
}

#[test]
fn test_buzz_uses_the_firm_pattern() {
    let mut session = Session::new(0, true, None);
    let step = steps(
        &mut session,
        &[
            Event::Stop(false),
            Event::Report(report(Some(false)), 1),
            Event::Lightbar(true),
            Event::RumbleTest(true),
            Event::RumbleStrength(10),
        ],
    );
    assert!(matches!(&step.outputs[0], Output::Write(bytes) if bytes[4] == 20 && bytes[3] == 0));
    assert_eq!(step.request, Request::ReadClock);
}

#[test]
fn battery_is_reported_when_it_moves() {
    let mut session = Session::new(0, true, None);
    let battery = Battery { percent: 55, state: ChargeState::Charging };
    let mut input = report(Some(false));
    input.battery = Some(battery);
    let first = feed(&mut session, input, 1);
    assert!(matches!(&first.outputs[..], [Output::Battery(told)] if *told == battery));
    session.step(Event::Clock(1));
    assert!(feed(&mut session, input, 2).outputs.is_empty());
    session.step(Event::Clock(2));
    input.battery = Some(Battery { percent: 65, state: ChargeState::Charging });
    assert_eq!(feed(&mut session, input, 3).outputs.len(), 1);
}

#[test]
fn unusable_reports_are_mentioned_now_and_again() {
    let mut session = Session::new(0, true, None);
    let mut mentioned = 0;
    for now in 0..(2 * UNUSABLE_LOG_EVERY) {
        let step = feed(&mut session, report(None), now);
        assert_eq!(step.request, Request::CheckStop);
        mentioned += step.outputs.len();
    }
    assert_eq!(mentioned, 2);
}

#[test]
fn events_out_of_turn_change_nothing() {
    let mut session = Session::new(0, true, None);
    let before = session;
    assert_eq!(session.step(Event::Clock(9)).request, Request::CheckStop);
    assert_eq!(session, before);
    let mut listener = Listener::new();
    let before = listener;
    assert_eq!(listener.step(Event::Opened).request, Request::CheckStop);
    assert_eq!(listener, before);
}

fn drive(listener: &mut Listener, events: &[Event]) -> Step {
    let mut last = None;
    for event in events {
        last = Some(listener.step(*event));
    }
    last.unwrap()
}

#[test]
fn listener_restores_feedback_and_starts_a_session() {
    let mut listener = Listener::new();
    assert_eq!(listener.request(), Request::CheckStop);
    let opened = drive(&mut listener, &[Event::Stop(false), Event::Opened]);
    assert_eq!(opened.request, Request::Connect);
    let step = drive(
        &mut listener,
        &[
            Event::Connected(Some(VoiceState::Muted)),
            Event::Lightbar(true),
            Event::Clock(100),
            Event::Stop(false),
        ],
    );
    assert_eq!(step.request, Request::ReadReport);
    let unusable = listener.step(Event::Report(report(None), 200));
    assert!(unusable.outputs.is_empty());
    assert_eq!(unusable.request, Request::CheckStop);
    listener.step(Event::Stop(false));
    let restored = listener.step(Event::Report(report(Some(false)), 300));
    assert!(matches!(&restored.outputs[..], [Output::Write(bytes)] if bytes[9] == 1 && bytes[45] == 130));
    assert_eq!(restored.request, Request::ReadClock);
    listener.step(Event::Clock(300));
    assert!(matches!(listener.stage, Stage::InSession(session) if session == Session::new(300, true, Some(VoiceState::Muted))));
}

fn restored(lightbar: bool) -> Listener {
    let mut listener = Listener::new();
    drive(
        &mut listener,
        &[
            Event::Stop(false),
            Event::Opened,
            Event::Connected(Some(VoiceState::Muted)),
            Event::Lightbar(lightbar),
            Event::Clock(100),
            Event::Stop(false),
            Event::Report(report(Some(false)), 200),
        ],
    );
    listener
}

#[test]
fn lightbar_can_be_switched_off_after_a_restore() {
    let mut listener = restored(true);
    let first = drive(
        &mut listener,
        &[
            Event::Clock(300),
            Event::Stop(false),
            Event::Report(report(Some(false)), 400),
            Event::Lightbar(true),
        ],
    );
    assert!(first.outputs.is_empty());
    let second = drive(
        &mut listener,
        &[
            Event::RumbleTest(false),
            Event::Clock(400),
            Event::Stop(false),
            Event::Report(report(Some(false)), 500),
            Event::Lightbar(false),
        ],
    );
    match &second.outputs[..] {
        [Output::Write(bytes)] => {
            assert_eq!((bytes[9], bytes[10]), (1, 0x10));
            assert_eq!((bytes[45], bytes[46], bytes[47]), (0, 0, 0));
        }
        other => panic!("unexpected outputs {other:?}"),
    }
}

#[test]
fn flip_between_restore_and_session_counts() {
    let mut listener = restored(true);
    let step = drive(
        &mut listener,
        &[
            Event::Clock(300),
            Event::Stop(false),
            Event::Report(report(Some(false)), 400),
            Event::Lightbar(false),
        ],
    );
    assert!(matches!(&step.outputs[..], [Output::Write(bytes)] if bytes[9] == 1 && bytes[45] == 0));
    let mut listener = restored(false);
    let step = drive(
        &mut listener,
        &[
            Event::Clock(300),
            Event::Stop(false),
            Event::Report(report(Some(false)), 400),
            Event::Lightbar(true),
        ],
    );
    assert!(matches!(&step.outputs[..], [Output::Write(bytes)] if bytes[45] == 130));
}

#[test]
fn restored_state_is_not_rewritten_by_the_first_poll() {
    let mut listener = restored(true);
    let step = drive(
        &mut listener,
        &[
            Event::Clock(300),
            Event::Stop(false),
            Event::Report(report(Some(false)), 300 + SYNC_POLL_INTERVAL),
            Event::Voice(Some(VoiceState::Muted)),
            Event::Lightbar(true),
        ],
    );
    assert!(step.outputs.is_empty());
    assert_eq!(step.request, Request::TakeRumbleTest);
}

#[test]
fn bluetooth_reports_of_a_session_are_numbered_from_zero() {
    let mut session = Session::new(0, true, None);
    let mut input = report(Some(true));
    input.id = 0x31;
    let mut numbers = Vec::new();
    for now in 0..3u64 {
        input.pressed = Some(true);
        feed(&mut session, input, 2 * now);
        session.step(Event::Clock(2 * now));
        session.step(Event::Pressed(Some(VoiceState::Live)));
        let mut outputs = session.step(Event::Lightbar(true)).outputs;
        outputs.extend(session.step(Event::RumbleStrength(50)).outputs);
        for output in outputs {
            if let Output::Write(bytes) = output {
                numbers.push(bytes[1] / 16);
            }
        }
        input.pressed = Some(false);
        feed(&mut session, input, 2 * now + 1);
        session.step(Event::Clock(2 * now + 1));
    }
    assert_eq!(numbers, (0..15).collect::<Vec<u8>>());
}

#[test]
fn noteworthy_events_are_noted() {
    let mut listener = restored(true);
    drive(&mut listener, &[Event::Clock(300), Event::Stop(false)]);
    assert_eq!(note(&listener, Event::Silence(300 + REPORT_STALE_AFTER)), None);
    let stale = note(&listener, Event::Silence(301 + REPORT_STALE_AFTER)).unwrap();
    assert_eq!(
        stale.message(),
        "No controller reports for 5s; treating the controller as gone."
    );
    let mut strange = report(None);
    strange.id = 0x0a;
    listener.step(Event::Report(strange, 400));
    assert_eq!(note(&listener, Event::Lightbar(true)), None);
    let flipped = note(&listener, Event::Lightbar(false)).unwrap();
    assert_eq!(
        flipped.message(),
        "Warning: could not update controller feedback: unsupported input report id 0x0a for \
         feedback output"
    );
    drive(&mut listener, &[Event::Lightbar(true), Event::RumbleTest(true)]);
    assert_eq!(note(&listener, Event::RumbleStrength(0)), None);
    assert_eq!(
        note(&listener, Event::RumbleStrength(9)).unwrap().message(),
        "Warning: could not send rumble: unsupported input report id 0x0a for rumble output"
    );
}

#[test]
fn given_up_button_and_restore_are_noted() {
    let mut listener = restored(true);
    let looks = |now: u64| {
        [
            Event::Stop(false),
            Event::Report(report(Some(true)), now),
            Event::Lightbar(true),
            Event::RumbleTest(false),
        ]
    };
    listener.step(Event::Clock(300));
    drive(&mut listener, &looks(400));
    assert_eq!(note(&listener, Event::Clock(400)), None);
    drive(&mut listener, &[Event::Clock(400), Event::Pressed(None)]);
    drive(&mut listener, &looks(500));
    assert_eq!(note(&listener, Event::Clock(400 + HELD_TOO_LONG)), None);
    assert_eq!(note(&listener, Event::Clock(401 + HELD_TOO_LONG)), Some(Note::StillPressed));
    assert_eq!(
        Note::StillPressed.message(),
        "Mic button still reads pressed after 800ms; resetting edge detector."
    );

    let mut listener = Listener::new();
    drive(
        &mut listener,
        &[
            Event::Stop(false),
            Event::Opened,
            Event::Connected(Some(VoiceState::Live)),
            Event::Lightbar(true),
            Event::Clock(0),
            Event::Stop(false),
        ],
    );
    assert_eq!(note(&listener, Event::Silence(RESTORE_TIMEOUT - 1)), None);
    assert_eq!(
        note(&listener, Event::Report(report(None), RESTORE_TIMEOUT)).unwrap().message(),
        "Warning: timed out restoring controller feedback after reconnect."
    );
}

#[test]
fn restore_gives_up_after_two_seconds() {
    let mut listener = Listener::new();
    drive(
        &mut listener,
        &[
            Event::Stop(false),
            Event::Opened,
            Event::Connected(Some(VoiceState::Live)),
            Event::Lightbar(true),
            Event::Clock(0),
            Event::Stop(false),
        ],
    );
    assert_eq!(listener.step(Event::Silence(RESTORE_TIMEOUT - 1)).request, Request::CheckStop);
    listener.step(Event::Stop(false));
    listener.step(Event::Silence(RESTORE_TIMEOUT));
    assert_eq!(listener.stage, Stage::AwaitSessionClock(None));
}

#[test]
fn nothing_known_means_nothing_to_restore() {
    let mut listener = Listener::new();
    drive(&mut listener, &[Event::Stop(false), Event::Opened, Event::Connected(None)]);
    assert_eq!(listener.stage, Stage::AwaitSessionClock(None));
}

#[test]
fn disconnect_is_told_and_leads_to_a_reconnect() {
    let mut listener = Listener::new();
    let step = drive(
        &mut listener,
        &[
            Event::Stop(false),
            Event::Opened,
            Event::Connected(None),
            Event::Clock(0),
            Event::Lightbar(false),
            Event::Stop(false),
            Event::ReadFailed,
        ],
    );
    assert!(matches!(&step.outputs[..], [Output::Disconnected]));
    assert_eq!(step.request, Request::ReadClock);
    drive(&mut listener, &[Event::Clock(1000)]);
    assert_eq!(listener.stage, Stage::PauseStop(1000, 1000 + RECONNECT_DELAY));
    let paused = listener.step(Event::Stop(false));
    assert!(matches!(&paused.outputs[..], [Output::Pause(nanos)] if *nanos == 100 * MILLISECOND));
    listener.step(Event::Clock(1000 + RECONNECT_DELAY));
    assert_eq!(listener.step(Event::Stop(false)).request, Request::Open);
}

#[test]
fn missing_controller_is_announced_every_twentieth_time() {
    let mut listener = Listener::new();
    let mut announced = Vec::new();
    for attempt in 0..41u64 {
        let step = drive(&mut listener, &[Event::Stop(false), Event::OpenFailed]);
        match &step.outputs[..] {
            [Output::Waiting { announce }] => {
                if *announce {
                    announced.push(attempt);
                }
            }
            other => panic!("unexpected outputs {other:?}"),
        }
        listener.step(Event::Clock(0));
        listener.step(Event::Stop(false));
        listener.step(Event::Clock(RECONNECT_DELAY));
    }
    assert_eq!(announced, vec![0, 20, 40]);
}

#[test]
fn stop_is_obeyed_everywhere() {
    let mut listener = Listener::new();
    assert_eq!(listener.step(Event::Stop(true)).request, Request::Finish);

    let mut listener = Listener::new();
    drive(&mut listener, &[Event::Stop(false), Event::OpenFailed, Event::Clock(0)]);
    assert_eq!(listener.step(Event::Stop(true)).request, Request::CheckStop);
    assert_eq!(listener.step(Event::Stop(true)).request, Request::Finish);

    let mut listener = Listener::new();
    let step = drive(
        &mut listener,
        &[
            Event::Stop(false),
            Event::Opened,
            Event::Connected(None),
            Event::Clock(0),
            Event::Lightbar(false),
            Event::Stop(true),
        ],
    );
    assert_eq!(step.request, Request::Finish);
    assert!(matches!(&step.outputs[..], [Output::Disconnected]));
}

#[test]
fn answers_become_events() {
    assert_eq!(
        event_of(Answer::Pressed(Err("why".to_string()))),
        (Event::Pressed(None), Some("why".to_string()))
    );
    assert_eq!(
        event_of(Answer::Voice(Some(VoiceState::Live))),
        (Event::Voice(Some(VoiceState::Live)), None)
    );
}

struct Scripted {
    presses: Vec<Result<VoiceState, String>>,
    tests: u8,
}

impl MicButtonHandler for Scripted {
    fn on_press(&mut self) -> Result<VoiceState, String> {
        self.presses.remove(0)
    }

    fn on_connected(&mut self) -> Option<VoiceState> {
        Some(VoiceState::Deafened)
    }

    fn on_tick(&mut self) -> Option<VoiceState> {
        None
    }

    fn rumble_strength(&self) -> u8 {
        77
    }

    fn lightbar_enabled(&self) -> bool {
        true
    }

    fn take_rumble_test(&mut self) -> bool {
        let wanted = self.tests > 0;
        self.tests = 0;
        wanted
    }

    fn on_battery(&mut self, _battery: Battery) {}

    fn on_disconnected(&mut self) {}

    fn on_waiting(&mut self, _reason: &str) {}
}

#[test]
fn handler_is_consulted_for_its_requests_only() {
    let mut handler = Scripted {
        presses: vec![Ok(VoiceState::Muted), Err("no Discord".to_string())],
        tests: 1,
    };
    assert_eq!(
        consult(&mut handler, Request::Connect),
        Some((Event::Connected(Some(VoiceState::Deafened)), None))
    );
    assert_eq!(
        consult(&mut handler, Request::Press),
        Some((Event::Pressed(Some(VoiceState::Muted)), None))
    );
    assert_eq!(
        consult(&mut handler, Request::Press),
        Some((Event::Pressed(None), Some("no Discord".to_string())))
    );
    assert_eq!(consult(&mut handler, Request::PollVoice), Some((Event::Voice(None), None)));
    assert_eq!(
        consult(&mut handler, Request::ReadRumbleStrength),
        Some((Event::RumbleStrength(77), None))
    );
    assert_eq!(
        consult(&mut handler, Request::ReadLightbar),
        Some((Event::Lightbar(true), None))
    );
    assert_eq!(
        consult(&mut handler, Request::TakeRumbleTest),
        Some((Event::RumbleTest(true), None))
    );
    assert_eq!(
        consult(&mut handler, Request::TakeRumbleTest),
        Some((Event::RumbleTest(false), None))
    );
    assert!(consult(&mut handler, Request::ReadReport).is_none());
    assert!(consult(&mut handler, Request::CheckStop).is_none());
    assert!(consult(&mut handler, Request::Finish).is_none());
}
