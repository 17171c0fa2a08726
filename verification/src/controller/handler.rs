//! Between the listener and its surroundings: which answers fit which
//! requests, and how a handler is consulted.

use vstd::prelude::*;
use crate::controller::input::{decoded, InputReport};
use crate::controller::output::MILLISECOND;
use crate::controller::step::{Event, Request};
use crate::controller::{Battery, VoiceState};

verus! {

/// How long one read waits for a report, in milliseconds.
pub const READ_TIMEOUT_MS: i32 = 250;

/// How long to hold still after a read that gave nothing.
pub const EMPTY_READ_PAUSE: u64 = 10 * MILLISECOND;

/// Reading this feature report is what kicks a Bluetooth DualSense into
/// sending full 0x31 input reports.
pub const DUALSENSE_CALIBRATION_FEATURE_REPORT: u8 = 0x05;

/// Callbacks the mic-button listener fires as the controller comes and goes.
pub trait MicButtonHandler {
    /// The mic button was pressed. Returns the resulting voice state, or what
    /// went wrong.
    fn on_press(&mut self) -> Result<VoiceState, String>;

    /// A controller was (re)connected. Returns the voice state to restore to the
    /// controller's mic LED and lightbar, which come back reset after every
    /// reconnect.
    fn on_connected(&mut self) -> Option<VoiceState>;

    /// Periodic poll. Returns `Some(state)` when the voice state changed
    /// outside the controller (a mute from the menu bar or from inside Discord)
    /// so the LED and lightbar can be re-synced. `None` when nothing changed.
    fn on_tick(&mut self) -> Option<VoiceState>;

    /// Current rumble confirmation strength, 0-100. Read fresh on each toggle
    /// so a settings change takes effect without restarting the listener; 0
    /// means no buzz.
    fn rumble_strength(&self) -> u8;

    /// Whether the lightbar should mirror the voice state. Read fresh so toggling
    /// it in settings takes effect live; when off, the lightbar is driven dark.
    fn lightbar_enabled(&self) -> bool;

    /// Whether a one-off test buzz has been requested (e.g. from the settings
    /// slider). Consumes the request, so it fires once per ask.
    fn take_rumble_test(&mut self) -> bool;

    /// The controller reported a new battery reading. Fires on the first full
    /// report after a connect and whenever the level or charging state changes.
    fn on_battery(&mut self, battery: Battery);

    /// The controller went away. The listener keeps running and will reconnect.
    fn on_disconnected(&mut self);

    /// No controller could be opened, with the reason why.
    ///
    /// Worth reporting rather than only logging: "no device found" and "found
    /// it but could not open it" both leave the listener waiting, and only the
    /// second one is the user's to fix.
    fn on_waiting(&mut self, reason: &str);
}

/// Whether `event` answers `request`.
pub open spec fn answers(request: Request, event: Event) -> bool {
    match request {
        Request::CheckStop => event is Stop,
        Request::ReadClock => event is Clock,
        Request::Open => event is Opened || event is OpenFailed,
        Request::Connect => event is Connected,
        Request::ReadReport => event is Report || event is Silence || event is ReadFailed,
        Request::PollVoice => event is Voice,
        Request::ReadLightbar => event is Lightbar,
        Request::TakeRumbleTest => event is RumbleTest,
        Request::ReadRumbleStrength => event is RumbleStrength,
        Request::Press => event is Pressed,
        Request::EndSession(_) => false,
        Request::Finish => false,
    }
}

/// Whether `request` is for the handler rather than for the device or the clock.
pub open spec fn for_handler(request: Request) -> bool {
    match request {
        Request::Connect => true,
        Request::PollVoice => true,
        Request::ReadLightbar => true,
        Request::TakeRumbleTest => true,
        Request::ReadRumbleStrength => true,
        Request::Press => true,
        _ => false,
    }
}

/// What a handler answered.
#[derive(Debug)]
pub enum Answer {
    Connected(Option<VoiceState>),
    Voice(Option<VoiceState>),
    Lightbar(bool),
    RumbleTest(bool),
    RumbleStrength(u8),
    Pressed(Result<VoiceState, String>),
}

/// The event that an answer amounts to.
pub open spec fn answer_event(answer: Answer) -> Event {
    match answer {
        Answer::Connected(known) => Event::Connected(known),
        Answer::Voice(changed) => Event::Voice(changed),
        Answer::Lightbar(enabled) => Event::Lightbar(enabled),
        Answer::RumbleTest(wanted) => Event::RumbleTest(wanted),
        Answer::RumbleStrength(strength) => Event::RumbleStrength(strength),
        Answer::Pressed(Ok(state)) => Event::Pressed(Some(state)),
        Answer::Pressed(Err(_)) => Event::Pressed(None),
    }
}

/// What went wrong, by an answer.
pub open spec fn answer_problem(answer: Answer) -> Option<String> {
    match answer {
        Answer::Pressed(Err(problem)) => Some(problem),
        _ => None,
    }
}

/// Makes an event of an answer. What a failed toggle has to say comes back
/// beside it.
pub fn event_of(answer: Answer) -> (r: (Event, Option<String>))
    ensures
        r == (answer_event(answer), answer_problem(answer)),
{
    match answer {
        Answer::Connected(known) => (Event::Connected(known), None),
        Answer::Voice(changed) => (Event::Voice(changed), None),
        Answer::Lightbar(enabled) => (Event::Lightbar(enabled), None),
        Answer::RumbleTest(wanted) => (Event::RumbleTest(wanted), None),
        Answer::RumbleStrength(strength) => (Event::RumbleStrength(strength), None),
        Answer::Pressed(Ok(state)) => (Event::Pressed(Some(state)), None),
        Answer::Pressed(Err(problem)) => (Event::Pressed(None), Some(problem)),
    }
}

/// Puts a request to the handler, if it is one for the handler: the one
/// callback that the request is about is called, once, and what it answers comes
/// back as the event.
pub fn consult<H: MicButtonHandler>(handler: &mut H, request: Request) -> (r: Option<
    (Event, Option<String>),
>)
    ensures
        r is Some <==> for_handler(request),
        r matches Some((event, problem)) ==> {
            &&& answers(request, event)
            &&& problem is Some <==> event == Event::Pressed(None)
        },
        match request {
            Request::Connect => exists|asked: &mut H, known: Option<VoiceState>|
                #[trigger] call_ensures(H::on_connected, (asked,), known) && *asked == *old(handler)
                    && *final(asked) == *final(handler) && r == Some(
                    (answer_event(Answer::Connected(known)), answer_problem(Answer::Connected(known))),
                ),
            Request::PollVoice => exists|asked: &mut H, changed: Option<VoiceState>|
                #[trigger] call_ensures(H::on_tick, (asked,), changed) && *asked == *old(handler)
                    && *final(asked) == *final(handler) && r == Some(
                    (answer_event(Answer::Voice(changed)), answer_problem(Answer::Voice(changed))),
                ),
            Request::ReadLightbar => exists|enabled: bool|
                #[trigger] call_ensures(H::lightbar_enabled, (&*old(handler),), enabled) && *final(handler)
                    == *old(handler) && r == Some((answer_event(Answer::Lightbar(enabled)), answer_problem(Answer::Lightbar(enabled)))),
            Request::TakeRumbleTest => exists|asked: &mut H, wanted: bool|
                #[trigger] call_ensures(H::take_rumble_test, (asked,), wanted) && *asked == *old(handler)
                    && *final(asked) == *final(handler) && r == Some(
                    (answer_event(Answer::RumbleTest(wanted)), answer_problem(Answer::RumbleTest(wanted))),
                ),
            Request::ReadRumbleStrength => exists|strength: u8|
                #[trigger] call_ensures(H::rumble_strength, (&*old(handler),), strength) && *final(handler)
                    == *old(handler) && r == Some((answer_event(Answer::RumbleStrength(strength)), answer_problem(Answer::RumbleStrength(strength)))),
            Request::Press => exists|asked: &mut H, outcome: Result<VoiceState, String>|
                #[trigger] call_ensures(H::on_press, (asked,), outcome) && *asked == *old(handler)
                    && *final(asked) == *final(handler) && r == Some(
                    (answer_event(Answer::Pressed(outcome)), answer_problem(Answer::Pressed(outcome))),
                ),
            _ => *final(handler) == *old(handler),
        },
{
    match request {
        Request::Connect => Some(event_of(Answer::Connected(handler.on_connected()))),
        Request::PollVoice => Some(event_of(Answer::Voice(handler.on_tick()))),
        Request::ReadLightbar => Some(event_of(Answer::Lightbar(handler.lightbar_enabled()))),
        Request::TakeRumbleTest => Some(event_of(Answer::RumbleTest(handler.take_rumble_test()))),
        Request::ReadRumbleStrength => Some(
            event_of(Answer::RumbleStrength(handler.rumble_strength())),
        ),
        Request::Press => Some(event_of(Answer::Pressed(handler.on_press()))),
        _ => None,
    }
}

/// What a read amounts to at time `now`: nothing arrived, or a report did.
pub fn read_event(report: &[u8], now: u64) -> (r: Event)
    ensures
        r == if report@.len() == 0 {
            Event::Silence(now)
        } else {
            Event::Report(decoded(report@), now)
        },
{
    match InputReport::decode(report) {
        Some(input) => Event::Report(input, now),
        None => Event::Silence(now),
    }
}

/// The buffer that asks for the calibration feature report.
///
/// Over Bluetooth the controller boots into a compatibility mode that only
/// sends a 10-byte report 0x01 - sticks and face buttons, no mic button at
/// all. Reading feature report 0x05 (the calibration blob) is the documented
/// side effect that makes it start sending the full 78-byte report 0x31,
/// which is the only report that carries the mic-button bit.
pub fn calibration_request() -> (r: Vec<u8>)
    ensures
        r@.len() == 64,
        r@[0] == DUALSENSE_CALIBRATION_FEATURE_REPORT,
        forall|i: int| 0 < i < 64 ==> r@[i] == 0,
{
    let mut feature: Vec<u8> = vec![0u8; 64];
    feature.set(0, DUALSENSE_CALIBRATION_FEATURE_REPORT);
    feature
}

} // verus!
