//! Calls on the controller's side.

use vstd::prelude::*;
use crate::controller::device::{choose_dualsense, is_dualsense, without_sony, DeviceInfo};
use crate::controller::handler::{calibration_request, consult, read_event, MicButtonHandler};
use crate::controller::input::{battery_state, mic_button_state, InputReport, MicButtonState};
use crate::controller::listener::{Listener, Stage};
use crate::controller::notes::{note, Note};
use crate::controller::output::{sync_feedback, Purpose, UnsupportedReportId};
use crate::controller::restore::{Restore, RestorePhase};
use crate::controller::session::{Phase, Session};
use crate::controller::step::{views, Event, Request, SessionEnd, Step};
use crate::controller::{Battery, ChargeState, VoiceState};

verus! {

/// A listener starts by asking whether it is to stop.
pub proof fn law_new_listener(listener: Listener, request: Request)
    requires
        call_ensures(Listener::new, (), listener),
        call_ensures(Listener::request, (&listener,), request),
    ensures
        request == Request::CheckStop,
{
}

/// What a step asks for next is what the listener asks for from then on.
pub proof fn law_steps_ask_what_the_listener_asks(
    listener: &mut Listener,
    event: Event,
    step: Step,
    request: Request,
)
    requires
        call_ensures(Listener::step, (listener, event), step),
        call_ensures(Listener::request, (&*final(listener),), request),
    ensures
        step.request == request,
{
}

/// A look at the clock that is at or past the end of a pause ends it, however
/// late it comes; any other leaves it going.
pub proof fn law_a_pause_ends_when_its_time_has_come(
    listener: &mut Listener,
    deadline: u64,
    now: u64,
    step: Step,
)
    requires
        old(listener).stage == Stage::PauseClock(deadline),
        call_ensures(Listener::step, (listener, Event::Clock(now)), step),
    ensures
        step.outputs@.len() == 0,
        step.request == Request::CheckStop,
        now >= deadline ==> final(listener).stage == Stage::AwaitStop,
        now < deadline ==> final(listener).stage == Stage::PauseStop(now, deadline),
{
    assert(views(step.outputs@).len() == step.outputs@.len());
}

/// In a pause the listener sleeps until its end, for a tenth of a second at most,
/// unless it is to stop.
pub proof fn law_a_pause_is_slept_through(
    listener: &mut Listener,
    now: u64,
    deadline: u64,
    stop: bool,
    step: Step,
)
    requires
        old(listener).stage == Stage::PauseStop(now, deadline),
        now < deadline,
        call_ensures(Listener::step, (listener, Event::Stop(stop)), step),
    ensures
        stop ==> step.outputs@.len() == 0,
        !stop ==> step.outputs@.len() == 1 && step.outputs@[0] is Pause
            && step.outputs@[0]->Pause_0 <= 100_000_000 && step.outputs@[0]->Pause_0 <= deadline
            - now && (step.outputs@[0]->Pause_0 == 100_000_000 || step.outputs@[0]->Pause_0
            == deadline - now),
        !stop ==> step.request == Request::ReadClock,
        stop ==> step.request == Request::CheckStop,
{
    assert(views(step.outputs@).len() == step.outputs@.len());
    if !stop {
        assert(views(step.outputs@)[0] == step.outputs@[0]@);
    }
}

/// Without a controller the listener says so and times a pause; with one it makes
/// it known.
pub proof fn law_attempts_to_open(listener: &mut Listener, opened: bool, step: Step)
    requires
        old(listener).stage == Stage::AwaitOpen,
        old(listener).waiting_attempts < 20,
        call_ensures(
            Listener::step,
            (
                listener,
                if opened {
                    Event::Opened
                } else {
                    Event::OpenFailed
                },
            ),
            step,
        ),
    ensures
        opened ==> step.outputs@.len() == 0 && step.request == Request::Connect,
        !opened ==> step.outputs@.len() == 1 && step.outputs@[0] is Waiting
            && step.outputs@[0]->announce == (old(listener).waiting_attempts == 0)
            && step.request == Request::ReadClock,
{
    assert(views(step.outputs@).len() == step.outputs@.len());
    if !opened {
        assert(views(step.outputs@)[0] == step.outputs@[0]@);
    }
}

/// A session that ends has the handler told that the controller is gone, and
/// leads on to a new attempt unless it was stopped.
pub proof fn law_ended_sessions(
    listener: &mut Listener,
    session: Session,
    failed: bool,
    step: Step,
)
    requires
        old(listener).stage == Stage::InSession(session),
        failed ==> session.phase == Phase::AwaitReport,
        !failed ==> session.phase == Phase::AwaitStop,
        call_ensures(
            Listener::step,
            (
                listener,
                if failed {
                    Event::ReadFailed
                } else {
                    Event::Stop(true)
                },
            ),
            step,
        ),
    ensures
        step.outputs@.len() == 1,
        step.outputs@[0] is Disconnected,
        failed ==> step.request == Request::ReadClock,
        !failed ==> step.request == Request::Finish,
{
    assert(views(step.outputs@).len() == step.outputs@.len());
    assert(views(step.outputs@)[0] == step.outputs@[0]@);
}

/// A poll that finds another voice state than the one that is shown goes on to
/// show it, whatever is shown; one that finds the same, or nothing, does not.
pub proof fn law_a_moved_voice_state_is_shown(
    session: &mut Session,
    report: InputReport,
    polled: Option<VoiceState>,
    step: Step,
)
    requires
        old(session).phase == Phase::AwaitVoice(report),
        call_ensures(Session::step, (session, Event::Voice(polled)), step),
    ensures
        step.outputs@.len() == 0,
        step.request == Request::ReadLightbar,
        polled is Some && old(session).last_synced != polled ==> final(session).phase
            == Phase::AwaitSyncLightbar(report, polled->0),
        polled is None || old(session).last_synced == polled ==> final(session).phase
            == Phase::AwaitLightbar(report),
{
    assert(views(step.outputs@).len() == step.outputs@.len());
}

/// What a session writes to show a voice state is what is built for that state,
/// under the setting of that moment.
pub proof fn law_what_is_shown_is_built_for_the_state(
    session: &mut Session,
    report: InputReport,
    state: VoiceState,
    lightbar: bool,
    number: &mut u8,
    built: Result<Vec<u8>, UnsupportedReportId>,
    step: Step,
)
    requires
        old(session).phase == Phase::AwaitSyncLightbar(report, state) || old(session).phase
            == Phase::AwaitPressLightbar(report, state),
        call_ensures(Session::step, (session, Event::Lightbar(lightbar)), step),
        *old(number) == old(session).output_seq,
        call_ensures(sync_feedback, (report.id, state, lightbar, number), built),
    ensures
        built is Ok ==> step.outputs@.len() == 1 && step.outputs@[0] is Write
            && step.outputs@[0]->Write_0@ == built->Ok_0@,
        built is Err ==> step.outputs@.len() == 0,
        built is Ok <==> report.id == 0x01 || report.id == 0x31,
        final(session).output_seq == *final(number),
        final(session).last_synced == Some(state),
{
    assert(views(step.outputs@).len() == step.outputs@.len());
    if built is Ok {
        assert(views(step.outputs@)[0] == step.outputs@[0]@);
    }
}

/// The mic button of a report is bit 2 of byte 10 over USB and of byte 11 over
/// Bluetooth, wherever else bits are set.
pub proof fn law_the_button_of_a_report(
    report: &[u8],
    input: Option<InputReport>,
    mic: Option<MicButtonState>,
)
    requires
        call_ensures(InputReport::decode, (report,), input),
        call_ensures(mic_button_state, (report,), mic),
    ensures
        input is None <==> report@.len() == 0,
        report@.len() > 0 ==> input->0.id == report@[0],
        report@.len() > 10 && report@[0] == 0x01 ==> input->0.pressed == Some(
            report@[10] & 0x04 != 0,
        ) && mic is Some && mic->0.byte == 10 && mic->0.transport@ == "USB report 0x01"@,
        report@.len() > 11 && report@[0] == 0x31 ==> input->0.pressed == Some(
            report@[11] & 0x04 != 0,
        ) && mic is Some && mic->0.byte == 11 && mic->0.transport@ == "Bluetooth report 0x31"@,
        mic matches Some(m) ==> input is Some && input->0.pressed == Some(m.pressed) && m.value
            == report@[m.byte as int],
        report@.len() > 0 && mic is None ==> input->0.pressed is None,
        report@.len() <= 10 || (report@[0] != 0x01 && report@[0] != 0x31) ==> mic is None,
{
}

/// The battery of a report is what its battery byte says, and the report says it
/// on.
pub proof fn law_the_battery_of_a_report(
    report: &[u8],
    input: Option<InputReport>,
    battery: Option<Battery>,
)
    requires
        call_ensures(InputReport::decode, (report,), input),
        call_ensures(battery_state, (report,), battery),
    ensures
        report@.len() > 0 ==> input->0.battery == battery,
        report@.len() > 53 && report@[0] == 0x01 ==> battery is Some,
        report@.len() > 54 && report@[0] == 0x31 ==> battery is Some,
        report@.len() <= 53 || (report@[0] != 0x01 && report@[0] != 0x31) ==> battery is None,
        battery matches Some(b) ==> {
            let status = if report@[0] == 0x01 {
                report@[53]
            } else {
                report@[54]
            };
            &&& status < 0x10 <==> b.state == ChargeState::Discharging
            &&& 0x10 <= status < 0x20 <==> b.state == ChargeState::Charging
            &&& 0x20 <= status < 0x30 <==> b.state == ChargeState::Full
            &&& b.state != ChargeState::Full && status % 16 < 10 ==> b.percent == 10 * (status % 16)
                + 5
            &&& b.state == ChargeState::Full || status % 16 >= 10 ==> b.percent == 100
        },
{
}

/// A read that brought bytes is the report in them, and one that brought none is
/// silence, at the time of the read.
pub proof fn law_reads_of_the_controller(
    report: &[u8],
    now: u64,
    input: Option<InputReport>,
    event: Event,
)
    requires
        call_ensures(InputReport::decode, (report,), input),
        call_ensures(read_event, (report, now), event),
    ensures
        report@.len() == 0 ==> event == Event::Silence(now),
        report@.len() > 0 ==> event == Event::Report(input->0, now),
{
}

/// The calibration is asked for by its number, 5, and 63 zeros.
pub proof fn law_the_calibration_request(request: Vec<u8>, i: int)
    requires
        call_ensures(calibration_request, (), request),
        0 <= i < 64,
    ensures
        request@.len() == 64,
        request@[i] == if i == 0 {
            0x05u8
        } else {
            0u8
        },
{
}

/// A handler is asked about its own affairs only, and answers with what it was
/// asked about.
pub proof fn law_handlers_answer_what_they_are_asked<H: MicButtonHandler>(
    handler: &mut H,
    request: Request,
    answer: Option<(Event, Option<String>)>,
)
    requires
        call_ensures(consult::<H>, (handler, request), answer),
    ensures
        request == Request::Connect ==> answer is Some && (answer->0).0 is Connected,
        request == Request::PollVoice ==> answer is Some && (answer->0).0 is Voice,
        request == Request::ReadLightbar ==> answer is Some && (answer->0).0 is Lightbar
            && *final(handler) == *old(handler),
        request == Request::TakeRumbleTest ==> answer is Some && (answer->0).0 is RumbleTest,
        request == Request::ReadRumbleStrength ==> answer is Some && (answer->0).0 is RumbleStrength
            && *final(handler) == *old(handler),
        request == Request::Press ==> answer is Some && (answer->0).0 is Pressed,
        answer is Some ==> ((answer->0).1 is Some <==> (answer->0).0 == Event::Pressed(None)),
        request == Request::CheckStop || request == Request::ReadClock || request == Request::Open
            || request == Request::ReadReport || request == Request::Finish ==> answer is None
            && *final(handler) == *old(handler),
{
}

/// What a press came to is what the handler said of it: a failed toggle is no
/// voice state, and a voice state is no failed toggle.
pub proof fn law_presses_are_answered_by_the_handler<H: MicButtonHandler>(
    handler: &mut H,
    answer: Option<(Event, Option<String>)>,
)
    requires
        call_ensures(consult::<H>, (handler, Request::Press), answer),
    ensures
        exists|asked: &mut H, outcome: Result<VoiceState, String>| #[trigger]
            call_ensures(H::on_press, (asked,), outcome) && *asked == *old(handler) && *final(asked)
                == *final(handler) && (outcome is Ok ==> answer == Some(
                (Event::Pressed(Some(outcome->Ok_0)), None::<String>),
            )) && (outcome is Err ==> answer == Some(
                (Event::Pressed(None), Some(outcome->Err_0)),
            )),
{
}

/// The controller is the first Sony device that is called a DualSense, else the
/// first that Sony made; without one of Sony's there is none.
pub proof fn law_which_device_is_taken(devices: &Vec<DeviceInfo>, chosen: Option<usize>, j: int)
    requires
        call_ensures(choose_dualsense, (devices,), chosen),
        0 <= j < devices@.len(),
    ensures
        chosen is None ==> devices@[j].vendor_id != 0x054c,
        chosen matches Some(i) ==> {
            &&& i < devices@.len()
            &&& devices@[i as int].vendor_id == 0x054c
            &&& is_dualsense(devices@[j]) ==> is_dualsense(devices@[i as int])
            &&& j < i ==> !is_dualsense(devices@[j])
            &&& j < i && devices@[j].vendor_id == 0x054c ==> is_dualsense(devices@[i as int])
        },
{
    if chosen is None {
        assert(without_sony(devices@));
    }
}

/// A device is a DualSense if Sony made it and its name says so somewhere, in
/// capitals or not.
pub proof fn law_what_a_dualsense_is(device: DeviceInfo, i: int)
    ensures
        is_dualsense(device) ==> device.vendor_id == 0x054c && device.product is Some,
        device.vendor_id == 0x054c && device.product is Some
            && crate::text::occurs_ignoring_case(device.product->0@, "dualsense"@, i)
            ==> is_dualsense(device),
        device.product is Some && (forall|k: int|
            !crate::text::occurs_ignoring_case(device.product->0@, "dualsense"@, k))
            ==> !is_dualsense(device),
{
}

/// Whatever would be written to a controller that has no output format is noted
/// instead, for what it was; nothing is noted where it is written.
pub proof fn law_outputs_without_a_format_are_noted(
    listener: &Listener,
    session: Session,
    report: InputReport,
    state: VoiceState,
    lightbar: bool,
    strength: u8,
    noted: Option<Note>,
)
    requires
        listener.stage == Stage::InSession(session),
    ensures
        ({
            let known = report.id == 0x01 || report.id == 0x31;
            let feedback = Some(
                Note::Unsupported(
                    UnsupportedReportId { id: report.id, purpose: Purpose::Feedback },
                ),
            );
            let rumble = Some(
                Note::Unsupported(UnsupportedReportId { id: report.id, purpose: Purpose::Rumble }),
            );
            let lit = call_ensures(note, (listener, Event::Lightbar(lightbar)), noted);
            let felt = call_ensures(note, (listener, Event::RumbleStrength(strength)), noted);
            let shows = session.phase == Phase::AwaitSyncLightbar(report, state) || session.phase
                == Phase::AwaitPressLightbar(report, state);
            let flips = session.phase == Phase::AwaitLightbar(report);
            let flipped = lightbar != session.last_lightbar && session.last_synced is Some;
            let buzzes = session.phase == Phase::AwaitTestStrength(report) || session.phase
                == Phase::AwaitPressStrength(report, state);
            &&& lit && shows ==> noted == if known {
                None
            } else {
                feedback
            }
            &&& lit && flips ==> noted == if known || !flipped {
                None
            } else {
                feedback
            }
            &&& felt && buzzes ==> noted == if known || strength == 0 {
                None
            } else {
                rumble
            }
        }),
{
}

/// A restore that runs out of time is noted, and one that goes on or is done is
/// not; neither is silence that a session puts up with.
pub proof fn law_restores_that_run_out_are_noted(
    listener: &Listener,
    restore: Restore,
    report: InputReport,
    now: u64,
    noted: Option<Note>,
)
    requires
        listener.stage == Stage::Restoring(restore),
        restore.phase == RestorePhase::AwaitReport,
    ensures
        call_ensures(note, (listener, Event::Silence(now)), noted) ==> noted == if now
            >= restore.deadline {
            Some(Note::RestoreTimedOut)
        } else {
            None
        },
        call_ensures(note, (listener, Event::Report(report, now)), noted) && report.pressed is None
            ==> noted == if now >= restore.deadline {
            Some(Note::RestoreTimedOut)
        } else {
            None
        },
        call_ensures(note, (listener, Event::Report(report, now)), noted) && report.pressed is Some
            ==> noted == if report.id == 0x01 || report.id == 0x31 {
            None
        } else {
            Some(
                Note::Unsupported(
                    UnsupportedReportId { id: report.id, purpose: Purpose::Feedback },
                ),
            )
        },
        call_ensures(note, (listener, Event::ReadFailed), noted) ==> noted is None,
{
}

/// A button that reads pressed for over 800 milliseconds and silence of over five
/// seconds are noted.
pub proof fn law_long_waits_are_noted(
    listener: &Listener,
    session: Session,
    report: InputReport,
    pressed: bool,
    now: u64,
    noted: Option<Note>,
)
    requires
        listener.stage == Stage::InSession(session),
    ensures
        call_ensures(note, (listener, Event::Clock(now)), noted) && session.phase
            == Phase::AwaitClock(report, pressed) ==> noted == if pressed && session.was_pressed
            && now > session.last_press + 800_000_000 {
            Some(Note::StillPressed)
        } else {
            None
        },
        call_ensures(note, (listener, Event::Silence(now)), noted) && session.phase
            == Phase::AwaitReport ==> noted == if now > session.last_report_at + 5_000_000_000 {
            Some(Note::NoReports)
        } else {
            None
        },
{
}

/// How the notes read.
pub proof fn law_notes_read(error: UnsupportedReportId, text: String, what: String)
    ensures
        call_ensures(Note::message, (Note::StillPressed,), text) ==> text@
            == "Mic button still reads pressed after 800ms; resetting edge detector."@,
        call_ensures(Note::message, (Note::NoReports,), text) ==> text@
            == "No controller reports for 5s; treating the controller as gone."@,
        call_ensures(Note::message, (Note::RestoreTimedOut,), text) ==> text@
            == "Warning: timed out restoring controller feedback after reconnect."@,
        call_ensures(UnsupportedReportId::message, (error,), what) && call_ensures(
            Note::message,
            (Note::Unsupported(error),),
            text,
        ) ==> text@ == (match error.purpose {
            Purpose::Feedback => "Warning: could not update controller feedback: "@,
            Purpose::Rumble => "Warning: could not send rumble: "@,
        }) + what@,
        call_ensures(UnsupportedReportId::message, (error,), what) ==> what@
            == "unsupported input report id 0x"@ + crate::text::hex_text(error.id) + (
        match error.purpose {
            Purpose::Feedback => " for feedback output"@,
            Purpose::Rumble => " for rumble output"@,
        }),
{
}

/// Deafening outranks muting; the LED is lit whenever one cannot be heard.
pub proof fn law_flags_and_lights(
    mute: bool,
    deaf: bool,
    state: VoiceState,
    lit: bool,
    colour: (u8, u8, u8),
)
    requires
        call_ensures(VoiceState::from_flags, (mute, deaf), state),
        call_ensures(VoiceState::mic_led_on, (state,), lit),
        call_ensures(VoiceState::lightbar, (state,), colour),
    ensures
        lit == (mute || deaf),
        deaf ==> state == VoiceState::Deafened && colour == (140u8, 40u8, 0u8),
        mute && !deaf ==> state == VoiceState::Muted && colour == (130u8, 0u8, 0u8),
        !mute && !deaf ==> state == VoiceState::Live && colour == (0u8, 80u8, 24u8),
{
}

/// The output of a session that ended tells which end it was.
pub proof fn law_requests_at_the_end(phase: Phase, end: SessionEnd, request: Request)
    requires
        call_ensures(Phase::request, (phase,), request),
        phase == Phase::Ended(end),
    ensures
        request == Request::EndSession(end),
{
}

/// A battery reading that is news is told as it is, and a report without the
/// button is spoken up about, with what is wrong with it, when it is its turn.
pub proof fn law_what_a_report_says_is_told(session: &mut Session, report: InputReport, step: Step)
    requires
        old(session).phase == Phase::AwaitRumbleTest(report),
        call_ensures(Session::step, (session, Event::RumbleTest(false)), step),
    ensures
        ({
            let news = report.battery is Some && report.battery != old(session).last_battery;
            let word = report.pressed is None && old(session).report_count == 0;
            &&& step.outputs@.len() == (if news {
                1int
            } else {
                0int
            }) + (if word {
                1int
            } else {
                0int
            })
            &&& news ==> step.outputs@[0] is Battery && Some(step.outputs@[0]->Battery_0)
                == report.battery
            &&& word ==> step.outputs@.last() is Unusable && step.outputs@.last()->Unusable_0
                == report.unusable
            &&& report.pressed is Some <==> step.request == Request::ReadClock
            &&& report.pressed is None <==> step.request == Request::CheckStop
        }),
{
    let shown = views(step.outputs@);
    assert(shown.len() == step.outputs@.len());
    if shown.len() > 0 {
        assert(shown[0] == step.outputs@[0]@);
        assert(shown.last() == step.outputs@.last()@);
    }
}

/// A toggle that went through is shown, one that failed is not; either way the
/// press is over with it.
pub proof fn law_what_comes_of_a_press(
    session: &mut Session,
    report: InputReport,
    state: Option<VoiceState>,
    step: Step,
)
    requires
        old(session).phase == Phase::AwaitPressed(report),
        call_ensures(Session::step, (session, Event::Pressed(state)), step),
    ensures
        step.outputs@.len() == 0,
        state is Some ==> step.request == Request::ReadLightbar && final(session).phase
            == Phase::AwaitPressLightbar(report, state->0),
        state is None ==> step.request == Request::CheckStop,
{
    assert(views(step.outputs@).len() == step.outputs@.len());
}

/// A button that reads pressed for the first time has a toggle asked for; one
/// that went on reading so, or reads released, does not.
pub proof fn law_when_a_toggle_is_asked_for(
    session: &mut Session,
    report: InputReport,
    pressed: bool,
    now: u64,
    step: Step,
)
    requires
        old(session).phase == Phase::AwaitClock(report, pressed),
        call_ensures(Session::step, (session, Event::Clock(now)), step),
    ensures
        step.outputs@.len() == 0,
        step.request == Request::Press <==> pressed && !old(session).was_pressed,
        step.request == Request::CheckStop <==> !(pressed && !old(session).was_pressed),
        !pressed ==> !final(session).was_pressed,
{
    assert(views(step.outputs@).len() == step.outputs@.len());
}

/// A read of the controller waits a quarter of a second, and a hundredth of one
/// follows an empty one; without a controller it is said how to get one.
pub proof fn law_reads_are_timed()
    ensures
        crate::controller::handler::READ_TIMEOUT_MS == 250,
        crate::controller::handler::EMPTY_READ_PAUSE == 10_000_000,
        crate::controller::device::NO_DEVICE@
            == "no Sony HID device found; connect the DualSense over USB or Bluetooth"@,
{
}

} // verus!
