//! What each event means to a session and to the listener, told from outside:
//! what goes in, what comes out, and what stays as it was.

use vstd::prelude::*;
use crate::controller::handler::{answer_event, answer_problem, answers, for_handler, Answer};
use crate::controller::input::InputReport;
use crate::controller::laws::report_at_hand;
use crate::controller::listener::{advance, stage_request, started, Listener, Stage};
use crate::controller::output::{feedback_report, played, rumble_pattern};
use crate::controller::restore::{Restore, RestorePhase, Shown};
use crate::controller::session::{fresh, next, Phase, Session};
use crate::controller::step::{after, elapsed, Event, OutputView, Request, SessionEnd};
use crate::controller::VoiceState;

verus! {

/// Time that passed is the difference of two readings of the clock, and none if
/// the clock went back; a time ahead is the sum, up to the end of the clock.
pub proof fn law_times(earlier: u64, later: u64, nanos: u64)
    ensures
        earlier <= later ==> earlier + elapsed(later, earlier) == later,
        later <= earlier ==> elapsed(later, earlier) == 0,
        earlier + nanos <= u64::MAX ==> after(earlier, nanos) == earlier + nanos,
        earlier + nanos > u64::MAX ==> after(earlier, nanos) == u64::MAX,
{
}

/// Each request has its own answers, and no other event is one.
pub proof fn law_each_request_has_its_answers(event: Event)
    ensures
        answers(Request::CheckStop, event) <==> event is Stop,
        answers(Request::ReadClock, event) <==> event is Clock,
        answers(Request::Open, event) <==> event is Opened || event is OpenFailed,
        answers(Request::Connect, event) <==> event is Connected,
        answers(Request::ReadReport, event) <==> event is Report || event is Silence
            || event is ReadFailed,
        answers(Request::PollVoice, event) <==> event is Voice,
        answers(Request::ReadLightbar, event) <==> event is Lightbar,
        answers(Request::TakeRumbleTest, event) <==> event is RumbleTest,
        answers(Request::ReadRumbleStrength, event) <==> event is RumbleStrength,
        answers(Request::Press, event) <==> event is Pressed,
        !answers(Request::Finish, event),
        !answers(Request::EndSession(SessionEnd::Stopped), event),
        !answers(Request::EndSession(SessionEnd::Disconnected), event),
{
}

/// The handler is asked what only it knows: the voice state, a press, and the
/// settings. The stop flag, the clock and the controller are not its business.
pub proof fn law_what_the_handler_is_asked()
    ensures
        for_handler(Request::Connect),
        for_handler(Request::PollVoice),
        for_handler(Request::ReadLightbar),
        for_handler(Request::TakeRumbleTest),
        for_handler(Request::ReadRumbleStrength),
        for_handler(Request::Press),
        !for_handler(Request::CheckStop),
        !for_handler(Request::ReadClock),
        !for_handler(Request::Open),
        !for_handler(Request::ReadReport),
        !for_handler(Request::Finish),
        !for_handler(Request::EndSession(SessionEnd::Stopped)),
        !for_handler(Request::EndSession(SessionEnd::Disconnected)),
{
}

/// What the handler answers reaches the session as it was answered, and what a
/// failed toggle has to say is kept.
pub proof fn law_answers_pass_through(
    voice: Option<VoiceState>,
    flag: bool,
    strength: u8,
    state: VoiceState,
    problem: String,
)
    ensures
        answer_event(Answer::Connected(voice)) == Event::Connected(voice),
        answer_event(Answer::Voice(voice)) == Event::Voice(voice),
        answer_event(Answer::Lightbar(flag)) == Event::Lightbar(flag),
        answer_event(Answer::RumbleTest(flag)) == Event::RumbleTest(flag),
        answer_event(Answer::RumbleStrength(strength)) == Event::RumbleStrength(strength),
        answer_event(Answer::Pressed(Ok(state))) == Event::Pressed(Some(state)),
        answer_event(Answer::Pressed(Err(problem))) == Event::Pressed(None),
        answer_problem(Answer::Pressed(Err(problem))) == Some(problem),
        answer_problem(Answer::Pressed(Ok(state))) is None,
        answer_problem(Answer::Connected(voice)) is None,
        answer_problem(Answer::Voice(voice)) is None,
        answer_problem(Answer::Lightbar(flag)) is None,
        answer_problem(Answer::RumbleTest(flag)) is None,
        answer_problem(Answer::RumbleStrength(strength)) is None,
{
}

/// A new session looks at the stop flag first, takes the button for released,
/// has seen no battery, starts its numbers at 0 and its times now.
pub proof fn law_new_sessions(now: u64, lightbar: bool, shown: Option<VoiceState>)
    ensures
        ({
            let s = fresh(now, lightbar, shown);
            &&& s.phase == Phase::AwaitStop
            &&& s.phase.spec_request() == Request::CheckStop
            &&& !s.was_pressed
            &&& s.output_seq == 0
            &&& s.report_count == 0
            &&& s.last_report_at == now
            &&& s.last_tick == now
            &&& s.last_battery is None
            &&& s.last_synced == shown
            &&& s.last_lightbar == lightbar
        }),
{
}

/// An answer always moves a session on; it never asks the same of the same
/// report again.
pub proof fn law_answers_move_a_session_on(s: Session, event: Event)
    requires
        answers(s.phase.spec_request(), event),
    ensures
        next(s, event).session.phase != s.phase,
{
}

/// While a session deals with a report, it is that report throughout.
pub proof fn law_a_session_keeps_to_its_report(s: Session, event: Event)
    requires
        report_at_hand(s.phase) is Some,
    ensures
        ({
            let then = report_at_hand(next(s, event).session.phase);
            then is None || then == report_at_hand(s.phase)
        }),
        report_at_hand(next(s, event).session.phase) is None ==> next(s, event).session.phase
            == Phase::AwaitStop,
{
}

/// What a session remembers of time, reports and settings changes only when
/// there is something new to remember.
pub proof fn law_what_a_session_remembers(s: Session, event: Event)
    ensures
        ({
            let t = next(s, event).session;
            let reported = s.phase == Phase::AwaitReport && event is Report;
            &&& !reported ==> t.last_report_at == s.last_report_at
            &&& !reported ==> t.last_tick == s.last_tick
            &&& !reported ==> t.report_count == s.report_count
            &&& t.last_lightbar == if s.phase is AwaitLightbar && event is Lightbar {
                event->Lightbar_0
            } else {
                s.last_lightbar
            }
            &&& t.last_press != s.last_press || t.was_pressed != s.was_pressed ==> s.phase
                is AwaitClock && event is Clock
            &&& t.last_synced != s.last_synced ==> event is Lightbar && (s.phase
                is AwaitSyncLightbar || s.phase is AwaitPressLightbar)
        }),
{
}

/// A stop flag that is up ends the session; otherwise a report is read.
pub proof fn law_stop_flag_in_a_session(s: Session, stop: bool)
    requires
        s.phase == Phase::AwaitStop,
    ensures
        ({
            let n = next(s, Event::Stop(stop));
            &&& n.outputs.len() == 0
            &&& stop ==> n.session.phase == Phase::Ended(SessionEnd::Stopped)
            &&& !stop ==> n.session.phase == Phase::AwaitReport
            &&& !stop ==> n.session.phase.spec_request() == Request::ReadReport
        }),
{
}

/// A report is taken in: it is when the controller was last heard of, and every
/// two seconds or more the voice state is polled first. Every two hundredth
/// report counts as one to speak up about.
pub proof fn law_reports_are_taken_in(s: Session, report: InputReport, now: u64)
    requires
        s.phase == Phase::AwaitReport,
        s.report_count < 200,
    ensures
        ({
            let n = next(s, Event::Report(report, now));
            let due = s.last_tick + 2_000_000_000 <= now;
            &&& n.outputs.len() == 0
            &&& n.session.last_report_at == now
            &&& due ==> n.session.phase == Phase::AwaitVoice(report) && n.session.last_tick == now
            &&& !due ==> n.session.phase == Phase::AwaitLightbar(report) && n.session.last_tick
                == s.last_tick
            &&& n.session.report_count < 200
            &&& n.session.report_count == 0 <==> s.report_count == 199
            &&& s.report_count < 199 ==> n.session.report_count == s.report_count + 1
            &&& due ==> n.session.phase.spec_request() == Request::PollVoice
            &&& !due ==> n.session.phase.spec_request() == Request::ReadLightbar
        }),
{
}

/// Silence is put up with for five seconds since the last report and no longer;
/// a failed read is not put up with at all.
pub proof fn law_silence(s: Session, now: u64)
    requires
        s.phase == Phase::AwaitReport,
    ensures
        ({
            let n = next(s, Event::Silence(now));
            &&& n.outputs.len() == 0
            &&& now > s.last_report_at + 5_000_000_000 ==> n.session.phase == Phase::Ended(
                SessionEnd::Disconnected,
            )
            &&& now <= s.last_report_at + 5_000_000_000 ==> n.session == (Session {
                phase: Phase::AwaitStop,
                ..s
            })
        }),
        next(s, Event::ReadFailed).session.phase == Phase::Ended(SessionEnd::Disconnected),
        next(s, Event::ReadFailed).outputs.len() == 0,
{
}

/// A voice state that moved outside the controller is mirrored: whenever a poll
/// finds a state other than the one that is shown, the report that shows it is
/// written, and it is what is shown from then on.
pub proof fn law_outside_changes_are_mirrored(
    s: Session,
    report: InputReport,
    state: VoiceState,
    lightbar: bool,
)
    requires
        s.phase == Phase::AwaitVoice(report),
        s.last_synced != Some(state),
    ensures
        ({
            let polled = next(s, Event::Voice(Some(state)));
            let mirrored = next(polled.session, Event::Lightbar(lightbar));
            &&& polled.outputs.len() == 0
            &&& polled.session.phase.spec_request() == Request::ReadLightbar
            &&& report.id == 0x01 || report.id == 0x31 ==> mirrored.outputs.len() == 1
                && mirrored.outputs[0] is Write && Some(mirrored.outputs[0]->Write_0)
                == feedback_report(report.id, state, lightbar, s.output_seq)
            &&& report.id != 0x01 && report.id != 0x31 ==> mirrored.outputs.len() == 0
            &&& mirrored.session.last_synced == Some(state)
            &&& mirrored.session.phase == Phase::AwaitLightbar(report)
        }),
{
}

/// A poll that finds nothing new has nothing written.
pub proof fn law_unmoved_states_are_left_alone(
    s: Session,
    report: InputReport,
    polled: Option<VoiceState>,
)
    requires
        s.phase == Phase::AwaitVoice(report),
        polled is None || polled == s.last_synced,
    ensures
        next(s, Event::Voice(polled)).outputs.len() == 0,
        next(s, Event::Voice(polled)).session == (Session {
            phase: Phase::AwaitLightbar(report),
            ..s
        }),
{
}

/// The lightbar setting is looked at with every report. If it was flipped and
/// something is shown, that is written under the new setting; otherwise nothing
/// is.
pub proof fn law_lightbar_setting_is_looked_at(s: Session, report: InputReport, lightbar: bool)
    requires
        s.phase == Phase::AwaitLightbar(report),
    ensures
        ({
            let n = next(s, Event::Lightbar(lightbar));
            let flipped = lightbar != s.last_lightbar && s.last_synced is Some;
            let supported = report.id == 0x01 || report.id == 0x31;
            &&& n.session.phase == Phase::AwaitRumbleTest(report)
            &&& n.session.phase.spec_request() == Request::TakeRumbleTest
            &&& n.session.last_synced == s.last_synced
            &&& n.outputs.len() == if flipped && supported {
                1nat
            } else {
                0nat
            }
            &&& flipped && supported ==> n.outputs[0] is Write && Some(n.outputs[0]->Write_0)
                == feedback_report(report.id, s.last_synced->0, lightbar, s.output_seq)
        }),
{
}

/// A test buzz is asked about with every report, and is the buzz that confirms
/// muting, at the strength that is set.
pub proof fn law_test_buzz(s: Session, report: InputReport, strength: u8)
    ensures
        s.phase == Phase::AwaitRumbleTest(report) ==> {
            let n = next(s, Event::RumbleTest(true));
            &&& n.outputs.len() == 0
            &&& n.session == (Session { phase: Phase::AwaitTestStrength(report), ..s })
            &&& n.session.phase.spec_request() == Request::ReadRumbleStrength
        },
        s.phase == Phase::AwaitTestStrength(report) ==> {
            let n = next(s, Event::RumbleStrength(strength));
            let muting = next(
                Session { phase: Phase::AwaitPressStrength(report, VoiceState::Muted), ..s },
                Event::RumbleStrength(strength),
            );
            let rest = next(
                Session {
                    phase: Phase::AwaitRumbleTest(report),
                    output_seq: muting.session.output_seq,
                    ..s
                },
                Event::RumbleTest(false),
            );
            &&& n.outputs == muting.outputs + rest.outputs
            &&& n.session == rest.session
        },
{
}

/// What a report says is acted on: a battery reading that is news is told, a
/// report that shows the mic button has the clock looked at for it, and one that
/// does not is done with, with a word about it if it is one to speak up about.
pub proof fn law_contents_are_acted_on(s: Session, report: InputReport)
    requires
        s.phase == Phase::AwaitRumbleTest(report),
    ensures
        ({
            let n = next(s, Event::RumbleTest(false));
            let news = report.battery is Some && report.battery != s.last_battery;
            let word = report.pressed is None && s.report_count == 0;
            &&& n.session.last_battery == if news {
                report.battery
            } else {
                s.last_battery
            }
            &&& n.outputs.len() == (if news {
                1nat
            } else {
                0nat
            }) + (if word {
                1nat
            } else {
                0nat
            })
            &&& news ==> n.outputs[0] is Battery && Some(n.outputs[0]->Battery_0) == report.battery
            &&& word ==> n.outputs.last() is Unusable && n.outputs.last()->Unusable_0
                == report.unusable
            &&& report.pressed matches Some(pressed) ==> n.session.phase == Phase::AwaitClock(
                report,
                pressed,
            ) && n.session.phase.spec_request() == Request::ReadClock
            &&& report.pressed is None ==> n.session.phase == Phase::AwaitStop
            &&& n.session.output_seq == s.output_seq
        }),
{
}

/// A button that reads pressed and did not before is a press, for which a toggle
/// is asked. One that goes on reading pressed is not, and is taken for released
/// after 800 milliseconds; one that reads released is.
pub proof fn law_button_readings(s: Session, report: InputReport, pressed: bool, now: u64)
    requires
        s.phase == Phase::AwaitClock(report, pressed),
    ensures
        ({
            let n = next(s, Event::Clock(now));
            &&& n.outputs.len() == 0
            &&& pressed && !s.was_pressed ==> n.session.phase == Phase::AwaitPressed(report)
                && n.session.was_pressed && n.session.last_press == now
                && n.session.phase.spec_request() == Request::Press
            &&& !(pressed && !s.was_pressed) ==> n.session.phase == Phase::AwaitStop
                && n.session.last_press == s.last_press
            &&& !pressed ==> !n.session.was_pressed
            &&& pressed && s.was_pressed ==> n.session.was_pressed == (now <= s.last_press
                + 800_000_000)
        }),
{
}

/// A toggle that went through is shown and then felt: the report that shows the
/// state it led to is written, and the buzz for that state is played at the
/// strength that is set. A toggle that failed is neither.
pub proof fn law_toggles_are_shown_and_felt(
    s: Session,
    report: InputReport,
    state: VoiceState,
    lightbar: bool,
    strength: u8,
)
    requires
        s.phase == Phase::AwaitPressed(report),
    ensures
        ({
            let toggled = next(s, Event::Pressed(Some(state)));
            let shown = next(toggled.session, Event::Lightbar(lightbar));
            let felt = next(shown.session, Event::RumbleStrength(strength));
            let supported = report.id == 0x01 || report.id == 0x31;
            &&& toggled.outputs.len() == 0
            &&& toggled.session.phase.spec_request() == Request::ReadLightbar
            &&& supported ==> shown.outputs.len() == 1 && shown.outputs[0] is Write && Some(
                shown.outputs[0]->Write_0,
            ) == feedback_report(report.id, state, lightbar, s.output_seq)
            &&& !supported ==> shown.outputs.len() == 0
            &&& shown.session.last_synced == Some(state)
            &&& shown.session.phase.spec_request() == Request::ReadRumbleStrength
            &&& felt.outputs == played(
                report.id,
                rumble_pattern(state, strength),
                shown.session.output_seq,
            )
            &&& felt.session.phase == Phase::AwaitStop
            &&& felt.session.last_synced == Some(state)
        }),
        next(s, Event::Pressed(None)).outputs.len() == 0,
        next(s, Event::Pressed(None)).session == (Session { phase: Phase::AwaitStop, ..s }),
{
}

/// A listener starts by looking at the stop flag, having waited for nothing.
pub proof fn law_new_listeners()
    ensures
        started().stage == Stage::AwaitStop,
        stage_request(started().stage) == Request::CheckStop,
        started().waiting_attempts == 0,
{
}

/// An answer always moves the listener on, unless the pause that it is in goes
/// on.
pub proof fn law_answers_move_the_listener_on(l: Listener, event: Event)
    requires
        answers(stage_request(l.stage), event),
        !(l.stage matches Stage::Restoring(r) && r.phase == RestorePhase::Done),
    ensures
        advance(l, event).listener.stage != l.stage,
{
}

/// Without a stop the listener looks for a controller; with one it is finished.
pub proof fn law_listener_looks_for_a_controller(l: Listener, stop: bool)
    requires
        l.stage == Stage::AwaitStop,
    ensures
        advance(l, Event::Stop(stop)).outputs.len() == 0,
        advance(l, Event::Stop(stop)).listener.waiting_attempts == l.waiting_attempts,
        !stop ==> stage_request(advance(l, Event::Stop(stop)).listener.stage) == Request::Open,
        stop ==> stage_request(advance(l, Event::Stop(stop)).listener.stage) == Request::Finish,
{
}

/// A controller that was opened is made known to the handler, and the failed
/// attempts are forgotten.
pub proof fn law_opened_controllers_are_made_known(l: Listener)
    requires
        l.stage == Stage::AwaitOpen,
    ensures
        advance(l, Event::Opened).outputs.len() == 0,
        advance(l, Event::Opened).listener.stage == Stage::AwaitConnected,
        stage_request(advance(l, Event::Opened).listener.stage) == Request::Connect,
        advance(l, Event::Opened).listener.waiting_attempts == 0,
{
}

/// A controller that could not be opened is told of every time, and logged the
/// first time and every twentieth time after; a pause follows.
pub proof fn law_failed_attempts_are_told(l: Listener)
    requires
        l.stage == Stage::AwaitOpen,
        l.waiting_attempts < 20,
    ensures
        ({
            let a = advance(l, Event::OpenFailed);
            &&& a.outputs.len() == 1
            &&& a.outputs[0] == OutputView::Waiting { announce: l.waiting_attempts == 0 }
            &&& a.listener.waiting_attempts < 20
            &&& a.listener.waiting_attempts == 0 <==> l.waiting_attempts == 19
            &&& l.waiting_attempts < 19 ==> a.listener.waiting_attempts == l.waiting_attempts + 1
            &&& a.listener.stage == Stage::AwaitPauseClock
        }),
{
}

/// A pause before the next attempt lasts 750 milliseconds from the moment that
/// it is timed.
pub proof fn law_pauses_last_750_milliseconds(l: Listener, now: u64)
    requires
        l.stage == Stage::AwaitPauseClock,
        now + 750_000_000 <= u64::MAX,
    ensures
        stage_request(l.stage) == Request::ReadClock,
        advance(l, Event::Clock(now)).outputs.len() == 0,
        advance(l, Event::Clock(now)).listener == (Listener {
            stage: Stage::PauseStop(now, (now + 750_000_000) as u64),
            ..l
        }),
{
}

/// A pause ends: at the first look at the clock that is at or past its end,
/// however late it is, it is over, and without a stop a controller is looked for
/// again. Before its end it goes on.
pub proof fn law_pauses_end(l: Listener, deadline: u64, now: u64)
    requires
        l.stage == Stage::PauseClock(deadline),
    ensures
        ({
            let a = advance(l, Event::Clock(now));
            &&& a.outputs.len() == 0
            &&& now >= deadline ==> a.listener.stage == Stage::AwaitStop && stage_request(
                advance(a.listener, Event::Stop(false)).listener.stage,
            ) == Request::Open
            &&& now < deadline ==> a.listener.stage == Stage::PauseStop(now, deadline)
        }),
        stage_request(l.stage) == Request::ReadClock,
{
}

/// Within a pause the listener sleeps for a tenth of a second at most, and never
/// past the end; then it looks at the clock. A stop ends the pause at once.
pub proof fn law_pauses_are_slept_in_slices(l: Listener, now: u64, deadline: u64)
    requires
        l.stage == Stage::PauseStop(now, deadline),
        now < deadline,
    ensures
        ({
            let a = advance(l, Event::Stop(false));
            &&& a.outputs.len() == 1
            &&& a.outputs[0] is Pause
            &&& a.outputs[0]->Pause_0 == if deadline - now < 100_000_000 {
                deadline - now
            } else {
                100_000_000
            }
            &&& a.listener.stage == Stage::PauseClock(deadline)
        }),
        stage_request(l.stage) == Request::CheckStop,
        advance(l, Event::Stop(true)).outputs.len() == 0,
        advance(l, Event::Stop(true)).listener.stage == Stage::AwaitStop,
{
}

/// A controller whose voice state is known is restored before its session; one
/// whose is not goes to its session straight away.
pub proof fn law_known_states_are_restored(
    l: Listener,
    state: VoiceState,
    lightbar: bool,
    now: u64,
)
    requires
        now + 2_000_000_000 <= u64::MAX,
    ensures
        l.stage == Stage::AwaitConnected ==> {
            let known = advance(l, Event::Connected(Some(state)));
            let unknown = advance(l, Event::Connected(None));
            &&& known.outputs.len() == 0
            &&& known.listener.stage == Stage::AwaitRestoreLightbar(state)
            &&& stage_request(known.listener.stage) == Request::ReadLightbar
            &&& unknown.outputs.len() == 0
            &&& unknown.listener.stage == Stage::AwaitSessionClock(None)
            &&& stage_request(unknown.listener.stage) == Request::ReadClock
        },
        l.stage == Stage::AwaitRestoreLightbar(state) ==> {
            let lit = advance(l, Event::Lightbar(lightbar));
            &&& lit.outputs.len() == 0
            &&& lit.listener.stage == Stage::AwaitRestoreClock(state, lightbar)
            &&& stage_request(lit.listener.stage) == Request::ReadClock
        },
        l.stage == Stage::AwaitRestoreClock(state, lightbar) ==> {
            let timed = advance(l, Event::Clock(now));
            &&& timed.outputs.len() == 0
            &&& timed.listener.stage == Stage::Restoring(
                Restore {
                    phase: RestorePhase::AwaitStop,
                    deadline: (now + 2_000_000_000) as u64,
                    state,
                    lightbar,
                },
            )
            &&& stage_request(timed.listener.stage) == Request::CheckStop
        },
{
}

/// A restore reads reports until one shows the mic button, writes what mirrors
/// its state in that report's format, and is over. It is also over at its
/// deadline, at a stop and at a failed read, without writing anything.
pub proof fn law_restores(l: Listener, r: Restore, report: InputReport, now: u64)
    requires
        l.stage == Stage::Restoring(r),
    ensures
        r.phase == RestorePhase::AwaitStop ==> {
            let go = advance(l, Event::Stop(false));
            let stop = advance(l, Event::Stop(true));
            &&& go.outputs.len() == 0
            &&& go.listener.stage == Stage::Restoring(
                Restore { phase: RestorePhase::AwaitReport, ..r },
            )
            &&& stage_request(go.listener.stage) == Request::ReadReport
            &&& stop.outputs.len() == 0
            &&& stop.listener.stage == Stage::AwaitSessionClock(None)
        },
        r.phase == RestorePhase::AwaitReport ==> {
            let read = advance(l, Event::Report(report, now));
            let silent = advance(l, Event::Silence(now));
            let failed = advance(l, Event::ReadFailed);
            let again = Stage::Restoring(Restore { phase: RestorePhase::AwaitStop, ..r });
            let supported = report.id == 0x01 || report.id == 0x31;
            &&& report.pressed is Some && supported ==> read.outputs.len() == 1
                && read.outputs[0] is Write && Some(read.outputs[0]->Write_0) == feedback_report(
                report.id,
                r.state,
                r.lightbar,
                0,
            ) && read.listener.stage == Stage::AwaitSessionClock(
                Some(Shown { state: r.state, lightbar: r.lightbar }),
            )
            &&& report.pressed is Some && !supported ==> read.outputs.len() == 0
                && read.listener.stage == Stage::AwaitSessionClock(None)
            &&& report.pressed is None ==> read.outputs.len() == 0 && read.listener.stage == if now
                < r.deadline {
                again
            } else {
                Stage::AwaitSessionClock(None)
            }
            &&& silent.outputs.len() == 0
            &&& silent.listener.stage == if now < r.deadline {
                again
            } else {
                Stage::AwaitSessionClock(None)
            }
            &&& failed.outputs.len() == 0
            &&& failed.listener.stage == Stage::AwaitSessionClock(None)
        },
{
}

/// A session that no restore came before starts under the lightbar setting of
/// that moment, with nothing shown.
pub proof fn law_sessions_start(l: Listener, now: u64, lightbar: bool)
    ensures
        l.stage == Stage::AwaitSessionClock(None) ==> advance(l, Event::Clock(now)).listener.stage
            == Stage::AwaitSessionLightbar(now) && advance(l, Event::Clock(now)).outputs.len()
            == 0 && stage_request(advance(l, Event::Clock(now)).listener.stage)
            == Request::ReadLightbar,
        l.stage == Stage::AwaitSessionLightbar(now) ==> {
            let a = advance(l, Event::Lightbar(lightbar));
            &&& a.outputs.len() == 0
            &&& a.listener.stage is InSession
            &&& a.listener.stage->InSession_0.last_lightbar == lightbar
            &&& a.listener.stage->InSession_0.last_synced is None
            &&& a.listener.stage->InSession_0.last_report_at == now
        },
{
}

/// While a session lasts the listener asks what the session asks and puts out
/// what it puts out. When it ends the handler is told that the controller is
/// gone; a stop then finishes the listener, and a lost controller leads to a
/// pause.
pub proof fn law_sessions_run_in_the_listener(l: Listener, s: Session, event: Event)
    requires
        l.stage == Stage::InSession(s),
    ensures
        stage_request(l.stage) == s.phase.spec_request(),
        ({
            let a = advance(l, event);
            let n = next(s, event);
            &&& a.listener.waiting_attempts == l.waiting_attempts
            &&& !(n.session.phase is Ended) ==> a.listener.stage == Stage::InSession(n.session)
                && a.outputs == n.outputs
            &&& n.session.phase is Ended ==> a.outputs.len() == n.outputs.len() + 1
                && a.outputs.last() == OutputView::Disconnected && a.outputs.drop_last()
                == n.outputs
            &&& n.session.phase == Phase::Ended(SessionEnd::Stopped) ==> a.listener.stage
                == Stage::Finished
            &&& n.session.phase == Phase::Ended(SessionEnd::Disconnected) ==> a.listener.stage
                == Stage::AwaitPauseClock
        }),
{
    let n = next(s, event);
    assert(n.outputs.push(OutputView::Disconnected).drop_last() =~= n.outputs);
}

/// A finished listener stays finished, and silent.
pub proof fn law_finished_is_finished(l: Listener, event: Event)
    requires
        l.stage == Stage::Finished,
    ensures
        advance(l, event).listener == l,
        advance(l, event).outputs.len() == 0,
        stage_request(l.stage) == Request::Finish,
{
}

/// At the end of the clock there is no time left: a restore is over before it
/// began and so is a pause; shortly before, both last until the end.
pub proof fn law_the_end_of_the_clock(l: Listener, state: VoiceState, lightbar: bool, now: u64)
    ensures
        l.stage == Stage::AwaitRestoreClock(state, lightbar) && now + 2_000_000_000 > u64::MAX
            ==> advance(l, Event::Clock(now)).listener.stage == if now == u64::MAX {
            Stage::AwaitSessionClock(None)
        } else {
            Stage::Restoring(
                Restore {
                    phase: RestorePhase::AwaitStop,
                    deadline: u64::MAX,
                    state,
                    lightbar,
                },
            )
        },
        l.stage == Stage::AwaitPauseClock && now + 750_000_000 > u64::MAX ==> advance(
            l,
            Event::Clock(now),
        ).listener.stage == if now == u64::MAX {
            Stage::AwaitStop
        } else {
            Stage::PauseStop(now, u64::MAX)
        },
{
}

/// The number of Bluetooth reports goes up with each report that shows a state,
/// and is left alone over USB.
pub proof fn law_reports_are_numbered(s: Session, report: InputReport, state: VoiceState, on: bool)
    requires
        s.phase == Phase::AwaitSyncLightbar(report, state) || s.phase == Phase::AwaitPressLightbar(
            report,
            state,
        ),
        s.output_seq < 16,
    ensures
        ({
            let number = next(s, Event::Lightbar(on)).session.output_seq;
            &&& report.id == 0x31 && s.output_seq < 15 ==> number == s.output_seq + 1
            &&& report.id == 0x31 && s.output_seq == 15 ==> number == 0
            &&& report.id != 0x31 ==> number == s.output_seq
        }),
{
}

/// A restore that shows what it was for hands that on to the session: it starts
/// with that state shown, under that setting.
pub proof fn law_sessions_go_on_from_a_restore(l: Listener, shown: Shown, now: u64)
    requires
        l.stage == Stage::AwaitSessionClock(Some(shown)),
    ensures
        ({
            let a = advance(l, Event::Clock(now));
            &&& a.outputs.len() == 0
            &&& a.listener.stage is InSession
            &&& a.listener.stage->InSession_0.last_synced == Some(shown.state)
            &&& a.listener.stage->InSession_0.last_lightbar == shown.lightbar
            &&& a.listener.stage->InSession_0.last_report_at == now
            &&& a.listener.stage->InSession_0.phase == Phase::AwaitStop
        }),
{
}

/// A buzz leaves the numbers of Bluetooth reports where its own reports took them.
pub proof fn law_buzzes_are_numbered(
    s: Session,
    report: InputReport,
    state: VoiceState,
    strength: u8,
)
    requires
        s.phase == Phase::AwaitPressStrength(report, state),
        s.output_seq < 16,
        strength > 0,
    ensures
        ({
            let number = next(s, Event::RumbleStrength(strength)).session.output_seq;
            &&& report.id == 0x31 && state == VoiceState::Live ==> number == (s.output_seq + 4) % 16
            &&& report.id == 0x31 && state != VoiceState::Live ==> number == (s.output_seq + 2) % 16
            &&& report.id == 0x01 ==> number == s.output_seq
        }),
        next(s, Event::RumbleStrength(0)).session.output_seq == s.output_seq,
        next(s, Event::RumbleStrength(0)).outputs.len() == 0,
{
    crate::controller::output::law_numbers_after_many(s.output_seq, 4);
    crate::controller::output::law_numbers_after_many(s.output_seq, 2);
    reveal_with_fuel(crate::controller::output::seq_after_many, 2);
}

/// A lightbar setting that is flipped is remembered, and what is written for it is
/// numbered like anything else.
pub proof fn law_flipped_settings_are_numbered(s: Session, report: InputReport, on: bool)
    requires
        s.phase == Phase::AwaitLightbar(report),
        s.output_seq < 16,
    ensures
        ({
            let t = next(s, Event::Lightbar(on)).session;
            let written = on != s.last_lightbar && s.last_synced is Some && report.id == 0x31;
            &&& t.last_lightbar == on
            &&& written ==> t.output_seq == (s.output_seq + 1) % 16
            &&& !written ==> t.output_seq == s.output_seq
        }),
{
}

} // verus!
