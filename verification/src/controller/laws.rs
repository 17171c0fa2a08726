//! What holds of the listener and its sessions as a whole.

use vstd::prelude::*;
use crate::controller::handler::answers;
use crate::controller::input::InputReport;
use crate::controller::listener::{
    advance, moved, stage_request, started, Advance, Listener, Stage,
};
use crate::controller::output::{
    feedback_report, played, rumble_pattern, seq_after_many, written, Pulse,
};
use crate::controller::restore::{RestorePhase, Shown};
use crate::controller::session::{
    buzz, fresh, next, quietly, Phase, Session, HELD_TOO_LONG, REPORT_STALE_AFTER,
};
use crate::controller::step::{elapsed, Event, OutputView, Request, SessionEnd};
use crate::controller::VoiceState;

verus! {

/// A session after a run of events.
pub open spec fn session_run(s: Session, events: Seq<Event>) -> Session
    decreases events.len(),
{
    if events.len() == 0 {
        s
    } else {
        next(session_run(s, events.drop_last()), events.last()).session
    }
}

/// A listener after a run of events.
pub open spec fn listener_run(l: Listener, events: Seq<Event>) -> Listener
    decreases events.len(),
{
    if events.len() == 0 {
        l
    } else {
        advance(listener_run(l, events.drop_last()), events.last()).listener
    }
}

proof fn lemma_seq_after_many_in_nibble(input_id: u8, seq_number: u8, n: nat)
    requires
        seq_number < 16,
    ensures
        seq_after_many(input_id, seq_number, n) < 16,
    decreases n,
{
    if n > 0 {
        lemma_seq_after_many_in_nibble(input_id, seq_number, (n - 1) as nat);
    }
}

proof fn lemma_played_kinds(input_id: u8, pulses: Seq<Pulse>, seq_number: u8)
    ensures
        forall|i: int|
            0 <= i < played(input_id, pulses, seq_number).len() ==> {
                let o = #[trigger] played(input_id, pulses, seq_number)[i];
                o is Write || o is Pause
            },
    decreases pulses.len(),
{
    if pulses.len() > 0 {
        lemma_played_kinds(input_id, pulses.drop_last(), seq_number);
    }
}

/// A buzz only writes and pauses.
proof fn lemma_buzz_kinds(s: Session, event: Event)
    ensures
        match (s.phase, event) {
            (Phase::AwaitTestStrength(report), Event::RumbleStrength(strength)) => forall|i: int|
                0 <= i < buzz(s, report, VoiceState::Muted, strength).len() ==> {
                    let o = #[trigger] buzz(s, report, VoiceState::Muted, strength)[i];
                    o is Write || o is Pause
                },
            (Phase::AwaitPressStrength(report, state), Event::RumbleStrength(strength)) => forall|
                i: int,
            |
                0 <= i < buzz(s, report, state, strength).len() ==> {
                    let o = #[trigger] buzz(s, report, state, strength)[i];
                    o is Write || o is Pause
                },
            _ => true,
        },
{
    match (s.phase, event) {
        (Phase::AwaitTestStrength(report), Event::RumbleStrength(strength)) => {
            lemma_played_kinds(
                report.id,
                rumble_pattern(VoiceState::Muted, strength),
                s.output_seq,
            );
        },
        (Phase::AwaitPressStrength(report, state), Event::RumbleStrength(strength)) => {
            lemma_played_kinds(report.id, rumble_pattern(state, strength), s.output_seq);
        },
        _ => {},
    }
}

/// The Bluetooth sequence number of a session always fits its four bits.
pub proof fn law_output_seq_fits(s: Session, event: Event)
    requires
        s.output_seq < 16,
    ensures
        next(s, event).session.output_seq < 16,
{
    match (s.phase, event) {
        (Phase::AwaitTestStrength(report), Event::RumbleStrength(strength)) => {
            lemma_seq_after_many_in_nibble(
                report.id,
                s.output_seq,
                rumble_pattern(VoiceState::Muted, strength).len(),
            );
        },
        (Phase::AwaitPressStrength(report, state), Event::RumbleStrength(strength)) => {
            lemma_seq_after_many_in_nibble(
                report.id,
                s.output_seq,
                rumble_pattern(state, strength).len(),
            );
        },
        _ => {},
    }
}

/// From its start on, whatever happens, a session's Bluetooth sequence number
/// fits its four bits.
pub proof fn law_output_seq_fits_always(
    now: u64,
    lightbar: bool,
    shown: Option<VoiceState>,
    events: Seq<Event>,
)
    ensures
        session_run(fresh(now, lightbar, shown), events).output_seq < 16,
    decreases events.len(),
{
    if events.len() > 0 {
        law_output_seq_fits_always(now, lightbar, shown, events.drop_last());
        law_output_seq_fits(
            session_run(fresh(now, lightbar, shown), events.drop_last()),
            events.last(),
        );
    }
}

/// A session ends only when it is asked to stop, when a read fails, or when no
/// report came for too long; and it says which.
pub proof fn law_session_ends_for_cause(s: Session, event: Event)
    requires
        !(s.phase is Ended),
    ensures
        next(s, event).session.phase == Phase::Ended(SessionEnd::Stopped) <==> s.phase
            == Phase::AwaitStop && event == Event::Stop(true),
        next(s, event).session.phase == Phase::Ended(SessionEnd::Disconnected) <==> s.phase
            == Phase::AwaitReport && (event == Event::ReadFailed || (event matches Event::Silence(
            now,
        ) && elapsed(now, s.last_report_at) > REPORT_STALE_AFTER)),
{
}

/// The stop flag is looked at before every single read.
pub proof fn law_stop_checked_before_each_read(s: Session, event: Event)
    ensures
        next(s, event).session.phase == Phase::AwaitReport && s.phase != Phase::AwaitReport
            ==> s.phase == Phase::AwaitStop && event == Event::Stop(false),
        s.phase == Phase::AwaitReport && event is Report ==> next(s, event).session.phase
            != Phase::AwaitReport,
{
}

/// A toggle is asked for exactly when the button reads pressed and did not
/// before, and from then on it counts as pressed.
pub proof fn law_press_is_an_edge(s: Session, event: Event)
    requires
        !(s.phase is AwaitPressed),
    ensures
        next(s, event).session.phase is AwaitPressed <==> {
            &&& !s.was_pressed
            &&& s.phase matches Phase::AwaitClock(_, pressed) && pressed
            &&& event is Clock
        },
        next(s, event).session.phase is AwaitPressed ==> next(s, event).session.was_pressed,
{
}

/// A press is forgotten only when the button reads released, or when it has
/// read pressed for too long.
pub proof fn law_press_is_remembered(s: Session, event: Event)
    requires
        s.was_pressed,
        !next(s, event).session.was_pressed,
    ensures
        s.phase matches Phase::AwaitClock(_, pressed) && event matches Event::Clock(now) && (
        !pressed || elapsed(now, s.last_press) > HELD_TOO_LONG),
{
}

/// A failed toggle changes nothing but the phase, and does not end the session.
pub proof fn law_failed_toggle_is_survived(s: Session)
    requires
        s.phase is AwaitPressed,
    ensures
        next(s, Event::Pressed(None)) == quietly(s, Phase::AwaitStop),
{
}

/// The controller rumbles only for a press of its own button that went
/// through, or for a test buzz: a buzz (which holds still) comes only out of
/// the two phases that ask for the strength, and the way there leads through a
/// successful press or a test. A mute made elsewhere never makes it rumble.
pub proof fn law_only_local_toggles_rumble(s: Session, event: Event)
    ensures
        (exists|i: int|
            0 <= i < next(s, event).outputs.len() && #[trigger] next(s, event).outputs[i] is Pause)
            ==> s.phase is AwaitTestStrength || s.phase is AwaitPressStrength,
        next(s, event).session.phase is AwaitPressStrength && !(s.phase is AwaitPressStrength)
            ==> s.phase is AwaitPressLightbar,
        next(s, event).session.phase is AwaitPressLightbar && !(s.phase is AwaitPressLightbar)
            ==> s.phase is AwaitPressed && event is Pressed && event->Pressed_0 is Some,
        next(s, event).session.phase is AwaitTestStrength && !(s.phase is AwaitTestStrength)
            ==> s.phase is AwaitRumbleTest && event == Event::RumbleTest(true),
{
}

/// A battery reading is put out only when it differs from the last one, which
/// it then becomes.
pub proof fn law_battery_only_when_moved(s: Session, event: Event, i: int)
    requires
        0 <= i < next(s, event).outputs.len(),
        next(s, event).outputs[i] is Battery,
    ensures
        Some(next(s, event).outputs[i]->Battery_0) != s.last_battery,
        next(s, event).session.last_battery == Some(next(s, event).outputs[i]->Battery_0),
{
    lemma_buzz_kinds(s, event);
}

/// The report that a session is dealing with, if there is one.
pub open spec fn report_at_hand(phase: Phase) -> Option<InputReport> {
    match phase {
        Phase::AwaitVoice(report) => Some(report),
        Phase::AwaitSyncLightbar(report, _) => Some(report),
        Phase::AwaitLightbar(report) => Some(report),
        Phase::AwaitRumbleTest(report) => Some(report),
        Phase::AwaitTestStrength(report) => Some(report),
        Phase::AwaitClock(report, _) => Some(report),
        Phase::AwaitPressed(report) => Some(report),
        Phase::AwaitPressLightbar(report, _) => Some(report),
        Phase::AwaitPressStrength(report, _) => Some(report),
        _ => None,
    }
}

/// Whenever what LED and lightbar show is set anew, the report that mirrors it
/// is what goes out, in the format of the report at hand (on a transport that
/// has one).
pub proof fn law_shown_state_is_written(s: Session, event: Event)
    requires
        next(s, event).session.last_synced != s.last_synced,
    ensures
        report_at_hand(s.phase) matches Some(report) && next(s, event).session.last_synced
            matches Some(state) && event matches Event::Lightbar(lightbar) && next(
            s,
            event,
        ).outputs == written(feedback_report(report.id, state, lightbar, s.output_seq)),
{
}

/// After a toggle that went through, LED and lightbar show its outcome.
pub proof fn law_press_shows_its_outcome(s: Session, state: VoiceState, lightbar: bool)
    requires
        s.phase is AwaitPressed,
    ensures
        ({
            let pressed = next(s, Event::Pressed(Some(state))).session;
            let shown = next(pressed, Event::Lightbar(lightbar));
            &&& shown.session.last_synced == Some(state)
            &&& shown.outputs == written(
                feedback_report(s.phase->AwaitPressed_0.id, state, lightbar, s.output_seq),
            )
        }),
{
}

/// An event that does not answer what the listener asked for is without effect.
pub proof fn law_stray_events_are_ignored(l: Listener, event: Event)
    requires
        !answers(stage_request(l.stage), event),
        !(l.stage matches Stage::InSession(s) && s.phase is Ended),
        !(l.stage matches Stage::Restoring(r) && r.phase == RestorePhase::Done),
    ensures
        advance(l, event) == moved(l, l.stage),
{
    match l.stage {
        Stage::InSession(s) => {
            assert(next(s, event).outputs =~= seq![]);
        },
        _ => {},
    }
}

/// The listener finishes only when it is asked to stop.
pub proof fn law_only_a_stop_finishes(l: Listener, event: Event)
    requires
        l.stage != Stage::Finished,
        !(l.stage matches Stage::InSession(s) && s.phase is Ended),
    ensures
        advance(l, event).listener.stage == Stage::Finished ==> event == Event::Stop(true),
        !(advance(l, event).listener.stage matches Stage::InSession(s) && s.phase is Ended),
{
}

proof fn lemma_sessions_do_not_disconnect(s: Session, event: Event)
    ensures
        forall|i: int|
            0 <= i < next(s, event).outputs.len() ==> !(#[trigger] next(s, event).outputs[i]
                is Disconnected),
{
    lemma_buzz_kinds(s, event);
}

proof fn lemma_run_without_stop(events: Seq<Event>)
    requires
        forall|i: int| 0 <= i < events.len() ==> events[i] != Event::Stop(true),
    ensures
        listener_run(started(), events).stage != Stage::Finished,
        !(listener_run(started(), events).stage matches Stage::InSession(s) && s.phase is Ended),
    decreases events.len(),
{
    if events.len() > 0 {
        let shorter = events.drop_last();
        assert forall|i: int| 0 <= i < shorter.len() implies shorter[i] != Event::Stop(true) by {
            assert(shorter[i] == events[i]);
        }
        lemma_run_without_stop(shorter);
        law_only_a_stop_finishes(listener_run(started(), shorter), events.last());
    }
}

/// The listener survives any number of failed opens, disconnects, failed reads
/// and failed toggles: as long as nobody asks it to stop, it is not finished.
pub proof fn law_listener_survives_everything_but_a_stop(events: Seq<Event>)
    requires
        forall|i: int| 0 <= i < events.len() ==> events[i] != Event::Stop(true),
    ensures
        listener_run(started(), events).stage != Stage::Finished,
{
    lemma_run_without_stop(events);
}

/// A stop is obeyed wherever it is asked about: it finishes the listener, or
/// (while it pauses or restores) leads on without another pause or write.
pub proof fn law_a_stop_is_obeyed(l: Listener)
    requires
        stage_request(l.stage) == Request::CheckStop,
    ensures
        ({
            let a = advance(l, Event::Stop(true));
            &&& match l.stage {
                Stage::PauseStop(_, _) => a.listener.stage == Stage::AwaitStop,
                Stage::Restoring(_) => a.listener.stage == Stage::AwaitSessionClock(None),
                _ => a.listener.stage == Stage::Finished,
            }
            &&& forall|i: int|
                0 <= i < a.outputs.len() ==> !(#[trigger] a.outputs[i] is Write) && !(
                a.outputs[i] is Pause)
        }),
{
}

/// The handler is told of a disconnect exactly when a session ends.
pub proof fn law_disconnect_is_told_once_per_session(l: Listener, event: Event)
    ensures
        ({
            let a = advance(l, event);
            (exists|i: int| 0 <= i < a.outputs.len() && #[trigger] a.outputs[i] is Disconnected)
                <==> l.stage is InSession && !(a.listener.stage is InSession)
        }),
{
    let a = advance(l, event);
    if l.stage is InSession {
        let s = l.stage->InSession_0;
        lemma_sessions_do_not_disconnect(s, event);
        if !(a.listener.stage is InSession) {
            assert(a.outputs[a.outputs.len() - 1] is Disconnected);
        }
    }
}

/// A lost connection leads back to a paused search for a controller, not to
/// the end.
pub proof fn law_disconnect_leads_to_reconnect(l: Listener, s: Session)
    requires
        l.stage == Stage::InSession(s),
        s.phase == Phase::AwaitReport,
    ensures
        advance(l, Event::ReadFailed).listener == (Listener { stage: Stage::AwaitPauseClock, ..l }),
        advance(l, Event::ReadFailed).outputs == seq![OutputView::Disconnected],
{
    assert(next(s, Event::ReadFailed).outputs.push(OutputView::Disconnected) =~= seq![
        OutputView::Disconnected,
    ]);
}

/// The listener once a controller that came back has been shown `state` under
/// the setting `lightbar`, by the report `first`.
pub open spec fn restored(
    l: Listener,
    state: VoiceState,
    lightbar: bool,
    now: u64,
    first: InputReport,
    later: u64,
) -> Advance {
    let connected = advance(l, Event::Connected(Some(state)));
    let lit = advance(connected.listener, Event::Lightbar(lightbar));
    let timed = advance(lit.listener, Event::Clock(now));
    let unstopped = advance(timed.listener, Event::Stop(false));
    let done = advance(unstopped.listener, Event::Report(first, later));
    Advance {
        listener: done.listener,
        outputs: connected.outputs + lit.outputs + timed.outputs + unstopped.outputs
            + done.outputs,
    }
}

/// A controller that comes back is shown the voice state that is known, at the
/// first report that tells how, and until then nothing is put out.
pub proof fn law_reconnect_restores_feedback(
    l: Listener,
    state: VoiceState,
    lightbar: bool,
    now: u64,
    first: InputReport,
    later: u64,
)
    requires
        l.stage == Stage::AwaitConnected,
        now < u64::MAX,
        first.pressed is Some,
    ensures
        restored(l, state, lightbar, now, first, later).outputs == written(
            feedback_report(first.id, state, lightbar, 0),
        ),
        restored(l, state, lightbar, now, first, later).listener.stage == Stage::AwaitSessionClock(
            if feedback_report(first.id, state, lightbar, 0) is Some {
                Some(Shown { state, lightbar })
            } else {
                None
            },
        ),
{
    assert(restored(l, state, lightbar, now, first, later).outputs =~= written(
        feedback_report(first.id, state, lightbar, 0),
    ));
}

/// The listener once the session after a restore has taken in its first report
/// and, if that was due, polled the voice state.
pub open spec fn first_report_taken(
    l: Listener,
    start: u64,
    report: InputReport,
    at: u64,
    polled: Option<VoiceState>,
) -> Listener {
    let in_session = advance(l, Event::Clock(start)).listener;
    let unstopped = advance(in_session, Event::Stop(false)).listener;
    let taken = advance(unstopped, Event::Report(report, at)).listener;
    if stage_request(taken.stage) == Request::PollVoice {
        advance(taken, Event::Voice(polled)).listener
    } else {
        taken
    }
}

/// Switching the lightbar on or off takes effect live, also right after a
/// reconnect: at the first report after a restore, a setting that differs from
/// the one the restore went by has the restored state written again under it,
/// and one that does not has nothing written. A poll that finds the voice state
/// unmoved does not come between.
pub proof fn law_lightbar_is_live_after_a_restore(
    l: Listener,
    shown: Shown,
    start: u64,
    report: InputReport,
    at: u64,
    polled: Option<VoiceState>,
    lightbar: bool,
)
    requires
        l.stage == Stage::AwaitSessionClock(Some(shown)),
        polled is None || polled == Some(shown.state),
    ensures
        ({
            let a = advance(
                first_report_taken(l, start, report, at, polled),
                Event::Lightbar(lightbar),
            );
            a.outputs == if lightbar == shown.lightbar {
                Seq::<OutputView>::empty()
            } else {
                written(feedback_report(report.id, shown.state, lightbar, 0))
            }
        }),
        stage_request(first_report_taken(l, start, report, at, polled).stage)
            == Request::ReadLightbar,
{
}

/// Whenever the lightbar setting turns out to have been flipped, what LED and
/// lightbar show is written again under the new setting.
pub proof fn law_flipped_lightbar_is_applied(s: Session, state: VoiceState, lightbar: bool)
    requires
        s.phase is AwaitLightbar,
        s.last_synced == Some(state),
        lightbar != s.last_lightbar,
    ensures
        next(s, Event::Lightbar(lightbar)).outputs == written(
            feedback_report(s.phase->AwaitLightbar_0.id, state, lightbar, s.output_seq),
        ),
        next(s, Event::Lightbar(lightbar)).session.last_lightbar == lightbar,
{
}

/// A new session owes nothing to the one before: whatever the listener went
/// through, the session that starts at `now` is the same, but for what LED and
/// lightbar were just brought to show.
pub proof fn law_reconnect_starts_clean(l: Listener, now: u64, lightbar: bool, shown: Shown)
    ensures
        l.stage == Stage::AwaitSessionLightbar(now) ==> advance(
            l,
            Event::Lightbar(lightbar),
        ).listener.stage == Stage::InSession(fresh(now, lightbar, None)),
        l.stage == Stage::AwaitSessionClock(Some(shown)) ==> advance(
            l,
            Event::Clock(now),
        ).listener.stage == Stage::InSession(fresh(now, shown.lightbar, Some(shown.state))),
{
}

} // verus!
