//! One controller connection, from its first report until it stops or
//! disappears.

use vstd::prelude::*;
use crate::controller::input::InputReport;
use crate::controller::output::{
    feedback_report, played, rumble_confirm, rumble_pattern, seq_after, seq_after_many,
    sync_feedback, written, MILLISECOND,
};
use crate::controller::step::{
    elapsed, emit, views, Event, Output, OutputView, Request, SessionEnd, Step,
};
use crate::controller::{Battery, VoiceState};

verus! {

/// A connected DualSense streams reports continuously, even sitting idle. Going
/// this long without one means it is gone even if no read has errored yet -
/// which covers a Bluetooth link dropping silently rather than reporting a
/// disconnect.
pub const REPORT_STALE_AFTER: u64 = 5_000_000_000;

/// How often to poll Discord for mute/deafen changes made outside the
/// controller - from the menu bar, or inside Discord itself - so the LED and
/// lightbar don't drift out of sync with reality.
pub const SYNC_POLL_INTERVAL: u64 = 2_000_000_000;

/// A button that reads pressed for longer than this has its edge detector
/// reset.
pub const HELD_TOO_LONG: u64 = 800 * MILLISECOND;

/// Say why reports are unusable once in this many of them.
pub const UNUSABLE_LOG_EVERY: u64 = 200;

/// Where a session stands: what it asked for last, and what it still has to do
/// with the report at hand.
#[derive(Debug, Clone, Copy, PartialEq, Eq, Structural)]
pub enum Phase {
    AwaitStop,
    AwaitReport,
    AwaitVoice(InputReport),
    /// The voice state moved; the lightbar setting is wanted to mirror it.
    AwaitSyncLightbar(InputReport, VoiceState),
    AwaitLightbar(InputReport),
    AwaitRumbleTest(InputReport),
    AwaitTestStrength(InputReport),
    AwaitClock(InputReport, bool),
    AwaitPressed(InputReport),
    AwaitPressLightbar(InputReport, VoiceState),
    AwaitPressStrength(InputReport, VoiceState),
    Ended(SessionEnd),
}

impl Phase {
    /// What a session in this phase wants to know.
    pub open spec fn spec_request(self) -> Request {
        match self {
            Phase::AwaitStop => Request::CheckStop,
            Phase::AwaitReport => Request::ReadReport,
            Phase::AwaitVoice(_) => Request::PollVoice,
            Phase::AwaitSyncLightbar(_, _) => Request::ReadLightbar,
            Phase::AwaitLightbar(_) => Request::ReadLightbar,
            Phase::AwaitRumbleTest(_) => Request::TakeRumbleTest,
            Phase::AwaitTestStrength(_) => Request::ReadRumbleStrength,
            Phase::AwaitClock(_, _) => Request::ReadClock,
            Phase::AwaitPressed(_) => Request::Press,
            Phase::AwaitPressLightbar(_, _) => Request::ReadLightbar,
            Phase::AwaitPressStrength(_, _) => Request::ReadRumbleStrength,
            Phase::Ended(end) => Request::EndSession(end),
        }
    }

    /// The request that goes with this phase.
    pub fn request(self) -> (r: Request)
        ensures
            r == self.spec_request(),
    {
        match self {
            Phase::AwaitStop => Request::CheckStop,
            Phase::AwaitReport => Request::ReadReport,
            Phase::AwaitVoice(_) => Request::PollVoice,
            Phase::AwaitSyncLightbar(_, _) => Request::ReadLightbar,
            Phase::AwaitLightbar(_) => Request::ReadLightbar,
            Phase::AwaitRumbleTest(_) => Request::TakeRumbleTest,
            Phase::AwaitTestStrength(_) => Request::ReadRumbleStrength,
            Phase::AwaitClock(_, _) => Request::ReadClock,
            Phase::AwaitPressed(_) => Request::Press,
            Phase::AwaitPressLightbar(_, _) => Request::ReadLightbar,
            Phase::AwaitPressStrength(_, _) => Request::ReadRumbleStrength,
            Phase::Ended(end) => Request::EndSession(end),
        }
    }
}

/// One controller connection.
///
/// Every piece of state here is per-connection and deliberately local, so a
/// reconnect starts clean - `output_seq` in particular goes into the Bluetooth
/// report checksum and must not carry across sessions.
#[derive(Debug, Clone, Copy, PartialEq, Eq, Structural)]
pub struct Session {
    pub phase: Phase,
    pub was_pressed: bool,
    pub last_press: u64,
    /// Reports so far, modulo `UNUSABLE_LOG_EVERY`.
    pub report_count: u64,
    pub output_seq: u8,
    pub last_report_at: u64,
    pub last_battery: Option<Battery>,
    pub last_tick: u64,
    /// What the mic LED and lightbar currently show, so the periodic poll only
    /// rewrites them when the voice state actually moves.
    pub last_synced: Option<VoiceState>,
    /// The lightbar setting as last seen, so flipping it re-syncs promptly.
    pub last_lightbar: bool,
}

/// A session that has seen nothing yet. `shown` is what LED and lightbar show
/// already, and `lightbar` the setting under which they do.
pub open spec fn fresh(now: u64, lightbar: bool, shown: Option<VoiceState>) -> Session {
    Session {
        phase: Phase::AwaitStop,
        was_pressed: false,
        last_press: now,
        report_count: 0,
        output_seq: 0,
        last_report_at: now,
        last_battery: None,
        last_tick: now,
        last_synced: shown,
        last_lightbar: lightbar,
    }
}

/// A session after one event, and what it put out.
pub struct Next {
    pub session: Session,
    pub outputs: Seq<OutputView>,
}

/// `s` in phase `phase`, with nothing put out.
pub open spec fn quietly(s: Session, phase: Phase) -> Next {
    Next { session: Session { phase, ..s }, outputs: seq![] }
}

/// A report arrived. The voice state is polled first if that is due.
pub open spec fn on_report(s: Session, report: InputReport, now: u64) -> Next {
    let s = Session {
        last_report_at: now,
        report_count: ((s.report_count + 1) % UNUSABLE_LOG_EVERY as int) as u64,
        ..s
    };
    if elapsed(now, s.last_tick) >= SYNC_POLL_INTERVAL {
        quietly(Session { last_tick: now, ..s }, Phase::AwaitVoice(report))
    } else {
        quietly(s, Phase::AwaitLightbar(report))
    }
}

/// `state` is mirrored onto LED and lightbar.
pub open spec fn synced(
    s: Session,
    report: InputReport,
    state: VoiceState,
    lightbar: bool,
    phase: Phase,
) -> Next {
    Next {
        session: Session {
            phase,
            output_seq: seq_after(report.id, s.output_seq),
            last_synced: Some(state),
            ..s
        },
        outputs: written(feedback_report(report.id, state, lightbar, s.output_seq)),
    }
}

/// The lightbar setting is known. If it was flipped, what LED and lightbar
/// show is written again under the new setting.
pub open spec fn on_lightbar(s: Session, report: InputReport, lightbar: bool) -> Next {
    let phase = Phase::AwaitRumbleTest(report);
    if lightbar == s.last_lightbar {
        quietly(s, phase)
    } else {
        let s = Session { last_lightbar: lightbar, ..s };
        match s.last_synced {
            Some(state) => synced(s, report, state, lightbar, phase),
            None => quietly(s, phase),
        }
    }
}

/// The settings are dealt with; what remains is the report itself. A battery
/// reading is put out when it moved. A report that cannot show the mic button
/// is done with then, now and again with a word on why.
pub open spec fn on_contents(s: Session, report: InputReport) -> Next {
    let moved = report.battery is Some && report.battery != s.last_battery;
    let s = if moved {
        Session { last_battery: report.battery, ..s }
    } else {
        s
    };
    let battery = if moved {
        seq![OutputView::Battery(report.battery->0)]
    } else {
        seq![]
    };
    match report.pressed {
        Some(pressed) => Next {
            session: Session { phase: Phase::AwaitClock(report, pressed), ..s },
            outputs: battery,
        },
        None => Next {
            session: Session { phase: Phase::AwaitStop, ..s },
            outputs: if s.report_count == 0 {
                battery.push(OutputView::Unusable(report.unusable))
            } else {
                battery
            },
        },
    }
}

/// `next`, after the outputs `first`.
pub open spec fn preceded(first: Seq<OutputView>, next: Next) -> Next {
    Next { session: next.session, outputs: first + next.outputs }
}

/// A buzz for `state`.
pub open spec fn buzz(s: Session, report: InputReport, state: VoiceState, strength: u8) -> Seq<
    OutputView,
> {
    played(report.id, rumble_pattern(state, strength), s.output_seq)
}

/// `s` after a buzz for `state`.
pub open spec fn buzzed(
    s: Session,
    report: InputReport,
    state: VoiceState,
    strength: u8,
) -> Session {
    Session {
        output_seq: seq_after_many(
            report.id,
            s.output_seq,
            rumble_pattern(state, strength).len(),
        ),
        ..s
    }
}

/// The button reads `pressed` at time `now`. A press is acted on when it is
/// new; one that lasts too long is forgotten, so that it counts as new again.
pub open spec fn on_button(s: Session, report: InputReport, pressed: bool, now: u64) -> Next {
    if pressed && !s.was_pressed {
        quietly(
            Session { was_pressed: true, last_press: now, ..s },
            Phase::AwaitPressed(report),
        )
    } else if pressed && elapsed(now, s.last_press) > HELD_TOO_LONG {
        quietly(Session { was_pressed: false, ..s }, Phase::AwaitStop)
    } else {
        quietly(Session { was_pressed: pressed, ..s }, Phase::AwaitStop)
    }
}

/// What a session does on an event. An event that does not answer what the
/// session asked for changes nothing.
pub open spec fn next(s: Session, event: Event) -> Next {
    match (s.phase, event) {
        (Phase::AwaitStop, Event::Stop(stop)) => quietly(
            s,
            if stop {
                Phase::Ended(SessionEnd::Stopped)
            } else {
                Phase::AwaitReport
            },
        ),
        (Phase::AwaitReport, Event::Report(report, now)) => on_report(s, report, now),
        (Phase::AwaitReport, Event::Silence(now)) => quietly(
            s,
            if elapsed(now, s.last_report_at) > REPORT_STALE_AFTER {
                Phase::Ended(SessionEnd::Disconnected)
            } else {
                Phase::AwaitStop
            },
        ),
        (Phase::AwaitReport, Event::ReadFailed) => quietly(
            s,
            Phase::Ended(SessionEnd::Disconnected),
        ),
        (Phase::AwaitVoice(report), Event::Voice(voice)) => quietly(
            s,
            if voice is Some && voice != s.last_synced {
                Phase::AwaitSyncLightbar(report, voice->0)
            } else {
                Phase::AwaitLightbar(report)
            },
        ),
        (Phase::AwaitSyncLightbar(report, state), Event::Lightbar(lightbar)) => synced(
            s,
            report,
            state,
            lightbar,
            Phase::AwaitLightbar(report),
        ),
        (Phase::AwaitLightbar(report), Event::Lightbar(lightbar)) => on_lightbar(
            s,
            report,
            lightbar,
        ),
        (Phase::AwaitRumbleTest(report), Event::RumbleTest(wanted)) => if wanted {
            quietly(s, Phase::AwaitTestStrength(report))
        } else {
            on_contents(s, report)
        },
        (Phase::AwaitTestStrength(report), Event::RumbleStrength(strength)) => preceded(
            buzz(s, report, VoiceState::Muted, strength),
            on_contents(buzzed(s, report, VoiceState::Muted, strength), report),
        ),
        (Phase::AwaitClock(report, pressed), Event::Clock(now)) => on_button(
            s,
            report,
            pressed,
            now,
        ),
        (Phase::AwaitPressed(report), Event::Pressed(outcome)) => quietly(
            s,
            match outcome {
                Some(state) => Phase::AwaitPressLightbar(report, state),
                None => Phase::AwaitStop,
            },
        ),
        (Phase::AwaitPressLightbar(report, state), Event::Lightbar(lightbar)) => synced(
            s,
            report,
            state,
            lightbar,
            Phase::AwaitPressStrength(report, state),
        ),
        (Phase::AwaitPressStrength(report, state), Event::RumbleStrength(strength)) => Next {
            session: Session {
                phase: Phase::AwaitStop,
                ..buzzed(s, report, state, strength)
            },
            outputs: buzz(s, report, state, strength),
        },
        _ => quietly(s, s.phase),
    }
}

impl Session {
    /// Starts a session at time `now`. `shown` is what LED and lightbar show
    /// already, and `lightbar` the setting under which they do.
    pub fn new(now: u64, lightbar: bool, shown: Option<VoiceState>) -> (r: Session)
        ensures
            r == fresh(now, lightbar, shown),
    {
        Session {
            phase: Phase::AwaitStop,
            was_pressed: false,
            last_press: now,
            report_count: 0,
            output_seq: 0,
            last_report_at: now,
            last_battery: None,
            last_tick: now,
            last_synced: shown,
            last_lightbar: lightbar,
        }
    }

    fn report(&mut self, report: InputReport, now: u64)
        ensures
            *final(self) == on_report(*old(self), report, now).session,
    {
        self.last_report_at = now;
        self.report_count = (self.report_count % UNUSABLE_LOG_EVERY + 1) % UNUSABLE_LOG_EVERY;
        if now.saturating_sub(self.last_tick) >= SYNC_POLL_INTERVAL {
            self.last_tick = now;
            self.phase = Phase::AwaitVoice(report);
        } else {
            self.phase = Phase::AwaitLightbar(report);
        }
    }

    fn sync(
        &mut self,
        report: InputReport,
        state: VoiceState,
        lightbar: bool,
        phase: Phase,
        outputs: &mut Vec<Output>,
    )
        ensures
            *final(self) == synced(*old(self), report, state, lightbar, phase).session,
            views(final(outputs)@) == views(old(outputs)@) + synced(
                *old(self),
                report,
                state,
                lightbar,
                phase,
            ).outputs,
    {
        let ghost before = views(outputs@);
        let mut output_seq: u8 = self.output_seq;
        match sync_feedback(report.id, state, lightbar, &mut output_seq) {
            Ok(bytes) => {
                emit(outputs, Output::Write(bytes));
            },
            Err(_) => {},
        }
        self.output_seq = output_seq;
        self.last_synced = Some(state);
        self.phase = phase;
        assert(views(outputs@) =~= before + written(
            feedback_report(report.id, state, lightbar, old(self).output_seq),
        ));
    }

    fn lightbar(&mut self, report: InputReport, lightbar: bool, outputs: &mut Vec<Output>)
        ensures
            *final(self) == on_lightbar(*old(self), report, lightbar).session,
            views(final(outputs)@) == views(old(outputs)@) + on_lightbar(
                *old(self),
                report,
                lightbar,
            ).outputs,
    {
        let phase = Phase::AwaitRumbleTest(report);
        assert(views(outputs@) =~= views(outputs@) + Seq::<OutputView>::empty());
        if lightbar != self.last_lightbar {
            self.last_lightbar = lightbar;
            match self.last_synced {
                Some(state) => {
                    self.sync(report, state, lightbar, phase, outputs);
                },
                None => {
                    self.phase = phase;
                },
            }
        } else {
            self.phase = phase;
        }
    }

    fn contents(&mut self, report: InputReport, outputs: &mut Vec<Output>)
        ensures
            *final(self) == on_contents(*old(self), report).session,
            views(final(outputs)@) == views(old(outputs)@) + on_contents(
                *old(self),
                report,
            ).outputs,
    {
        let ghost before = views(outputs@);
        if let Some(battery) = report.battery {
            let known = match self.last_battery {
                Some(last) => last == battery,
                None => false,
            };
            if !known {
                self.last_battery = Some(battery);
                emit(outputs, Output::Battery(battery));
            }
        }
        match report.pressed {
            Some(pressed) => {
                self.phase = Phase::AwaitClock(report, pressed);
            },
            None => {
                if self.report_count == 0 {
                    emit(outputs, Output::Unusable(report.unusable));
                }
                self.phase = Phase::AwaitStop;
            },
        }
        assert(views(outputs@) =~= before + on_contents(*old(self), report).outputs);
    }

    fn rumble(
        &mut self,
        report: InputReport,
        state: VoiceState,
        strength: u8,
        outputs: &mut Vec<Output>,
    )
        ensures
            *final(self) == buzzed(*old(self), report, state, strength),
            views(final(outputs)@) == views(old(outputs)@) + buzz(
                *old(self),
                report,
                state,
                strength,
            ),
    {
        let ghost before = outputs@;
        let mut output_seq: u8 = self.output_seq;
        let mut pulses = rumble_confirm(report.id, state, strength, &mut output_seq);
        self.output_seq = output_seq;
        let ghost added = pulses@;
        outputs.append(&mut pulses);
        assert(views(outputs@) =~= views(before) + views(added));
    }

    fn button(&mut self, report: InputReport, pressed: bool, now: u64)
        ensures
            *final(self) == on_button(*old(self), report, pressed, now).session,
    {
        if pressed && !self.was_pressed {
            self.was_pressed = true;
            self.last_press = now;
            self.phase = Phase::AwaitPressed(report);
        } else if pressed && now.saturating_sub(self.last_press) > HELD_TOO_LONG {
            self.was_pressed = false;
            self.phase = Phase::AwaitStop;
        } else {
            self.was_pressed = pressed;
            self.phase = Phase::AwaitStop;
        }
    }

    /// Takes in one event and says what is to be done.
    pub fn step(&mut self, event: Event) -> (r: Step)
        ensures
            *final(self) == next(*old(self), event).session,
            views(r.outputs@) == next(*old(self), event).outputs,
            r.request == final(self).phase.spec_request(),
    {
        let mut outputs: Vec<Output> = Vec::new();
        assert(views(outputs@) =~= Seq::<OutputView>::empty());
        match (self.phase, event) {
            (Phase::AwaitStop, Event::Stop(stop)) => {
                self.phase = if stop {
                    Phase::Ended(SessionEnd::Stopped)
                } else {
                    Phase::AwaitReport
                };
            },
            (Phase::AwaitReport, Event::Report(report, now)) => {
                self.report(report, now);
            },
            (Phase::AwaitReport, Event::Silence(now)) => {
                self.phase = if now.saturating_sub(self.last_report_at) > REPORT_STALE_AFTER {
                    Phase::Ended(SessionEnd::Disconnected)
                } else {
                    Phase::AwaitStop
                };
            },
            (Phase::AwaitReport, Event::ReadFailed) => {
                // A read error is the normal way a disconnect shows, so it ends
                // the session instead of killing the listener.
                self.phase = Phase::Ended(SessionEnd::Disconnected);
            },
            (Phase::AwaitVoice(report), Event::Voice(voice)) => {
                self.phase = Phase::AwaitLightbar(report);
                if let Some(state) = voice {
                    let shown = match self.last_synced {
                        Some(last) => last == state,
                        None => false,
                    };
                    if !shown {
                        self.phase = Phase::AwaitSyncLightbar(report, state);
                    }
                }
            },
            (Phase::AwaitSyncLightbar(report, state), Event::Lightbar(lightbar)) => {
                self.sync(report, state, lightbar, Phase::AwaitLightbar(report), &mut outputs);
            },
            (Phase::AwaitLightbar(report), Event::Lightbar(lightbar)) => {
                self.lightbar(report, lightbar, &mut outputs);
            },
            (Phase::AwaitRumbleTest(report), Event::RumbleTest(wanted)) => {
                if wanted {
                    self.phase = Phase::AwaitTestStrength(report);
                } else {
                    self.contents(report, &mut outputs);
                }
            },
            (Phase::AwaitTestStrength(report), Event::RumbleStrength(strength)) => {
                // Uses the firmer "muted" pattern as the reference.
                self.rumble(report, VoiceState::Muted, strength, &mut outputs);
                self.contents(report, &mut outputs);
            },
            (Phase::AwaitClock(report, pressed), Event::Clock(now)) => {
                self.button(report, pressed, now);
            },
            (Phase::AwaitPressed(report), Event::Pressed(outcome)) => {
                // A failed toggle must not take the listener down with it.
                self.phase = match outcome {
                    Some(state) => Phase::AwaitPressLightbar(report, state),
                    None => Phase::AwaitStop,
                };
            },
            (Phase::AwaitPressLightbar(report, state), Event::Lightbar(lightbar)) => {
                self.sync(
                    report,
                    state,
                    lightbar,
                    Phase::AwaitPressStrength(report, state),
                    &mut outputs,
                );
            },
            (Phase::AwaitPressStrength(report, state), Event::RumbleStrength(strength)) => {
                self.rumble(report, state, strength, &mut outputs);
                self.phase = Phase::AwaitStop;
            },
            _ => {},
        }
        assert(views(outputs@) =~= next(*old(self), event).outputs);
        Step { outputs, request: self.phase.request() }
    }
}

} // verus!
