//! The mic-button listener: it opens a controller, restores its feedback, runs
//! a session, and starts over, until it is asked to stop.

use vstd::prelude::*;
use crate::controller::output::MILLISECOND;
use crate::controller::pause::{pause_slice, slice_at};
use crate::controller::restore::{
    restore_from, restore_outputs, restore_phase, restore_shown, Restore, RestorePhase, Shown,
};
use crate::controller::session::{fresh, next, Phase, Session};
use crate::controller::step::{
    after, emit, views, Event, Output, OutputView, Request, SessionEnd, Step,
};
use crate::controller::VoiceState;

verus! {

/// How long to wait before re-scanning for a controller that isn't there yet.
pub const RECONNECT_DELAY: u64 = 750 * MILLISECOND;

/// Only repeat the "still waiting for a controller" line every this many
/// attempts, so an unplugged controller doesn't flood the log.
pub const WAITING_LOG_EVERY: u32 = 20;

/// What the listener is about.
#[derive(Debug, Clone, Copy, PartialEq, Eq, Structural)]
pub enum Stage {
    AwaitStop,
    AwaitOpen,
    AwaitConnected,
    AwaitRestoreLightbar(VoiceState),
    AwaitRestoreClock(VoiceState, bool),
    Restoring(Restore),
    /// A session is to start; LED and lightbar may show something already.
    AwaitSessionClock(Option<Shown>),
    AwaitSessionLightbar(u64),
    InSession(Session),
    AwaitPauseClock,
    /// Pausing until this time; the clock is wanted.
    PauseClock(u64),
    /// Pausing from the first time to the second; the stop flag is wanted.
    PauseStop(u64, u64),
    Finished,
}

/// What a listener at this stage wants to know.
pub open spec fn stage_request(stage: Stage) -> Request {
    match stage {
        Stage::AwaitStop => Request::CheckStop,
        Stage::AwaitOpen => Request::Open,
        Stage::AwaitConnected => Request::Connect,
        Stage::AwaitRestoreLightbar(_) => Request::ReadLightbar,
        Stage::AwaitRestoreClock(_, _) => Request::ReadClock,
        Stage::Restoring(restore) => match restore.phase {
            RestorePhase::AwaitStop => Request::CheckStop,
            RestorePhase::AwaitReport => Request::ReadReport,
            RestorePhase::Done => Request::ReadClock,
        },
        Stage::AwaitSessionClock(_) => Request::ReadClock,
        Stage::AwaitSessionLightbar(_) => Request::ReadLightbar,
        Stage::InSession(session) => session.phase.spec_request(),
        Stage::AwaitPauseClock => Request::ReadClock,
        Stage::PauseClock(_) => Request::ReadClock,
        Stage::PauseStop(_, _) => Request::CheckStop,
        Stage::Finished => Request::Finish,
    }
}

/// Watches the mic button until it is asked to stop, surviving any number of
/// controller disconnect/reconnect cycles. Nothing here treats a vanished
/// controller as fatal: a disconnect ends the session and drops back into the
/// connect loop.
#[derive(Debug, Clone, Copy, PartialEq, Eq, Structural)]
pub struct Listener {
    pub stage: Stage,
    /// Failed attempts to open a controller since the last success, modulo
    /// `WAITING_LOG_EVERY`.
    pub waiting_attempts: u32,
}

/// A listener after one event, and what it put out.
pub struct Advance {
    pub listener: Listener,
    pub outputs: Seq<OutputView>,
}

/// `l` at stage `stage`, with nothing put out.
pub open spec fn moved(l: Listener, stage: Stage) -> Advance {
    Advance { listener: Listener { stage, ..l }, outputs: seq![] }
}

/// The stage of a restore that may be over, with what it brought LED and
/// lightbar to show.
pub open spec fn restoring(restore: Restore, shown: Option<Shown>) -> Stage {
    if restore.phase == RestorePhase::Done {
        Stage::AwaitSessionClock(shown)
    } else {
        Stage::Restoring(restore)
    }
}

/// The stage of a pause until `deadline`, at time `now`.
pub open spec fn pausing(now: u64, deadline: u64) -> Stage {
    if now < deadline {
        Stage::PauseStop(now, deadline)
    } else {
        Stage::AwaitStop
    }
}

/// What a session's step makes of the listener: when the session ends the
/// handler is told, and the listener ends too if that was asked for.
pub open spec fn in_session(l: Listener, session: Session, event: Event) -> Advance {
    let n = next(session, event);
    match n.session.phase {
        Phase::Ended(end) => Advance {
            listener: Listener {
                stage: match end {
                    SessionEnd::Stopped => Stage::Finished,
                    SessionEnd::Disconnected => Stage::AwaitPauseClock,
                },
                ..l
            },
            outputs: n.outputs.push(OutputView::Disconnected),
        },
        _ => Advance {
            listener: Listener { stage: Stage::InSession(n.session), ..l },
            outputs: n.outputs,
        },
    }
}

/// What the listener does on an event. An event that does not answer what it
/// asked for changes nothing.
pub open spec fn advance(l: Listener, event: Event) -> Advance {
    match (l.stage, event) {
        (Stage::AwaitStop, Event::Stop(stop)) => moved(
            l,
            if stop {
                Stage::Finished
            } else {
                Stage::AwaitOpen
            },
        ),
        (Stage::AwaitOpen, Event::Opened) => moved(
            Listener { waiting_attempts: 0, ..l },
            Stage::AwaitConnected,
        ),
        (Stage::AwaitOpen, Event::OpenFailed) => Advance {
            listener: Listener {
                stage: Stage::AwaitPauseClock,
                waiting_attempts: ((l.waiting_attempts + 1) % WAITING_LOG_EVERY as int) as u32,
            },
            outputs: seq![
                OutputView::Waiting { announce: l.waiting_attempts % WAITING_LOG_EVERY == 0 },
            ],
        },
        (Stage::AwaitConnected, Event::Connected(known)) => moved(
            l,
            match known {
                Some(state) => Stage::AwaitRestoreLightbar(state),
                None => Stage::AwaitSessionClock(None),
            },
        ),
        (Stage::AwaitRestoreLightbar(state), Event::Lightbar(lightbar)) => moved(
            l,
            Stage::AwaitRestoreClock(state, lightbar),
        ),
        (Stage::AwaitRestoreClock(state, lightbar), Event::Clock(now)) => moved(
            l,
            restoring(restore_from(now, state, lightbar), None),
        ),
        (Stage::Restoring(restore), _) => Advance {
            listener: Listener {
                stage: restoring(
                    Restore { phase: restore_phase(restore, event), ..restore },
                    restore_shown(restore, event),
                ),
                ..l
            },
            outputs: restore_outputs(restore, event),
        },
        (Stage::AwaitSessionClock(shown), Event::Clock(now)) => moved(
            l,
            match shown {
                Some(shown) => Stage::InSession(fresh(now, shown.lightbar, Some(shown.state))),
                None => Stage::AwaitSessionLightbar(now),
            },
        ),
        (Stage::AwaitSessionLightbar(now), Event::Lightbar(lightbar)) => moved(
            l,
            Stage::InSession(fresh(now, lightbar, None)),
        ),
        (Stage::InSession(session), _) => in_session(l, session, event),
        (Stage::AwaitPauseClock, Event::Clock(now)) => moved(
            l,
            pausing(now, after(now, RECONNECT_DELAY)),
        ),
        (Stage::PauseClock(deadline), Event::Clock(now)) => moved(l, pausing(now, deadline)),
        (Stage::PauseStop(now, deadline), Event::Stop(stop)) => if stop {
            moved(l, Stage::AwaitStop)
        } else {
            Advance {
                listener: Listener { stage: Stage::PauseClock(deadline), ..l },
                outputs: match slice_at(now, deadline) {
                    Some(slice) => seq![OutputView::Pause(slice)],
                    None => seq![],
                },
            }
        },
        _ => moved(l, l.stage),
    }
}

/// A listener that was just started.
pub open spec fn started() -> Listener {
    Listener { stage: Stage::AwaitStop, waiting_attempts: 0 }
}

impl Listener {
    /// Starts listening.
    pub fn new() -> (r: Listener)
        ensures
            r == started(),
    {
        Listener { stage: Stage::AwaitStop, waiting_attempts: 0 }
    }

    /// What the listener wants to know.
    pub fn request(&self) -> (r: Request)
        ensures
            r == stage_request(self.stage),
    {
        match self.stage {
            Stage::AwaitStop => Request::CheckStop,
            Stage::AwaitOpen => Request::Open,
            Stage::AwaitConnected => Request::Connect,
            Stage::AwaitRestoreLightbar(_) => Request::ReadLightbar,
            Stage::AwaitRestoreClock(_, _) => Request::ReadClock,
            Stage::Restoring(restore) => match restore.phase {
                RestorePhase::AwaitStop => Request::CheckStop,
                RestorePhase::AwaitReport => Request::ReadReport,
                RestorePhase::Done => Request::ReadClock,
            },
            Stage::AwaitSessionClock(_) => Request::ReadClock,
            Stage::AwaitSessionLightbar(_) => Request::ReadLightbar,
            Stage::InSession(session) => session.phase.request(),
            Stage::AwaitPauseClock => Request::ReadClock,
            Stage::PauseClock(_) => Request::ReadClock,
            Stage::PauseStop(_, _) => Request::CheckStop,
            Stage::Finished => Request::Finish,
        }
    }

    fn enter_restore(&mut self, restore: Restore, shown: Option<Shown>)
        ensures
            *final(self) == (Listener { stage: restoring(restore, shown), ..*old(self) }),
    {
        self.stage = match restore.phase {
            RestorePhase::Done => Stage::AwaitSessionClock(shown),
            _ => Stage::Restoring(restore),
        };
    }

    fn enter_pause(&mut self, now: u64, deadline: u64)
        ensures
            *final(self) == (Listener { stage: pausing(now, deadline), ..*old(self) }),
    {
        self.stage = if now < deadline {
            Stage::PauseStop(now, deadline)
        } else {
            Stage::AwaitStop
        };
    }

    fn session(&mut self, session: Session, event: Event) -> (r: Vec<Output>)
        ensures
            *final(self) == in_session(*old(self), session, event).listener,
            views(r@) == in_session(*old(self), session, event).outputs,
    {
        let mut session = session;
        let step = session.step(event);
        let mut outputs = step.outputs;
        match session.phase {
            Phase::Ended(end) => {
                emit(&mut outputs, Output::Disconnected);
                self.stage = match end {
                    SessionEnd::Stopped => Stage::Finished,
                    SessionEnd::Disconnected => Stage::AwaitPauseClock,
                };
            },
            _ => {
                self.stage = Stage::InSession(session);
            },
        }
        outputs
    }

    /// Takes in one event and says what is to be done.
    pub fn step(&mut self, event: Event) -> (r: Step)
        ensures
            *final(self) == advance(*old(self), event).listener,
            views(r.outputs@) == advance(*old(self), event).outputs,
            r.request == stage_request(final(self).stage),
    {
        let mut outputs: Vec<Output> = Vec::new();
        assert(views(outputs@) =~= Seq::<OutputView>::empty());
        match (self.stage, event) {
            (Stage::AwaitStop, Event::Stop(stop)) => {
                self.stage = if stop {
                    Stage::Finished
                } else {
                    Stage::AwaitOpen
                };
            },
            (Stage::AwaitOpen, Event::Opened) => {
                self.waiting_attempts = 0;
                self.stage = Stage::AwaitConnected;
            },
            (Stage::AwaitOpen, Event::OpenFailed) => {
                let attempts: u32 = self.waiting_attempts % WAITING_LOG_EVERY;
                emit(&mut outputs, Output::Waiting { announce: attempts == 0 });
                self.waiting_attempts = (attempts + 1) % WAITING_LOG_EVERY;
                self.stage = Stage::AwaitPauseClock;
            },
            (Stage::AwaitConnected, Event::Connected(known)) => {
                // LED and lightbar reset on reconnect, so the voice state is
                // pushed rather than leaving them lying.
                self.stage = match known {
                    Some(state) => Stage::AwaitRestoreLightbar(state),
                    None => Stage::AwaitSessionClock(None),
                };
            },
            (Stage::AwaitRestoreLightbar(state), Event::Lightbar(lightbar)) => {
                self.stage = Stage::AwaitRestoreClock(state, lightbar);
            },
            (Stage::AwaitRestoreClock(state, lightbar), Event::Clock(now)) => {
                self.enter_restore(Restore::new(now, state, lightbar), None);
            },
            (Stage::Restoring(restore), _) => {
                let mut restore = restore;
                let shown = restore.step(event, &mut outputs);
                self.enter_restore(restore, shown);
            },
            (Stage::AwaitSessionClock(shown), Event::Clock(now)) => {
                // What the restore wrote is what LED and lightbar show, so the
                // session goes on from there: a setting that was flipped since
                // is then applied at its first report.
                self.stage = match shown {
                    Some(shown) => Stage::InSession(
                        Session::new(now, shown.lightbar, Some(shown.state)),
                    ),
                    None => Stage::AwaitSessionLightbar(now),
                };
            },
            (Stage::AwaitSessionLightbar(now), Event::Lightbar(lightbar)) => {
                self.stage = Stage::InSession(Session::new(now, lightbar, None));
            },
            (Stage::InSession(session), _) => {
                outputs = self.session(session, event);
            },
            (Stage::AwaitPauseClock, Event::Clock(now)) => {
                self.enter_pause(now, now.saturating_add(RECONNECT_DELAY));
            },
            (Stage::PauseClock(deadline), Event::Clock(now)) => {
                self.enter_pause(now, deadline);
            },
            (Stage::PauseStop(now, deadline), Event::Stop(stop)) => {
                if stop {
                    self.stage = Stage::AwaitStop;
                } else {
                    if let Some(slice) = pause_slice(now, deadline) {
                        emit(&mut outputs, Output::Pause(slice));
                    }
                    self.stage = Stage::PauseClock(deadline);
                }
            },
            _ => {},
        }
        assert(views(outputs@) =~= advance(*old(self), event).outputs);
        Step { outputs, request: self.request() }
    }
}

} // verus!
