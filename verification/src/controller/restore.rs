//! Bringing LED and lightbar back to the voice state after a (re)connect.

use vstd::prelude::*;
use crate::controller::output::{feedback_report, sync_feedback, written};
use crate::controller::step::{after, emit, views, Event, Output, OutputView};
use crate::controller::VoiceState;

verus! {

/// How long to wait for a report that tells the transport.
pub const RESTORE_TIMEOUT: u64 = 2_000_000_000;

/// What the restore is waiting for.
#[derive(Debug, Clone, Copy, PartialEq, Eq, Structural)]
pub enum RestorePhase {
    AwaitStop,
    AwaitReport,
    Done,
}

/// Pushes `state` to the mic LED and lightbar right after a (re)connect, before
/// any input report has arrived to tell which transport is in use. Reads one
/// report first, since the output format depends on the input report id.
#[derive(Debug, Clone, Copy, PartialEq, Eq, Structural)]
pub struct Restore {
    pub phase: RestorePhase,
    pub deadline: u64,
    pub state: VoiceState,
    pub lightbar: bool,
}

/// A restore that starts at time `now`.
pub open spec fn restore_from(now: u64, state: VoiceState, lightbar: bool) -> Restore {
    Restore {
        phase: if now < after(now, RESTORE_TIMEOUT) {
            RestorePhase::AwaitStop
        } else {
            RestorePhase::Done
        },
        deadline: after(now, RESTORE_TIMEOUT),
        state,
        lightbar,
    }
}

/// Where a restore stands after a read that gave nothing usable by `now`.
pub open spec fn retry(now: u64, deadline: u64) -> RestorePhase {
    if now < deadline {
        RestorePhase::AwaitStop
    } else {
        RestorePhase::Done
    }
}

/// The phase of a restore after an event. An event that does not answer what
/// was asked for changes nothing.
pub open spec fn restore_phase(r: Restore, event: Event) -> RestorePhase {
    match (r.phase, event) {
        (RestorePhase::AwaitStop, Event::Stop(stop)) => if stop {
            RestorePhase::Done
        } else {
            RestorePhase::AwaitReport
        },
        (RestorePhase::AwaitReport, Event::Report(report, now)) => if report.pressed is Some {
            RestorePhase::Done
        } else {
            retry(now, r.deadline)
        },
        (RestorePhase::AwaitReport, Event::Silence(now)) => retry(now, r.deadline),
        (RestorePhase::AwaitReport, Event::ReadFailed) => RestorePhase::Done,
        _ => r.phase,
    }
}

/// What a restore puts out on an event: the feedback report, at the first
/// report that carries the mic button.
pub open spec fn restore_outputs(r: Restore, event: Event) -> Seq<OutputView> {
    match (r.phase, event) {
        (RestorePhase::AwaitReport, Event::Report(report, _)) if report.pressed is Some => written(
            feedback_report(report.id, r.state, r.lightbar, 0),
        ),
        _ => seq![],
    }
}

/// What LED and lightbar show after a restore.
#[derive(Debug, Clone, Copy, PartialEq, Eq, Structural)]
pub struct Shown {
    pub state: VoiceState,
    /// The lightbar setting under which it is shown.
    pub lightbar: bool,
}

/// What a restore brings LED and lightbar to show on an event: its voice state,
/// if it puts out the report that mirrors it.
pub open spec fn restore_shown(r: Restore, event: Event) -> Option<Shown> {
    if restore_outputs(r, event).len() > 0 {
        Some(Shown { state: r.state, lightbar: r.lightbar })
    } else {
        None
    }
}

impl Restore {
    /// Starts a restore at time `now`.
    pub fn new(now: u64, state: VoiceState, lightbar: bool) -> (r: Restore)
        ensures
            r == restore_from(now, state, lightbar),
    {
        let deadline: u64 = now.saturating_add(RESTORE_TIMEOUT);
        Restore {
            phase: if now < deadline {
                RestorePhase::AwaitStop
            } else {
                RestorePhase::Done
            },
            deadline,
            state,
            lightbar,
        }
    }

    fn again(&self, now: u64) -> (r: RestorePhase)
        ensures
            r == retry(now, self.deadline),
    {
        if now < self.deadline {
            RestorePhase::AwaitStop
        } else {
            RestorePhase::Done
        }
    }

    /// Takes in one event, adding what is to be put out to `outputs`. Returns
    /// what LED and lightbar then show, if the event settles it.
    pub fn step(&mut self, event: Event, outputs: &mut Vec<Output>) -> (r: Option<Shown>)
        ensures
            r == restore_shown(*old(self), event),
            *final(self) == (Restore { phase: restore_phase(*old(self), event), ..*old(self) }),
            views(final(outputs)@) == views(old(outputs)@) + restore_outputs(*old(self), event),
    {
        let ghost before = views(outputs@);
        let mut shown: Option<Shown> = None;
        match (self.phase, event) {
            (RestorePhase::AwaitStop, Event::Stop(stop)) => {
                self.phase = if stop {
                    RestorePhase::Done
                } else {
                    RestorePhase::AwaitReport
                };
            },
            (RestorePhase::AwaitReport, Event::Report(report, now)) => {
                if report.pressed.is_some() {
                    let mut output_seq: u8 = 0;
                    match sync_feedback(report.id, self.state, self.lightbar, &mut output_seq) {
                        Ok(bytes) => {
                            emit(outputs, Output::Write(bytes));
                            shown = Some(Shown { state: self.state, lightbar: self.lightbar });
                        },
                        Err(_) => {},
                    }
                    self.phase = RestorePhase::Done;
                } else {
                    self.phase = self.again(now);
                }
            },
            (RestorePhase::AwaitReport, Event::Silence(now)) => {
                self.phase = self.again(now);
            },
            (RestorePhase::AwaitReport, Event::ReadFailed) => {
                self.phase = RestorePhase::Done;
            },
            _ => {},
        }
        assert(views(outputs@) =~= before + restore_outputs(*old(self), event));
        shown
    }
}

} // verus!
