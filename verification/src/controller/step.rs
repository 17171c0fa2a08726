//! What the controller state machines exchange with the code that runs them:
//! they ask for one thing at a time, are handed the answer as an event, and
//! hand back what is to be put out before the next request.

use vstd::prelude::*;
use crate::controller::input::{InputReport, UnusableReport};
use crate::controller::{Battery, VoiceState};

verus! {

/// Something to be done, in order, before the next request.
#[derive(Debug)]
pub enum Output {
    /// Write these bytes to the controller; a failed write is only logged.
    Write(Vec<u8>),
    /// Hold still for this many nanoseconds.
    Pause(u64),
    /// Report a battery reading to the handler.
    Battery(Battery),
    /// Log why the latest reports say nothing about the mic button.
    Unusable(UnusableReport),
    /// Tell the handler that no controller could be opened, and why; also log
    /// it if `announce` is set.
    Waiting { announce: bool },
    /// Tell the handler that the controller went away.
    Disconnected,
}

/// An `Output` as contracts speak of it.
pub enum OutputView {
    Write(Seq<u8>),
    Pause(u64),
    Battery(Battery),
    Unusable(UnusableReport),
    Waiting { announce: bool },
    Disconnected,
}

impl View for Output {
    type V = OutputView;

    open spec fn view(&self) -> OutputView {
        match self {
            Output::Write(bytes) => OutputView::Write(bytes@),
            Output::Pause(nanos) => OutputView::Pause(*nanos),
            Output::Battery(battery) => OutputView::Battery(*battery),
            Output::Unusable(reason) => OutputView::Unusable(*reason),
            Output::Waiting { announce } => OutputView::Waiting { announce: *announce },
            Output::Disconnected => OutputView::Disconnected,
        }
    }
}

/// A run of outputs as contracts speak of it.
pub open spec fn views(outputs: Seq<Output>) -> Seq<OutputView> {
    outputs.map_values(|o: Output| o@)
}

/// Adds one output to a run of them.
pub(crate) fn emit(outputs: &mut Vec<Output>, output: Output)
    ensures
        views(final(outputs)@) == views(old(outputs)@).push(output@),
{
    let ghost before = outputs@;
    outputs.push(output);
    assert(views(outputs@) =~= views(before).push(output@));
}

/// Why an individual controller session ended.
#[derive(Debug, Clone, Copy, PartialEq, Eq, Structural)]
pub enum SessionEnd {
    /// The controller went away; reconnect.
    Disconnected,
    /// The caller asked us to stop.
    Stopped,
}

/// The one thing a state machine wants to know next.
#[derive(Debug, Clone, Copy, PartialEq, Eq, Structural)]
pub enum Request {
    /// Has the caller asked to stop? Answered by `Event::Stop`.
    CheckStop,
    /// What time is it? Answered by `Event::Clock`.
    ReadClock,
    /// Try to open a controller. Answered by `Event::Opened` or
    /// `Event::OpenFailed`.
    Open,
    /// Tell the handler that a controller was (re)connected. Answered by
    /// `Event::Connected`.
    Connect,
    /// Read one input report. Answered by `Event::Report`, `Event::Silence` or
    /// `Event::ReadFailed`.
    ReadReport,
    /// Poll the voice state. Answered by `Event::Voice`.
    PollVoice,
    /// Is the lightbar to mirror the voice state? Answered by
    /// `Event::Lightbar`.
    ReadLightbar,
    /// Was a test buzz asked for? Answered by `Event::RumbleTest`.
    TakeRumbleTest,
    /// How strong is the rumble? Answered by `Event::RumbleStrength`.
    ReadRumbleStrength,
    /// The mic button was pressed. Answered by `Event::Pressed`.
    Press,
    /// The session is over.
    EndSession(SessionEnd),
    /// The listener is done.
    Finish,
}

/// An answer to a request. Times are nanoseconds on one steady clock.
#[derive(Debug, Clone, Copy, PartialEq, Eq, Structural)]
pub enum Event {
    Stop(bool),
    Clock(u64),
    Opened,
    OpenFailed,
    /// The voice state to restore, if one is known.
    Connected(Option<VoiceState>),
    /// A report arrived, at this time.
    Report(InputReport, u64),
    /// A read timed out, at this time.
    Silence(u64),
    ReadFailed,
    /// The voice state, if it changed outside the controller.
    Voice(Option<VoiceState>),
    Lightbar(bool),
    RumbleTest(bool),
    RumbleStrength(u8),
    /// The voice state after a toggle, or `None` if the toggle failed.
    Pressed(Option<VoiceState>),
}

/// What a state machine does on one event.
#[derive(Debug)]
pub struct Step {
    pub outputs: Vec<Output>,
    pub request: Request,
}

/// Time from `since` to `now`, zero if the clock reads earlier.
pub open spec fn elapsed(now: u64, since: u64) -> u64 {
    if now >= since {
        (now - since) as u64
    } else {
        0
    }
}

/// `nanos` after `now`, or the end of the clock's range.
pub open spec fn after(now: u64, nanos: u64) -> u64 {
    if now + nanos > u64::MAX {
        u64::MAX
    } else {
        (now + nanos) as u64
    }
}

} // verus!
