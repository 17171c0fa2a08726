//! What is worth a line in the log.

use vstd::prelude::*;
use crate::controller::input::{InputReport, BLUETOOTH_REPORT, USB_REPORT};
use crate::controller::listener::{Listener, Stage};
use crate::controller::output::{output_report, Purpose, UnsupportedReportId};
use crate::controller::restore::{Restore, RestorePhase};
use crate::controller::session::{next, Phase, Session, HELD_TOO_LONG, REPORT_STALE_AFTER};
use crate::controller::step::{elapsed, Event};
use crate::text::join;

verus! {

/// Something that is worth a line in the log.
#[derive(Debug, Clone, Copy, PartialEq, Eq, Structural)]
pub enum Note {
    /// The button is given up on.
    StillPressed,
    /// The controller is taken for gone.
    NoReports,
    /// No report told in time how to bring feedback back.
    RestoreTimedOut,
    /// There is no way to put this out.
    Unsupported(UnsupportedReportId),
}

impl Note {
    /// How the note reads.
    pub open spec fn spec_message(self) -> Seq<char> {
        match self {
            Note::StillPressed =>
                "Mic button still reads pressed after 800ms; resetting edge detector."@,
            Note::NoReports => "No controller reports for 5s; treating the controller as gone."@,
            Note::RestoreTimedOut =>
                "Warning: timed out restoring controller feedback after reconnect."@,
            Note::Unsupported(error) => match error.purpose {
                Purpose::Feedback => "Warning: could not update controller feedback: "@
                    + error.spec_message(),
                Purpose::Rumble => "Warning: could not send rumble: "@ + error.spec_message(),
            },
        }
    }

    /// How the note reads.
    pub fn message(self) -> (r: String)
        ensures
            r@ == self.spec_message(),
    {
        match self {
            Note::StillPressed =>
                "Mic button still reads pressed after 800ms; resetting edge detector.".to_owned(),
            Note::NoReports =>
                "No controller reports for 5s; treating the controller as gone.".to_owned(),
            Note::RestoreTimedOut =>
                "Warning: timed out restoring controller feedback after reconnect.".to_owned(),
            Note::Unsupported(error) => {
                let lead = match error.purpose {
                    Purpose::Feedback => "Warning: could not update controller feedback: ",
                    Purpose::Rumble => "Warning: could not send rumble: ",
                };
                join(lead, error.message().as_str())
            },
        }
    }
}

/// The note on an output for this report, if there is no format for it.
pub open spec fn output_note(report: InputReport, purpose: Purpose) -> Option<Note> {
    if report.id == USB_REPORT || report.id == BLUETOOTH_REPORT {
        None
    } else {
        Some(Note::Unsupported(UnsupportedReportId { id: report.id, purpose }))
    }
}

/// What is worth noting of an event in a session.
pub open spec fn session_note(s: Session, event: Event) -> Option<Note> {
    match (s.phase, event) {
        (Phase::AwaitReport, Event::Silence(now)) => if elapsed(now, s.last_report_at)
            > REPORT_STALE_AFTER {
            Some(Note::NoReports)
        } else {
            None
        },
        (Phase::AwaitClock(_, pressed), Event::Clock(now)) => if pressed && s.was_pressed
            && elapsed(now, s.last_press) > HELD_TOO_LONG {
            Some(Note::StillPressed)
        } else {
            None
        },
        (Phase::AwaitSyncLightbar(report, _), Event::Lightbar(_)) => output_note(
            report,
            Purpose::Feedback,
        ),
        (Phase::AwaitPressLightbar(report, _), Event::Lightbar(_)) => output_note(
            report,
            Purpose::Feedback,
        ),
        (Phase::AwaitLightbar(report), Event::Lightbar(lightbar)) => if lightbar
            != s.last_lightbar && s.last_synced is Some {
            output_note(report, Purpose::Feedback)
        } else {
            None
        },
        (Phase::AwaitTestStrength(report), Event::RumbleStrength(strength)) => if strength > 0 {
            output_note(report, Purpose::Rumble)
        } else {
            None
        },
        (Phase::AwaitPressStrength(report, _), Event::RumbleStrength(strength)) => if strength
            > 0 {
            output_note(report, Purpose::Rumble)
        } else {
            None
        },
        _ => None,
    }
}

/// What is worth noting of an event in a restore.
pub open spec fn restore_note(r: Restore, event: Event) -> Option<Note> {
    match (r.phase, event) {
        (RestorePhase::AwaitReport, Event::Report(report, now)) => if report.pressed is Some {
            output_note(report, Purpose::Feedback)
        } else if now >= r.deadline {
            Some(Note::RestoreTimedOut)
        } else {
            None
        },
        (RestorePhase::AwaitReport, Event::Silence(now)) => if now >= r.deadline {
            Some(Note::RestoreTimedOut)
        } else {
            None
        },
        _ => None,
    }
}

/// What is worth noting of an event.
pub open spec fn note_of(l: Listener, event: Event) -> Option<Note> {
    match l.stage {
        Stage::InSession(session) => session_note(session, event),
        Stage::Restoring(restore) => restore_note(restore, event),
        _ => None,
    }
}

fn unsupported(report: InputReport, purpose: Purpose) -> (r: Option<Note>)
    ensures
        r == output_note(report, purpose),
{
    if report.id == USB_REPORT || report.id == BLUETOOTH_REPORT {
        None
    } else {
        Some(Note::Unsupported(UnsupportedReportId { id: report.id, purpose }))
    }
}

fn when(holds: bool, note: Option<Note>) -> (r: Option<Note>)
    ensures
        r == if holds {
            note
        } else {
            None
        },
{
    if holds {
        note
    } else {
        None
    }
}

fn note_in_session(s: Session, event: Event) -> (r: Option<Note>)
    ensures
        r == session_note(s, event),
{
    match (s.phase, event) {
        (Phase::AwaitReport, Event::Silence(now)) => when(
            now.saturating_sub(s.last_report_at) > REPORT_STALE_AFTER,
            Some(Note::NoReports),
        ),
        (Phase::AwaitClock(_, pressed), Event::Clock(now)) => when(
            pressed && s.was_pressed && now.saturating_sub(s.last_press) > HELD_TOO_LONG,
            Some(Note::StillPressed),
        ),
        (Phase::AwaitSyncLightbar(report, _), Event::Lightbar(_)) => unsupported(
            report,
            Purpose::Feedback,
        ),
        (Phase::AwaitPressLightbar(report, _), Event::Lightbar(_)) => unsupported(
            report,
            Purpose::Feedback,
        ),
        (Phase::AwaitLightbar(report), Event::Lightbar(lightbar)) => when(
            lightbar != s.last_lightbar && s.last_synced.is_some(),
            unsupported(report, Purpose::Feedback),
        ),
        (Phase::AwaitTestStrength(report), Event::RumbleStrength(strength)) => when(
            strength > 0,
            unsupported(report, Purpose::Rumble),
        ),
        (Phase::AwaitPressStrength(report, _), Event::RumbleStrength(strength)) => when(
            strength > 0,
            unsupported(report, Purpose::Rumble),
        ),
        _ => None,
    }
}

fn note_in_restore(r: Restore, event: Event) -> (n: Option<Note>)
    ensures
        n == restore_note(r, event),
{
    match (r.phase, event) {
        (RestorePhase::AwaitReport, Event::Report(report, now)) => if report.pressed.is_some() {
            unsupported(report, Purpose::Feedback)
        } else {
            when(now >= r.deadline, Some(Note::RestoreTimedOut))
        },
        (RestorePhase::AwaitReport, Event::Silence(now)) => when(
            now >= r.deadline,
            Some(Note::RestoreTimedOut),
        ),
        _ => None,
    }
}

/// Says what is worth noting of an event that the listener is about to take in.
pub fn note(listener: &Listener, event: Event) -> (r: Option<Note>)
    ensures
        r == note_of(*listener, event),
{
    match listener.stage {
        Stage::InSession(session) => note_in_session(session, event),
        Stage::Restoring(restore) => note_in_restore(restore, event),
        _ => None,
    }
}

/// A note on an output that there is no format for comes up exactly where no
/// report can be written.
pub proof fn law_unwritten_outputs_are_noted(
    report: InputReport,
    purpose: Purpose,
    fields: Seq<u8>,
    seq_number: u8,
)
    ensures
        output_note(report, purpose) is Some <==> output_report(report.id, fields, seq_number)
            is None,
{
}

/// The notes on a session tell what becomes of it: that the button was given up
/// on, and that silence ended it, are noted exactly when they happen.
pub proof fn law_notes_tell_what_happens(s: Session, event: Event)
    requires
        !(s.phase is Ended),
    ensures
        session_note(s, event) == Some(Note::StillPressed) <==> s.phase is AwaitClock && s.was_pressed && !next(
            s,
            event,
        ).session.was_pressed && s.phase->AwaitClock_1,
        session_note(s, event) == Some(Note::NoReports) <==> event is Silence && next(
            s,
            event,
        ).session.phase is Ended,
{
}

} // verus!
