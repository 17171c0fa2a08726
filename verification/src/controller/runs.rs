//! What holds of whole runs: of all that a session or the listener puts out
//! over whatever happens to it.

use vstd::prelude::*;
use crate::controller::input::InputReport;
use crate::controller::laws::{listener_run, session_run};
use crate::controller::listener::{advance, started, Listener, Stage};
use crate::controller::output::{
    feedback_fields, feedback_report, held, lightbar_colour, output_report, played, rumble_fields,
    rumble_pattern, rumble_report, seq_after, seq_after_many, written, Pulse,
};
use crate::controller::session::{
    buzz, buzzed, fresh, next, on_contents, Phase, Session, HELD_TOO_LONG,
};
use crate::controller::step::{elapsed, Event, OutputView};
use crate::controller::{Battery, VoiceState};

verus! {

/// All that a session puts out over a run of events.
pub open spec fn session_outputs(s: Session, events: Seq<Event>) -> Seq<OutputView>
    decreases events.len(),
{
    if events.len() == 0 {
        seq![]
    } else {
        session_outputs(s, events.drop_last()) + next(
            session_run(s, events.drop_last()),
            events.last(),
        ).outputs
    }
}

/// All that a listener puts out over a run of events.
pub open spec fn listener_outputs(l: Listener, events: Seq<Event>) -> Seq<OutputView>
    decreases events.len(),
{
    if events.len() == 0 {
        seq![]
    } else {
        listener_outputs(l, events.drop_last()) + advance(
            listener_run(l, events.drop_last()),
            events.last(),
        ).outputs
    }
}

/// One look at the mic button.
pub struct Reading {
    pub pressed: bool,
    pub at: u64,
}

/// The look at the mic button that an event completes, if it does.
pub open spec fn reading_of(s: Session, event: Event) -> Option<Reading> {
    match (s.phase, event) {
        (Phase::AwaitClock(_, pressed), Event::Clock(at)) => Some(Reading { pressed, at }),
        _ => None,
    }
}

/// All looks at the mic button over a run of events.
pub open spec fn readings(s: Session, events: Seq<Event>) -> Seq<Reading>
    decreases events.len(),
{
    if events.len() == 0 {
        seq![]
    } else {
        let before = readings(s, events.drop_last());
        match reading_of(session_run(s, events.drop_last()), events.last()) {
            Some(reading) => before.push(reading),
            None => before,
        }
    }
}

/// For each look at the mic button over a run of events, whether it led to a
/// toggle.
pub open spec fn toggles(s: Session, events: Seq<Event>) -> Seq<bool>
    decreases events.len(),
{
    if events.len() == 0 {
        seq![]
    } else {
        let before = toggles(s, events.drop_last());
        match reading_of(session_run(s, events.drop_last()), events.last()) {
            Some(_) => before.push(session_run(s, events).phase is AwaitPressed),
            None => before,
        }
    }
}

/// Whether a look is a rising edge: the button reads pressed and did not at the
/// look before, or was given up on then.
pub open spec fn is_edge(looks: Seq<Reading>, k: nat) -> bool
    decreases k, 0nat,
{
    looks[k as int].pressed && (k == 0 || !looks[k - 1].pressed || given_up(
        looks,
        (k - 1) as nat,
    ))
}

/// When the last rising edge up to a look was.
pub open spec fn last_edge(looks: Seq<Reading>, k: nat) -> u64
    decreases k, 1nat,
{
    if k == 0 || is_edge(looks, k) {
        looks[k as int].at
    } else {
        last_edge(looks, (k - 1) as nat)
    }
}

/// Whether a look finds the button pressed for too long since its last rising
/// edge.
pub open spec fn given_up(looks: Seq<Reading>, k: nat) -> bool
    decreases k, 2nat,
{
    looks[k as int].pressed && !is_edge(looks, k) && elapsed(
        looks[k as int].at,
        last_edge(looks, k),
    ) > HELD_TOO_LONG
}

proof fn lemma_edges_of_prefix(looks: Seq<Reading>, more: Reading, k: nat)
    requires
        k < looks.len(),
    ensures
        is_edge(looks.push(more), k) == is_edge(looks, k),
        last_edge(looks.push(more), k) == last_edge(looks, k),
        given_up(looks.push(more), k) == given_up(looks, k),
    decreases k,
{
    if k > 0 {
        lemma_edges_of_prefix(looks, more, (k - 1) as nat);
    }
}

proof fn lemma_step_reads_button(s: Session, event: Event)
    ensures
        ({
            let after = next(s, event).session;
            match reading_of(s, event) {
                Some(reading) => {
                    let edge = reading.pressed && !s.was_pressed;
                    let too_long = reading.pressed && !edge && elapsed(reading.at, s.last_press)
                        > HELD_TOO_LONG;
                    &&& after.phase is AwaitPressed == edge
                    &&& after.was_pressed == (reading.pressed && !too_long)
                    &&& after.last_press == if edge {
                        reading.at
                    } else {
                        s.last_press
                    }
                },
                None => after.was_pressed == s.was_pressed && after.last_press == s.last_press,
            }
        }),
{
}

proof fn lemma_button_state(start: Session, events: Seq<Event>)
    requires
        !start.was_pressed,
        !(start.phase is AwaitPressed),
    ensures
        ({
            let looks = readings(start, events);
            let s = session_run(start, events);
            &&& toggles(start, events).len() == looks.len()
            &&& forall|k: nat|
                k < looks.len() ==> #[trigger] toggles(start, events)[k as int] == is_edge(looks, k)
            &&& looks.len() == 0 ==> !s.was_pressed
            &&& looks.len() > 0 ==> {
                let last = (looks.len() - 1) as nat;
                &&& s.was_pressed == (looks[last as int].pressed && !given_up(looks, last))
                &&& s.was_pressed ==> s.last_press == last_edge(looks, last)
            }
        }),
    decreases events.len(),
{
    if events.len() > 0 {
        let before = events.drop_last();
        lemma_button_state(start, before);
        let s = session_run(start, before);
        let old_looks = readings(start, before);
        let looks = readings(start, events);
        lemma_step_reads_button(s, events.last());
        match reading_of(s, events.last()) {
            Some(reading) => {
                let last = old_looks.len();
                assert(looks == old_looks.push(reading));
                if last > 0 {
                    lemma_edges_of_prefix(old_looks, reading, (last - 1) as nat);
                }
                assert(looks[last as int] == reading);
                assert(is_edge(looks, last) == (reading.pressed && !s.was_pressed));
                assert(s.was_pressed ==> last_edge(looks, last) == s.last_press);
                assert(is_edge(looks, last) ==> last_edge(looks, last) == reading.at);
                assert forall|k: nat| k < looks.len() implies #[trigger] toggles(
                    start,
                    events,
                )[k as int] == is_edge(looks, k) by {
                    if k < last {
                        lemma_edges_of_prefix(old_looks, reading, k);
                        assert(toggles(start, events)[k as int] == toggles(start, before)[k as int]);
                    }
                }
            },
            None => {
                assert(looks == old_looks);
                assert(toggles(start, events) == toggles(start, before));
            },
        }
    }
}

/// Toggles are exactly the rising edges of the mic button: over any run of a
/// session, a look at the button leads to a toggle if and only if the button
/// reads pressed and did not at the look before, or had been given up on then
/// for reading pressed too long.
pub proof fn law_toggles_are_the_rising_edges(
    now: u64,
    lightbar: bool,
    shown: Option<VoiceState>,
    events: Seq<Event>,
    k: nat,
)
    requires
        k < readings(fresh(now, lightbar, shown), events).len(),
    ensures
        toggles(fresh(now, lightbar, shown), events).len() == readings(
            fresh(now, lightbar, shown),
            events,
        ).len(),
        toggles(fresh(now, lightbar, shown), events)[k as int] == is_edge(
            readings(fresh(now, lightbar, shown), events),
            k,
        ),
{
    lemma_button_state(fresh(now, lightbar, shown), events);
}

/// Whether an output is a battery reading.
pub open spec fn tells_battery() -> spec_fn(OutputView) -> bool {
    |o: OutputView| o is Battery
}

/// The battery readings that a session puts out over a run of events.
pub open spec fn batteries(s: Session, events: Seq<Event>) -> Seq<OutputView> {
    session_outputs(s, events).filter(tells_battery())
}

proof fn lemma_played_filters_out(
    input_id: u8,
    pulses: Seq<Pulse>,
    seq_number: u8,
    kind: spec_fn(OutputView) -> bool,
)
    requires
        forall|o: OutputView| o is Write || o is Pause ==> !#[trigger] kind(o),
    ensures
        played(input_id, pulses, seq_number).filter(kind).len() == 0,
    decreases pulses.len(),
{
    reveal_with_fuel(Seq::filter, 2);
    if pulses.len() > 0 {
        let pulse = pulses.last();
        let number = seq_after_many(input_id, seq_number, (pulses.len() - 1) as nat);
        let first = played(input_id, pulses.drop_last(), seq_number);
        let second = written(rumble_report(input_id, pulse.left, pulse.right, number));
        let third = held(pulse.hold);
        lemma_played_filters_out(input_id, pulses.drop_last(), seq_number, kind);
        Seq::filter_distributes_over_add(first, second, kind);
        Seq::filter_distributes_over_add(first + second, third, kind);
        assert(second.filter(kind).len() == 0);
        assert(third.filter(kind).len() == 0);
    }
}

proof fn lemma_written_filters_out(report: Option<Seq<u8>>, kind: spec_fn(OutputView) -> bool)
    requires
        forall|o: OutputView| o is Write || o is Pause ==> !#[trigger] kind(o),
    ensures
        written(report).filter(kind).len() == 0,
{
    reveal_with_fuel(Seq::filter, 2);
}

proof fn lemma_contents_tell_battery(s: Session, report: InputReport)
    ensures
        ({
            let told = on_contents(s, report).outputs.filter(tells_battery());
            let last = on_contents(s, report).session.last_battery;
            if report.battery is Some && report.battery != s.last_battery {
                told == seq![OutputView::Battery(report.battery->0)] && last == report.battery
            } else {
                told.len() == 0 && last == s.last_battery
            }
        }),
{
    reveal_with_fuel(Seq::filter, 3);
    let outputs = on_contents(s, report).outputs;
    if report.battery is Some && report.battery != s.last_battery {
        let told = seq![OutputView::Battery(report.battery->0)];
        assert(told.drop_last() =~= seq![]);
        assert(told.filter(tells_battery()) =~= told);
        if outputs.len() == 2 {
            assert(outputs.drop_last() =~= told);
        }
    } else if outputs.len() == 1 {
        assert(outputs.drop_last() =~= seq![]);
    }
}

proof fn lemma_step_tells_battery(s: Session, event: Event)
    ensures
        ({
            let told = next(s, event).outputs.filter(tells_battery());
            let last = next(s, event).session.last_battery;
            ||| told.len() == 0 && last == s.last_battery
            ||| told.len() == 1 && told[0] is Battery && Some(told[0]->Battery_0) != s.last_battery
                && last == Some(told[0]->Battery_0)
        }),
{
    reveal_with_fuel(Seq::filter, 2);
    match (s.phase, event) {
        (Phase::AwaitRumbleTest(report), Event::RumbleTest(false)) => {
            lemma_contents_tell_battery(s, report);
        },
        (Phase::AwaitTestStrength(report), Event::RumbleStrength(strength)) => {
            let buzzing = buzz(s, report, VoiceState::Muted, strength);
            let after = buzzed(s, report, VoiceState::Muted, strength);
            lemma_contents_tell_battery(after, report);
            lemma_played_filters_out(
                report.id,
                rumble_pattern(VoiceState::Muted, strength),
                s.output_seq,
                tells_battery(),
            );
            Seq::filter_distributes_over_add(
                buzzing,
                on_contents(after, report).outputs,
                tells_battery(),
            );
        },
        (Phase::AwaitPressStrength(report, state), Event::RumbleStrength(strength)) => {
            lemma_played_filters_out(
                report.id,
                rumble_pattern(state, strength),
                s.output_seq,
                tells_battery(),
            );
        },
        (_, Event::Lightbar(_)) => {
            assert forall|report: Option<Seq<u8>>| #[trigger] written(report).filter(
                tells_battery(),
            ).len() == 0 by {
                lemma_written_filters_out(report, tells_battery());
            }
        },
        _ => {},
    }
}

proof fn lemma_told_goes_on(s: Session, events: Seq<Event>)
    requires
        events.len() > 0,
    ensures
        ({
            let before = batteries(s, events.drop_last());
            let told = batteries(s, events);
            let known = session_run(s, events.drop_last()).last_battery;
            let last = session_run(s, events).last_battery;
            ||| told == before && last == known
            ||| told.len() > 0 && told == before.push(told.last()) && told.last() is Battery && Some(
                told.last()->Battery_0,
            ) != known && last == Some(told.last()->Battery_0)
        }),
{
    let before = events.drop_last();
    let step = next(session_run(s, before), events.last()).outputs;
    let new = step.filter(tells_battery());
    lemma_step_tells_battery(session_run(s, before), events.last());
    Seq::filter_distributes_over_add(session_outputs(s, before), step, tells_battery());
    assert(batteries(s, events) == batteries(s, before) + new);
    if new.len() == 0 {
        assert(batteries(s, events) =~= batteries(s, before));
    } else {
        assert(batteries(s, events) =~= batteries(s, before).push(new[0]));
    }
}

/// Over any run of a session its battery readings are put out without repeats:
/// each differs from the one before, and the last one is what the session knows.
pub proof fn law_battery_readings_do_not_repeat(
    now: u64,
    lightbar: bool,
    shown: Option<VoiceState>,
    events: Seq<Event>,
)
    ensures
        ({
            let s = fresh(now, lightbar, shown);
            let told = batteries(s, events);
            &&& forall|i: int| 0 <= i < told.len() ==> #[trigger] told[i] is Battery
            &&& forall|i: int, j: int|
                0 <= i < told.len() && j == i + 1 && j < told.len() ==> #[trigger] told[i]
                    != #[trigger] told[j]
            &&& session_run(s, events).last_battery == if told.len() == 0 {
                None::<Battery>
            } else {
                Some(told.last()->Battery_0)
            }
        }),
    decreases events.len(),
{
    let s = fresh(now, lightbar, shown);
    if events.len() > 0 {
        let before = events.drop_last();
        law_battery_readings_do_not_repeat(now, lightbar, shown, before);
        lemma_told_goes_on(s, events);
    } else {
        reveal(Seq::filter);
    }
}

/// Whether an output is a report written over Bluetooth.
pub open spec fn goes_over_bluetooth() -> spec_fn(OutputView) -> bool {
    |o: OutputView| o matches OutputView::Write(bytes) && bytes.len() > 0 && bytes[0] == 0x31
}

/// The reports that a session writes over Bluetooth over a run of events.
pub open spec fn bluetooth_reports(s: Session, events: Seq<Event>) -> Seq<OutputView> {
    session_outputs(s, events).filter(goes_over_bluetooth())
}

/// The number that a Bluetooth report carries, in the high half of its second
/// byte.
pub open spec fn report_number(o: OutputView) -> int {
    o->Write_0[1] as int / 16
}

/// Whether reports are numbered one after the other, modulo 16, from `first`.
pub open spec fn numbered_from(reports: Seq<OutputView>, first: int) -> bool {
    forall|k: int|
        0 <= k < reports.len() ==> report_number(#[trigger] reports[k]) == (first + k) % 16
}

proof fn lemma_written_number(input_id: u8, fields: Seq<u8>, seq_number: u8)
    requires
        seq_number < 16,
    ensures
        ({
            let report = output_report(input_id, fields, seq_number);
            let reports = written(report).filter(goes_over_bluetooth());
            &&& numbered_from(reports, seq_number as int)
            &&& seq_after(input_id, seq_number) == (seq_number + reports.len()) % 16
        }),
{
    reveal_with_fuel(Seq::filter, 2);
    let report = output_report(input_id, fields, seq_number);
    if report is Some {
        let one = written(report);
        assert(one.drop_last() =~= seq![]);
    }
}

proof fn lemma_joined_numbers(first: Seq<OutputView>, second: Seq<OutputView>, start: int)
    requires
        0 <= start,
        numbered_from(first, start),
        numbered_from(second, (start + first.len()) % 16),
    ensures
        numbered_from(first + second, start),
{
    let both = first + second;
    assert forall|k: int| 0 <= k < both.len() implies report_number(#[trigger] both[k]) == (start
        + k) % 16 by {
        if k < first.len() {
            assert(both[k] == first[k]);
        } else {
            assert(both[k] == second[k - first.len()]);
        }
    }
}

proof fn lemma_played_numbers(input_id: u8, pulses: Seq<Pulse>, seq_number: u8)
    requires
        seq_number < 16,
    ensures
        ({
            let reports = played(input_id, pulses, seq_number).filter(goes_over_bluetooth());
            &&& numbered_from(reports, seq_number as int)
            &&& seq_after_many(input_id, seq_number, pulses.len()) == (seq_number + reports.len())
                % 16
        }),
    decreases pulses.len(),
{
    reveal_with_fuel(Seq::filter, 2);
    if pulses.len() > 0 {
        let pulse = pulses.last();
        let number = seq_after_many(input_id, seq_number, (pulses.len() - 1) as nat);
        let first = played(input_id, pulses.drop_last(), seq_number);
        let second = written(rumble_report(input_id, pulse.left, pulse.right, number));
        let third = held(pulse.hold);
        let kind = goes_over_bluetooth();
        lemma_played_numbers(input_id, pulses.drop_last(), seq_number);
        lemma_written_number(
            input_id,
            rumble_fields(pulse.left, pulse.right),
            number,
        );
        Seq::filter_distributes_over_add(first, second, kind);
        Seq::filter_distributes_over_add(first + second, third, kind);
        assert(third.filter(kind).len() == 0);
        lemma_joined_numbers(first.filter(kind), second.filter(kind), seq_number as int);
        assert((first + second).filter(kind) + third.filter(kind) =~= (first + second).filter(
            kind,
        ));
    }
}

proof fn lemma_contents_write_nothing(s: Session, report: InputReport)
    ensures
        on_contents(s, report).outputs.filter(goes_over_bluetooth()).len() == 0,
        on_contents(s, report).session.output_seq == s.output_seq,
{
    reveal_with_fuel(Seq::filter, 3);
}

proof fn lemma_step_numbers(s: Session, event: Event)
    requires
        s.output_seq < 16,
    ensures
        ({
            let reports = next(s, event).outputs.filter(goes_over_bluetooth());
            &&& numbered_from(reports, s.output_seq as int)
            &&& next(s, event).session.output_seq == (s.output_seq + reports.len()) % 16
        }),
{
    reveal_with_fuel(Seq::filter, 2);
    let kind = goes_over_bluetooth();
    match (s.phase, event) {
        (Phase::AwaitRumbleTest(report), Event::RumbleTest(false)) => {
            lemma_contents_write_nothing(s, report);
        },
        (Phase::AwaitTestStrength(report), Event::RumbleStrength(strength)) => {
            let buzzing = buzz(s, report, VoiceState::Muted, strength);
            let after = buzzed(s, report, VoiceState::Muted, strength);
            let rest = on_contents(after, report).outputs;
            lemma_contents_write_nothing(after, report);
            lemma_played_numbers(
                report.id,
                rumble_pattern(VoiceState::Muted, strength),
                s.output_seq,
            );
            Seq::filter_distributes_over_add(buzzing, rest, kind);
            assert(buzzing.filter(kind) + rest.filter(kind) =~= buzzing.filter(kind));
        },
        (Phase::AwaitPressStrength(report, state), Event::RumbleStrength(strength)) => {
            lemma_played_numbers(report.id, rumble_pattern(state, strength), s.output_seq);
        },
        (_, Event::Lightbar(_)) => {
            assert forall|id: u8, state: VoiceState, lightbar: bool|
                ({
                    let reports = written(
                        #[trigger] feedback_report(id, state, lightbar, s.output_seq),
                    ).filter(kind);
                    &&& numbered_from(reports, s.output_seq as int)
                    &&& seq_after(id, s.output_seq) == (s.output_seq + reports.len()) % 16
                }) by {
                lemma_written_number(
                    id,
                    feedback_fields(
                        state.spec_mic_led_on(),
                        lightbar_colour(state, lightbar),
                    ),
                    s.output_seq,
                );
            }
        },
        _ => {},
    }
}

proof fn lemma_numbers_go_on(s: Session, events: Seq<Event>)
    requires
        events.len() > 0,
        numbered_from(bluetooth_reports(s, events.drop_last()), 0),
        session_run(s, events.drop_last()).output_seq == bluetooth_reports(
            s,
            events.drop_last(),
        ).len() % 16,
    ensures
        numbered_from(bluetooth_reports(s, events), 0),
        session_run(s, events).output_seq == bluetooth_reports(s, events).len() % 16,
{
    let before = events.drop_last();
    let step = next(session_run(s, before), events.last()).outputs;
    let new = step.filter(goes_over_bluetooth());
    lemma_step_numbers(session_run(s, before), events.last());
    Seq::filter_distributes_over_add(session_outputs(s, before), step, goes_over_bluetooth());
    assert(bluetooth_reports(s, events) == bluetooth_reports(s, before) + new);
    lemma_joined_numbers(bluetooth_reports(s, before), new, 0);
}

/// In each session the reports that go over Bluetooth are numbered one after
/// the other, modulo 16, starting from 0, whatever they are for.
pub proof fn law_bluetooth_reports_are_numbered(
    now: u64,
    lightbar: bool,
    shown: Option<VoiceState>,
    events: Seq<Event>,
)
    ensures
        ({
            let s = fresh(now, lightbar, shown);
            let reports = bluetooth_reports(s, events);
            &&& numbered_from(reports, 0)
            &&& session_run(s, events).output_seq == reports.len() % 16
        }),
    decreases events.len(),
{
    let s = fresh(now, lightbar, shown);
    if events.len() > 0 {
        let before = events.drop_last();
        law_bluetooth_reports_are_numbered(now, lightbar, shown, before);
        lemma_numbers_go_on(s, events);
    } else {
        reveal(Seq::filter);
    }
}

/// Whether the listener has told its handler of a controller that it has not
/// yet told it is gone.
pub open spec fn is_attached(l: Listener) -> bool {
    match l.stage {
        Stage::AwaitRestoreLightbar(_) => true,
        Stage::AwaitRestoreClock(_, _) => true,
        Stage::Restoring(_) => true,
        Stage::AwaitSessionClock(_) => true,
        Stage::AwaitSessionLightbar(_) => true,
        Stage::InSession(_) => true,
        _ => false,
    }
}

/// How many times the handler was told of a controller over a run of events.
pub open spec fn connects(l: Listener, events: Seq<Event>) -> nat
    decreases events.len(),
{
    if events.len() == 0 {
        0
    } else {
        let before = listener_run(l, events.drop_last());
        connects(l, events.drop_last()) + if before.stage == Stage::AwaitConnected
            && events.last() is Connected {
            1nat
        } else {
            0nat
        }
    }
}

/// Whether an output tells the handler that the controller is gone.
pub open spec fn tells_disconnect() -> spec_fn(OutputView) -> bool {
    |o: OutputView| o is Disconnected
}

/// How many times the handler was told that the controller is gone over a run
/// of events.
pub open spec fn disconnects(l: Listener, events: Seq<Event>) -> nat {
    listener_outputs(l, events).filter(tells_disconnect()).len()
}

proof fn lemma_contents_are_quiet(s: Session, report: InputReport)
    ensures
        on_contents(s, report).outputs.filter(tells_disconnect()).len() == 0,
{
    reveal_with_fuel(Seq::filter, 3);
}

proof fn lemma_sessions_tell_no_disconnect(s: Session, event: Event)
    ensures
        next(s, event).outputs.filter(tells_disconnect()).len() == 0,
{
    reveal_with_fuel(Seq::filter, 2);
    let kind = tells_disconnect();
    match (s.phase, event) {
        (Phase::AwaitRumbleTest(report), Event::RumbleTest(false)) => {
            lemma_contents_are_quiet(s, report);
        },
        (Phase::AwaitTestStrength(report), Event::RumbleStrength(strength)) => {
            let buzzing = buzz(s, report, VoiceState::Muted, strength);
            let after = buzzed(s, report, VoiceState::Muted, strength);
            lemma_contents_are_quiet(after, report);
            lemma_played_filters_out(
                report.id,
                rumble_pattern(VoiceState::Muted, strength),
                s.output_seq,
                kind,
            );
            Seq::filter_distributes_over_add(buzzing, on_contents(after, report).outputs, kind);
        },
        (Phase::AwaitPressStrength(report, state), Event::RumbleStrength(strength)) => {
            lemma_played_filters_out(
                report.id,
                rumble_pattern(state, strength),
                s.output_seq,
                kind,
            );
        },
        (_, Event::Lightbar(_)) => {
            assert forall|report: Option<Seq<u8>>| #[trigger] written(report).filter(kind).len()
                == 0 by {
                lemma_written_filters_out(report, kind);
            }
        },
        _ => {},
    }
}

proof fn lemma_step_attaches(l: Listener, event: Event)
    ensures
        ({
            let a = advance(l, event);
            let gone = a.outputs.filter(tells_disconnect()).len();
            let came: int = if l.stage == Stage::AwaitConnected && event is Connected {
                1
            } else {
                0
            };
            let before: int = if is_attached(l) {
                1
            } else {
                0
            };
            let after: int = if is_attached(a.listener) {
                1
            } else {
                0
            };
            before + came == gone + after
        }),
{
    reveal_with_fuel(Seq::filter, 2);
    let kind = tells_disconnect();
    match l.stage {
        Stage::InSession(s) => {
            let quiet = next(s, event).outputs;
            lemma_sessions_tell_no_disconnect(s, event);
            let told = quiet.push(OutputView::Disconnected);
            assert(told.drop_last() =~= quiet);
            assert(told.filter(kind) =~= quiet.filter(kind).push(OutputView::Disconnected));
        },
        Stage::Restoring(_) => {
            assert forall|report: Option<Seq<u8>>| #[trigger] written(report).filter(kind).len()
                == 0 by {
                lemma_written_filters_out(report, kind);
            }
        },
        _ => {},
    }
}

/// Every connect is followed by one disconnect: at every point of a run the
/// handler has been told of as many controllers that came as of ones that went,
/// or of one more while it has one. So the two alternate, starting with a
/// connect.
pub proof fn law_connects_and_disconnects_alternate(events: Seq<Event>)
    ensures
        connects(started(), events) == disconnects(started(), events) + if is_attached(
            listener_run(started(), events),
        ) {
            1nat
        } else {
            0nat
        },
    decreases events.len(),
{
    reveal_with_fuel(Seq::filter, 2);
    if events.len() > 0 {
        let before = events.drop_last();
        law_connects_and_disconnects_alternate(before);
        lemma_step_attaches(listener_run(started(), before), events.last());
        Seq::filter_distributes_over_add(
            listener_outputs(started(), before),
            advance(listener_run(started(), before), events.last()).outputs,
            tells_disconnect(),
        );
    }
}

} // verus!
