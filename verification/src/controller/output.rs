//! DualSense output reports: mic LED, lightbar and rumble, over USB and over
//! Bluetooth.

use vstd::prelude::*;
use crate::controller::input::{BLUETOOTH_REPORT, USB_REPORT};
use crate::controller::step::{emit, views, Output, OutputView};
use crate::controller::VoiceState;
use crate::text::{hex, hex_text, join};
use crate::wire::{le32, push_le32};

verus! {

/// Motor amplitude at full strength for muting and deafening.
pub const RUMBLE_STRONG_FULL: u8 = 200;

/// Motor amplitude at full strength for going live.
pub const RUMBLE_LIGHT_FULL: u8 = 130;

/// The byte that a Bluetooth output report's checksum starts from.
pub const BLUETOOTH_CRC_SEED: u8 = 0xa2;

/// One millisecond, in the nanoseconds that all times here are counted in.
pub const MILLISECOND: u64 = 1_000_000;

/// One step of the reflected CRC-32 shift register.
pub open spec fn crc32_step(crc: u32) -> u32 {
    if crc & 1 == 1 {
        (crc >> 1) ^ 0xedb8_8320
    } else {
        crc >> 1
    }
}

/// `n` steps of the shift register.
pub open spec fn crc32_steps(crc: u32, n: nat) -> u32
    decreases n,
{
    if n == 0 {
        crc
    } else {
        crc32_step(crc32_steps(crc, (n - 1) as nat))
    }
}

/// The shift register after `bytes` were fed to it, low bit first.
pub open spec fn crc32_over(crc: u32, bytes: Seq<u8>) -> u32
    decreases bytes.len(),
{
    if bytes.len() == 0 {
        crc
    } else {
        crc32_steps(crc32_over(crc, bytes.drop_last()) ^ (bytes.last() as u32), 8)
    }
}

/// The checksum of a Bluetooth output report: the CRC-32 of the seed byte and
/// the report without its last four bytes.
pub open spec fn bluetooth_crc32(report_without_crc: Seq<u8>) -> u32 {
    !crc32_over(0xffff_ffff, seq![BLUETOOTH_CRC_SEED] + report_without_crc)
}

/// Feeds `bytes` to the CRC-32 register `crc`.
pub fn crc32_update(crc: u32, bytes: &[u8]) -> (r: u32)
    ensures
        r == crc32_over(crc, bytes@),
{
    let mut register: u32 = crc;
    let mut i: usize = 0;
    while i < bytes.len()
        invariant
            i <= bytes@.len(),
            register == crc32_over(crc, bytes@.take(i as int)),
        decreases bytes@.len() - i,
    {
        let ghost before = register;
        register = register ^ (bytes[i] as u32);
        let ghost start = register;
        let mut bit: u32 = 0;
        while bit < 8
            invariant
                bit <= 8,
                register == crc32_steps(start, bit as nat),
            decreases 8 - bit,
        {
            register = if register & 1 == 1 {
                (register >> 1) ^ 0xedb8_8320
            } else {
                register >> 1
            };
            bit += 1;
        }
        assert(bytes@.take(i + 1).drop_last() =~= bytes@.take(i as int));
        i += 1;
    }
    assert(bytes@.take(i as int) =~= bytes@);
    register
}

/// Feeding two runs of bytes one after the other is feeding them joined.
pub proof fn law_crc32_over_joined(crc: u32, first: Seq<u8>, second: Seq<u8>)
    ensures
        crc32_over(crc32_over(crc, first), second) == crc32_over(crc, first + second),
    decreases second.len(),
{
    if second.len() == 0 {
        assert(first + second =~= first);
    } else {
        law_crc32_over_joined(crc, first, second.drop_last());
        assert((first + second).drop_last() =~= first + second.drop_last());
    }
}

/// The checksum that a Bluetooth output report ends in.
pub fn dualsense_bluetooth_crc32(report_without_crc: &[u8]) -> (r: u32)
    ensures
        r == bluetooth_crc32(report_without_crc@),
{
    let seed: [u8; 1] = [BLUETOOTH_CRC_SEED];
    let seeded: u32 = crc32_update(0xffff_ffff, &seed);
    proof {
        assert(seed@ =~= seq![BLUETOOTH_CRC_SEED]);
        law_crc32_over_joined(0xffff_ffff, seed@, report_without_crc@);
    }
    !crc32_update(seeded, report_without_crc)
}

/// `fields` with zeros behind them, `len` bytes in all.
pub open spec fn padded(fields: Seq<u8>, len: nat) -> Seq<u8> {
    Seq::new(
        len,
        |i: int|
            if i < fields.len() {
                fields[i]
            } else {
                0u8
            },
    )
}

/// A USB output report that carries the common fields `fields`.
pub open spec fn usb_output(fields: Seq<u8>) -> Seq<u8> {
    seq![0x02u8] + padded(fields, 62)
}

/// A Bluetooth output report without its checksum. The sequence number counts
/// reports modulo 16 and sits in a high nibble; the common fields lie two bytes
/// further in than over USB.
pub open spec fn bluetooth_body(fields: Seq<u8>, seq_number: u8) -> Seq<u8> {
    seq![0x31u8, ((seq_number % 16) * 16) as u8, 0x10u8] + padded(fields, 71)
}

/// A Bluetooth output report that carries the common fields `fields`.
pub open spec fn bluetooth_output(fields: Seq<u8>, seq_number: u8) -> Seq<u8> {
    let body = bluetooth_body(fields, seq_number);
    body + le32(bluetooth_crc32(body) as int)
}

/// The sequence number after `seq_number`.
pub open spec fn next_seq(seq_number: u8) -> u8 {
    ((seq_number + 1) % 16) as u8
}

/// The report that carries `fields` to a controller whose input reports have
/// the id `input_id`, or `None` if there is no output format for that id.
pub open spec fn output_report(input_id: u8, fields: Seq<u8>, seq_number: u8) -> Option<Seq<u8>> {
    if input_id == USB_REPORT {
        Some(usb_output(fields))
    } else if input_id == BLUETOOTH_REPORT {
        Some(bluetooth_output(fields, seq_number))
    } else {
        None
    }
}

/// The sequence number after a report for `input_id`: only Bluetooth counts.
pub open spec fn seq_after(input_id: u8, seq_number: u8) -> u8 {
    if input_id == BLUETOOTH_REPORT {
        next_seq(seq_number)
    } else {
        seq_number
    }
}

fn push_padded(out: &mut Vec<u8>, fields: &[u8], len: usize)
    ensures
        final(out)@ == old(out)@ + padded(fields@, len as nat),
{
    let ghost before = out@;
    let mut i: usize = 0;
    while i < len
        invariant
            i <= len,
            out@ == before + padded(fields@, len as nat).take(i as int),
        decreases len - i,
    {
        let byte: u8 = if i < fields.len() {
            fields[i]
        } else {
            0
        };
        out.push(byte);
        assert(padded(fields@, len as nat).take(i + 1) =~= padded(fields@, len as nat).take(
            i as int,
        ).push(byte));
        i += 1;
    }
    assert(padded(fields@, len as nat).take(len as int) =~= padded(fields@, len as nat));
}

/// What an output report is for.
#[derive(Debug, Clone, Copy, PartialEq, Eq, Structural)]
pub enum Purpose {
    Feedback,
    Rumble,
}

/// There is no output format that answers this input report id.
#[derive(Debug, Clone, Copy, PartialEq, Eq, Structural)]
pub struct UnsupportedReportId {
    pub id: u8,
    pub purpose: Purpose,
}

impl UnsupportedReportId {
    /// How the error reads.
    pub open spec fn spec_message(self) -> Seq<char> {
        "unsupported input report id 0x"@ + hex_text(self.id) + match self.purpose {
            Purpose::Feedback => " for feedback output"@,
            Purpose::Rumble => " for rumble output"@,
        }
    }

    /// How the error reads.
    pub fn message(self) -> (r: String)
        ensures
            r@ == self.spec_message(),
    {
        let mut out = join("unsupported input report id 0x", hex(self.id).as_str());
        match self.purpose {
            Purpose::Feedback => out.append(" for feedback output"),
            Purpose::Rumble => out.append(" for rumble output"),
        }
        out
    }
}

/// Wraps common fields into an output report for the transport that the input
/// report id `input_id` tells, counting Bluetooth reports in `output_seq`.
pub fn build_output(input_id: u8, fields: &[u8], purpose: Purpose, output_seq: &mut u8) -> (r:
    Result<Vec<u8>, UnsupportedReportId>)
    ensures
        *final(output_seq) == seq_after(input_id, *old(output_seq)),
        match r {
            Ok(report) => output_report(input_id, fields@, *old(output_seq)) == Some(report@),
            Err(e) => output_report(input_id, fields@, *old(output_seq)) is None && e == (
            UnsupportedReportId { id: input_id, purpose }),
        },
{
    if input_id == USB_REPORT {
        let mut report: Vec<u8> = Vec::new();
        report.push(0x02);
        push_padded(&mut report, fields, 62);
        assert(report@ =~= usb_output(fields@));
        Ok(report)
    } else if input_id == BLUETOOTH_REPORT {
        let number: u8 = *output_seq;
        let mut report: Vec<u8> = Vec::new();
        report.push(0x31);
        report.push((number % 16) * 16);
        report.push(0x10);
        push_padded(&mut report, fields, 71);
        assert(report@ =~= bluetooth_body(fields@, number));

        *output_seq = (number % 16 + 1) % 16;
        let crc: u32 = dualsense_bluetooth_crc32(report.as_slice());
        push_le32(&mut report, crc);
        Ok(report)
    } else {
        Err(UnsupportedReportId { id: input_id, purpose })
    }
}

/// The common fields that set the mic LED and the lightbar, and nothing else:
/// the flags byte names LED, power save and lightbar; then the LED with its
/// power-save bit, and the colour.
pub open spec fn feedback_fields(led_on: bool, rgb: (u8, u8, u8)) -> Seq<u8> {
    Seq::new(
        47,
        |i: int|
            if i == 1 {
                0x07u8
            } else if i == 8 && led_on {
                0x01u8
            } else if i == 9 && led_on {
                0x10u8
            } else if i == 44 {
                rgb.0
            } else if i == 45 {
                rgb.1
            } else if i == 46 {
                rgb.2
            } else {
                0u8
            },
    )
}

/// The common fields that set the two rumble motors, and nothing else. The
/// flags byte selects haptics and compatible vibration; with only the latter
/// the motors stay silent.
pub open spec fn rumble_fields(left: u8, right: u8) -> Seq<u8> {
    seq![0x03u8, 0u8, right, left]
}

/// The colour a lightbar shows for `state`, dark if it is switched off.
pub open spec fn lightbar_colour(state: VoiceState, lightbar: bool) -> (u8, u8, u8) {
    if lightbar {
        state.spec_lightbar()
    } else {
        (0u8, 0u8, 0u8)
    }
}

/// The report that mirrors `state` onto LED and lightbar.
pub open spec fn feedback_report(
    input_id: u8,
    state: VoiceState,
    lightbar: bool,
    seq_number: u8,
) -> Option<Seq<u8>> {
    output_report(
        input_id,
        feedback_fields(state.spec_mic_led_on(), lightbar_colour(state, lightbar)),
        seq_number,
    )
}

/// The report that sets the motors to `left` and `right`.
pub open spec fn rumble_report(input_id: u8, left: u8, right: u8, seq_number: u8) -> Option<
    Seq<u8>,
> {
    output_report(input_id, rumble_fields(left, right), seq_number)
}

/// Builds the report that switches the mic LED and colours the lightbar.
pub fn write_feedback_report(
    input_report_id: u8,
    led_on: bool,
    rgb: (u8, u8, u8),
    output_seq: &mut u8,
) -> (r: Result<Vec<u8>, UnsupportedReportId>)
    ensures
        *final(output_seq) == seq_after(input_report_id, *old(output_seq)),
        match r {
            Ok(report) => output_report(
                input_report_id,
                feedback_fields(led_on, rgb),
                *old(output_seq),
            ) == Some(report@),
            Err(e) => output_report(
                input_report_id,
                feedback_fields(led_on, rgb),
                *old(output_seq),
            ) is None && e == (UnsupportedReportId {
                id: input_report_id,
                purpose: Purpose::Feedback,
            }),
        },
{
    let mut fields: Vec<u8> = vec![0u8; 47];
    fields.set(1, 0x03 + 0x04);
    if led_on {
        fields.set(8, 0x01);
        fields.set(9, 0x10);
    }
    fields.set(44, rgb.0);
    fields.set(45, rgb.1);
    fields.set(46, rgb.2);
    assert(fields@ =~= feedback_fields(led_on, rgb));
    build_output(input_report_id, fields.as_slice(), Purpose::Feedback, output_seq)
}

/// Mirrors `state` onto the controller's mic-mute LED and lightbar in one
/// output report. With `lightbar` off, the LED still tracks the state but the
/// lightbar is driven dark rather than left showing a stale colour.
pub fn sync_feedback(
    input_report_id: u8,
    state: VoiceState,
    lightbar: bool,
    output_seq: &mut u8,
) -> (r: Result<Vec<u8>, UnsupportedReportId>)
    ensures
        *final(output_seq) == seq_after(input_report_id, *old(output_seq)),
        match r {
            Ok(report) => feedback_report(input_report_id, state, lightbar, *old(output_seq))
                == Some(report@),
            Err(e) => feedback_report(input_report_id, state, lightbar, *old(output_seq)) is None
                && e == (UnsupportedReportId { id: input_report_id, purpose: Purpose::Feedback }),
        },
{
    let rgb = if lightbar {
        state.lightbar()
    } else {
        (0u8, 0u8, 0u8)
    };
    write_feedback_report(input_report_id, state.mic_led_on(), rgb, output_seq)
}

/// Sets the two rumble motors (`left` is the low-frequency/strong motor). Uses
/// the DS4-compatible vibration path, which the DualSense honours.
pub fn write_rumble_report(
    input_report_id: u8,
    left: u8,
    right: u8,
    output_seq: &mut u8,
) -> (r: Result<Vec<u8>, UnsupportedReportId>)
    ensures
        *final(output_seq) == seq_after(input_report_id, *old(output_seq)),
        match r {
            Ok(report) => rumble_report(input_report_id, left, right, *old(output_seq)) == Some(
                report@,
            ),
            Err(e) => rumble_report(input_report_id, left, right, *old(output_seq)) is None
                && e == (UnsupportedReportId { id: input_report_id, purpose: Purpose::Rumble }),
        },
{
    let fields: [u8; 4] = [0x03, 0, right, left];
    assert(fields@ =~= rumble_fields(left, right));
    build_output(input_report_id, &fields, Purpose::Rumble, output_seq)
}

/// One setting of the motors, held for `hold` nanoseconds; zero goes straight on.
#[derive(Debug, Clone, Copy, PartialEq, Eq, Structural)]
pub struct Pulse {
    pub left: u8,
    pub right: u8,
    pub hold: u64,
}

/// A full-strength amplitude, scaled down to `strength` percent.
pub open spec fn scaled(full: u8, strength: u8) -> u8 {
    (full * strength / 100) as u8
}

/// The pulses that confirm a toggle to `state`: two light taps for going live,
/// one firmer buzz for muting or deafening, nothing at strength zero.
pub open spec fn rumble_pattern(state: VoiceState, strength: u8) -> Seq<Pulse> {
    let strength = if strength > 100 {
        100u8
    } else {
        strength
    };
    if strength == 0 {
        seq![]
    } else if state == VoiceState::Live {
        let tap = Pulse {
            left: 0,
            right: scaled(RUMBLE_LIGHT_FULL, strength),
            hold: (55 * MILLISECOND) as u64,
        };
        seq![
            tap,
            Pulse { left: 0, right: 0, hold: (45 * MILLISECOND) as u64 },
            tap,
            Pulse { left: 0, right: 0, hold: 0 },
        ]
    } else {
        seq![
            Pulse {
                left: scaled(RUMBLE_STRONG_FULL, strength),
                right: 0,
                hold: (150 * MILLISECOND) as u64,
            },
            Pulse { left: 0, right: 0, hold: 0 },
        ]
    }
}

/// The sequence number after `n` reports for `input_id`.
pub open spec fn seq_after_many(input_id: u8, seq_number: u8, n: nat) -> u8
    decreases n,
{
    if n == 0 {
        seq_number
    } else {
        seq_after(input_id, seq_after_many(input_id, seq_number, (n - 1) as nat))
    }
}

/// Writing `report`, if there is one.
pub open spec fn written(report: Option<Seq<u8>>) -> Seq<OutputView> {
    match report {
        Some(bytes) => seq![OutputView::Write(bytes)],
        None => seq![],
    }
}

/// Holding still for `hold` nanoseconds, if there is anything to wait for.
pub open spec fn held(hold: u64) -> Seq<OutputView> {
    if hold > 0 {
        seq![OutputView::Pause(hold)]
    } else {
        seq![]
    }
}

/// What playing `pulses` puts out: each pulse's report, then its pause.
pub open spec fn played(input_id: u8, pulses: Seq<Pulse>, seq_number: u8) -> Seq<OutputView>
    decreases pulses.len(),
{
    if pulses.len() == 0 {
        seq![]
    } else {
        let pulse = pulses.last();
        let number = seq_after_many(input_id, seq_number, (pulses.len() - 1) as nat);
        played(input_id, pulses.drop_last(), seq_number) + written(
            rumble_report(input_id, pulse.left, pulse.right, number),
        ) + held(pulse.hold)
    }
}

fn scale(full: u8, strength: u8) -> (r: u8)
    requires
        strength <= 100,
    ensures
        r == scaled(full, strength),
{
    assert(0 <= full * strength <= 255 * 100) by (nonlinear_arith)
        requires
            0 <= full <= 255,
            0 <= strength <= 100,
    ;
    assert(full * strength / 100 <= full) by (nonlinear_arith)
        requires
            0 <= full <= 255,
            0 <= strength <= 100,
    ;
    (full as u16 * strength as u16 / 100) as u8
}

fn pattern(state: VoiceState, strength: u8) -> (r: Vec<Pulse>)
    ensures
        r@ == rumble_pattern(state, strength),
{
    let strength: u8 = if strength > 100 {
        100
    } else {
        strength
    };
    let mut pulses: Vec<Pulse> = Vec::new();
    if strength == 0 {
        return pulses;
    }
    match state {
        VoiceState::Live => {
            let tap = Pulse {
                left: 0,
                right: scale(RUMBLE_LIGHT_FULL, strength),
                hold: 55 * MILLISECOND,
            };
            pulses.push(tap);
            pulses.push(Pulse { left: 0, right: 0, hold: 45 * MILLISECOND });
            pulses.push(tap);
            pulses.push(Pulse { left: 0, right: 0, hold: 0 });
        },
        VoiceState::Muted | VoiceState::Deafened => {
            pulses.push(
                Pulse {
                    left: scale(RUMBLE_STRONG_FULL, strength),
                    right: 0,
                    hold: 150 * MILLISECOND,
                },
            );
            pulses.push(Pulse { left: 0, right: 0, hold: 0 });
        },
    }
    pulses
}

/// A brief tactile confirmation of a *local* toggle: two light taps for going
/// live, one firmer buzz for muting or deafening. Amplitudes scale with
/// `strength` (0-100); at 0 the buzz is skipped entirely. Where no output
/// format answers the input report id nothing is written, but the pauses stay.
pub fn rumble_confirm(
    input_report_id: u8,
    state: VoiceState,
    strength: u8,
    output_seq: &mut u8,
) -> (r: Vec<Output>)
    ensures
        views(r@) == played(
            input_report_id,
            rumble_pattern(state, strength),
            *old(output_seq),
        ),
        *final(output_seq) == seq_after_many(
            input_report_id,
            *old(output_seq),
            rumble_pattern(state, strength).len(),
        ),
{
    let ghost first = *output_seq;
    let pulses = pattern(state, strength);
    let mut out: Vec<Output> = Vec::new();
    let mut i: usize = 0;
    assert(views(out@) =~= played(input_report_id, pulses@.take(0), first));
    while i < pulses.len()
        invariant
            i <= pulses@.len(),
            views(out@) == played(input_report_id, pulses@.take(i as int), first),
            *output_seq == seq_after_many(input_report_id, first, i as nat),
        decreases pulses@.len() - i,
    {
        let ghost before = views(out@);
        let pulse = pulses[i];
        let ghost number = *output_seq;
        let report = write_rumble_report(input_report_id, pulse.left, pulse.right, output_seq);
        if let Ok(bytes) = report {
            emit(&mut out, Output::Write(bytes));
        }
        if pulse.hold > 0 {
            emit(&mut out, Output::Pause(pulse.hold));
        }
        proof {
            let now = pulses@.take(i + 1);
            assert(now.drop_last() =~= pulses@.take(i as int));
            assert(now.last() == pulse);
            assert(views(out@) =~= before + written(
                rumble_report(input_report_id, pulse.left, pulse.right, number),
            ) + held(pulse.hold));
        }
        i += 1;
    }
    assert(pulses@.take(i as int) =~= pulses@);
    out
}

/// A confirmation never leaves the motors running: its last pulse stops both.
pub proof fn law_rumble_ends_silent(state: VoiceState, strength: u8)
    ensures
        strength > 0 ==> {
            let pulses = rumble_pattern(state, strength);
            &&& pulses.len() > 0
            &&& pulses.last().left == 0
            &&& pulses.last().right == 0
            &&& pulses.last().hold == 0
        },
        strength == 0 ==> rumble_pattern(state, strength).len() == 0,
{
}

/// Over Bluetooth every common field lies two bytes further into the report
/// than over USB.
pub proof fn law_bluetooth_shifts_by_two(fields: Seq<u8>, seq_number: u8, i: int)
    requires
        fields.len() <= 62,
        0 <= i < fields.len(),
    ensures
        usb_output(fields)[1 + i] == fields[i],
        bluetooth_output(fields, seq_number)[3 + i] == fields[i],
{
}

/// A USB report has 63 bytes and a Bluetooth report has 78; the latter ends in
/// the checksum of its first 74.
pub proof fn law_output_lengths(fields: Seq<u8>, seq_number: u8)
    ensures
        usb_output(fields).len() == 63,
        bluetooth_output(fields, seq_number).len() == 78,
        bluetooth_output(fields, seq_number).skip(74) == le32(
            bluetooth_crc32(bluetooth_output(fields, seq_number).take(74)) as int,
        ),
{
    let body = bluetooth_body(fields, seq_number);
    assert(bluetooth_output(fields, seq_number).take(74) =~= body);
    assert(bluetooth_output(fields, seq_number).skip(74) =~= le32(bluetooth_crc32(body) as int));
}

/// Setting the LED and lightbar never touches the motors, and a rumble never
/// touches LED or lightbar: each report's flags name only its own fields.
pub proof fn law_feedback_and_rumble_are_apart(
    led_on: bool,
    rgb: (u8, u8, u8),
    left: u8,
    right: u8,
)
    ensures
        feedback_fields(led_on, rgb)[0] == 0,
        feedback_fields(led_on, rgb)[1] == 0x07,
        padded(rumble_fields(left, right), 62)[0] == 0x03,
        padded(rumble_fields(left, right), 62)[1] == 0,
{
}

/// There is an output format for a controller that reports with id 0x01 or 0x31,
/// and for no other.
pub proof fn law_which_controllers_can_be_written_to(
    input_id: u8,
    fields: Seq<u8>,
    seq_number: u8,
)
    ensures
        output_report(input_id, fields, seq_number) is Some <==> input_id == 0x01 || input_id
            == 0x31,
{
}

/// A USB report, byte by byte: 63 bytes, its id, then the fields and nothing
/// else.
pub proof fn law_usb_reports_byte_by_byte(fields: Seq<u8>, seq_number: u8, i: int)
    requires
        0 <= i < 63,
    ensures
        ({
            let report = output_report(0x01, fields, seq_number)->0;
            &&& report.len() == 63
            &&& report[i] == if i == 0 {
                0x02u8
            } else if i <= fields.len() {
                fields[i - 1]
            } else {
                0u8
            }
        }),
{
}

/// A Bluetooth report, byte by byte: 78 bytes, its id, its number in the high
/// half of a byte, a tag, then the fields and nothing else, and at the end its
/// checksum, lowest byte first.
pub proof fn law_bluetooth_reports_byte_by_byte(fields: Seq<u8>, seq_number: u8, i: int)
    requires
        0 <= i < 74,
    ensures
        ({
            let report = output_report(0x31, fields, seq_number)->0;
            let checksum = bluetooth_crc32(report.take(74)) as int;
            &&& report.len() == 78
            &&& report[i] == if i == 0 {
                0x31
            } else if i == 1 {
                (seq_number % 16) * 16
            } else if i == 2 {
                0x10
            } else if i < fields.len() + 3 {
                fields[i - 3] as int
            } else {
                0
            }
            &&& report[74] + 0x100 * report[75] + 0x1_0000 * report[76] + 0x100_0000 * report[77]
                == checksum
        }),
{
    let report = output_report(0x31, fields, seq_number)->0;
    let body = bluetooth_body(fields, seq_number);
    assert(report.take(74) =~= body);
    crate::wire::law_little_end_first(bluetooth_crc32(body) as int);
    let checksum = le32(bluetooth_crc32(body) as int);
    assert(report[74] == checksum[0] && report[75] == checksum[1] && report[76] == checksum[2]
        && report[77] == checksum[3]);
}

/// What mirrors a voice state, byte by byte: the LED is lit unless one can be
/// heard; the lightbar is green then, red when muted and amber when deafened, or
/// dark when it is switched off; and the flags name just these. Over Bluetooth
/// it all lies two bytes further in.
pub proof fn law_feedback_byte_by_byte(state: VoiceState, lightbar: bool, seq_number: u8, i: int)
    requires
        0 <= i < 62,
    ensures
        ({
            let usb = feedback_report(0x01, state, lightbar, seq_number)->0;
            let bluetooth = feedback_report(0x31, state, lightbar, seq_number)->0;
            let lit = state == VoiceState::Muted || state == VoiceState::Deafened;
            let wanted: int = if i == 1 {
                0x07
            } else if i == 8 && lit {
                0x01
            } else if i == 9 && lit {
                0x10
            } else if lightbar && i == 44 {
                match state {
                    VoiceState::Live => 0,
                    VoiceState::Muted => 130,
                    VoiceState::Deafened => 140,
                }
            } else if lightbar && i == 45 {
                match state {
                    VoiceState::Live => 80,
                    VoiceState::Muted => 0,
                    VoiceState::Deafened => 40,
                }
            } else if lightbar && i == 46 && state == VoiceState::Live {
                24
            } else {
                0
            };
            &&& feedback_report(0x01, state, lightbar, seq_number) is Some
            &&& feedback_report(0x31, state, lightbar, seq_number) is Some
            &&& usb.len() == 63
            &&& bluetooth.len() == 78
            &&& usb[i + 1] == wanted
            &&& bluetooth[i + 3] == wanted
        }),
{
}

/// What sets the motors, byte by byte: the flags of haptics and vibration, the
/// right motor, the left motor, and nothing else. Over Bluetooth it all lies two
/// bytes further in.
pub proof fn law_rumble_byte_by_byte(left: u8, right: u8, seq_number: u8, i: int)
    requires
        0 <= i < 62,
    ensures
        ({
            let usb = rumble_report(0x01, left, right, seq_number)->0;
            let bluetooth = rumble_report(0x31, left, right, seq_number)->0;
            let wanted = if i == 0 {
                0x03u8
            } else if i == 2 {
                right
            } else if i == 3 {
                left
            } else {
                0u8
            };
            &&& rumble_report(0x01, left, right, seq_number) is Some
            &&& rumble_report(0x31, left, right, seq_number) is Some
            &&& usb.len() == 63
            &&& bluetooth.len() == 78
            &&& usb[i + 1] == wanted
            &&& bluetooth[i + 3] == wanted
        }),
{
}

/// The buzzes: one of the left motor for muting and deafening, two taps of the
/// right one for going live, each at its share of the full amplitude, rounded
/// down, and each followed by silence. No strength is felt as more than 100.
pub proof fn law_buzzes(strength: u8)
    requires
        strength > 0,
    ensures
        ({
            let felt: int = if strength > 100 {
                100
            } else {
                strength as int
            };
            let muting = rumble_pattern(VoiceState::Muted, strength);
            let live = rumble_pattern(VoiceState::Live, strength);
            &&& muting == rumble_pattern(VoiceState::Deafened, strength)
            &&& muting.len() == 2
            &&& muting[0].left * 100 <= 200 * felt < (muting[0].left + 1) * 100
            &&& muting[0].right == 0
            &&& muting[0].hold == 150_000_000
            &&& muting[1] == (Pulse { left: 0, right: 0, hold: 0 })
            &&& live.len() == 4
            &&& live[0].right * 100 <= 130 * felt < (live[0].right + 1) * 100
            &&& live[0].left == 0
            &&& live[0].hold == 55_000_000
            &&& live[1] == (Pulse { left: 0, right: 0, hold: 45_000_000 })
            &&& live[2] == live[0]
            &&& live[3] == (Pulse { left: 0, right: 0, hold: 0 })
        }),
{
}

/// Playing pulses writes one report for each, in order, with the numbers of
/// Bluetooth reports going up, and holds still after each that is held.
pub proof fn law_playing(input_id: u8, first: Pulse, second: Pulse, seq_number: u8)
    requires
        input_id == 0x01 || input_id == 0x31,
        seq_number < 16,
        first.hold > 0,
        second.hold == 0,
    ensures
        ({
            let outputs = played(input_id, seq![first, second], seq_number);
            let number: u8 = if input_id == 0x01 {
                seq_number
            } else if seq_number == 15 {
                0
            } else {
                (seq_number + 1) as u8
            };
            &&& outputs.len() == 3
            &&& outputs[0] is Write
            &&& Some(outputs[0]->Write_0) == rumble_report(
                input_id,
                first.left,
                first.right,
                seq_number,
            )
            &&& outputs[1] == OutputView::Pause(first.hold)
            &&& outputs[2] is Write
            &&& Some(outputs[2]->Write_0) == rumble_report(
                input_id,
                second.left,
                second.right,
                number,
            )
        }),
        played(input_id, seq![], seq_number).len() == 0,
{
    reveal_with_fuel(played, 3);
    reveal_with_fuel(seq_after_many, 3);
    let both = seq![first, second];
    assert(both.drop_last() =~= seq![first]);
    assert(both.drop_last().drop_last() =~= seq![]);
}

/// What is played is what comes first and then what follows, with the numbers
/// going on.
pub proof fn law_playing_goes_on(input_id: u8, first: Seq<Pulse>, then: Seq<Pulse>, seq_number: u8)
    ensures
        played(input_id, first + then, seq_number) == played(input_id, first, seq_number) + played(
            input_id,
            then,
            seq_after_many(input_id, seq_number, first.len()),
        ),
        seq_after_many(
            input_id,
            seq_after_many(input_id, seq_number, first.len()),
            then.len(),
        ) == seq_after_many(input_id, seq_number, (first + then).len()),
    decreases then.len(),
{
    reveal_with_fuel(played, 2);
    reveal_with_fuel(seq_after_many, 2);
    if then.len() == 0 {
        assert(first + then =~= first);
        assert(played(input_id, first, seq_number) + Seq::<OutputView>::empty() =~= played(
            input_id,
            first,
            seq_number,
        ));
    } else {
        law_playing_goes_on(input_id, first, then.drop_last(), seq_number);
        assert((first + then).drop_last() =~= first + then.drop_last());
        assert((first + then).last() == then.last());
        let all = played(input_id, first + then, seq_number);
        let parts = played(input_id, first, seq_number) + played(
            input_id,
            then,
            seq_after_many(input_id, seq_number, first.len()),
        );
        assert(all =~= parts);
    }
}

/// Only reports over Bluetooth are numbered, and their numbers go round from 15
/// to 0.
pub proof fn law_numbers_go_round(seq_number: u8)
    requires
        seq_number < 16,
    ensures
        seq_after(0x01, seq_number) == seq_number,
        seq_number < 15 ==> seq_after(0x31, seq_number) == seq_number + 1,
        seq_number == 15 ==> seq_after(0x31, seq_number) == 0,
        forall|n: u8| #[trigger] seq_after(0x31, n) < 16 && seq_after(0x31, n) == (n + 1) % 16,
        forall|n: u8| #[trigger] seq_after(0x01, n) == n,
{
}

/// The checksum register is taken through the bits of a byte one at a time: a
/// bit that comes out at the low end brings the polynomial in.
pub proof fn law_crc32_bit_by_bit(crc: u32)
    ensures
        crc % 2 == 0 ==> crc32_step(crc) == crc / 2,
        crc % 2 == 1 ==> crc32_step(crc) == (crc / 2) as u32 ^ 0xedb8_8320,
        crc32_over(crc, seq![]) == crc,
{
    assert(crc & 1 == crc % 2) by (bit_vector);
    assert(crc >> 1 == crc / 2) by (bit_vector);
}

proof fn lemma_crc32_step_is_one_to_one(a: u32, b: u32)
    requires
        crc32_step(a) == crc32_step(b),
    ensures
        a == b,
{
    assert((if a & 1 == 1 {
        (a >> 1) ^ 0xedb8_8320u32
    } else {
        a >> 1
    }) == (if b & 1 == 1 {
        (b >> 1) ^ 0xedb8_8320u32
    } else {
        b >> 1
    }) ==> a == b) by (bit_vector);
}

proof fn lemma_crc32_steps_are_one_to_one(a: u32, b: u32, n: nat)
    requires
        crc32_steps(a, n) == crc32_steps(b, n),
    ensures
        a == b,
    decreases n,
{
    if n > 0 {
        lemma_crc32_step_is_one_to_one(
            crc32_steps(a, (n - 1) as nat),
            crc32_steps(b, (n - 1) as nat),
        );
        lemma_crc32_steps_are_one_to_one(a, b, (n - 1) as nat);
    }
}

proof fn lemma_crc32_over_is_one_to_one(a: u32, b: u32, bytes: Seq<u8>)
    requires
        crc32_over(a, bytes) == crc32_over(b, bytes),
    ensures
        a == b,
    decreases bytes.len(),
{
    if bytes.len() > 0 {
        let x = crc32_over(a, bytes.drop_last());
        let y = crc32_over(b, bytes.drop_last());
        let c = bytes.last() as u32;
        lemma_crc32_steps_are_one_to_one(x ^ c, y ^ c, 8);
        assert(x ^ c == y ^ c ==> x == y) by (bit_vector);
        lemma_crc32_over_is_one_to_one(a, b, bytes.drop_last());
    }
}

/// The checksum tells of any single byte that was changed on the way.
pub proof fn law_checksum_catches_a_changed_byte(report: Seq<u8>, i: int, changed: u8)
    requires
        0 <= i < report.len(),
        changed != report[i],
    ensures
        bluetooth_crc32(report.update(i, changed)) != bluetooth_crc32(report),
{
    let other = report.update(i, changed);
    let seed = seq![BLUETOOTH_CRC_SEED];
    let before = report.take(i);
    let after = report.skip(i + 1);
    let start = crc32_over(0xffff_ffff, seed + before);
    assert(seed + report =~= (seed + before).push(report[i]) + after);
    assert(seed + other =~= (seed + before).push(changed) + after);
    law_crc32_over_joined(0xffff_ffff, (seed + before).push(report[i]), after);
    law_crc32_over_joined(0xffff_ffff, (seed + before).push(changed), after);
    let x = crc32_over(0xffff_ffff, (seed + before).push(report[i]));
    let y = crc32_over(0xffff_ffff, (seed + before).push(changed));
    assert((seed + before).push(report[i]).drop_last() =~= seed + before);
    assert((seed + before).push(changed).drop_last() =~= seed + before);
    let p = report[i] as u32;
    let q = changed as u32;
    let whole = crc32_over(0xffff_ffff, seed + report);
    let altered = crc32_over(0xffff_ffff, seed + other);
    if !altered == !whole {
        assert(!altered == !whole ==> altered == whole) by (bit_vector);
        lemma_crc32_over_is_one_to_one(x, y, after);
        lemma_crc32_steps_are_one_to_one(start ^ p, start ^ q, 8);
        assert(start ^ p == start ^ q ==> p == q) by (bit_vector);
    }
}

/// The checksum starts from the seed byte 0xa2, with all bits set, and has all
/// its bits turned over at the end.
pub proof fn law_checksum_starts_from_its_seed(report: Seq<u8>)
    ensures
        bluetooth_crc32(report) == !crc32_over(crc32_over(0xffff_ffff, seq![0xa2u8]), report),
        bluetooth_crc32(report) == !crc32_over(
            crc32_steps(0xffff_ffffu32 ^ 0xa2u32, 8),
            report,
        ),
{
    law_crc32_over_joined(0xffff_ffff, seq![0xa2u8], report);
    reveal_with_fuel(crc32_over, 2);
    assert(seq![0xa2u8].drop_last() =~= seq![]);
}

/// To take a byte in is to bring it in at the low end and to go through its eight
/// bits.
pub proof fn law_crc32_byte_by_byte(crc: u32, bytes: Seq<u8>, byte: u8)
    ensures
        crc32_over(crc, bytes.push(byte)) == crc32_steps(crc32_over(crc, bytes) ^ byte as u32, 8),
        crc32_steps(crc, 0) == crc,
        crc32_steps(crc, 1) == crc32_step(crc),
        crc32_steps(crc, 8) == crc32_step(
            crc32_step(
                crc32_step(
                    crc32_step(crc32_step(crc32_step(crc32_step(crc32_step(crc))))),
                ),
            ),
        ),
{
    reveal_with_fuel(crc32_steps, 9);
    assert(bytes.push(byte).drop_last() =~= bytes);
}

/// So many reports on, the number has gone up by as many, round and round; over
/// USB it has not.
pub proof fn law_numbers_after_many(seq_number: u8, n: nat)
    requires
        seq_number < 16,
    ensures
        seq_after_many(0x31, seq_number, n) == (seq_number + n) % 16,
        seq_after_many(0x01, seq_number, n) == seq_number,
    decreases n,
{
    if n > 0 {
        law_numbers_after_many(seq_number, (n - 1) as nat);
    }
}

/// Without an output format nothing is written, and the number stays what it is;
/// what is told is the id and what was to be put out.
pub proof fn law_controllers_without_a_format(
    id: u8,
    state: VoiceState,
    lightbar: bool,
    left: u8,
    right: u8,
    number: &mut u8,
    r: Result<Vec<u8>, UnsupportedReportId>,
)
    requires
        id != 0x01,
        id != 0x31,
    ensures
        call_ensures(sync_feedback, (id, state, lightbar, number), r) ==> r is Err && (r->Err_0).id
            == id && (r->Err_0).purpose == Purpose::Feedback && *final(number) == *old(number),
        call_ensures(write_rumble_report, (id, left, right, number), r) ==> r is Err
            && (r->Err_0).id == id && (r->Err_0).purpose == Purpose::Rumble && *final(number)
            == *old(number),
{
}

/// A buzz at no strength puts out nothing; any other begins by setting the motors
/// and ends by stopping them.
pub proof fn law_buzzes_begin_and_end(
    state: VoiceState,
    strength: u8,
    number: &mut u8,
    outputs: Vec<Output>,
)
    requires
        call_ensures(rumble_confirm, (0x01u8, state, strength, number), outputs),
    ensures
        strength == 0 <==> outputs@.len() == 0,
        *final(number) == *old(number),
        strength > 0 ==> outputs@[0] is Write && outputs@.last() is Write
            && outputs@[0]->Write_0@.len() == 63 && outputs@.last()->Write_0@.len() == 63
            && outputs@.last()->Write_0@[3] == 0 && outputs@.last()->Write_0@[4] == 0 && (state
            == VoiceState::Live ==> outputs@.len() == 7 && outputs@[0]->Write_0@[4] == 0) && (state
            != VoiceState::Live ==> outputs@.len() == 3 && outputs@[0]->Write_0@[3] == 0
            && outputs@[1] is Pause && outputs@[1]->Pause_0 == 150_000_000),
{
    let pulses = rumble_pattern(state, strength);
    let shown = played(0x01, pulses, *old(number));
    assert(views(outputs@) == shown);
    assert(shown.len() == outputs@.len());
    reveal_with_fuel(played, 5);
    reveal_with_fuel(seq_after_many, 5);
    if strength > 0 {
        let one = pulses.drop_last();
        assert(one.drop_last() =~= pulses.take(pulses.len() - 2));
        if state == VoiceState::Live {
            let two = one.drop_last();
            let three = two.drop_last();
            assert(one =~= seq![pulses[0], pulses[1], pulses[2]]);
            assert(two =~= seq![pulses[0], pulses[1]]);
            assert(three =~= seq![pulses[0]]);
            assert(three.drop_last() =~= seq![]);
        } else {
            assert(one =~= seq![pulses[0]]);
            assert(one.drop_last() =~= seq![]);
            assert(shown[1] == outputs@[1]@);
        }
        assert(shown[0] == outputs@[0]@);
        assert(shown.last() == outputs@.last()@);
    }
}

} // verus!
