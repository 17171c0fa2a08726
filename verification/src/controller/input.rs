//! DualSense input reports: where the mic button and the battery sit.

use vstd::prelude::*;
use crate::controller::{Battery, ChargeState};

verus! {

/// Input report id the controller uses over USB. A Bluetooth controller in
/// simple mode uses it too, for a report that is only ten bytes long.
pub const USB_REPORT: u8 = 0x01;

/// Input report id of the full Bluetooth report.
pub const BLUETOOTH_REPORT: u8 = 0x31;

/// The mic-button bit within its byte.
pub const MIC_BUTTON_MASK: u8 = 0x04;

/// Where the mic-button byte of `report` sits, if the report can carry it:
/// byte 10 over USB, byte 11 over Bluetooth.
pub open spec fn mic_byte(report: Seq<u8>) -> Option<int> {
    if report.len() > 10 && report[0] == USB_REPORT {
        Some(10int)
    } else if report.len() > 11 && report[0] == BLUETOOTH_REPORT {
        Some(11int)
    } else {
        None
    }
}

/// Where the battery status byte of `report` sits, if the report can carry it.
/// It is byte 52 of the common report, which starts one byte in over USB and
/// two bytes in over Bluetooth.
pub open spec fn battery_byte(report: Seq<u8>) -> Option<int> {
    if report.len() > 53 && report[0] == USB_REPORT {
        Some(53int)
    } else if report.len() > 54 && report[0] == BLUETOOTH_REPORT {
        Some(54int)
    } else {
        None
    }
}

/// The charge in percent that the low half of a status byte stands for: the
/// controller counts tenths, and half a tenth is added, up to 100.
pub open spec fn charge_percent(status: u8) -> int {
    let scaled = (status % 16) * 10 + 5;
    if scaled > 100 {
        100
    } else {
        scaled
    }
}

/// What a battery status byte says.
pub open spec fn battery_of(status: u8) -> Battery {
    let percent = charge_percent(status) as u8;
    match status / 16 {
        0 => Battery { percent, state: ChargeState::Discharging },
        1 => Battery { percent, state: ChargeState::Charging },
        2 => Battery { percent: 100, state: ChargeState::Full },
        _ => Battery { percent, state: ChargeState::Unknown },
    }
}

/// What `battery_state` returns for a report.
pub open spec fn report_battery(report: Seq<u8>) -> Option<Battery> {
    match battery_byte(report) {
        Some(i) => Some(battery_of(report[i])),
        None => None,
    }
}

/// The mic button as one input report shows it.
#[derive(Debug, Clone, Copy)]
pub struct MicButtonState {
    pub pressed: bool,
    /// Which byte of the report it was read from.
    pub byte: usize,
    /// That byte.
    pub value: u8,
    pub transport: &'static str,
}

/// Locates the mic-button bit in a report, or `None` if this report can't
/// carry it. The length guards are load-bearing rather than defensive: a
/// Bluetooth controller in simple mode sends report id 0x01 in only 10 bytes,
/// which collides with the USB 0x01 layout that keeps the bit at byte 10.
pub fn mic_button_state(report: &[u8]) -> (r: Option<MicButtonState>)
    ensures
        r is Some <==> mic_byte(report@) is Some,
        r matches Some(mic) ==> {
            &&& Some(mic.byte as int) == mic_byte(report@)
            &&& mic.value == report@[mic.byte as int]
            &&& mic.pressed == (mic.value & MIC_BUTTON_MASK != 0)
            &&& mic.transport@ == if report@[0] == USB_REPORT {
                "USB report 0x01"@
            } else {
                "Bluetooth report 0x31"@
            }
        },
{
    if report.len() > 10 && report[0] == USB_REPORT {
        Some(
            MicButtonState {
                pressed: report[10] & MIC_BUTTON_MASK != 0,
                byte: 10,
                value: report[10],
                transport: "USB report 0x01",
            },
        )
    } else if report.len() > 11 && report[0] == BLUETOOTH_REPORT {
        Some(
            MicButtonState {
                pressed: report[11] & MIC_BUTTON_MASK != 0,
                byte: 11,
                value: report[11],
                transport: "Bluetooth report 0x31",
            },
        )
    } else {
        None
    }
}

/// Extracts the battery reading from a full input report, or `None` if this
/// report can't carry it (wrong id, or a Bluetooth simple-mode report too short
/// to reach the status byte). The low nibble of the status byte is the charge
/// level and its high nibble is the charging state.
pub fn battery_state(report: &[u8]) -> (r: Option<Battery>)
    ensures
        r == report_battery(report@),
{
    let status: u8 = if report.len() > 53 && report[0] == USB_REPORT {
        report[53]
    } else if report.len() > 54 && report[0] == BLUETOOTH_REPORT {
        report[54]
    } else {
        return None;
    };

    assert(status & 0x0f == status % 16) by (bit_vector);
    assert(status >> 4 == status / 16) by (bit_vector);
    let scaled: u16 = (status & 0x0f) as u16 * 10 + 5;
    let percent: u8 = if scaled > 100 {
        100
    } else {
        scaled as u8
    };

    Some(
        match status >> 4 {
            0x0 => Battery { percent, state: ChargeState::Discharging },
            0x1 => Battery { percent, state: ChargeState::Charging },
            0x2 => Battery { percent: 100, state: ChargeState::Full },
            _ => Battery { percent, state: ChargeState::Unknown },
        },
    )
}

/// Why a report says nothing about the mic button.
#[derive(Debug, Clone, Copy, PartialEq, Eq, Structural)]
pub enum UnusableReport {
    /// A known report id in too few bytes: the controller is likely stuck in
    /// Bluetooth simple mode.
    TooShort { id: u8, len: usize },
    /// A report id that is not one of ours.
    UnknownId(u8),
    /// Nothing at all.
    Empty,
}

/// What `unusable_report` returns.
pub open spec fn spec_unusable_report(report: Seq<u8>) -> UnusableReport {
    if report.len() == 0 {
        UnusableReport::Empty
    } else if report[0] == USB_REPORT || report[0] == BLUETOOTH_REPORT {
        UnusableReport::TooShort { id: report[0], len: report.len() as usize }
    } else {
        UnusableReport::UnknownId(report[0])
    }
}

/// Explains *why* a report is unusable. "Unsupported report id" alone hides
/// the common Bluetooth case, where the id is one we handle but the report is
/// too short to contain the button.
pub fn unusable_report(report: &[u8]) -> (r: UnusableReport)
    ensures
        r == spec_unusable_report(report@),
{
    if report.len() == 0 {
        UnusableReport::Empty
    } else if report[0] == USB_REPORT || report[0] == BLUETOOTH_REPORT {
        UnusableReport::TooShort { id: report[0], len: report.len() }
    } else {
        UnusableReport::UnknownId(report[0])
    }
}

/// What the listener needs of one input report.
#[derive(Debug, Clone, Copy, PartialEq, Eq, Structural)]
pub struct InputReport {
    /// The report id, which also tells the transport.
    pub id: u8,
    pub battery: Option<Battery>,
    /// Whether the mic button is down, if the report carries it.
    pub pressed: Option<bool>,
    /// What to say about the report when it does not.
    pub unusable: UnusableReport,
}

/// What `InputReport::decode` returns for a report that is not empty.
pub open spec fn decoded(report: Seq<u8>) -> InputReport {
    InputReport {
        id: report[0],
        battery: report_battery(report),
        pressed: match mic_byte(report) {
            Some(i) => Some(report[i] & MIC_BUTTON_MASK != 0),
            None => None,
        },
        unusable: spec_unusable_report(report),
    }
}

impl InputReport {
    /// Decodes one report; `None` if nothing arrived, as when a read times out.
    pub fn decode(report: &[u8]) -> (r: Option<InputReport>)
        ensures
            r is None <==> report@.len() == 0,
            r matches Some(input) ==> input == decoded(report@),
    {
        if report.len() == 0 {
            return None;
        }
        let pressed = match mic_button_state(report) {
            Some(mic) => Some(mic.pressed),
            None => None,
        };
        Some(
            InputReport {
                id: report[0],
                battery: battery_state(report),
                pressed,
                unusable: unusable_report(report),
            },
        )
    }
}

/// A battery reading never leaves 0-100, and a full battery reads 100.
pub proof fn law_battery_in_percent(report: Seq<u8>)
    ensures
        report_battery(report) matches Some(b) ==> {
            &&& b.percent <= 100
            &&& b.state == ChargeState::Full ==> b.percent == 100
        },
{
}

/// A report short enough to be a Bluetooth simple-mode report (ten bytes) never
/// says anything about the mic button or the battery, whatever its id.
pub proof fn law_simple_mode_is_silent(report: Seq<u8>)
    requires
        report.len() <= 10,
    ensures
        mic_byte(report) is None,
        report_battery(report) is None,
{
}

/// A report that carries the battery carries the mic button too.
pub proof fn law_battery_rides_with_mic_button(report: Seq<u8>)
    ensures
        report_battery(report) is Some ==> mic_byte(report) is Some,
{
}

/// The mic button of a report is bit 2 of byte 10 over USB and of byte 11 over
/// Bluetooth. A report too short for that byte, or with another id, says nothing
/// of it.
pub proof fn law_where_the_mic_button_is(report: Seq<u8>)
    requires
        report.len() > 0,
    ensures
        report[0] == 0x01 && report.len() > 10 ==> mic_byte(report) == Some(10int)
            && decoded(report).pressed == Some(report[10] & 0x04 != 0),
        report[0] == 0x31 && report.len() > 11 ==> mic_byte(report) == Some(11int)
            && decoded(report).pressed == Some(report[11] & 0x04 != 0),
        !(report[0] == 0x01 && report.len() > 10) && !(report[0] == 0x31 && report.len() > 11)
            ==> mic_byte(report) is None && decoded(report).pressed is None,
{
}

/// Only the mic button's own bit decides: two reports that agree on their id and
/// on that bit show the same.
pub proof fn law_other_buttons_are_ignored(one: Seq<u8>, other: Seq<u8>)
    requires
        one.len() > 11,
        other.len() > 11,
        one[0] == other[0],
        one[0] == 0x01 ==> one[10] & 0x04 == other[10] & 0x04,
        one[0] == 0x31 ==> one[11] & 0x04 == other[11] & 0x04,
    ensures
        decoded(one).pressed == decoded(other).pressed,
{
}

/// The battery of a report is byte 53 over USB and byte 54 over Bluetooth. Its
/// low four bits count tenths, to which half a tenth is added, up to 100; its
/// high four bits tell the charging state, and a battery that is full is at 100.
pub proof fn law_where_the_battery_is(report: Seq<u8>)
    requires
        report.len() > 0,
    ensures
        ({
            let usb = report[0] == 0x01 && report.len() > 53;
            let bluetooth = report[0] == 0x31 && report.len() > 54;
            let status = if usb {
                report[53]
            } else {
                report[54]
            };
            let level = (status & 0x0f) as int;
            let charging = status >> 4;
            let found = report_battery(report);
            &&& found is Some <==> usb || bluetooth
            &&& found == decoded(report).battery
            &&& found matches Some(battery) ==> {
                &&& charging != 2 && level < 10 ==> battery.percent == 10 * level + 5
                &&& charging != 2 && level >= 10 ==> battery.percent == 100
                &&& charging == 2 ==> battery.percent == 100
                &&& charging == 0 <==> battery.state == ChargeState::Discharging
                &&& charging == 1 <==> battery.state == ChargeState::Charging
                &&& charging == 2 <==> battery.state == ChargeState::Full
                &&& charging > 2 <==> battery.state == ChargeState::Unknown
            }
        }),
{
    let status = if report[0] == 0x01 && report.len() > 53 {
        report[53]
    } else {
        report[54]
    };
    assert(status & 0x0f == status % 16) by (bit_vector);
    assert(status >> 4 == status / 16) by (bit_vector);
}

/// A report is known by its first byte, and what is wrong with one is told by
/// it: one of the two ids with its length, or the id that is neither.
pub proof fn law_reports_are_known_by_their_first_byte(report: Seq<u8>)
    requires
        0 < report.len() <= usize::MAX,
    ensures
        decoded(report).id == report[0],
        decoded(report).unusable == spec_unusable_report(report),
        report[0] == 0x01 || report[0] == 0x31 ==> spec_unusable_report(report) == (
        UnusableReport::TooShort { id: report[0], len: report.len() as usize }),
        report[0] != 0x01 && report[0] != 0x31 ==> spec_unusable_report(report)
            == UnusableReport::UnknownId(report[0]),
        spec_unusable_report(seq![]) == UnusableReport::Empty,
{
}

} // verus!
