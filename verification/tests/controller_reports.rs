use discord_mute::controller::device::{choose_dualsense, DeviceInfo, SONY_VENDOR_ID};
use discord_mute::controller::handler::{calibration_request, read_event};
use discord_mute::controller::input::{
    battery_state, mic_button_state, unusable_report, InputReport, UnusableReport,
};
use discord_mute::controller::output::{
    build_output, crc32_update, dualsense_bluetooth_crc32, rumble_confirm, sync_feedback,
    write_feedback_report, write_rumble_report, Purpose, UnsupportedReportId, MILLISECOND,
};
use discord_mute::controller::pause::{pause_slice, PAUSE_SLICE};
use discord_mute::controller::step::{Event, Output};
use discord_mute::controller::{Battery, ChargeState, VoiceState};

fn usb_report(len: usize) -> Vec<u8> {
    let mut report = vec![0u8; len];
    report[0] = 0x01;
    report
}

fn bluetooth_report(len: usize) -> Vec<u8> {
    let mut report = vec![0u8; len];
    report[0] = 0x31;
    report
}

#[test]
fn mic_button_over_usb_is_byte_ten() {
    let mut report = usb_report(64);
    assert!(!mic_button_state(&report).unwrap().pressed);
    report[10] = 0x0c;
    let mic = mic_button_state(&report).unwrap();
    assert!(mic.pressed);
    assert_eq!((mic.byte, mic.value, mic.transport), (10, 0x0c, "USB report 0x01"));
    report[10] = 0xfb;
    assert!(!mic_button_state(&report).unwrap().pressed);
}

#[test]
fn mic_button_over_bluetooth_is_byte_eleven() {
    let mut report = bluetooth_report(78);
    report[11] = 0x04;
    let mic = mic_button_state(&report).unwrap();
    assert!(mic.pressed);
    assert_eq!((mic.byte, mic.value, mic.transport), (11, 0x04, "Bluetooth report 0x31"));
    assert!(mic_button_state(&bluetooth_report(11)).is_none());
    assert!(mic_button_state(&bluetooth_report(12)).is_some());
}

#[test]
fn simple_mode_report_carries_neither_button_nor_battery() {
    let report = usb_report(10);
    assert!(mic_button_state(&report).is_none());
    assert!(battery_state(&report).is_none());
    assert!(mic_button_state(&usb_report(11)).is_some());
    assert!(mic_button_state(&[]).is_none());
    assert!(mic_button_state(&[0x02; 64]).is_none());
}

#[test]
fn battery_levels_and_states() {
    let battery = |status: u8| {
        let mut report = usb_report(64);
        report[53] = status;
        battery_state(&report).unwrap()
    };
    assert_eq!(battery(0x00), Battery { percent: 5, state: ChargeState::Discharging });
    assert_eq!(battery(0x01), Battery { percent: 15, state: ChargeState::Discharging });
    assert_eq!(battery(0x1a), Battery { percent: 100, state: ChargeState::Charging });
    assert_eq!(battery(0x23), Battery { percent: 100, state: ChargeState::Full });
    assert_eq!(battery(0xb7), Battery { percent: 75, state: ChargeState::Unknown });
    assert_eq!(battery(0x0f), Battery { percent: 100, state: ChargeState::Discharging });
}

#[test]
fn battery_over_bluetooth_is_one_byte_further() {
    let mut report = bluetooth_report(78);
    report[53] = 0x29;
    report[54] = 0x16;
    let battery = battery_state(&report).unwrap();
    assert_eq!(battery, Battery { percent: 65, state: ChargeState::Charging });
    assert!(battery_state(&bluetooth_report(54)).is_none());
    assert!(battery_state(&usb_report(53)).is_none());
}

#[test]
fn charge_labels() {
    assert_eq!(ChargeState::Discharging.label(), "discharging");
    assert_eq!(ChargeState::Charging.label(), "charging");
    assert_eq!(ChargeState::Full.label(), "full");
    assert_eq!(ChargeState::Unknown.label(), "unknown");
}

#[test]
fn unusable_reports_are_told_apart() {
    assert_eq!(
        unusable_report(&usb_report(10)),
        UnusableReport::TooShort { id: 0x01, len: 10 }
    );
    assert_eq!(
        unusable_report(&bluetooth_report(5)),
        UnusableReport::TooShort { id: 0x31, len: 5 }
    );
    assert_eq!(unusable_report(&[0x09, 1]), UnusableReport::UnknownId(0x09));
    assert_eq!(unusable_report(&[]), UnusableReport::Empty);
}

#[test]
fn decoding_takes_all_of_a_report() {
    assert!(InputReport::decode(&[]).is_none());
    let mut report = usb_report(64);
    report[10] = 0x04;
    report[53] = 0x05;
    let input = InputReport::decode(&report).unwrap();
    assert_eq!(input.id, 0x01);
    assert_eq!(input.pressed, Some(true));
    assert_eq!(input.battery.unwrap().percent, 55);
    assert!(matches!(read_event(&report, 7), Event::Report(decoded, 7) if decoded == input));
    assert_eq!(read_event(&[], 7), Event::Silence(7));
}

#[test]
fn voice_state_feedback() {
    assert_eq!(VoiceState::from_flags(false, false), VoiceState::Live);
    assert_eq!(VoiceState::from_flags(true, false), VoiceState::Muted);
    assert_eq!(VoiceState::from_flags(false, true), VoiceState::Deafened);
    assert_eq!(VoiceState::from_flags(true, true), VoiceState::Deafened);
    assert!(!VoiceState::Live.mic_led_on());
    assert!(VoiceState::Muted.mic_led_on());
    assert!(VoiceState::Deafened.mic_led_on());
    assert_eq!(VoiceState::Live.lightbar(), (0, 80, 24));
    assert_eq!(VoiceState::Muted.lightbar(), (130, 0, 0));
    assert_eq!(VoiceState::Deafened.lightbar(), (140, 40, 0));
}

#[test]
fn checksum_is_crc32() {
    assert_eq!(!crc32_update(0xffff_ffff, b"123456789"), 0xcbf4_3926);
    let halves = crc32_update(crc32_update(0xffff_ffff, b"1234"), b"56789");
    assert_eq!(!halves, 0xcbf4_3926);
    let mut seeded = vec![0xa2];
    seeded.extend_from_slice(b"123456789");
    assert_eq!(
        dualsense_bluetooth_crc32(b"123456789"),
        !crc32_update(0xffff_ffff, &seeded)
    );
}

#[test]
fn usb_feedback_report() {
    let mut seq = 3u8;
    let report = sync_feedback(0x01, VoiceState::Muted, true, &mut seq).unwrap();
    assert_eq!(seq, 3);
    let mut wanted = vec![0u8; 63];
    wanted[0] = 0x02;
    wanted[2] = 0x07;
    wanted[9] = 0x01;
    wanted[10] = 0x10;
    wanted[45] = 130;
    assert_eq!(report, wanted);
}

#[test]
fn bluetooth_feedback_report() {
    let mut seq = 0u8;
    let report = sync_feedback(0x31, VoiceState::Muted, true, &mut seq).unwrap();
    assert_eq!(seq, 1);
    assert_eq!(report.len(), 78);
    let mut wanted = vec![0u8; 74];
    wanted[0] = 0x31;
    wanted[2] = 0x10;
    wanted[4] = 0x07;
    wanted[11] = 0x01;
    wanted[12] = 0x10;
    wanted[47] = 130;
    assert_eq!(&report[..74], &wanted[..]);
    assert_eq!(&report[74..], &0xdfaa_841f_u32.to_le_bytes()[..]);
}

#[test]
fn live_feedback_clears_the_led() {
    let mut seq = 5u8;
    let report = sync_feedback(0x31, VoiceState::Live, true, &mut seq).unwrap();
    assert_eq!(seq, 6);
    assert_eq!((report[1], report[4], report[11], report[12]), (0x50, 0x07, 0, 0));
    assert_eq!((report[47], report[48], report[49]), (0, 80, 24));
    assert_eq!(&report[74..], &0x3b7c_062b_u32.to_le_bytes()[..]);
}

#[test]
fn lightbar_off_is_dark_but_keeps_the_led() {
    let mut seq = 0u8;
    let report = sync_feedback(0x01, VoiceState::Deafened, false, &mut seq).unwrap();
    assert_eq!((report[9], report[10]), (0x01, 0x10));
    assert_eq!((report[45], report[46], report[47]), (0, 0, 0));
}

#[test]
fn rumble_reports() {
    let mut seq = 15u8;
    let usb = write_rumble_report(0x01, 9, 8, &mut seq).unwrap();
    assert_eq!(seq, 15);
    assert_eq!(usb.len(), 63);
    assert_eq!(&usb[..6], &[0x02, 0x03, 0, 8, 9, 0]);
    let bluetooth = write_rumble_report(0x31, 200, 0, &mut seq).unwrap();
    assert_eq!(seq, 0);
    assert_eq!(&bluetooth[..8], &[0x31, 0xf0, 0x10, 0x03, 0, 0, 200, 0]);
    assert_eq!(&bluetooth[74..], &0x9412_42b0_u32.to_le_bytes()[..]);
}

#[test]
fn other_report_ids_have_no_output() {
    let mut seq = 7u8;
    assert_eq!(
        write_feedback_report(0x02, true, (1, 2, 3), &mut seq).unwrap_err(),
        UnsupportedReportId { id: 0x02, purpose: Purpose::Feedback }
    );
    assert_eq!(
        write_rumble_report(0x11, 1, 1, &mut seq).unwrap_err(),
        UnsupportedReportId { id: 0x11, purpose: Purpose::Rumble }
    );
    assert_eq!(seq, 7);
    assert_eq!(
        write_feedback_report(0x02, true, (1, 2, 3), &mut seq).unwrap_err().message(),
        "unsupported input report id 0x02 for feedback output"
    );
    assert_eq!(
        write_rumble_report(0xfa, 1, 1, &mut seq).unwrap_err().message(),
        "unsupported input report id 0xfa for rumble output"
    );
}

#[test]
fn fields_shift_by_two_over_bluetooth() {
    let fields: Vec<u8> = (1..=62).collect();
    let mut seq = 0u8;
    let usb = build_output(0x01, &fields, Purpose::Feedback, &mut seq).unwrap();
    let bluetooth = build_output(0x31, &fields, Purpose::Feedback, &mut seq).unwrap();
    assert_eq!(&usb[1..63], &fields[..]);
    assert_eq!(&bluetooth[3..65], &fields[..]);
}

fn writes_and_pauses(outputs: &[Output]) -> (Vec<(u8, u8)>, Vec<u64>) {
    let mut motors = Vec::new();
    let mut pauses = Vec::new();
    for output in outputs {
        match output {
            Output::Write(bytes) => motors.push((bytes[4], bytes[3])),
            Output::Pause(nanos) => pauses.push(*nanos / MILLISECOND),
            other => panic!("unexpected output {other:?}"),
        }
    }
    (motors, pauses)
}

#[test]
fn going_live_is_two_light_taps() {
    let mut seq = 0u8;
    let outputs = rumble_confirm(0x01, VoiceState::Live, 100, &mut seq);
    let (motors, pauses) = writes_and_pauses(&outputs);
    assert_eq!(motors, vec![(0, 130), (0, 0), (0, 130), (0, 0)]);
    assert_eq!(pauses, vec![55, 45, 55]);
}

#[test]
fn muting_is_one_firm_buzz_scaled_by_strength() {
    let mut seq = 0u8;
    let (motors, pauses) = writes_and_pauses(&rumble_confirm(0x01, VoiceState::Muted, 50, &mut seq));
    assert_eq!(motors, vec![(100, 0), (0, 0)]);
    assert_eq!(pauses, vec![150]);
    let (motors, _) = writes_and_pauses(&rumble_confirm(0x01, VoiceState::Deafened, 255, &mut seq));
    assert_eq!(motors, vec![(200, 0), (0, 0)]);
    let (motors, _) = writes_and_pauses(&rumble_confirm(0x01, VoiceState::Live, 33, &mut seq));
    assert_eq!(motors[0], (0, 42));
}

#[test]
fn strength_zero_is_silent() {
    let mut seq = 4u8;
    assert!(rumble_confirm(0x31, VoiceState::Muted, 0, &mut seq).is_empty());
    assert_eq!(seq, 4);
}

#[test]
fn bluetooth_rumble_counts_each_report() {
    let mut seq = 14u8;
    let outputs = rumble_confirm(0x31, VoiceState::Live, 100, &mut seq);
    assert_eq!(seq, 2);
    let numbers: Vec<u8> = outputs
        .iter()
        .filter_map(|output| match output {
            Output::Write(bytes) => Some(bytes[1]),
            _ => None,
        })
        .collect();
    assert_eq!(numbers, vec![0xe0, 0xf0, 0x00, 0x10]);
}

fn device(vendor_id: u16, product: Option<&str>) -> DeviceInfo {
    DeviceInfo { vendor_id, product: product.map(|name| name.to_string()) }
}

#[test]
fn dualsense_is_preferred_among_sony_devices() {
    let devices = vec![
        device(0x1234, Some("DualSense clone")),
        device(SONY_VENDOR_ID, Some("Headset")),
        device(SONY_VENDOR_ID, None),
        device(SONY_VENDOR_ID, Some("Sony dUALsENSE Wireless")),
        device(SONY_VENDOR_ID, Some("DualSense Edge")),
    ];
    assert_eq!(choose_dualsense(&devices), Some(3));
}

#[test]
fn any_sony_device_will_do() {
    let devices = vec![
        device(1, None),
        device(SONY_VENDOR_ID, Some("Dual Sense")),
        device(SONY_VENDOR_ID, None),
    ];
    assert_eq!(choose_dualsense(&devices), Some(1));
    assert_eq!(choose_dualsense(&vec![device(1, Some("DualSense"))]), None);
    assert_eq!(choose_dualsense(&Vec::new()), None);
}

#[test]
fn calibration_request_asks_for_report_five() {
    let request = calibration_request();
    assert_eq!(request.len(), 64);
    assert_eq!(request[0], 0x05);
    assert!(request[1..].iter().all(|byte| *byte == 0));
}

#[test]
fn pauses_are_sliced() {
    assert_eq!(pause_slice(0, 750 * MILLISECOND), Some(PAUSE_SLICE));
    assert_eq!(pause_slice(700 * MILLISECOND, 750 * MILLISECOND), Some(50 * MILLISECOND));
    assert_eq!(pause_slice(750 * MILLISECOND, 750 * MILLISECOND), None);
    assert_eq!(pause_slice(u64::MAX, 0), None);
}
