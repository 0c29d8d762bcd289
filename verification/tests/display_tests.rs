use display_settings::device::{classify_enum_return, DisplayAdapters, EnumSignal, Monitors};
use display_settings::flags::{
    DisplayFlags, DisplayState, DISPLAY_DEVICE_ACTIVE, DISPLAY_DEVICE_PRIMARY_DEVICE,
    DM_BITSPERPEL, DM_DISPLAYFLAGS, DM_DISPLAYFREQUENCY, DM_DISPLAYORIENTATION, DM_INTERLACED,
    DM_PELSHEIGHT, DM_PELSWIDTH, DM_POSITION,
};
use display_settings::mode::{DisplayDeviceInfo, DisplayOrientation, Point};
use display_settings::settings::{
    classify_settings_change, orientation_change_request, SetDisplaySettingsError,
    SetDisplaySettingsOutcome, DISP_CHANGE_BADMODE, DISP_CHANGE_SUCCESSFUL,
};
use display_settings::string_from_utf16_and_strip_null;
use display_settings::{DecodeError, DevModeRecord, DeviceRecord};

/// A fixed-width UTF-16 buffer: the text's code units, null-padded to `len`.
fn buf(text: &str, len: usize) -> Vec<u16> {
    let mut units: Vec<u16> = text.encode_utf16().collect();
    while units.len() < len {
        units.push(0);
    }
    units
}

fn adapter_record(name: &str, state_flags: u32) -> DeviceRecord {
    DeviceRecord {
        device_name: buf(name, 32),
        device_string: buf("Example Graphics Device", 128),
        state_flags,
        device_id: buf("PCI\\VEN_0000&DEV_0000", 128),
        device_key: buf("\\Registry\\Machine\\System\\CurrentControlSet", 128),
    }
}

fn mode_record(fields: u32) -> DevModeRecord {
    DevModeRecord {
        device_name: buf("\\\\.\\DISPLAY1", 32),
        spec_version: 0x0401,
        driver_version: 0x0300,
        fields,
        position_x: 1920,
        position_y: -120,
        display_orientation: 1,
        bits_per_pel: 32,
        pels_width: 2560,
        pels_height: 1440,
        display_flags: DM_INTERLACED,
        display_frequency: 144,
    }
}

#[test]
fn adapters_enumerated_in_order() {
    let records = vec![
        adapter_record("\\\\.\\DISPLAY1", DISPLAY_DEVICE_ACTIVE | DISPLAY_DEVICE_PRIMARY_DEVICE),
        adapter_record("\\\\.\\DISPLAY2", DISPLAY_DEVICE_ACTIVE),
        adapter_record("\\\\.\\DISPLAY3", 0),
    ];
    let adapters = DisplayAdapters::new(records).unwrap().unwrap();
    assert_eq!(adapters.len(), 3);
    assert_eq!(adapters.nth(0).unwrap().name, "\\\\.\\DISPLAY1");
    assert_eq!(adapters.nth(1).unwrap().name, "\\\\.\\DISPLAY2");
    assert_eq!(adapters.nth(2).unwrap().name, "\\\\.\\DISPLAY3");
    assert_eq!(adapters.nth(0).unwrap().string, "Example Graphics Device");
    assert_eq!(adapters.nth(0).unwrap().id, "PCI\\VEN_0000&DEV_0000");
    assert!(adapters.nth(3).is_none());
}

#[test]
fn zero_adapters_yield_absent_list() {
    let r = DisplayAdapters::new(Vec::new());
    assert!(matches!(r, Ok(None)));
}

#[test]
fn one_adapter_is_a_list_of_one() {
    let records = vec![adapter_record("\\\\.\\DISPLAY1", DISPLAY_DEVICE_ACTIVE)];
    let adapters = DisplayAdapters::new(records).unwrap().unwrap();
    assert_eq!(adapters.len(), 1);
}

#[test]
fn embedded_null_and_leftover_content_are_stripped() {
    // "ab", a null, stale "cd" from a prior use, then null padding
    let units: Vec<u16> = vec![0x61, 0x62, 0, 0x63, 0x64, 0, 0];
    let s = string_from_utf16_and_strip_null(&units).unwrap();
    assert_eq!(s, "abcd");
    assert!(!s.contains('\u{0}'));
}

#[test]
fn adapter_name_is_stripped_of_nulls() {
    let mut rec = adapter_record("ignored", DISPLAY_DEVICE_ACTIVE);
    rec.device_name = vec![0x41, 0, 0x42, 0, 0, 0];
    let adapters = DisplayAdapters::new(vec![rec]).unwrap().unwrap();
    assert_eq!(adapters.nth(0).unwrap().name, "AB");
}

#[test]
fn surrogate_pair_decodes() {
    let units: Vec<u16> = vec![0xD83D, 0xDE00, 0, 0];
    let s = string_from_utf16_and_strip_null(&units).unwrap();
    assert_eq!(s, "\u{1F600}");
}

#[test]
fn lone_surrogate_is_invalid_text() {
    let units: Vec<u16> = vec![0x41, 0xD800, 0x42];
    assert!(string_from_utf16_and_strip_null(&units).is_none());
    let mut rec = adapter_record("x", 0);
    rec.device_id = vec![0xD800, 0, 0];
    let r = DisplayAdapters::new(vec![rec]);
    assert!(matches!(r, Err(DecodeError::InvalidText)));
}

#[test]
fn unknown_state_flag_is_an_error() {
    let rec = adapter_record("\\\\.\\DISPLAY1", 0x40);
    let r = DisplayAdapters::new(vec![rec]);
    assert!(matches!(r, Err(DecodeError::UnrecognizedStateFlags)));
}

#[test]
fn state_flag_accessors() {
    let s = DisplayState::from_bits(DISPLAY_DEVICE_ACTIVE | DISPLAY_DEVICE_PRIMARY_DEVICE).unwrap();
    assert!(s.active());
    assert!(s.primary_device());
    let idle = DisplayState::from_bits(0).unwrap();
    assert!(!idle.active());
    assert!(!idle.primary_device());
    assert!(DisplayState::from_bits(0x2).is_none());
}

#[test]
fn active_adapters_are_filtered_in_order() {
    let records = vec![
        adapter_record("\\\\.\\DISPLAY1", DISPLAY_DEVICE_ACTIVE),
        adapter_record("\\\\.\\DISPLAY2", 0),
        adapter_record("\\\\.\\DISPLAY3", DISPLAY_DEVICE_ACTIVE | DISPLAY_DEVICE_PRIMARY_DEVICE),
    ];
    let adapters = DisplayAdapters::new(records).unwrap().unwrap();
    let active = adapters.active();
    assert_eq!(active.len(), 2);
    assert_eq!(active[0].name, "\\\\.\\DISPLAY1");
    assert_eq!(active[1].name, "\\\\.\\DISPLAY3");
}

#[test]
fn monitors_enumerated_in_order() {
    let records = vec![
        DeviceRecord {
            device_name: buf("\\\\.\\DISPLAY1\\Monitor0", 32),
            device_string: buf("Generic PnP Monitor", 128),
            state_flags: 0x40,
            device_id: buf("MONITOR\\GSM0001", 128),
            device_key: buf("\\Registry\\Machine\\System\\monitor0", 128),
        },
        DeviceRecord {
            device_name: buf("\\\\.\\DISPLAY1\\Monitor1", 32),
            device_string: buf("Generic PnP Monitor", 128),
            state_flags: 0,
            device_id: buf("MONITOR\\GSM0002", 128),
            device_key: buf("\\Registry\\Machine\\System\\monitor1", 128),
        },
    ];
    let monitors = Monitors::new(records).unwrap().unwrap();
    assert_eq!(monitors.len(), 2);
    assert_eq!(monitors.nth(0).unwrap().name, "\\\\.\\DISPLAY1\\Monitor0");
    assert_eq!(monitors.nth(1).unwrap().name, "\\\\.\\DISPLAY1\\Monitor1");
    assert_eq!(monitors.nth(0).unwrap().id, "MONITOR\\GSM0001");
    assert!(monitors.nth(2).is_none());
}

#[test]
fn zero_monitors_yield_absent_list() {
    let r = Monitors::new(Vec::new());
    assert!(matches!(r, Ok(None)));
}

#[test]
fn monitor_state_flags_are_not_read() {
    // a monitor record's flag word is passed through undecoded, so an
    // undocumented bit there is no error
    let records = vec![DeviceRecord {
        device_name: buf("\\\\.\\DISPLAY1\\Monitor0", 32),
        device_string: buf("Generic PnP Monitor", 128),
        state_flags: 0xFFFF_FFFF,
        device_id: buf("MONITOR\\GSM0001", 128),
        device_key: buf("\\Registry\\Machine\\System\\monitor0", 128),
    }];
    assert!(Monitors::new(records).is_ok());
}

#[test]
fn presence_mask_gates_every_attribute() {
    let info = DisplayDeviceInfo::from_record(&mode_record(DM_POSITION | DM_DISPLAYFREQUENCY))
        .unwrap();
    assert_eq!(info.position, Some(Point { x: 1920, y: -120 }));
    assert_eq!(info.frequency, Some(144));
    assert_eq!(info.orientation, None);
    assert_eq!(info.bits_per_pel, None);
    assert_eq!(info.pels_width, None);
    assert_eq!(info.pels_height, None);
    assert_eq!(info.flags, None);
    assert_eq!(info.name, "\\\\.\\DISPLAY1");
    assert_eq!(info.driver_version, 0x0300);
}

#[test]
fn full_presence_mask_decodes_every_attribute() {
    let fields = DM_POSITION | DM_DISPLAYORIENTATION | DM_BITSPERPEL | DM_PELSWIDTH
        | DM_PELSHEIGHT | DM_DISPLAYFLAGS | DM_DISPLAYFREQUENCY;
    let info = DisplayDeviceInfo::from_record(&mode_record(fields)).unwrap();
    assert_eq!(info.position, Some(Point { x: 1920, y: -120 }));
    assert_eq!(info.orientation, Some(DisplayOrientation::Rotate90));
    assert_eq!(info.bits_per_pel, Some(32));
    assert_eq!(info.pels_width, Some(2560));
    assert_eq!(info.pels_height, Some(1440));
    assert_eq!(info.flags, Some(DisplayFlags { bits: DM_INTERLACED }));
    assert!(info.flags.unwrap().interlaced());
    assert_eq!(info.frequency, Some(144));
}

#[test]
fn empty_presence_mask_decodes_nothing_optional() {
    let info = DisplayDeviceInfo::from_record(&mode_record(0)).unwrap();
    assert_eq!(info.position, None);
    assert_eq!(info.orientation, None);
    assert_eq!(info.bits_per_pel, None);
    assert_eq!(info.pels_width, None);
    assert_eq!(info.pels_height, None);
    assert_eq!(info.flags, None);
    assert_eq!(info.frequency, None);
}

#[test]
fn unknown_presence_bit_is_an_error() {
    let r = DisplayDeviceInfo::from_record(&mode_record(0x8000_0000));
    assert!(matches!(r, Err(DecodeError::UnrecognizedFieldMask)));
}

#[test]
fn bad_mode_name_is_invalid_text() {
    let mut rec = mode_record(0);
    rec.device_name = vec![0xDC00, 0];
    let r = DisplayDeviceInfo::from_record(&rec);
    assert!(matches!(r, Err(DecodeError::InvalidText)));
}

#[test]
fn unrecognized_orientation_degrades_to_absent() {
    let mut rec = mode_record(DM_DISPLAYORIENTATION);
    rec.display_orientation = 7;
    let info = DisplayDeviceInfo::from_record(&rec).unwrap();
    assert_eq!(info.orientation, None);
}

#[test]
fn unrecognized_display_flag_degrades_to_absent() {
    let mut rec = mode_record(DM_DISPLAYFLAGS);
    rec.display_flags = 0x10;
    let info = DisplayDeviceInfo::from_record(&rec).unwrap();
    assert_eq!(info.flags, None);
}

#[test]
fn orientation_round_trips_for_all_four_values() {
    let all = [
        DisplayOrientation::Default,
        DisplayOrientation::Rotate90,
        DisplayOrientation::Rotate180,
        DisplayOrientation::Rotate270,
    ];
    for o in all {
        assert_eq!(DisplayOrientation::from_raw(o.as_raw()), Some(o));
    }
    assert_eq!(DisplayOrientation::Default.as_raw(), 0);
    assert_eq!(DisplayOrientation::Rotate90.as_raw(), 1);
    assert_eq!(DisplayOrientation::Rotate180.as_raw(), 2);
    assert_eq!(DisplayOrientation::Rotate270.as_raw(), 3);
    assert_eq!(DisplayOrientation::from_raw(4), None);
}

#[test]
fn success_code_is_ok_and_bad_mode_is_named() {
    assert_eq!(
        classify_settings_change(DISP_CHANGE_SUCCESSFUL),
        SetDisplaySettingsOutcome::Success
    );
    assert_eq!(
        classify_settings_change(DISP_CHANGE_BADMODE),
        SetDisplaySettingsOutcome::Rejected(SetDisplaySettingsError::BadMode)
    );
}

#[test]
fn every_documented_rejection_is_named() {
    let expect = [
        (1, SetDisplaySettingsError::Restart),
        (-1, SetDisplaySettingsError::Failed),
        (-2, SetDisplaySettingsError::BadMode),
        (-3, SetDisplaySettingsError::NotUpdated),
        (-4, SetDisplaySettingsError::BadFlags),
        (-5, SetDisplaySettingsError::BadParam),
        (-6, SetDisplaySettingsError::BadDualView),
    ];
    for (code, err) in expect {
        assert_eq!(
            classify_settings_change(code),
            SetDisplaySettingsOutcome::Rejected(err)
        );
    }
}

#[test]
fn undocumented_code_is_surfaced_not_mapped() {
    assert_eq!(
        classify_settings_change(42),
        SetDisplaySettingsOutcome::UnrecognizedCode(42)
    );
    assert_eq!(
        classify_settings_change(-7),
        SetDisplaySettingsOutcome::UnrecognizedCode(-7)
    );
}

#[test]
fn orientation_request_declares_only_the_orientation_field() {
    let current = mode_record(DM_POSITION | DM_PELSWIDTH | DM_PELSHEIGHT);
    let req = orientation_change_request(current, DisplayOrientation::Rotate180);
    assert_eq!(req.fields, DM_DISPLAYORIENTATION);
    assert_eq!(req.display_orientation, 2);
    // everything else is left as queried
    assert_eq!(req.device_name, buf("\\\\.\\DISPLAY1", 32));
    assert_eq!(req.pels_width, 2560);
    assert_eq!(req.pels_height, 1440);
    assert_eq!(req.position_x, 1920);
    assert_eq!(req.display_frequency, 144);
}

#[test]
fn enumeration_return_values_are_classified() {
    assert_eq!(classify_enum_return(1), EnumSignal::Found);
    assert_eq!(classify_enum_return(0), EnumSignal::NoMore);
    assert_eq!(classify_enum_return(2), EnumSignal::InvalidReturn(2));
    assert_eq!(classify_enum_return(-1), EnumSignal::InvalidReturn(-1));
}

#[test]
fn decode_error_stops_at_the_first_bad_record() {
    let good = adapter_record("\\\\.\\DISPLAY1", DISPLAY_DEVICE_ACTIVE);
    let mut bad_flags = adapter_record("\\\\.\\DISPLAY2", 0x2);
    bad_flags.device_key = vec![0xD800];
    // the bad state flags of the second record are found before its bad key
    let r = DisplayAdapters::new(vec![good, bad_flags]);
    assert!(matches!(r, Err(DecodeError::UnrecognizedStateFlags)));
}
