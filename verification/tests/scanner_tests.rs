use touch_sim::device_scanner::{
    extract_device_info, get_input_devices_mock, is_event_node_name, is_touch_device,
    resolve_scan_results, truncate_at_nul,
};
use touch_sim::uinput_defs::{
    AbsInfo, ABS_CNT, ABS_MT_POSITION_X, ABS_MT_POSITION_Y, ABS_MT_PRESSURE, ABS_MT_SLOT,
    ABS_MT_TOUCH_MAJOR, ABS_MT_TRACKING_ID, BTN_TOUCH, INPUT_PROP_DIRECT,
};

fn set_bit(bits: &mut [u8], code: u16) {
    bits[(code / 8) as usize] |= 1 << (code % 8);
}

fn clear_bit(bits: &mut [u8], code: u16) {
    bits[(code / 8) as usize] &= !(1 << (code % 8));
}

fn qualifying_bitmaps() -> ([u8; 8], [u8; 4], [u8; 96]) {
    let mut abs = [0u8; 8];
    set_bit(&mut abs, ABS_MT_SLOT);
    set_bit(&mut abs, ABS_MT_TRACKING_ID);
    set_bit(&mut abs, ABS_MT_POSITION_X);
    set_bit(&mut abs, ABS_MT_POSITION_Y);
    let mut prop = [0u8; 4];
    set_bit(&mut prop, INPUT_PROP_DIRECT);
    let mut key = [0u8; 96];
    set_bit(&mut key, BTN_TOUCH);
    (abs, prop, key)
}

#[test]
fn a_device_with_all_required_features_qualifies() {
    let (abs, prop, key) = qualifying_bitmaps();
    assert!(is_touch_device(&abs, &prop, &key));
}

#[test]
fn removing_any_required_feature_disqualifies() {
    for missing in [ABS_MT_SLOT, ABS_MT_TRACKING_ID, ABS_MT_POSITION_X, ABS_MT_POSITION_Y] {
        let (mut abs, prop, key) = qualifying_bitmaps();
        clear_bit(&mut abs, missing);
        assert!(!is_touch_device(&abs, &prop, &key), "axis {missing:#x} is required");
    }
    let (abs, mut prop, key) = qualifying_bitmaps();
    clear_bit(&mut prop, INPUT_PROP_DIRECT);
    assert!(!is_touch_device(&abs, &prop, &key));
    let (abs, prop, mut key) = qualifying_bitmaps();
    clear_bit(&mut key, BTN_TOUCH);
    assert!(!is_touch_device(&abs, &prop, &key));
}

#[test]
fn the_slot_predecessor_axis_disqualifies() {
    let (mut abs, prop, key) = qualifying_bitmaps();
    set_bit(&mut abs, ABS_MT_SLOT - 1);
    assert!(!is_touch_device(&abs, &prop, &key));
}

#[test]
fn event_node_names() {
    assert!(is_event_node_name("event0"));
    assert!(is_event_node_name("event17"));
    assert!(is_event_node_name("event"));
    assert!(!is_event_node_name("mouse0"));
    assert!(!is_event_node_name("even"));
    assert!(!is_event_node_name(""));
}

#[test]
fn name_buffer_truncates_at_the_first_nul() {
    assert_eq!(truncate_at_nul(b"Touchscreen\0garbage"), b"Touchscreen");
    assert_eq!(truncate_at_nul(b"NoNulHere"), b"NoNulHere");
    assert_eq!(truncate_at_nul(b"\0x"), b"");
}

#[test]
fn extraction_computes_slots_ranges_and_flags() {
    let mut infos: Vec<Option<AbsInfo>> = vec![None; ABS_CNT];
    let info = |min: i32, max: i32| AbsInfo {
        value: 0,
        minimum: min,
        maximum: max,
        fuzz: 0,
        flat: 0,
        resolution: 0,
    };
    infos[ABS_MT_SLOT as usize] = Some(info(0, 9));
    infos[ABS_MT_POSITION_X as usize] = Some(info(0, 1079));
    infos[ABS_MT_POSITION_Y as usize] = Some(info(100, 2339));
    infos[ABS_MT_TOUCH_MAJOR as usize] = Some(info(0, 255));
    infos[ABS_MT_PRESSURE as usize] = Some(info(0, 255));
    let dev = extract_device_info("Panel".to_string(), "/dev/input/event3".to_string(), &infos);
    assert_eq!(dev.name, "Panel");
    assert_eq!(dev.path, "/dev/input/event3");
    assert_eq!(dev.slots, 10);
    assert_eq!((dev.touch_x_min, dev.touch_x_max), (0, 1080));
    assert_eq!((dev.touch_y_min, dev.touch_y_max), (100, 2240));
    assert!(dev.has_touch_major && dev.has_pressure);
    assert!(!dev.has_touch_minor && !dev.has_width_major && !dev.has_width_minor);
    assert!(!dev.has_orientation);
}

#[test]
fn zero_qualifying_devices_yield_exactly_one_synthetic_fallback() {
    let out = resolve_scan_results(Vec::new());
    assert_eq!(out.len(), 1);
    let d = &out[0];
    assert_eq!(d.name, "MockTouchDevice");
    assert_eq!(d.path, "/dev/input/event0");
    assert_eq!(d.slots, 10);
    assert_eq!((d.touch_x_min, d.touch_x_max), (0, 1080));
    assert_eq!((d.touch_y_min, d.touch_y_max), (0, 2340));
    assert!(
        d.has_touch_major && d.has_touch_minor && d.has_width_major && d.has_width_minor
            && d.has_orientation && d.has_pressure
    );
    let mock = get_input_devices_mock();
    assert_eq!(mock.len(), 1);
    assert_eq!(mock[0].name, d.name);
}

#[test]
fn a_nonempty_scan_is_passed_through_unchanged() {
    let mock = get_input_devices_mock();
    let out = resolve_scan_results(mock);
    assert_eq!(out.len(), 1);
    assert_eq!(out[0].name, "MockTouchDevice");
}
