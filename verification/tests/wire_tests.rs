use touch_sim::uinput::{
    build_uinput_user_dev, encode_input_event, encode_uinput_user_dev, get_input_devices,
    new_type_a_dev_random, new_type_a_dev_same, new_type_b_dev_same, uinput_setup_requests,
};
use touch_sim::uinput_defs::{
    uisetabsbit, uisetevbit, uisetkeybit, uisetpropbit, InputEvent, ABS_MT_POSITION_X,
    ABS_MT_SLOT, ABS_MT_TRACKING_ID, BTN_TOUCH, EV_ABS, EV_KEY, EV_SYN, INPUT_PROP_DIRECT,
};

#[test]
fn event_record_is_24_bytes_little_endian() {
    let e = InputEvent { time_sec: 1, time_usec: 2, event_type: 3, code: 0x14a, value: -1 };
    let bytes = encode_input_event(&e);
    assert_eq!(bytes.len(), 24);
    assert_eq!(&bytes[0..8], &[1, 0, 0, 0, 0, 0, 0, 0]);
    assert_eq!(&bytes[8..16], &[2, 0, 0, 0, 0, 0, 0, 0]);
    assert_eq!(&bytes[16..18], &[3, 0]);
    assert_eq!(&bytes[18..20], &[0x4a, 0x01]);
    assert_eq!(&bytes[20..24], &[0xff, 0xff, 0xff, 0xff]);
}

#[test]
fn event_record_encodes_large_timestamps() {
    let e = InputEvent {
        time_sec: 0x0102_0304_0506_0708,
        time_usec: 999_999,
        event_type: 0,
        code: 0,
        value: 540,
    };
    let bytes = encode_input_event(&e);
    assert_eq!(&bytes[0..8], &[0x08, 0x07, 0x06, 0x05, 0x04, 0x03, 0x02, 0x01]);
    assert_eq!(&bytes[8..12], &[0x3f, 0x42, 0x0f, 0x00]);
    assert_eq!(&bytes[20..24], &[0x1c, 0x02, 0x00, 0x00]);
}

#[test]
fn descriptor_record_layout_is_exact() {
    let dev = build_uinput_user_dev("abc", true);
    assert_eq!(dev.name.len(), 80);
    assert_eq!(&dev.name[0..4], &[b'a', b'b', b'c', 0]);
    let bytes = encode_uinput_user_dev(&dev);
    assert_eq!(bytes.len(), 1116);
    // identity fields after the 80-byte name buffer
    assert_eq!(&bytes[80..88], &[0x18, 0x00, 0x34, 0x12, 0x78, 0x56, 0x00, 0x01]);
    // effects_max
    assert_eq!(&bytes[88..92], &[0, 0, 0, 0]);
    // abs_max[ABS_MT_SLOT] = 9 at offset 92 + 4 * 0x2f
    let slot_off = 92 + 4 * ABS_MT_SLOT as usize;
    assert_eq!(&bytes[slot_off..slot_off + 4], &[9, 0, 0, 0]);
    // abs_max[ABS_MT_POSITION_X] = 1080
    let x_off = 92 + 4 * ABS_MT_POSITION_X as usize;
    assert_eq!(&bytes[x_off..x_off + 4], &[0x38, 0x04, 0, 0]);
    // abs_min array is all zero
    let min_base = 92 + 4 * 64;
    assert!(bytes[min_base..min_base + 256].iter().all(|&b| b == 0));
}

#[test]
fn descriptor_name_is_truncated_with_a_trailing_nul() {
    let long = "x".repeat(100);
    let dev = build_uinput_user_dev(&long, false);
    assert_eq!(dev.name.len(), 80);
    assert!(dev.name[0..79].iter().all(|&b| b == b'x'));
    assert_eq!(dev.name[79], 0);
    // Protocol A declares no slot axis range
    assert_eq!(dev.abs_max[ABS_MT_SLOT as usize], 0);
    assert_eq!(dev.abs_max[ABS_MT_POSITION_X as usize], 1080);
}

#[test]
fn setup_requests_declare_capabilities_in_order() {
    let reqs_b = uinput_setup_requests(true);
    assert_eq!(reqs_b.len(), 15);
    assert_eq!(reqs_b[0].request, uisetevbit());
    assert_eq!(reqs_b[0].arg, EV_KEY as u32);
    assert_eq!(reqs_b[1].request, uisetkeybit());
    assert_eq!(reqs_b[1].arg, BTN_TOUCH as u32);
    assert_eq!(reqs_b[2].request, uisetevbit());
    assert_eq!(reqs_b[2].arg, EV_ABS as u32);
    assert_eq!(reqs_b[3].request, uisetabsbit());
    assert_eq!(reqs_b[3].arg, ABS_MT_SLOT as u32);
    assert_eq!(reqs_b[13].request, uisetpropbit());
    assert_eq!(reqs_b[13].arg, INPUT_PROP_DIRECT as u32);
    assert_eq!(reqs_b[14].request, uisetevbit());
    assert_eq!(reqs_b[14].arg, EV_SYN as u32);

    let reqs_a = uinput_setup_requests(false);
    assert_eq!(reqs_a.len(), 8);
    assert_eq!(reqs_a[3].arg, ABS_MT_POSITION_X as u32);
    assert_eq!(reqs_a[5].arg, ABS_MT_TRACKING_ID as u32);
}

#[test]
fn emulated_device_descriptors() {
    let base = get_input_devices();
    assert_eq!(base.len(), 1);
    let b = new_type_b_dev_same(&base[0]);
    assert_eq!(b.name, "TouchSimulation_B");
    assert_eq!(b.path, "/dev/uinput");
    assert_eq!(b.slots, 10);
    assert!(b.has_touch_major && b.has_pressure);
    let a = new_type_a_dev_same(&base[0]);
    assert_eq!(a.name, "TouchSimulation_A");
    assert!(!a.has_touch_major && !a.has_pressure);
    let r = new_type_a_dev_random(&base[0]);
    assert_eq!(r.name.len(), 7);
    assert!(r.name.chars().all(|c| c.is_ascii_alphabetic()));
    assert_eq!((r.touch_x_max, r.touch_y_max), (1080, 2340));
}
