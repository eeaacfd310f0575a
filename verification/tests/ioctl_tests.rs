use touch_sim::uinput_defs::{
    _ioc, _ior, _iow, eviocgabs, eviocgbit, eviocgid, eviocgkey, eviocgname, eviocgprop,
    eviocgrab, eviocgversion, uidevcreate, uidevdestroy, uisetabsbit, uisetevbit, uisetkeybit,
    uisetpropbit, ABS_MAX, EV_ABS, EV_MAX, KEY_MAX,
};

#[test]
fn ioc_packs_the_four_fields() {
    // direction in bits 30.., magic in 8.., number in 0.., size in 16..
    assert_eq!(_ioc(0, 0, 0, 0), 0);
    assert_eq!(_ioc(1, 0, 0, 0), 1 << 30);
    assert_eq!(_ioc(0, 0x45, 0, 0), 0x45 << 8);
    assert_eq!(_ioc(0, 0, 0x90, 0), 0x90);
    assert_eq!(_ioc(0, 0, 0, 4), 4 << 16);
    assert_eq!(_ior(0x45, 0x40, 24), (2 << 30) | (0x45 << 8) | 0x40 | (24 << 16));
    assert_eq!(_iow(0x55, 100, 4), (1 << 30) | (0x55 << 8) | 100 | (4 << 16));
}

#[test]
fn evdev_request_numbers_match_the_kernel_headers() {
    assert_eq!(eviocgversion(), 0x8004_4501);
    assert_eq!(eviocgid(), 0x8008_4502);
    assert_eq!(eviocgname(), 0x8050_4506);
    assert_eq!(eviocgprop(), 0x8020_4509);
    assert_eq!(eviocgkey(), 0x82ff_4518);
    assert_eq!(eviocgrab(), 0x4004_4590);
    // per-axis range record of the slot axis: nr = 0x40 + 0x2f
    assert_eq!(eviocgabs(0x2f), 0x8018_456f);
    // event-type bitmap query
    assert_eq!(eviocgbit(0, EV_MAX as u32), 0x801f_4520);
    // absolute-axis bitmap query
    assert_eq!(eviocgbit(EV_ABS as u32, ABS_MAX as u32), 0x803f_4523);
    assert_eq!(eviocgbit(1, KEY_MAX as u32), 0x82ff_4521);
}

#[test]
fn uinput_request_numbers_match_the_kernel_headers() {
    assert_eq!(uisetevbit(), 0x4004_5564);
    assert_eq!(uisetkeybit(), 0x4004_5565);
    assert_eq!(uisetabsbit(), 0x4004_5567);
    assert_eq!(uisetpropbit(), 0x4004_556e);
    assert_eq!(uidevcreate(), 0x0000_5501);
    assert_eq!(uidevdestroy(), 0x0000_5502);
}
