use touch_sim::touch_input::{
    configure_real_device, map_coordinate, DeviceError, OutputEvent, TouchContactA, TouchContactB,
    TouchSimulation, TypeMode, FAKE_CONTACT,
};
use touch_sim::uinput::{get_input_devices, InputDevice};
use touch_sim::uinput_defs::{
    ABS_MT_POSITION_X, ABS_MT_POSITION_Y, ABS_MT_PRESSURE, ABS_MT_SLOT, ABS_MT_TOUCH_MAJOR,
    ABS_MT_TOUCH_MINOR, ABS_MT_TRACKING_ID, BTN_TOUCH, EV_ABS, EV_KEY, EV_SYN, SYN_MT_REPORT,
    SYN_REPORT,
};

fn ev(event_type: u16, code: u16, value: i32) -> OutputEvent {
    OutputEvent { event_type, code, value }
}

fn fallback_device() -> InputDevice {
    let mut devices = get_input_devices();
    devices.remove(0)
}

fn started_b() -> TouchSimulation {
    let mut sim = TouchSimulation::new_with_device(fallback_device());
    assert!(sim.touch_input_setup(TypeMode::TypeB, 1000, 1000, true));
    sim
}

#[test]
fn default_contacts_use_the_inactive_sentinels() {
    let a = TouchContactA::default();
    assert_eq!((a.pos_x, a.pos_y, a.active), (-1, -1, false));
    let b = TouchContactB::default();
    assert_eq!(b.tracking_id, -1);
    assert_eq!(b.position_x, -1);
    assert_eq!(b.pressure, -1);
    assert!(!b.active);
}

#[test]
fn coordinate_mapping_is_exact_integer_arithmetic() {
    // display space 1000x1000 onto device space X in [0,1080), Y in [0,2340)
    assert_eq!(map_coordinate(500, 1080, 1000, 0), 540);
    assert_eq!(map_coordinate(500, 2340, 1000, 0), 1170);
    // truncation toward zero and the axis offset
    assert_eq!(map_coordinate(1, 1080, 1000, 0), 1);
    assert_eq!(map_coordinate(333, 1080, 1000, 50), 409);
    assert_eq!(map_coordinate(0, 1080, 1000, 7), 7);
    assert_eq!(map_coordinate(1000, 1080, 1000, 0), 1080);
}

#[test]
fn setup_records_mode_and_grab_failure_aborts() {
    let mut sim = TouchSimulation::new_with_device(fallback_device());
    assert!(!sim.touch_input_setup(TypeMode::TypeB, 1000, 1000, false));
    assert!(!sim.is_started());
    assert!(sim.touch_input_setup(TypeMode::TypeB, 1000, 1000, true));
    assert!(sim.is_started());
}

#[test]
fn setup_without_a_bound_device_uses_the_fallback() {
    let mut sim = TouchSimulation::new();
    assert!(sim.bound_device().is_none());
    assert!(sim.touch_input_setup(TypeMode::TypeB, 1000, 1000, true));
    assert!(sim.is_started());
    assert_eq!(sim.touch_contacts_b().len(), 10);
}

#[test]
fn repeated_setup_is_a_no_op_returning_the_original_success() {
    let mut sim = started_b();
    sim.send_touch_move(500, 500);
    let before = sim.touch_contacts_b().clone();
    assert!(sim.touch_input_setup(TypeMode::TypeA, 640, 480, true));
    assert_eq!(sim.touch_contacts_b(), &before);
    assert!(sim.is_started());
}

#[test]
fn stop_twice_is_safe_and_only_the_first_has_effect() {
    let mut sim = started_b();
    sim.send_touch_move(500, 500);
    sim.touch_input_stop();
    assert!(!sim.is_started());
    assert!(sim.touch_contacts_b().is_empty());
    assert!(sim.bound_device().is_none());
    sim.touch_input_stop();
    assert!(!sim.is_started());
    assert!(sim.touch_contacts_b().is_empty());
}

#[test]
fn move_fills_the_driver_contact() {
    let mut sim = started_b();
    sim.send_touch_move(500, 500);
    let c = sim.touch_contacts_b()[FAKE_CONTACT];
    assert_eq!(c.position_x, 540);
    assert_eq!(c.position_y, 1170);
    assert!(c.active);
    // tracking id: slot count - 2
    assert_eq!(c.tracking_id, 8);
    // synthetic values: 14% / 10% of the X maximum, constant orientation, 35% pressure
    assert_eq!(c.touch_major, 151);
    assert_eq!(c.touch_minor, 108);
    assert_eq!(c.width_major, 151);
    assert_eq!(c.width_minor, 108);
    assert_eq!(c.orientation, 50);
    assert_eq!(c.pressure, 35);
}

#[test]
fn move_keeps_the_first_tracking_id() {
    let mut sim = started_b();
    sim.send_touch_move(500, 500);
    sim.send_touch_move(600, 600);
    assert_eq!(sim.touch_contacts_b()[FAKE_CONTACT].tracking_id, 8);
}

#[test]
fn move_then_up_clears_the_driver_and_no_other_slot() {
    let mut sim = started_b();
    let before = sim.touch_contacts_b().clone();
    sim.send_touch_move(500, 500);
    sim.send_touch_up();
    let after = sim.touch_contacts_b().clone();
    let c = after[FAKE_CONTACT];
    assert_eq!(c.position_x, -1);
    assert_eq!(c.position_y, -1);
    assert_eq!(c.tracking_id, -1);
    assert!(!c.active);
    assert_eq!(c.touch_major, -1);
    assert_eq!(c.orientation, 0);
    assert_eq!(c.pressure, 0);
    for i in 0..before.len() {
        if i != FAKE_CONTACT {
            assert_eq!(after[i], before[i]);
        }
    }
}

#[test]
fn up_without_a_prior_move_is_a_no_op() {
    let mut sim = started_b();
    let before = sim.touch_contacts_b().clone();
    sim.send_touch_up();
    assert_eq!(sim.touch_contacts_b(), &before);
}

#[test]
fn move_and_up_before_setup_are_no_ops() {
    let mut sim = TouchSimulation::new();
    sim.send_touch_move(500, 500);
    sim.send_touch_up();
    assert!(!sim.is_started());
    assert!(sim.touch_contacts_b().is_empty());
}

#[test]
fn protocol_b_first_cycle_emits_the_exact_ordered_sequence() {
    let mut sim = started_b();
    sim.send_touch_move(500, 500);
    let mut shadow = vec![-1i32; 10];
    let mut btn = false;
    let events = sim.event_dispatcher_b(&mut shadow, &mut btn);
    assert_eq!(
        events,
        vec![
            ev(EV_ABS, ABS_MT_TRACKING_ID, 8),
            ev(EV_KEY, BTN_TOUCH, 1),
            ev(EV_ABS, ABS_MT_SLOT, 9),
            ev(EV_ABS, ABS_MT_TOUCH_MAJOR, 151),
            ev(EV_ABS, ABS_MT_TOUCH_MINOR, 108),
            ev(EV_ABS, ABS_MT_PRESSURE, 35),
            ev(EV_ABS, ABS_MT_POSITION_X, 540),
            ev(EV_ABS, ABS_MT_POSITION_Y, 1170),
            ev(EV_SYN, SYN_REPORT, 0),
        ]
    );
    assert!(btn);
    assert_eq!(shadow[9], 8);
}

#[test]
fn protocol_b_new_touch_orders_tracking_id_slot_then_position() {
    let mut sim = started_b();
    sim.send_touch_move(123, 456);
    let mut shadow = vec![-1i32; 10];
    let mut btn = false;
    let events = sim.event_dispatcher_b(&mut shadow, &mut btn);
    let pos_of = |t: u16, c: u16| events.iter().position(|e| e.event_type == t && e.code == c);
    let i = pos_of(EV_ABS, ABS_MT_TRACKING_ID).expect("tracking-id event");
    let j = pos_of(EV_ABS, ABS_MT_SLOT).expect("slot-select event");
    let k = pos_of(EV_ABS, ABS_MT_POSITION_X).expect("position event");
    assert!(i < j, "tracking id must precede slot select");
    assert!(j < k, "slot select must precede position");
    assert_eq!(events.last().copied(), Some(ev(EV_SYN, SYN_REPORT, 0)));
}

#[test]
fn protocol_b_session_emits_one_key_down_and_one_key_up() {
    let mut sim = started_b();
    let mut shadow = vec![-1i32; 10];
    let mut btn = false;
    let mut all: Vec<OutputEvent> = Vec::new();

    sim.send_touch_move(500, 500);
    all.extend(sim.event_dispatcher_b(&mut shadow, &mut btn));
    sim.send_touch_move(600, 600);
    all.extend(sim.event_dispatcher_b(&mut shadow, &mut btn));
    sim.send_touch_up();
    all.extend(sim.event_dispatcher_b(&mut shadow, &mut btn));

    let downs = all
        .iter()
        .filter(|e| e.event_type == EV_KEY && e.code == BTN_TOUCH && e.value == 1)
        .count();
    let ups = all
        .iter()
        .filter(|e| e.event_type == EV_KEY && e.code == BTN_TOUCH && e.value == 0)
        .count();
    assert_eq!(downs, 1);
    assert_eq!(ups, 1);
    assert!(!btn);
    assert_eq!(shadow[9], -1);
}

#[test]
fn protocol_b_release_cycle_frees_the_slot() {
    let mut sim = started_b();
    let mut shadow = vec![-1i32; 10];
    let mut btn = false;
    sim.send_touch_move(500, 500);
    sim.event_dispatcher_b(&mut shadow, &mut btn);
    sim.send_touch_up();
    let events = sim.event_dispatcher_b(&mut shadow, &mut btn);
    assert_eq!(
        events,
        vec![
            ev(EV_ABS, ABS_MT_SLOT, 9),
            ev(EV_ABS, ABS_MT_TRACKING_ID, -1),
            ev(EV_KEY, BTN_TOUCH, 0),
            ev(EV_SYN, SYN_REPORT, 0),
        ]
    );
}

#[test]
fn protocol_b_idle_cycle_emits_only_the_frame_sync() {
    let mut sim = started_b();
    let mut shadow = vec![-1i32; 10];
    let mut btn = false;
    let events = sim.event_dispatcher_b(&mut shadow, &mut btn);
    assert_eq!(events, vec![ev(EV_SYN, SYN_REPORT, 0)]);
    assert!(!btn);
}

#[test]
fn protocol_a_cycle_reports_anonymous_contacts() {
    let mut sim = TouchSimulation::new_with_device(fallback_device());
    assert!(sim.touch_input_setup(TypeMode::TypeA, 1000, 1000, true));
    sim.send_touch_move(500, 500);
    let mut btn = false;
    let events = sim.event_dispatcher_a(&mut btn);
    assert_eq!(
        events,
        vec![
            ev(EV_ABS, ABS_MT_POSITION_X, 540),
            ev(EV_ABS, ABS_MT_POSITION_Y, 1170),
            ev(EV_ABS, ABS_MT_TRACKING_ID, 9),
            ev(EV_SYN, SYN_MT_REPORT, 0),
            ev(EV_KEY, BTN_TOUCH, 1),
            ev(EV_SYN, SYN_REPORT, 0),
        ]
    );
    assert!(btn);

    sim.send_touch_up();
    let events = sim.event_dispatcher_a(&mut btn);
    assert_eq!(
        events,
        vec![
            ev(EV_SYN, SYN_MT_REPORT, 0),
            ev(EV_KEY, BTN_TOUCH, 0),
            ev(EV_SYN, SYN_REPORT, 0),
        ]
    );
    assert!(!btn);
}

#[test]
fn configuration_rejects_a_device_without_the_event_types() {
    let dev = fallback_device();
    // EV_KEY is bit 1, EV_ABS is bit 3 of the event-type bitmap
    let both = [0b0000_1010u8];
    let no_key = [0b0000_1000u8];
    let no_abs = [0b0000_0010u8];
    let plan = configure_real_device(&dev, TypeMode::TypeB, &both).expect("both types declared");
    // one range setting per declared axis: majors, minors, orientation, pressure
    assert_eq!(plan.len(), 6);
    assert_eq!(plan[0].code, ABS_MT_TOUCH_MAJOR);
    assert_eq!((plan[0].minimum, plan[0].maximum), (0, 100));
    assert_eq!(plan[5].code, ABS_MT_PRESSURE);
    assert_eq!((plan[5].minimum, plan[5].maximum), (0, 255));
    assert_eq!(
        configure_real_device(&dev, TypeMode::TypeB, &no_key),
        Err(DeviceError::UnsupportedEventTypes)
    );
    assert_eq!(
        configure_real_device(&dev, TypeMode::TypeB, &no_abs),
        Err(DeviceError::UnsupportedEventTypes)
    );
    // Protocol A applies no range settings
    let plan_a = configure_real_device(&dev, TypeMode::TypeA, &both).expect("both types declared");
    assert!(plan_a.is_empty());
}
