//! Device descriptors and the byte-exact wire formats of the evdev/uinput
//! interface: the 24-byte event record and the uinput device-descriptor
//! record, both little-endian, field by field, independent of any in-memory
//! struct layout. Also the descriptor shapes of the emulated output devices
//! and the ordered capability declarations their creation requires.

use vstd::bytes::*;
use vstd::prelude::*;
use vstd::string::StringSliceAdditionalSpecFns;

use crate::uinput_defs::{InputEvent, InputId, UinputUserDev, uisetevbit, uisetkeybit, uisetabsbit, uisetpropbit, spec_iow, ABS_CNT, ABS_MT_ORIENTATION, ABS_MT_POSITION_X, ABS_MT_POSITION_Y, ABS_MT_PRESSURE, ABS_MT_SLOT, ABS_MT_TOUCH_MAJOR, ABS_MT_TOUCH_MINOR, ABS_MT_TRACKING_ID, ABS_MT_WIDTH_MAJOR, ABS_MT_WIDTH_MINOR, BTN_TOUCH, EV_ABS, EV_KEY, EV_SYN, INPUT_PROP_DIRECT, UINPUT_MAX_NAME_SIZE, UI_IOC_MAGIC};
use crate::utils::is_ascii_letter;
use crate::utils::rand_string_bytes;

verus! {

/// One open input device as the rest of the library sees it: identity,
/// slot count, axis ranges and optional-feature flags. The open file handle
/// itself lives with the caller that performs the device I/O; slot count and
/// axis ranges never change after creation.
#[derive(Debug)]
pub struct InputDevice {
    pub name: String,
    pub path: String,
    pub slots: i32,
    pub touch_x_min: i32,
    pub touch_x_max: i32,
    pub touch_y_min: i32,
    pub touch_y_max: i32,
    pub has_touch_major: bool,
    pub has_touch_minor: bool,
    pub has_width_major: bool,
    pub has_width_minor: bool,
    pub has_orientation: bool,
    pub has_pressure: bool,
}

impl InputDevice {
    /// A descriptor the simulation can drive: the reserved driver slot
    /// exists (slot count at least 10), and the axis ranges are nonnegative
    /// and small enough that the synthetic shape values (percentages of the
    /// X maximum) and the coordinate mapping stay within `i32`.
    pub open spec fn valid(self) -> bool {
        &&& self.slots >= 10
        &&& 0 <= self.touch_x_min
        &&& 0 <= self.touch_x_max
        &&& 0 <= self.touch_y_min
        &&& 0 <= self.touch_y_max
        &&& 14 * self.touch_x_max <= i32::MAX
    }
}

impl Clone for InputDevice {
    fn clone(&self) -> (r: Self)
        ensures
            r == *self,
    {
        InputDevice {
            name: self.name.clone(),
            path: self.path.clone(),
            slots: self.slots,
            touch_x_min: self.touch_x_min,
            touch_x_max: self.touch_x_max,
            touch_y_min: self.touch_y_min,
            touch_y_max: self.touch_y_max,
            has_touch_major: self.has_touch_major,
            has_touch_minor: self.has_touch_minor,
            has_width_major: self.has_width_major,
            has_width_minor: self.has_width_minor,
            has_orientation: self.has_orientation,
            has_pressure: self.has_pressure,
        }
    }
}

/// The 24-byte little-endian event record: 8-byte seconds, 8-byte
/// microseconds, 2-byte type, 2-byte code, 4-byte signed value
/// (two's complement).
pub open spec fn spec_encode_input_event(e: InputEvent) -> Seq<u8> {
    spec_u64_to_le_bytes(e.time_sec as u64) + spec_u64_to_le_bytes(e.time_usec as u64)
        + spec_u16_to_le_bytes(e.event_type) + spec_u16_to_le_bytes(e.code) + spec_u32_to_le_bytes(
        e.value as u32,
    )
}

/// Serializes one event record for a single atomic write to the device.
/// The kernel discards malformed or truncated records, so the layout and the
/// total size must be exact.
pub fn encode_input_event(e: &InputEvent) -> (r: Vec<u8>)
    ensures
        r@ == spec_encode_input_event(*e),
        r@.len() == 24,
{
    let mut out = u64_to_le_bytes(#[verifier::truncate] (e.time_sec as u64));
    let mut usec = u64_to_le_bytes(#[verifier::truncate] (e.time_usec as u64));
    out.append(&mut usec);
    let mut ty = u16_to_le_bytes(e.event_type);
    out.append(&mut ty);
    let mut code = u16_to_le_bytes(e.code);
    out.append(&mut code);
    let mut value = u32_to_le_bytes(#[verifier::truncate] (e.value as u32));
    out.append(&mut value);
    proof {
        assert(out@ =~= spec_encode_input_event(*e));
    }
    out
}

/// Little-endian encoding of the first `n` values of an `i32` sequence,
/// four bytes each, two's complement.
pub open spec fn spec_encode_i32_prefix(v: Seq<i32>, n: int) -> Seq<u8>
    decreases n,
{
    if n <= 0 {
        Seq::empty()
    } else {
        spec_encode_i32_prefix(v, n - 1) + spec_u32_to_le_bytes(v[n - 1] as u32)
    }
}

/// Little-endian encoding of a whole `i32` sequence.
pub open spec fn spec_encode_i32_values(v: Seq<i32>) -> Seq<u8> {
    spec_encode_i32_prefix(v, v.len() as int)
}

proof fn lemma_encode_i32_prefix_len(v: Seq<i32>, n: int)
    requires
        0 <= n <= v.len(),
    ensures
        spec_encode_i32_prefix(v, n).len() == 4 * n,
    decreases n,
{
    if n > 0 {
        lemma_encode_i32_prefix_len(v, n - 1);
        lemma_auto_spec_u32_to_from_le_bytes();
    }
}

fn push_i32_le_values(out: &mut Vec<u8>, vals: &Vec<i32>)
    ensures
        final(out)@ == old(out)@ + spec_encode_i32_values(vals@),
{
    let ghost out0 = out@;
    let mut k: usize = 0;
    while k < vals.len()
        invariant
            k <= vals@.len(),
            out@ == out0 + spec_encode_i32_prefix(vals@, k as int),
        decreases vals@.len() - k,
    {
        let mut b = u32_to_le_bytes(#[verifier::truncate] (vals[k] as u32));
        out.append(&mut b);
        proof {
            assert(out@ =~= out0 + spec_encode_i32_prefix(vals@, k + 1));
        }
        k = k + 1;
    }
}

/// The uinput device-descriptor record in the kernel's fixed layout:
/// the 80-byte name buffer, the four 16-bit identity fields, the 32-bit
/// force-feedback count, then the four per-axis `i32` arrays (max, min,
/// fuzz, flat), everything little-endian with no padding.
pub open spec fn spec_encode_uinput_user_dev(d: UinputUserDev) -> Seq<u8> {
    d.name@ + spec_u16_to_le_bytes(d.id.bus_type) + spec_u16_to_le_bytes(d.id.vendor)
        + spec_u16_to_le_bytes(d.id.product) + spec_u16_to_le_bytes(d.id.version)
        + spec_u32_to_le_bytes(d.effects_max) + spec_encode_i32_values(d.abs_max@)
        + spec_encode_i32_values(d.abs_min@) + spec_encode_i32_values(d.abs_fuzz@)
        + spec_encode_i32_values(d.abs_flat@)
}

/// Serializes the device-descriptor record that is written to the uinput
/// node, byte for byte as the kernel expects it (1116 bytes on this layout).
pub fn encode_uinput_user_dev(d: &UinputUserDev) -> (r: Vec<u8>)
    requires
        d.wf(),
    ensures
        r@ == spec_encode_uinput_user_dev(*d),
        r@.len() == 1116,
{
    let mut out: Vec<u8> = Vec::new();
    let mut k: usize = 0;
    let ghost name0 = d.name@;
    while k < d.name.len()
        invariant
            k <= d.name@.len(),
            d.name@ == name0,
            out@ == name0.take(k as int),
        decreases d.name@.len() - k,
    {
        out.push(d.name[k]);
        proof {
            assert(out@ =~= name0.take(k + 1));
        }
        k = k + 1;
    }
    proof {
        assert(out@ =~= d.name@);
    }
    let mut bus = u16_to_le_bytes(d.id.bus_type);
    out.append(&mut bus);
    let mut vendor = u16_to_le_bytes(d.id.vendor);
    out.append(&mut vendor);
    let mut product = u16_to_le_bytes(d.id.product);
    out.append(&mut product);
    let mut version = u16_to_le_bytes(d.id.version);
    out.append(&mut version);
    let mut effects = u32_to_le_bytes(d.effects_max);
    out.append(&mut effects);
    push_i32_le_values(&mut out, &d.abs_max);
    push_i32_le_values(&mut out, &d.abs_min);
    push_i32_le_values(&mut out, &d.abs_fuzz);
    push_i32_le_values(&mut out, &d.abs_flat);
    proof {
        lemma_encode_i32_prefix_len(d.abs_max@, ABS_CNT as int);
        lemma_encode_i32_prefix_len(d.abs_min@, ABS_CNT as int);
        lemma_encode_i32_prefix_len(d.abs_fuzz@, ABS_CNT as int);
        lemma_encode_i32_prefix_len(d.abs_flat@, ABS_CNT as int);
        assert(out@ =~= spec_encode_uinput_user_dev(*d));
    }
    out
}

/// One "declare capability" control request for the uinput node: the ioctl
/// request number and its integer argument.
#[derive(Debug, Clone, Copy, PartialEq, Eq, Structural)]
pub struct SetupRequest {
    pub request: u32,
    pub arg: u32,
}

/// Shorthand for one declaration.
pub open spec fn spec_setup_req(request: u32, arg: u16) -> SetupRequest {
    SetupRequest { request, arg: arg as u32 }
}

/// The ordered capability declarations that create an emulated touch device:
/// key events with the touch key, absolute events with the mode's axis
/// codes, the "direct" property, and finally sync events. Protocol B
/// declares the slot, tracking-id, shape, orientation and pressure axes;
/// Protocol A only position and tracking id.
pub open spec fn spec_uinput_setup_requests(is_type_b: bool) -> Seq<SetupRequest> {
    let evbit = spec_iow(UI_IOC_MAGIC, 100, 4);
    let keybit = spec_iow(UI_IOC_MAGIC, 101, 4);
    let absbit = spec_iow(UI_IOC_MAGIC, 103, 4);
    let propbit = spec_iow(UI_IOC_MAGIC, 110, 4);
    let head = seq![
        spec_setup_req(evbit, EV_KEY),
        spec_setup_req(keybit, BTN_TOUCH),
        spec_setup_req(evbit, EV_ABS),
    ];
    let axes = if is_type_b {
        seq![
            spec_setup_req(absbit, ABS_MT_SLOT),
            spec_setup_req(absbit, ABS_MT_POSITION_X),
            spec_setup_req(absbit, ABS_MT_POSITION_Y),
            spec_setup_req(absbit, ABS_MT_TRACKING_ID),
            spec_setup_req(absbit, ABS_MT_TOUCH_MAJOR),
            spec_setup_req(absbit, ABS_MT_TOUCH_MINOR),
            spec_setup_req(absbit, ABS_MT_WIDTH_MAJOR),
            spec_setup_req(absbit, ABS_MT_WIDTH_MINOR),
            spec_setup_req(absbit, ABS_MT_ORIENTATION),
            spec_setup_req(absbit, ABS_MT_PRESSURE),
        ]
    } else {
        seq![
            spec_setup_req(absbit, ABS_MT_POSITION_X),
            spec_setup_req(absbit, ABS_MT_POSITION_Y),
            spec_setup_req(absbit, ABS_MT_TRACKING_ID),
        ]
    };
    let tail = seq![spec_setup_req(propbit, INPUT_PROP_DIRECT), spec_setup_req(evbit, EV_SYN)];
    head + axes + tail
}

fn push_setup_req(out: &mut Vec<SetupRequest>, request: u32, arg: u16)
    ensures
        final(out)@ == old(out)@.push(spec_setup_req(request, arg)),
{
    out.push(SetupRequest { request, arg: arg as u32 });
}

/// The capability declarations, in order, that the caller issues against the
/// uinput node before writing the descriptor record and requesting creation.
pub fn uinput_setup_requests(is_type_b: bool) -> (r: Vec<SetupRequest>)
    ensures
        r@ == spec_uinput_setup_requests(is_type_b),
{
    let mut out: Vec<SetupRequest> = Vec::new();
    let evbit = uisetevbit();
    let keybit = uisetkeybit();
    let absbit = uisetabsbit();
    let propbit = uisetpropbit();
    push_setup_req(&mut out, evbit, EV_KEY);
    push_setup_req(&mut out, keybit, BTN_TOUCH);
    push_setup_req(&mut out, evbit, EV_ABS);
    if is_type_b {
        push_setup_req(&mut out, absbit, ABS_MT_SLOT);
        push_setup_req(&mut out, absbit, ABS_MT_POSITION_X);
        push_setup_req(&mut out, absbit, ABS_MT_POSITION_Y);
        push_setup_req(&mut out, absbit, ABS_MT_TRACKING_ID);
        push_setup_req(&mut out, absbit, ABS_MT_TOUCH_MAJOR);
        push_setup_req(&mut out, absbit, ABS_MT_TOUCH_MINOR);
        push_setup_req(&mut out, absbit, ABS_MT_WIDTH_MAJOR);
        push_setup_req(&mut out, absbit, ABS_MT_WIDTH_MINOR);
        push_setup_req(&mut out, absbit, ABS_MT_ORIENTATION);
        push_setup_req(&mut out, absbit, ABS_MT_PRESSURE);
    } else {
        push_setup_req(&mut out, absbit, ABS_MT_POSITION_X);
        push_setup_req(&mut out, absbit, ABS_MT_POSITION_Y);
        push_setup_req(&mut out, absbit, ABS_MT_TRACKING_ID);
    }
    push_setup_req(&mut out, propbit, INPUT_PROP_DIRECT);
    push_setup_req(&mut out, evbit, EV_SYN);
    proof {
        assert(out@ =~= spec_uinput_setup_requests(is_type_b));
    }
    out
}

/// The declared maximum of each absolute axis on the emulated device:
/// ten slots, a 1080 by 2340 coordinate space, 16-bit tracking ids, shape
/// values up to 100, orientation up to 90 and pressure up to 255 when the
/// mode declares those axes; every other axis stays at zero. Minima, fuzz
/// and flat are all zero.
pub open spec fn spec_uinput_abs_max(is_type_b: bool, code: int) -> i32 {
    if code == ABS_MT_POSITION_X {
        1080
    } else if code == ABS_MT_POSITION_Y {
        2340
    } else if code == ABS_MT_TRACKING_ID {
        65535
    } else if is_type_b && code == ABS_MT_SLOT {
        9
    } else if is_type_b && (code == ABS_MT_TOUCH_MAJOR || code == ABS_MT_TOUCH_MINOR || code
        == ABS_MT_WIDTH_MAJOR || code == ABS_MT_WIDTH_MINOR) {
        100
    } else if is_type_b && code == ABS_MT_ORIENTATION {
        90
    } else if is_type_b && code == ABS_MT_PRESSURE {
        255
    } else {
        0
    }
}

/// Builds the descriptor record for a new emulated device: the given name,
/// truncated to fit the buffer with at least one trailing zero, the virtual
/// bus identity, and the axis ranges of the chosen protocol mode.
pub fn build_uinput_user_dev(name: &str, is_type_b: bool) -> (r: UinputUserDev)
    ensures
        r.wf(),
        forall|i: int|
            0 <= i < name.spec_bytes().len() && i < UINPUT_MAX_NAME_SIZE - 1 ==> r.name@[i]
                == name.spec_bytes()[i],
        forall|i: int|
            name.spec_bytes().len() <= i < UINPUT_MAX_NAME_SIZE || UINPUT_MAX_NAME_SIZE - 1 <= i
                < UINPUT_MAX_NAME_SIZE ==> r.name@[i] == 0,
        r.id == (InputId { bus_type: 0x0018, vendor: 0x1234, product: 0x5678, version: 0x0100 }),
        r.effects_max == 0,
        forall|i: int|
            0 <= i < ABS_CNT ==> #[trigger] r.abs_max@[i] == spec_uinput_abs_max(is_type_b, i),
        forall|i: int| 0 <= i < ABS_CNT ==> #[trigger] r.abs_min@[i] == 0,
        forall|i: int| 0 <= i < ABS_CNT ==> #[trigger] r.abs_fuzz@[i] == 0,
        forall|i: int| 0 <= i < ABS_CNT ==> #[trigger] r.abs_flat@[i] == 0,
{
    let mut name_buf: Vec<u8> = vec![0u8; UINPUT_MAX_NAME_SIZE];
    let name_bytes: &[u8] = name.as_bytes();
    let copy_len: usize = if name_bytes.len() < UINPUT_MAX_NAME_SIZE - 1 {
        name_bytes.len()
    } else {
        UINPUT_MAX_NAME_SIZE - 1
    };
    let mut k: usize = 0;
    while k < copy_len
        invariant
            k <= copy_len,
            copy_len < UINPUT_MAX_NAME_SIZE,
            copy_len <= name_bytes@.len(),
            name_buf@.len() == UINPUT_MAX_NAME_SIZE,
            forall|i: int| 0 <= i < k ==> name_buf@[i] == name_bytes@[i],
            forall|i: int| k <= i < UINPUT_MAX_NAME_SIZE ==> name_buf@[i] == 0,
        decreases copy_len - k,
    {
        name_buf[k] = name_bytes[k];
        k = k + 1;
    }

    let mut abs_max: Vec<i32> = vec![0i32; ABS_CNT];
    if is_type_b {
        abs_max[ABS_MT_SLOT as usize] = 9;
        abs_max[ABS_MT_POSITION_X as usize] = 1080;
        abs_max[ABS_MT_POSITION_Y as usize] = 2340;
        abs_max[ABS_MT_TRACKING_ID as usize] = 65535;
        abs_max[ABS_MT_TOUCH_MAJOR as usize] = 100;
        abs_max[ABS_MT_TOUCH_MINOR as usize] = 100;
        abs_max[ABS_MT_WIDTH_MAJOR as usize] = 100;
        abs_max[ABS_MT_WIDTH_MINOR as usize] = 100;
        abs_max[ABS_MT_ORIENTATION as usize] = 90;
        abs_max[ABS_MT_PRESSURE as usize] = 255;
    } else {
        abs_max[ABS_MT_POSITION_X as usize] = 1080;
        abs_max[ABS_MT_POSITION_Y as usize] = 2340;
        abs_max[ABS_MT_TRACKING_ID as usize] = 65535;
    }
    let abs_min: Vec<i32> = vec![0i32; ABS_CNT];
    let abs_fuzz: Vec<i32> = vec![0i32; ABS_CNT];
    let abs_flat: Vec<i32> = vec![0i32; ABS_CNT];
    UinputUserDev {
        name: name_buf,
        id: InputId { bus_type: 0x0018, vendor: 0x1234, product: 0x5678, version: 0x0100 },
        effects_max: 0,
        abs_max,
        abs_min,
        abs_fuzz,
        abs_flat,
    }
}

/// The synthetic fallback descriptor: ten slots, a 1080 by 2340 coordinate
/// space starting at the origin, and every optional feature present. It
/// stands in when no real touchscreen qualifies, backed by a harmless no-op
/// file on the caller's side.
pub open spec fn is_fallback_device(d: InputDevice) -> bool {
    &&& d.name@ == "MockTouchDevice"@
    &&& d.path@ == "/dev/input/event0"@
    &&& d.slots == 10
    &&& d.touch_x_min == 0
    &&& d.touch_x_max == 1080
    &&& d.touch_y_min == 0
    &&& d.touch_y_max == 2340
    &&& d.has_touch_major
    &&& d.has_touch_minor
    &&& d.has_width_major
    &&& d.has_width_minor
    &&& d.has_orientation
    &&& d.has_pressure
}

/// The numeric shape every emulated output device shares: the uinput node
/// path, ten slots, the 1080 by 2340 coordinate space, and all six optional
/// features present or absent together.
pub open spec fn is_uinput_device_shape(d: InputDevice, shape: bool) -> bool {
    &&& d.path@ == "/dev/uinput"@
    &&& d.slots == 10
    &&& d.touch_x_min == 0
    &&& d.touch_x_max == 1080
    &&& d.touch_y_min == 0
    &&& d.touch_y_max == 2340
    &&& d.has_touch_major == shape
    &&& d.has_touch_minor == shape
    &&& d.has_width_major == shape
    &&& d.has_width_minor == shape
    &&& d.has_orientation == shape
    &&& d.has_pressure == shape
}

/// The device list used when no scan is wanted: exactly the one synthetic
/// fallback descriptor.
pub fn get_input_devices() -> (r: Vec<InputDevice>)
    ensures
        r@.len() == 1,
        is_fallback_device(r@[0]),
        r@[0].valid(),
{
    let dev = InputDevice {
        name: "MockTouchDevice".to_owned(),
        path: "/dev/input/event0".to_owned(),
        slots: 10,
        touch_x_min: 0,
        touch_x_max: 1080,
        touch_y_min: 0,
        touch_y_max: 2340,
        has_touch_major: true,
        has_touch_minor: true,
        has_width_major: true,
        has_width_minor: true,
        has_orientation: true,
        has_pressure: true,
    };
    let mut out: Vec<InputDevice> = Vec::new();
    out.push(dev);
    out
}

/// Descriptor of a new Protocol-B emulated device: fixed name, every
/// optional feature declared. The caller creates the device node itself
/// with `uinput_setup_requests`, `build_uinput_user_dev` and the create
/// request, and pairs this descriptor with the resulting handle.
pub fn new_type_b_dev_same(_input_dev: &InputDevice) -> (r: InputDevice)
    ensures
        is_uinput_device_shape(r, true),
        r.name@ == "TouchSimulation_B"@,
        r.valid(),
{
    InputDevice {
        name: "TouchSimulation_B".to_owned(),
        path: "/dev/uinput".to_owned(),
        slots: 10,
        touch_x_min: 0,
        touch_x_max: 1080,
        touch_y_min: 0,
        touch_y_max: 2340,
        has_touch_major: true,
        has_touch_minor: true,
        has_width_major: true,
        has_width_minor: true,
        has_orientation: true,
        has_pressure: true,
    }
}

/// Descriptor of a new Protocol-A emulated device: fixed name, no optional
/// features.
pub fn new_type_a_dev_same(_input_dev: &InputDevice) -> (r: InputDevice)
    ensures
        is_uinput_device_shape(r, false),
        r.name@ == "TouchSimulation_A"@,
        r.valid(),
{
    InputDevice {
        name: "TouchSimulation_A".to_owned(),
        path: "/dev/uinput".to_owned(),
        slots: 10,
        touch_x_min: 0,
        touch_x_max: 1080,
        touch_y_min: 0,
        touch_y_max: 2340,
        has_touch_major: false,
        has_touch_minor: false,
        has_width_major: false,
        has_width_minor: false,
        has_orientation: false,
        has_pressure: false,
    }
}

/// Descriptor of a new Protocol-A emulated device under a random seven-letter
/// name.
pub fn new_type_a_dev_random(_input_dev: &InputDevice) -> (r: InputDevice)
    ensures
        is_uinput_device_shape(r, false),
        r.name@.len() == 7,
        forall|i: int| 0 <= i < 7 ==> is_ascii_letter(#[trigger] r.name@[i]),
        r.valid(),
{
    let random_name = rand_string_bytes(7);
    InputDevice {
        name: random_name,
        path: "/dev/uinput".to_owned(),
        slots: 10,
        touch_x_min: 0,
        touch_x_max: 1080,
        touch_y_min: 0,
        touch_y_max: 2340,
        has_touch_major: false,
        has_touch_minor: false,
        has_width_major: false,
        has_width_minor: false,
        has_orientation: false,
        has_pressure: false,
    }
}

} // verus!
