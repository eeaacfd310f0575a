//! Classification of scanned input devices. The caller enumerates device
//! nodes, queries each one's capability bitmaps and per-axis ranges, and
//! hands them here as plain data; this module decides which candidates are
//! valid direct multi-touch touchscreens, extracts their descriptors, and
//! supplies the synthetic fallback when nothing qualifies.

use vstd::prelude::*;
use vstd::string::StringSliceAdditionalSpecFns;

use crate::bitmap::{has_specific_abs, has_specific_key, has_specific_prop, spec_bit_set};
use crate::uinput::{get_input_devices, is_fallback_device, InputDevice};
use crate::uinput_defs::{
    AbsInfo, ABS_CNT, ABS_MT_ORIENTATION, ABS_MT_POSITION_X, ABS_MT_POSITION_Y, ABS_MT_PRESSURE,
    ABS_MT_SLOT, ABS_MT_TOUCH_MAJOR, ABS_MT_TOUCH_MINOR, ABS_MT_TRACKING_ID, ABS_MT_WIDTH_MAJOR,
    ABS_MT_WIDTH_MINOR, BTN_TOUCH, INPUT_PROP_DIRECT,
};

verus! {

/// The classification rule on the six feature bits: a candidate qualifies
/// as a valid direct multi-touch touchscreen iff it has the slot axis, the
/// tracking-id axis, both position axes, the "direct" property and the touch
/// key, and does NOT have the axis code immediately preceding the slot code
/// (which would mark a legacy variant with repurposed axis numbering).
pub open spec fn spec_classify_touch(
    has_slot: bool,
    has_tracking_id: bool,
    has_position_x: bool,
    has_position_y: bool,
    has_direct: bool,
    has_btn_touch: bool,
    has_slot_predecessor: bool,
) -> bool {
    &&& !has_slot_predecessor
    &&& has_slot
    &&& has_tracking_id
    &&& has_position_x
    &&& has_position_y
    &&& has_direct
    &&& has_btn_touch
}

/// The classification rule applied to the queried bitmaps.
pub open spec fn spec_is_touch_device(abs: Seq<u8>, prop: Seq<u8>, key: Seq<u8>) -> bool {
    spec_classify_touch(
        spec_bit_set(abs, ABS_MT_SLOT),
        spec_bit_set(abs, ABS_MT_TRACKING_ID),
        spec_bit_set(abs, ABS_MT_POSITION_X),
        spec_bit_set(abs, ABS_MT_POSITION_Y),
        spec_bit_set(prop, INPUT_PROP_DIRECT),
        spec_bit_set(key, BTN_TOUCH),
        spec_bit_set(abs, (ABS_MT_SLOT - 1) as u16),
    )
}

/// Decides whether a candidate's absolute-axis, property and key bitmaps
/// describe a valid direct multi-touch touchscreen.
pub fn is_touch_device(abs_bits: &[u8], prop_bits: &[u8], key_bits: &[u8]) -> (r: bool)
    ensures
        r == spec_is_touch_device(abs_bits@, prop_bits@, key_bits@),
{
    let has_mt_slot = has_specific_abs(abs_bits, ABS_MT_SLOT);
    let has_mt_tracking_id = has_specific_abs(abs_bits, ABS_MT_TRACKING_ID);
    let has_mt_position_x = has_specific_abs(abs_bits, ABS_MT_POSITION_X);
    let has_mt_position_y = has_specific_abs(abs_bits, ABS_MT_POSITION_Y);
    let has_input_prop_direct = has_specific_prop(prop_bits, INPUT_PROP_DIRECT);
    let has_btn_touch = has_specific_key(key_bits, BTN_TOUCH);
    let has_mt_slot_minus_1 = has_specific_abs(abs_bits, ABS_MT_SLOT - 1);
    !has_mt_slot_minus_1 && has_mt_slot && has_mt_tracking_id && has_mt_position_x
        && has_mt_position_y && has_input_prop_direct && has_btn_touch
}

/// The bitmap `bits` with feature `code` removed: its bit cleared, every
/// other bit unchanged.
pub open spec fn spec_clear_bit(bits: Seq<u8>, code: u16) -> Seq<u8> {
    if code / 8 < bits.len() {
        bits.update(code as int / 8, (bits[code as int / 8] & !(1u8 << (code % 8))) as u8)
    } else {
        bits
    }
}

/// Clearing one feature clears exactly that feature: afterwards `code` is
/// not set, and every other code reads as before.
pub proof fn lemma_clear_bit_effect(bits: Seq<u8>, code: u16, other: u16)
    ensures
        !spec_bit_set(spec_clear_bit(bits, code), code),
        other != code ==> spec_bit_set(spec_clear_bit(bits, code), other) == spec_bit_set(
            bits,
            other,
        ),
{
    let cleared = spec_clear_bit(bits, code);
    if code / 8 < bits.len() {
        let b = bits[code as int / 8];
        let k = code % 8;
        assert((b & !(1u8 << k)) & (1u8 << k) == 0) by (bit_vector)
            requires
                k < 8,
        ;
        if other != code {
            if other / 8 == code / 8 {
                let j = other % 8;
                assert(8 * (code / 8) + code % 8 == code) by (nonlinear_arith);
                assert(8 * (other / 8) + other % 8 == other) by (nonlinear_arith);
                assert(j != k);
                assert((b & !(1u8 << k)) & (1u8 << j) == b & (1u8 << j)) by (bit_vector)
                    requires
                        j < 8,
                        k < 8,
                        j != k,
                ;
            }
        }
    }
}

/// The classification is monotonic in each required feature: removing any
/// one of the six from an otherwise-qualifying capability set disqualifies
/// it, while a set with all five positive axis/property/key features and
/// without the slot-predecessor axis always qualifies.
pub proof fn lemma_touch_classification_monotonic(abs: Seq<u8>, prop: Seq<u8>, key: Seq<u8>)
    ensures
        spec_is_touch_device(abs, prop, key) ==> !spec_is_touch_device(
            spec_clear_bit(abs, ABS_MT_SLOT),
            prop,
            key,
        ),
        spec_is_touch_device(abs, prop, key) ==> !spec_is_touch_device(
            spec_clear_bit(abs, ABS_MT_TRACKING_ID),
            prop,
            key,
        ),
        spec_is_touch_device(abs, prop, key) ==> !spec_is_touch_device(
            spec_clear_bit(abs, ABS_MT_POSITION_X),
            prop,
            key,
        ),
        spec_is_touch_device(abs, prop, key) ==> !spec_is_touch_device(
            spec_clear_bit(abs, ABS_MT_POSITION_Y),
            prop,
            key,
        ),
        spec_is_touch_device(abs, prop, key) ==> !spec_is_touch_device(
            abs,
            spec_clear_bit(prop, INPUT_PROP_DIRECT),
            key,
        ),
        spec_is_touch_device(abs, prop, key) ==> !spec_is_touch_device(
            abs,
            prop,
            spec_clear_bit(key, BTN_TOUCH),
        ),
        (spec_bit_set(abs, ABS_MT_SLOT) && spec_bit_set(abs, ABS_MT_TRACKING_ID) && spec_bit_set(
            abs,
            ABS_MT_POSITION_X,
        ) && spec_bit_set(abs, ABS_MT_POSITION_Y) && spec_bit_set(prop, INPUT_PROP_DIRECT)
            && spec_bit_set(key, BTN_TOUCH) && !spec_bit_set(
            abs,
            (ABS_MT_SLOT - 1) as u16,
        )) ==> spec_is_touch_device(abs, prop, key),
{
    lemma_clear_bit_effect(abs, ABS_MT_SLOT, ABS_MT_SLOT);
    lemma_clear_bit_effect(abs, ABS_MT_TRACKING_ID, ABS_MT_TRACKING_ID);
    lemma_clear_bit_effect(abs, ABS_MT_POSITION_X, ABS_MT_POSITION_X);
    lemma_clear_bit_effect(abs, ABS_MT_POSITION_Y, ABS_MT_POSITION_Y);
    lemma_clear_bit_effect(prop, INPUT_PROP_DIRECT, INPUT_PROP_DIRECT);
    lemma_clear_bit_effect(key, BTN_TOUCH, BTN_TOUCH);
}

/// A directory entry is an event-node candidate iff its name starts with
/// "event" (bytes 0x65 0x76 0x65 0x6e 0x74).
pub open spec fn spec_is_event_node_name(bytes: Seq<u8>) -> bool {
    &&& bytes.len() >= 5
    &&& bytes[0] == 0x65u8
    &&& bytes[1] == 0x76u8
    &&& bytes[2] == 0x65u8
    &&& bytes[3] == 0x6eu8
    &&& bytes[4] == 0x74u8
}

/// Keeps the directory entries whose name marks a numbered event node.
pub fn is_event_node_name(name: &str) -> (r: bool)
    ensures
        r == spec_is_event_node_name(name.spec_bytes()),
{
    let bytes: &[u8] = name.as_bytes();
    bytes.len() >= 5 && bytes[0] == 0x65 && bytes[1] == 0x76 && bytes[2] == 0x65 && bytes[3] == 0x6e
        && bytes[4] == 0x74
}

/// Cuts a queried name buffer at its first NUL byte.
pub fn truncate_at_nul(bytes: &[u8]) -> (r: Vec<u8>)
    ensures
        r@.len() <= bytes@.len(),
        r@ == bytes@.take(r@.len() as int),
        forall|i: int| 0 <= i < r@.len() ==> bytes@[i] != 0,
        r@.len() < bytes@.len() ==> bytes@[r@.len() as int] == 0,
{
    let mut out: Vec<u8> = Vec::new();
    let mut k: usize = 0;
    while k < bytes.len()
        invariant
            k <= bytes@.len(),
            out@ == bytes@.take(k as int),
            forall|i: int| 0 <= i < k ==> bytes@[i] != 0,
        decreases bytes@.len() - k,
    {
        if bytes[k] == 0 {
            return out;
        }
        out.push(bytes[k]);
        proof {
            assert(out@ =~= bytes@.take(k + 1));
        }
        k = k + 1;
    }
    out
}

/// Extracts a device descriptor from a qualified candidate's per-axis range
/// records: `abs_infos[code]` holds the queried record of each supported
/// axis. Slot count is the slot axis maximum plus one; each position range
/// is `(minimum, maximum - minimum + 1)`; the optional-feature flags record
/// which shape, orientation and pressure axes the device declares.
pub fn extract_device_info(name: String, path: String, abs_infos: &Vec<Option<AbsInfo>>) -> (r:
    InputDevice)
    requires
        abs_infos@.len() == ABS_CNT,
        (match abs_infos@[ABS_MT_SLOT as int] {
            Some(info) => info.maximum < i32::MAX,
            None => true,
        }),
        (match abs_infos@[ABS_MT_POSITION_X as int] {
            Some(info) => i32::MIN <= info.maximum - info.minimum && info.maximum - info.minimum
                + 1 <= i32::MAX,
            None => true,
        }),
        (match abs_infos@[ABS_MT_POSITION_Y as int] {
            Some(info) => i32::MIN <= info.maximum - info.minimum && info.maximum - info.minimum
                + 1 <= i32::MAX,
            None => true,
        }),
    ensures
        r.name == name,
        r.path == path,
        r.slots == (match abs_infos@[ABS_MT_SLOT as int] {
            Some(info) => info.maximum + 1,
            None => 0,
        }),
        r.touch_x_min == (match abs_infos@[ABS_MT_POSITION_X as int] {
            Some(info) => info.minimum as int,
            None => 0,
        }),
        r.touch_x_max == (match abs_infos@[ABS_MT_POSITION_X as int] {
            Some(info) => info.maximum - info.minimum + 1,
            None => 0,
        }),
        r.touch_y_min == (match abs_infos@[ABS_MT_POSITION_Y as int] {
            Some(info) => info.minimum as int,
            None => 0,
        }),
        r.touch_y_max == (match abs_infos@[ABS_MT_POSITION_Y as int] {
            Some(info) => info.maximum - info.minimum + 1,
            None => 0,
        }),
        r.has_touch_major == abs_infos@[ABS_MT_TOUCH_MAJOR as int] is Some,
        r.has_touch_minor == abs_infos@[ABS_MT_TOUCH_MINOR as int] is Some,
        r.has_width_major == abs_infos@[ABS_MT_WIDTH_MAJOR as int] is Some,
        r.has_width_minor == abs_infos@[ABS_MT_WIDTH_MINOR as int] is Some,
        r.has_orientation == abs_infos@[ABS_MT_ORIENTATION as int] is Some,
        r.has_pressure == abs_infos@[ABS_MT_PRESSURE as int] is Some,
{
    let slots: i32 = match abs_infos[ABS_MT_SLOT as usize] {
        Some(info) => info.maximum + 1,
        None => 0,
    };
    let (touch_x_min, touch_x_max): (i32, i32) = match abs_infos[ABS_MT_POSITION_X as usize] {
        Some(info) => (info.minimum, info.maximum - info.minimum + 1),
        None => (0, 0),
    };
    let (touch_y_min, touch_y_max): (i32, i32) = match abs_infos[ABS_MT_POSITION_Y as usize] {
        Some(info) => (info.minimum, info.maximum - info.minimum + 1),
        None => (0, 0),
    };
    InputDevice {
        name,
        path,
        slots,
        touch_x_min,
        touch_x_max,
        touch_y_min,
        touch_y_max,
        has_touch_major: abs_infos[ABS_MT_TOUCH_MAJOR as usize].is_some(),
        has_touch_minor: abs_infos[ABS_MT_TOUCH_MINOR as usize].is_some(),
        has_width_major: abs_infos[ABS_MT_WIDTH_MAJOR as usize].is_some(),
        has_width_minor: abs_infos[ABS_MT_WIDTH_MINOR as usize].is_some(),
        has_orientation: abs_infos[ABS_MT_ORIENTATION as usize].is_some(),
        has_pressure: abs_infos[ABS_MT_PRESSURE as usize].is_some(),
    }
}

/// The synthetic fallback list kept for callers that opt out of scanning.
pub fn get_input_devices_mock() -> (r: Vec<InputDevice>)
    ensures
        r@.len() == 1,
        is_fallback_device(r@[0]),
        r@[0].valid(),
{
    get_input_devices()
}

/// The scan's final step: the qualifying descriptors in enumeration order,
/// or, when none qualified, exactly the one synthetic fallback descriptor.
/// Callers that must tell "no real device" from a genuine find inspect the
/// list before this step.
pub fn resolve_scan_results(found: Vec<InputDevice>) -> (r: Vec<InputDevice>)
    ensures
        found@.len() > 0 ==> r@ == found@,
        found@.len() == 0 ==> r@.len() == 1 && is_fallback_device(r@[0]) && r@[0].valid(),
{
    if found.len() == 0 {
        get_input_devices_mock()
    } else {
        found
    }
}

} // verus!
