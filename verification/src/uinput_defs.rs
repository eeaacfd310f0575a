//! Event codes, ioctl request numbers and kernel record types for the evdev
//! and uinput interfaces. The request-number functions mirror the kernel's
//! `_IOC` encoding: direction, driver magic, request number and payload size
//! packed into one 32-bit word.

use vstd::prelude::*;

verus! {

pub const EV_SYN: u16 = 0x00;
pub const EV_KEY: u16 = 0x01;
pub const EV_ABS: u16 = 0x03;
pub const EV_FF: u16 = 0x15;
pub const BTN_TOUCH: u16 = 0x14a;
pub const SYN_REPORT: u16 = 0;
pub const SYN_MT_REPORT: u16 = 2;
pub const SYN_DROPPED: u16 = 3;
pub const ABS_MT_SLOT: u16 = 0x2f;
pub const ABS_MT_TOUCH_MAJOR: u16 = 0x30;
pub const ABS_MT_TOUCH_MINOR: u16 = 0x31;
pub const ABS_MT_WIDTH_MAJOR: u16 = 0x32;
pub const ABS_MT_WIDTH_MINOR: u16 = 0x33;
pub const ABS_MT_ORIENTATION: u16 = 0x34;
pub const ABS_MT_POSITION_X: u16 = 0x35;
pub const ABS_MT_POSITION_Y: u16 = 0x36;
pub const ABS_MT_TOOL_TYPE: u16 = 0x37;
pub const ABS_MT_BLOB_ID: u16 = 0x38;
pub const ABS_MT_TRACKING_ID: u16 = 0x39;
pub const ABS_MT_PRESSURE: u16 = 0x3a;
pub const ABS_MT_DISTANCE: u16 = 0x3b;
pub const ABS_MT_TOOL_X: u16 = 0x3c;
pub const ABS_MT_TOOL_Y: u16 = 0x3d;

pub const EV_MAX: u16 = 0x1f;
pub const EV_CNT: usize = 0x20;
pub const ABS_MAX: u16 = 0x3f;
pub const ABS_CNT: usize = 0x40;
pub const KEY_MAX: u16 = 0x2ff;
pub const KEY_CNT: usize = 0x300;
pub const INPUT_PROP_DIRECT: u16 = 0x01;
pub const INPUT_PROP_MAX: u16 = 0x1f;
pub const INPUT_PROP_CNT: usize = 0x20;

pub const UINPUT_MAX_NAME_SIZE: usize = 80;

pub const IOC_NONE: u32 = 0x0;
pub const IOC_WRITE: u32 = 0x1;
pub const IOC_READ: u32 = 0x2;

pub const IOC_NR_SHIFT: u32 = 0;
pub const EV_IOC_MAGIC: u32 = 0x45;
pub const UI_IOC_MAGIC: u32 = 0x55;
pub const IOC_TYPE_SHIFT: u32 = 8;
pub const IOC_SIZE_SHIFT: u32 = 16;
pub const IOC_DIR_SHIFT: u32 = 30;

/// The `_IOC` packing: bits 0..8 request number, 8..16 driver magic,
/// 16..30 payload size, 30..32 transfer direction.
pub open spec fn spec_ioc(dir: u32, t: u32, nr: u32, size: u32) -> u32 {
    (dir << IOC_DIR_SHIFT) | (t << IOC_TYPE_SHIFT) | (nr << IOC_NR_SHIFT) | (size << IOC_SIZE_SHIFT)
}

pub open spec fn spec_ior(t: u32, nr: u32, size: u32) -> u32 {
    spec_ioc(IOC_READ, t, nr, size)
}

pub open spec fn spec_iow(t: u32, nr: u32, size: u32) -> u32 {
    spec_ioc(IOC_WRITE, t, nr, size)
}

pub fn _ioc(dir: u32, t: u32, nr: u32, size: u32) -> (r: u32)
    ensures
        r == spec_ioc(dir, t, nr, size),
{
    (dir << IOC_DIR_SHIFT) | (t << IOC_TYPE_SHIFT) | (nr << IOC_NR_SHIFT) | (size << IOC_SIZE_SHIFT)
}

pub fn _ior(t: u32, nr: u32, size: u32) -> (r: u32)
    ensures
        r == spec_ior(t, nr, size),
{
    _ioc(IOC_READ, t, nr, size)
}

pub fn _iow(t: u32, nr: u32, size: u32) -> (r: u32)
    ensures
        r == spec_iow(t, nr, size),
{
    _ioc(IOC_WRITE, t, nr, size)
}

/// Request number: read the driver version (a 4-byte int).
pub fn eviocgversion() -> (r: u32)
    ensures
        r == spec_ior(EV_IOC_MAGIC, 0x01, 4),
{
    _ioc(IOC_READ, EV_IOC_MAGIC, 0x01, 4)
}

/// Request number: read the bus/vendor/product/version identity record.
pub fn eviocgid() -> (r: u32)
    ensures
        r == spec_ior(EV_IOC_MAGIC, 0x02, 8),
{
    _ioc(IOC_READ, EV_IOC_MAGIC, 0x02, 8)
}

/// Request number: read the device name into a fixed-size buffer.
pub fn eviocgname() -> (r: u32)
    ensures
        r == spec_ior(EV_IOC_MAGIC, 0x06, UINPUT_MAX_NAME_SIZE as u32),
{
    _ioc(IOC_READ, EV_IOC_MAGIC, 0x06, UINPUT_MAX_NAME_SIZE as u32)
}

/// Request number: read the device-property bitmap.
pub fn eviocgprop() -> (r: u32)
    ensures
        r == spec_ior(EV_IOC_MAGIC, 0x09, INPUT_PROP_CNT as u32),
{
    _ioc(IOC_READ, EV_IOC_MAGIC, 0x09, INPUT_PROP_CNT as u32)
}

/// Request number: read one axis's range record (24 bytes).
pub fn eviocgabs(abs: u32) -> (r: u32)
    requires
        abs <= u32::MAX - 0x40,
    ensures
        r == spec_ior(EV_IOC_MAGIC, (0x40 + abs) as u32, 24),
{
    _ior(EV_IOC_MAGIC, 0x40 + abs, 24)
}

/// Request number: read the key-code bitmap.
pub fn eviocgkey() -> (r: u32)
    ensures
        r == spec_ior(EV_IOC_MAGIC, 0x18, KEY_MAX as u32),
{
    _ioc(IOC_READ, EV_IOC_MAGIC, 0x18, KEY_MAX as u32)
}

/// Request number: read the capability bitmap of event type `ev`
/// (`ev == 0` queries the event-type bitmap itself).
pub fn eviocgbit(ev: u32, len: u32) -> (r: u32)
    requires
        ev <= u32::MAX - 0x20,
    ensures
        r == spec_ior(EV_IOC_MAGIC, (0x20 + ev) as u32, len),
{
    _ioc(IOC_READ, EV_IOC_MAGIC, 0x20 + ev, len)
}

/// Request number: grab or release exclusive access (argument 1 or 0).
pub fn eviocgrab() -> (r: u32)
    ensures
        r == spec_iow(EV_IOC_MAGIC, 0x90, 4),
{
    _iow(EV_IOC_MAGIC, 0x90, 4)
}

/// Request number: declare a supported event type on a uinput device.
pub fn uisetevbit() -> (r: u32)
    ensures
        r == spec_iow(UI_IOC_MAGIC, 100, 4),
{
    _iow(UI_IOC_MAGIC, 100, 4)
}

/// Request number: declare a supported key code on a uinput device.
pub fn uisetkeybit() -> (r: u32)
    ensures
        r == spec_iow(UI_IOC_MAGIC, 101, 4),
{
    _iow(UI_IOC_MAGIC, 101, 4)
}

/// Request number: declare a supported absolute-axis code on a uinput device.
pub fn uisetabsbit() -> (r: u32)
    ensures
        r == spec_iow(UI_IOC_MAGIC, 103, 4),
{
    _iow(UI_IOC_MAGIC, 103, 4)
}

/// Request number: declare a device property on a uinput device.
pub fn uisetpropbit() -> (r: u32)
    ensures
        r == spec_iow(UI_IOC_MAGIC, 110, 4),
{
    _iow(UI_IOC_MAGIC, 110, 4)
}

/// Request number: create the declared uinput device (no payload).
pub fn uidevcreate() -> (r: u32)
    ensures
        r == spec_ioc(IOC_NONE, UI_IOC_MAGIC, 1, 0),
{
    _ioc(IOC_NONE, UI_IOC_MAGIC, 1, 0)
}

/// Request number: destroy a previously created uinput device (no payload).
pub fn uidevdestroy() -> (r: u32)
    ensures
        r == spec_ioc(IOC_NONE, UI_IOC_MAGIC, 2, 0),
{
    _ioc(IOC_NONE, UI_IOC_MAGIC, 2, 0)
}

/// Bus/vendor/product/version identity of an input device.
#[derive(Debug, Clone, Copy, PartialEq, Eq, Structural)]
pub struct InputId {
    pub bus_type: u16,
    pub vendor: u16,
    pub product: u16,
    pub version: u16,
}

/// Range record of one absolute axis, as the kernel reports it.
#[derive(Debug, Clone, Copy, PartialEq, Eq, Structural)]
pub struct AbsInfo {
    pub value: i32,
    pub minimum: i32,
    pub maximum: i32,
    pub fuzz: i32,
    pub flat: i32,
    pub resolution: i32,
}

/// One event record: wall-clock timestamp (seconds and microseconds, each a
/// 64-bit field on the reference layout), event type, code and value.
#[derive(Debug, Clone, Copy, PartialEq, Eq, Structural)]
pub struct InputEvent {
    pub time_sec: i64,
    pub time_usec: i64,
    pub event_type: u16,
    pub code: u16,
    pub value: i32,
}

/// The device descriptor record written to the uinput node before the create
/// request: name buffer, identity, and per-axis min/max/fuzz/flat arrays
/// sized to the maximum axis code.
#[derive(Debug, PartialEq, Eq)]
pub struct UinputUserDev {
    pub name: Vec<u8>,
    pub id: InputId,
    pub effects_max: u32,
    pub abs_max: Vec<i32>,
    pub abs_min: Vec<i32>,
    pub abs_fuzz: Vec<i32>,
    pub abs_flat: Vec<i32>,
}

impl UinputUserDev {
    /// The fixed layout: an 80-byte name buffer and one entry per possible
    /// absolute-axis code in each range array.
    pub open spec fn wf(self) -> bool {
        &&& self.name@.len() == UINPUT_MAX_NAME_SIZE
        &&& self.abs_max@.len() == ABS_CNT
        &&& self.abs_min@.len() == ABS_CNT
        &&& self.abs_fuzz@.len() == ABS_CNT
        &&& self.abs_flat@.len() == ABS_CNT
    }
}

} // verus!
