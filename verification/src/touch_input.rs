//! The touch simulation state machine: a fixed pool of per-slot contacts,
//! one reserved "driver" contact mutated by move/lift calls, and the two
//! protocol dispatchers that turn the pool's state into an ordered low-level
//! event sequence on each sync cycle. The caller owns the channels, the
//! pacing delays and the device writes; every decision is made here.

use vstd::prelude::*;

use crate::uinput::InputDevice;
use crate::uinput_defs::{
    ABS_MT_ORIENTATION, ABS_MT_POSITION_X, ABS_MT_POSITION_Y, ABS_MT_PRESSURE, ABS_MT_SLOT,
    ABS_MT_TOUCH_MAJOR, ABS_MT_TOUCH_MINOR, ABS_MT_TRACKING_ID, ABS_MT_WIDTH_MAJOR,
    ABS_MT_WIDTH_MINOR, BTN_TOUCH, EV_ABS, EV_KEY, EV_SYN, SYN_MT_REPORT, SYN_REPORT,
};

verus! {

/// The protocol the session speaks: anonymous per-cycle contacts
/// (Protocol A, with a randomized-name variant) or persistent numbered
/// slots (Protocol B).
#[derive(Debug, Clone, Copy, PartialEq, Eq, Structural)]
pub enum TypeMode {
    TypeA,
    TypeARnd,
    TypeB,
}

/// The reserved driver slot: the one contact move/lift calls mutate.
pub const FAKE_CONTACT: usize = 9;

/// Per-slot state under Protocol A: position and activity only.
#[derive(Debug, Clone, Copy, PartialEq, Eq, Structural)]
pub struct TouchContactA {
    pub pos_x: i32,
    pub pos_y: i32,
    pub active: bool,
}

/// Per-slot state under Protocol B. Every numeric field uses `-1` as the
/// "unset/inactive" sentinel; `tracking_id >= 0` is the authoritative
/// live-touch signal for the dispatcher, independent of `active`.
#[derive(Debug, Clone, Copy, PartialEq, Eq, Structural)]
pub struct TouchContactB {
    pub touch_major: i32,
    pub touch_minor: i32,
    pub width_major: i32,
    pub width_minor: i32,
    pub orientation: i32,
    pub position_x: i32,
    pub position_y: i32,
    pub tracking_id: i32,
    pub pressure: i32,
    pub active: bool,
}

/// A fresh Protocol-A contact: inactive, position unset.
pub open spec fn spec_default_contact_a() -> TouchContactA {
    TouchContactA { pos_x: -1i32, pos_y: -1i32, active: false }
}

/// A fresh Protocol-B contact: inactive, every numeric field unset.
pub open spec fn spec_default_contact_b() -> TouchContactB {
    TouchContactB {
        touch_major: -1i32,
        touch_minor: -1i32,
        width_major: -1i32,
        width_minor: -1i32,
        orientation: -1i32,
        position_x: -1i32,
        position_y: -1i32,
        tracking_id: -1i32,
        pressure: -1i32,
        active: false,
    }
}

impl Default for TouchContactA {
    fn default() -> (r: Self)
        ensures
            r == spec_default_contact_a(),
    {
        TouchContactA { pos_x: -1, pos_y: -1, active: false }
    }
}

impl Default for TouchContactB {
    fn default() -> (r: Self)
        ensures
            r == spec_default_contact_b(),
    {
        TouchContactB {
            touch_major: -1,
            touch_minor: -1,
            width_major: -1,
            width_minor: -1,
            orientation: -1,
            position_x: -1,
            position_y: -1,
            tracking_id: -1,
            pressure: -1,
            active: false,
        }
    }
}

/// One low-level event the dispatcher asks the caller to write: type, code
/// and value. The caller stamps the wall-clock time when it serializes.
#[derive(Debug, Clone, Copy, PartialEq, Eq, Structural)]
pub struct OutputEvent {
    pub event_type: u16,
    pub code: u16,
    pub value: i32,
}

/// Shorthand for one event.
pub open spec fn spec_ev(event_type: u16, code: u16, value: i32) -> OutputEvent {
    OutputEvent { event_type, code, value }
}

/// Exact integer mapping of one logical coordinate into device space:
/// `v * axis_max / extent + axis_min`, truncating toward zero.
pub open spec fn spec_map_coordinate(v: int, axis_max: int, extent: int, axis_min: int) -> int {
    v * axis_max / extent + axis_min
}

/// Maps one logical display coordinate onto the device axis.
pub fn map_coordinate(v: i32, axis_max: i32, extent: i32, axis_min: i32) -> (r: i32)
    requires
        0 <= v,
        0 < extent,
        0 <= axis_max,
        0 <= axis_min,
        v * axis_max <= i32::MAX,
        spec_map_coordinate(v as int, axis_max as int, extent as int, axis_min as int) <= i32::MAX,
    ensures
        r == spec_map_coordinate(v as int, axis_max as int, extent as int, axis_min as int),
        axis_min <= r,
{
    proof {
        vstd::arithmetic::div_mod::lemma_div_pos_is_pos((v * axis_max) as int, extent as int);
    }
    v * axis_max / extent + axis_min
}

/// The simulation state as contracts see it: mode, lifecycle flags, display
/// space, precomputed synthetic contact values, the bound devices, and the
/// two contact pools.
pub struct SimState {
    pub curr_mode: TypeMode,
    pub touch_send: bool,
    pub touch_start: bool,
    pub display_width: i32,
    pub display_height: i32,
    pub fake_touch_major: i32,
    pub fake_touch_minor: i32,
    pub fake_width_major: i32,
    pub fake_width_minor: i32,
    pub fake_orientation: i32,
    pub fake_pressure: i32,
    pub touch_device: Option<InputDevice>,
    pub uinput_device: Option<InputDevice>,
    pub touch_contacts_a: Seq<TouchContactA>,
    pub touch_contacts_b: Seq<TouchContactB>,
}

impl SimState {
    /// A session that is started is fully equipped: a valid device is bound,
    /// the display space is positive, and the active protocol's contact pool
    /// has exactly one entry per slot (so the reserved driver slot exists).
    pub open spec fn wf(self) -> bool {
        self.touch_start ==> {
            &&& self.touch_device is Some
            &&& self.touch_device->0.valid()
            &&& self.display_width > 0
            &&& self.display_height > 0
            &&& (self.curr_mode != TypeMode::TypeB ==> self.touch_contacts_a.len()
                == self.touch_device->0.slots)
            &&& (self.curr_mode == TypeMode::TypeB ==> self.touch_contacts_b.len()
                == self.touch_device->0.slots)
        }
    }
}

/// A simulation session. At most one session is active per instance:
/// starting while started is a no-op, stopping while stopped is a no-op.
pub struct TouchSimulation {
    curr_mode: TypeMode,
    touch_send: bool,
    touch_start: bool,
    display_width: i32,
    display_height: i32,
    fake_touch_major: i32,
    fake_touch_minor: i32,
    fake_width_major: i32,
    fake_width_minor: i32,
    fake_orientation: i32,
    fake_pressure: i32,
    touch_device: Option<InputDevice>,
    uinput_device: Option<InputDevice>,
    touch_contacts_a: Vec<TouchContactA>,
    touch_contacts_b: Vec<TouchContactB>,
}

impl View for TouchSimulation {
    type V = SimState;

    closed spec fn view(&self) -> SimState {
        SimState {
            curr_mode: self.curr_mode,
            touch_send: self.touch_send,
            touch_start: self.touch_start,
            display_width: self.display_width,
            display_height: self.display_height,
            fake_touch_major: self.fake_touch_major,
            fake_touch_minor: self.fake_touch_minor,
            fake_width_major: self.fake_width_major,
            fake_width_minor: self.fake_width_minor,
            fake_orientation: self.fake_orientation,
            fake_pressure: self.fake_pressure,
            touch_device: self.touch_device,
            uinput_device: self.uinput_device,
            touch_contacts_a: self.touch_contacts_a@,
            touch_contacts_b: self.touch_contacts_b@,
        }
    }
}

/// The state of a fresh simulation: Protocol B selected, nothing started,
/// no device bound, every precomputed value unset.
pub open spec fn spec_initial_sim() -> SimState {
    SimState {
        curr_mode: TypeMode::TypeB,
        touch_send: false,
        touch_start: false,
        display_width: 0i32,
        display_height: 0i32,
        fake_touch_major: -1i32,
        fake_touch_minor: -1i32,
        fake_width_major: -1i32,
        fake_width_minor: -1i32,
        fake_orientation: -1i32,
        fake_pressure: -1i32,
        touch_device: None,
        uinput_device: None,
        touch_contacts_a: Seq::empty(),
        touch_contacts_b: Seq::empty(),
    }
}

/// The state after a successful start on a stopped session: mode and display
/// space recorded, the device bound as both input and output, the active
/// protocol's pool reset to defaults, and, for Protocol B, the synthetic
/// shape values precomputed from the X-axis maximum (14% for majors, 10% for
/// minors), a constant orientation, and 35% pressure — each only for axes
/// the device declares.
pub open spec fn spec_started(
    s: SimState,
    mode: TypeMode,
    width: i32,
    height: i32,
    dev: InputDevice,
) -> SimState {
    SimState {
        curr_mode: mode,
        touch_send: s.touch_send,
        touch_start: true,
        display_width: width,
        display_height: height,
        fake_touch_major: if mode == TypeMode::TypeB && dev.has_touch_major {
            (dev.touch_x_max * 14 / 100) as i32
        } else {
            s.fake_touch_major
        },
        fake_touch_minor: if mode == TypeMode::TypeB && dev.has_touch_minor {
            (dev.touch_x_max * 10 / 100) as i32
        } else {
            s.fake_touch_minor
        },
        fake_width_major: if mode == TypeMode::TypeB && dev.has_width_major {
            (dev.touch_x_max * 14 / 100) as i32
        } else {
            s.fake_width_major
        },
        fake_width_minor: if mode == TypeMode::TypeB && dev.has_width_minor {
            (dev.touch_x_max * 10 / 100) as i32
        } else {
            s.fake_width_minor
        },
        fake_orientation: if mode == TypeMode::TypeB && dev.has_orientation {
            50i32
        } else {
            s.fake_orientation
        },
        fake_pressure: if mode == TypeMode::TypeB && dev.has_pressure {
            35i32
        } else {
            s.fake_pressure
        },
        touch_device: Some(dev),
        uinput_device: Some(dev),
        touch_contacts_a: if mode != TypeMode::TypeB {
            Seq::new(dev.slots as nat, |i| spec_default_contact_a())
        } else {
            s.touch_contacts_a
        },
        touch_contacts_b: if mode == TypeMode::TypeB {
            Seq::new(dev.slots as nat, |i| spec_default_contact_b())
        } else {
            s.touch_contacts_b
        },
    }
}

/// The state after stop: the devices unbound, both pools cleared, the
/// session stopped. A stopped session is left untouched.
pub open spec fn spec_stopped(s: SimState) -> SimState {
    if s.touch_start {
        SimState {
            touch_device: None,
            uinput_device: None,
            touch_contacts_a: Seq::empty(),
            touch_contacts_b: Seq::empty(),
            touch_start: false,
            ..s
        }
    } else {
        s
    }
}

/// The driver contact after a move under Protocol B: position set to the
/// device coordinates, the synthetic shape/orientation/pressure values
/// filled in for axes the device declares, a tracking id assigned on first
/// activation only (`slot count - 2`), and the contact marked active.
pub open spec fn spec_moved_contact_b(
    c: TouchContactB,
    s: SimState,
    x_dev: i32,
    y_dev: i32,
) -> TouchContactB {
    let dev = s.touch_device->0;
    TouchContactB {
        touch_major: if dev.has_touch_major {
            s.fake_touch_major
        } else {
            c.touch_major
        },
        touch_minor: if dev.has_touch_minor {
            s.fake_touch_minor
        } else {
            c.touch_minor
        },
        width_major: if dev.has_width_major {
            s.fake_width_major
        } else {
            c.width_major
        },
        width_minor: if dev.has_width_minor {
            s.fake_width_minor
        } else {
            c.width_minor
        },
        orientation: if dev.has_orientation {
            s.fake_orientation
        } else {
            c.orientation
        },
        position_x: x_dev,
        position_y: y_dev,
        tracking_id: if c.tracking_id < 0 {
            (dev.slots - 2) as i32
        } else {
            c.tracking_id
        },
        pressure: if dev.has_pressure {
            s.fake_pressure
        } else {
            c.pressure
        },
        active: true,
    }
}

/// The state after `send_touch_move(x, y)`: a no-op unless started;
/// otherwise the logical coordinates are mapped into device space
/// (`x * axis_max / display_extent + axis_min`, truncating) and written
/// into the driver contact of the active protocol's pool.
pub open spec fn spec_send_touch_move(s: SimState, x: i32, y: i32) -> SimState {
    if !s.touch_start {
        s
    } else {
        let dev = s.touch_device->0;
        let xd = spec_map_coordinate(
            x as int,
            dev.touch_x_max as int,
            s.display_width as int,
            dev.touch_x_min as int,
        );
        let yd = spec_map_coordinate(
            y as int,
            dev.touch_y_max as int,
            s.display_height as int,
            dev.touch_y_min as int,
        );
        if s.curr_mode != TypeMode::TypeB {
            SimState {
                touch_send: true,
                touch_contacts_a: s.touch_contacts_a.update(
                    FAKE_CONTACT as int,
                    TouchContactA { pos_x: xd as i32, pos_y: yd as i32, active: true },
                ),
                ..s
            }
        } else {
            SimState {
                touch_send: true,
                touch_contacts_b: s.touch_contacts_b.update(
                    FAKE_CONTACT as int,
                    spec_moved_contact_b(
                        s.touch_contacts_b[FAKE_CONTACT as int],
                        s,
                        xd as i32,
                        yd as i32,
                    ),
                ),
                ..s
            }
        }
    }
}

/// The driver contact after a lift under Protocol B: position and tracking
/// id back at the inactive sentinel, shape fields the device declares reset
/// (`-1` for majors/minors, `0` for orientation and pressure), inactive.
pub open spec fn spec_lifted_contact_b(c: TouchContactB, dev: InputDevice) -> TouchContactB {
    TouchContactB {
        touch_major: if dev.has_touch_major {
            -1i32
        } else {
            c.touch_major
        },
        touch_minor: if dev.has_touch_minor {
            -1i32
        } else {
            c.touch_minor
        },
        width_major: if dev.has_width_major {
            -1i32
        } else {
            c.width_major
        },
        width_minor: if dev.has_width_minor {
            -1i32
        } else {
            c.width_minor
        },
        orientation: if dev.has_orientation {
            0i32
        } else {
            c.orientation
        },
        position_x: -1i32,
        position_y: -1i32,
        tracking_id: -1i32,
        pressure: if dev.has_pressure {
            0i32
        } else {
            c.pressure
        },
        active: false,
    }
}

/// The state after `send_touch_up`: a no-op unless started and a move has
/// been sent since the last lift; otherwise the driver contact is cleared to
/// its inactive sentinels.
pub open spec fn spec_send_touch_up(s: SimState) -> SimState {
    if !s.touch_start || !s.touch_send {
        s
    } else {
        if s.curr_mode != TypeMode::TypeB {
            SimState {
                touch_send: false,
                touch_contacts_a: s.touch_contacts_a.update(
                    FAKE_CONTACT as int,
                    TouchContactA { pos_x: -1i32, pos_y: -1i32, active: false },
                ),
                ..s
            }
        } else {
            SimState {
                touch_send: false,
                touch_contacts_b: s.touch_contacts_b.update(
                    FAKE_CONTACT as int,
                    spec_lifted_contact_b(
                        s.touch_contacts_b[FAKE_CONTACT as int],
                        s.touch_device->0,
                    ),
                ),
                ..s
            }
        }
    }
}

impl TouchSimulation {
    /// A fresh simulation with no bound device.
    pub fn new() -> (r: Self)
        ensures
            r@ == spec_initial_sim(),
            r@.wf(),
    {
        let r = TouchSimulation {
            curr_mode: TypeMode::TypeB,
            touch_send: false,
            touch_start: false,
            display_width: 0,
            display_height: 0,
            fake_touch_major: -1,
            fake_touch_minor: -1,
            fake_width_major: -1,
            fake_width_minor: -1,
            fake_orientation: -1,
            fake_pressure: -1,
            touch_device: None,
            uinput_device: None,
            touch_contacts_a: Vec::new(),
            touch_contacts_b: Vec::new(),
        };
        proof {
            assert(r@.touch_contacts_a =~= Seq::<TouchContactA>::empty());
            assert(r@.touch_contacts_b =~= Seq::<TouchContactB>::empty());
        }
        r
    }

    /// A fresh simulation bound to a known device, so that setup skips the
    /// scan.
    pub fn new_with_device(input_device: InputDevice) -> (r: Self)
        ensures
            r@ == (SimState { touch_device: Some(input_device), ..spec_initial_sim() }),
            r@.wf(),
    {
        let r = TouchSimulation {
            curr_mode: TypeMode::TypeB,
            touch_send: false,
            touch_start: false,
            display_width: 0,
            display_height: 0,
            fake_touch_major: -1,
            fake_touch_minor: -1,
            fake_width_major: -1,
            fake_width_minor: -1,
            fake_orientation: -1,
            fake_pressure: -1,
            touch_device: Some(input_device),
            uinput_device: None,
            touch_contacts_a: Vec::new(),
            touch_contacts_b: Vec::new(),
        };
        proof {
            assert(r@.touch_contacts_a =~= Seq::<TouchContactA>::empty());
            assert(r@.touch_contacts_b =~= Seq::<TouchContactB>::empty());
        }
        r
    }

    /// Read access to the Protocol-A contact pool.
    pub fn touch_contacts_a(&self) -> (r: &Vec<TouchContactA>)
        ensures
            r@ == self@.touch_contacts_a,
    {
        &self.touch_contacts_a
    }

    /// Read access to the Protocol-B contact pool.
    pub fn touch_contacts_b(&self) -> (r: &Vec<TouchContactB>)
        ensures
            r@ == self@.touch_contacts_b,
    {
        &self.touch_contacts_b
    }

    /// Whether a session is currently active. The caller consults this
    /// before performing the grab, so that a repeated setup performs no
    /// second grab.
    pub fn is_started(&self) -> (r: bool)
        ensures
            r == self@.touch_start,
    {
        self.touch_start
    }

    /// The device a fresh session would drive, if one is already bound.
    pub fn bound_device(&self) -> (r: Option<InputDevice>)
        ensures
            r == self@.touch_device,
    {
        match &self.touch_device {
            Some(d) => Some(d.clone()),
            None => None,
        }
    }

    /// Starts a session on `in_dev`. A no-op returning true when already
    /// started. `grab_ok` reports whether the caller's exclusive grab and
    /// device configuration succeeded; on failure the start is aborted with
    /// `false` and no partially-started session remains.
    pub fn touch_input_start(
        &mut self,
        mode: TypeMode,
        width: i32,
        height: i32,
        in_dev: InputDevice,
        grab_ok: bool,
    ) -> (r: bool)
        requires
            old(self)@.wf(),
            !old(self)@.touch_start ==> in_dev.valid() && width > 0 && height > 0,
        ensures
            final(self)@.wf(),
            old(self)@.touch_start ==> r == true && final(self)@ == old(self)@,
            !old(self)@.touch_start && !grab_ok ==> r == false && final(self)@ == old(self)@,
            !old(self)@.touch_start && grab_ok ==> r == true && final(self)@ == spec_started(
                old(self)@,
                mode,
                width,
                height,
                in_dev,
            ),
    {
        if self.touch_start {
            return true;
        }
        if !grab_ok {
            return false;
        }
        self.curr_mode = mode;
        self.display_width = width;
        self.display_height = height;
        if mode == TypeMode::TypeA || mode == TypeMode::TypeARnd {
            let n: usize = in_dev.slots as usize;
            let mut contacts: Vec<TouchContactA> = Vec::new();
            let mut k: usize = 0;
            while k < n
                invariant
                    k <= n,
                    contacts@.len() == k,
                    forall|i: int| 0 <= i < k ==> contacts@[i] == spec_default_contact_a(),
                decreases n - k,
            {
                contacts.push(TouchContactA::default());
                k = k + 1;
            }
            proof {
                assert(contacts@ =~= Seq::new(in_dev.slots as nat, |i| spec_default_contact_a()));
            }
            self.touch_contacts_a = contacts;
        } else {
            if in_dev.has_touch_major {
                self.fake_touch_major = in_dev.touch_x_max * 14 / 100;
            }
            if in_dev.has_touch_minor {
                self.fake_touch_minor = in_dev.touch_x_max * 10 / 100;
            }
            if in_dev.has_width_major {
                self.fake_width_major = in_dev.touch_x_max * 14 / 100;
            }
            if in_dev.has_width_minor {
                self.fake_width_minor = in_dev.touch_x_max * 10 / 100;
            }
            if in_dev.has_orientation {
                self.fake_orientation = 50;
            }
            if in_dev.has_pressure {
                self.fake_pressure = 100 * 35 / 100;
            }
            let n: usize = in_dev.slots as usize;
            let mut contacts: Vec<TouchContactB> = Vec::new();
            let mut k: usize = 0;
            while k < n
                invariant
                    k <= n,
                    contacts@.len() == k,
                    forall|i: int| 0 <= i < k ==> contacts@[i] == spec_default_contact_b(),
                decreases n - k,
            {
                contacts.push(TouchContactB::default());
                k = k + 1;
            }
            proof {
                assert(contacts@ =~= Seq::new(in_dev.slots as nat, |i| spec_default_contact_b()));
            }
            self.touch_contacts_b = contacts;
        }
        self.uinput_device = Some(in_dev.clone());
        self.touch_device = Some(in_dev);
        self.touch_start = true;
        true
    }

    /// Stops the session and clears its state; safe to repeat, with no
    /// effect when not started. The caller releases the grabs it holds
    /// before discarding the device handles; a failed release never keeps
    /// this teardown from completing.
    pub fn touch_input_stop(&mut self)
        ensures
            final(self)@ == spec_stopped(old(self)@),
            final(self)@.wf(),
    {
        if self.touch_start {
            self.uinput_device = None;
            self.touch_device = None;
            self.touch_contacts_a = Vec::new();
            self.touch_contacts_b = Vec::new();
            self.touch_start = false;
            proof {
                assert(self@.touch_contacts_a =~= Seq::<TouchContactA>::empty());
                assert(self@.touch_contacts_b =~= Seq::<TouchContactB>::empty());
            }
        }
    }

    /// Resolves a touch device — the bound one, or the synthetic fallback
    /// list when none is bound — and starts a session on it. Returns false
    /// only when the caller's grab/configuration failed (`grab_ok`); a
    /// repeated setup while started returns true and changes nothing.
    pub fn touch_input_setup(&mut self, mode: TypeMode, width: i32, height: i32, grab_ok: bool) -> (r:
        bool)
        requires
            old(self)@.wf(),
            !old(self)@.touch_start ==> width > 0 && height > 0 && (match old(self)@.touch_device {
                Some(d) => d.valid(),
                None => true,
            }),
        ensures
            final(self)@.wf(),
            old(self)@.touch_start ==> r == true && final(self)@ == old(self)@,
            !old(self)@.touch_start && !grab_ok ==> r == false && final(self)@ == old(self)@,
            !old(self)@.touch_start && grab_ok && old(self)@.touch_device is Some ==> r == true
                && final(self)@ == spec_started(
                old(self)@,
                mode,
                width,
                height,
                old(self)@.touch_device->0,
            ),
            !old(self)@.touch_start && grab_ok && old(self)@.touch_device is None ==> r == true
                && final(self)@.touch_device is Some && crate::uinput::is_fallback_device(
                final(self)@.touch_device->0,
            ) && final(self)@ == spec_started(
                old(self)@,
                mode,
                width,
                height,
                final(self)@.touch_device->0,
            ),
    {
        let dev_opt: Option<InputDevice> = match &self.touch_device {
            Some(d) => Some(d.clone()),
            None => None,
        };
        match dev_opt {
            Some(dev) => self.touch_input_start(mode, width, height, dev, grab_ok),
            None => {
                let mut devices = crate::uinput::get_input_devices();
                let dev = devices.remove(0);
                self.touch_input_start(mode, width, height, dev, grab_ok)
            },
        }
    }

    /// Moves the driver contact to the logical display position `(x, y)`;
    /// a no-op unless started. The coordinates are mapped into device space
    /// with exact integer arithmetic, truncating toward zero.
    pub fn send_touch_move(&mut self, x: i32, y: i32)
        requires
            old(self)@.wf(),
            old(self)@.touch_start ==> {
                &&& 0 <= x
                &&& 0 <= y
                &&& x * old(self)@.touch_device->0.touch_x_max <= i32::MAX
                &&& y * old(self)@.touch_device->0.touch_y_max <= i32::MAX
                &&& spec_map_coordinate(
                    x as int,
                    old(self)@.touch_device->0.touch_x_max as int,
                    old(self)@.display_width as int,
                    old(self)@.touch_device->0.touch_x_min as int,
                ) <= i32::MAX
                &&& spec_map_coordinate(
                    y as int,
                    old(self)@.touch_device->0.touch_y_max as int,
                    old(self)@.display_height as int,
                    old(self)@.touch_device->0.touch_y_min as int,
                ) <= i32::MAX
            },
        ensures
            final(self)@ == spec_send_touch_move(old(self)@, x, y),
            final(self)@.wf(),
    {
        if !self.touch_start {
            return ;
        }
        if !self.touch_send {
            self.touch_send = true;
        }
        let dev = match &self.touch_device {
            Some(d) => d.clone(),
            None => vstd::pervasive::unreached(),
        };
        let x_dev = map_coordinate(x, dev.touch_x_max, self.display_width, dev.touch_x_min);
        let y_dev = map_coordinate(y, dev.touch_y_max, self.display_height, dev.touch_y_min);
        if self.curr_mode == TypeMode::TypeA || self.curr_mode == TypeMode::TypeARnd {
            self.touch_contacts_a[FAKE_CONTACT] = TouchContactA {
                pos_x: x_dev,
                pos_y: y_dev,
                active: true,
            };
        } else {
            let mut c = self.touch_contacts_b[FAKE_CONTACT];
            if dev.has_touch_major {
                c.touch_major = self.fake_touch_major;
            }
            if dev.has_touch_minor {
                c.touch_minor = self.fake_touch_minor;
            }
            if dev.has_width_major {
                c.width_major = self.fake_width_major;
            }
            if dev.has_width_minor {
                c.width_minor = self.fake_width_minor;
            }
            if dev.has_orientation {
                c.orientation = self.fake_orientation;
            }
            if dev.has_pressure {
                c.pressure = self.fake_pressure;
            }
            if c.tracking_id < 0 {
                c.tracking_id = dev.slots - 2;
            }
            c.position_x = x_dev;
            c.position_y = y_dev;
            c.active = true;
            self.touch_contacts_b[FAKE_CONTACT] = c;
        }
    }

    /// Lifts the driver contact: position, tracking id and declared shape
    /// fields return to their reset values. A no-op unless started and a
    /// move has been sent since the last lift.
    pub fn send_touch_up(&mut self)
        requires
            old(self)@.wf(),
        ensures
            final(self)@ == spec_send_touch_up(old(self)@),
            final(self)@.wf(),
    {
        if !self.touch_start || !self.touch_send {
            return ;
        }
        self.touch_send = false;
        if self.curr_mode == TypeMode::TypeA || self.curr_mode == TypeMode::TypeARnd {
            self.touch_contacts_a[FAKE_CONTACT] = TouchContactA {
                pos_x: -1,
                pos_y: -1,
                active: false,
            };
        } else {
            let dev = match &self.touch_device {
                Some(d) => d.clone(),
                None => vstd::pervasive::unreached(),
            };
            let mut c = self.touch_contacts_b[FAKE_CONTACT];
            if dev.has_touch_major {
                c.touch_major = -1;
            }
            if dev.has_touch_minor {
                c.touch_minor = -1;
            }
            if dev.has_width_major {
                c.width_major = -1;
            }
            if dev.has_width_minor {
                c.width_minor = -1;
            }
            if dev.has_orientation {
                c.orientation = 0;
            }
            if dev.has_pressure {
                c.pressure = 0;
            }
            c.tracking_id = -1;
            c.position_x = -1;
            c.position_y = -1;
            c.active = false;
            self.touch_contacts_b[FAKE_CONTACT] = c;
        }
    }
}

} // verus!

verus! {

fn push_ev(out: &mut Vec<OutputEvent>, event_type: u16, code: u16, value: i32)
    ensures
        final(out)@ == old(out)@.push(spec_ev(event_type, code, value)),
{
    out.push(OutputEvent { event_type, code, value });
}

/// Whether a Protocol-A contact is reported in a cycle: active with both
/// coordinates strictly positive.
pub open spec fn spec_reports_a(c: TouchContactA) -> bool {
    c.active && c.pos_x > 0 && c.pos_y > 0
}

/// How many of the first `n` Protocol-A contacts are reported.
pub open spec fn spec_active_count_a(contacts: Seq<TouchContactA>, n: int) -> int
    decreases n,
{
    if n <= 0 {
        0
    } else {
        spec_active_count_a(contacts, n - 1) + if spec_reports_a(contacts[n - 1]) {
            1int
        } else {
            0int
        }
    }
}

/// The events one reported Protocol-A contact contributes: position X and Y,
/// a tracking id equal to its slot index, and the multi-touch report marker.
pub open spec fn spec_slot_events_a(c: TouchContactA, idx: int) -> Seq<OutputEvent> {
    if spec_reports_a(c) {
        seq![
            spec_ev(EV_ABS, ABS_MT_POSITION_X, c.pos_x),
            spec_ev(EV_ABS, ABS_MT_POSITION_Y, c.pos_y),
            spec_ev(EV_ABS, ABS_MT_TRACKING_ID, idx as i32),
            spec_ev(EV_SYN, SYN_MT_REPORT, 0i32),
        ]
    } else {
        Seq::empty()
    }
}

/// The walk over the first `n` slots, in slot order.
pub open spec fn spec_slots_events_a(contacts: Seq<TouchContactA>, n: int) -> Seq<OutputEvent>
    decreases n,
{
    if n <= 0 {
        Seq::empty()
    } else {
        spec_slots_events_a(contacts, n - 1) + spec_slot_events_a(contacts[n - 1], n - 1)
    }
}

/// One full Protocol-A cycle: the per-slot walk; then, when the active count
/// drops to zero while the touch key was down, a report marker and the touch
/// key release, or, when it rises from zero, the touch key press; and always
/// the closing frame sync.
pub open spec fn spec_dispatch_a_events(contacts: Seq<TouchContactA>, btn: bool) -> Seq<
    OutputEvent,
> {
    let body = spec_slots_events_a(contacts, contacts.len() as int);
    let count = spec_active_count_a(contacts, contacts.len() as int);
    let tail = if count == 0 && btn {
        seq![spec_ev(EV_SYN, SYN_MT_REPORT, 0i32), spec_ev(EV_KEY, BTN_TOUCH, 0i32)]
    } else if count > 0 && !btn {
        seq![spec_ev(EV_KEY, BTN_TOUCH, 1i32)]
    } else {
        Seq::empty()
    };
    body + tail + seq![spec_ev(EV_SYN, SYN_REPORT, 0i32)]
}

/// Whether the touch key is logically down after one Protocol-A cycle.
pub open spec fn spec_dispatch_a_btn(contacts: Seq<TouchContactA>, btn: bool) -> bool {
    let count = spec_active_count_a(contacts, contacts.len() as int);
    if count == 0 && btn {
        false
    } else if count > 0 && !btn {
        true
    } else {
        btn
    }
}

impl TouchSimulation {
    /// One Protocol-A dispatcher cycle: reads the contact pool and returns
    /// the event sequence to flush, updating the caller's touch-key state.
    pub fn event_dispatcher_a(&self, is_btn_down: &mut bool) -> (events: Vec<OutputEvent>)
        requires
            self@.touch_contacts_a.len() <= i32::MAX,
        ensures
            events@ == spec_dispatch_a_events(self@.touch_contacts_a, *old(is_btn_down)),
            *final(is_btn_down) == spec_dispatch_a_btn(self@.touch_contacts_a, *old(is_btn_down)),
    {
        let ghost c0 = self.touch_contacts_a@;
        let mut events: Vec<OutputEvent> = Vec::new();
        let mut active_slots: i32 = 0;
        let n: usize = self.touch_contacts_a.len();
        let mut idx: usize = 0;
        while idx < n
            invariant
                idx <= n,
                n == c0.len(),
                n <= i32::MAX,
                self.touch_contacts_a@ == c0,
                active_slots == spec_active_count_a(c0, idx as int),
                active_slots <= idx,
                0 <= active_slots,
                events@ == spec_slots_events_a(c0, idx as int),
            decreases n - idx,
        {
            let contact = self.touch_contacts_a[idx];
            if contact.active && contact.pos_x > 0 && contact.pos_y > 0 {
                push_ev(&mut events, EV_ABS, ABS_MT_POSITION_X, contact.pos_x);
                push_ev(&mut events, EV_ABS, ABS_MT_POSITION_Y, contact.pos_y);
                push_ev(&mut events, EV_ABS, ABS_MT_TRACKING_ID, idx as i32);
                push_ev(&mut events, EV_SYN, SYN_MT_REPORT, 0);
                active_slots = active_slots + 1;
            }
            proof {
                assert(events@ =~= spec_slots_events_a(c0, idx + 1));
            }
            idx = idx + 1;
        }
        if active_slots == 0 && *is_btn_down {
            *is_btn_down = false;
            push_ev(&mut events, EV_SYN, SYN_MT_REPORT, 0);
            push_ev(&mut events, EV_KEY, BTN_TOUCH, 0);
        } else if active_slots > 0 && !*is_btn_down {
            *is_btn_down = true;
            push_ev(&mut events, EV_KEY, BTN_TOUCH, 1);
        }
        push_ev(&mut events, EV_SYN, SYN_REPORT, 0);
        proof {
            assert(events@ =~= spec_dispatch_a_events(c0, *old(is_btn_down)));
        }
        events
    }
}

} // verus!

verus! {

/// Whether a Protocol-B contact is live for the dispatcher: active with a
/// valid tracking id.
pub open spec fn spec_live_b(c: TouchContactB) -> bool {
    c.active && c.tracking_id >= 0
}

/// How many of the first `n` Protocol-B contacts are live.
pub open spec fn spec_active_count_b(contacts: Seq<TouchContactB>, n: int) -> int
    decreases n,
{
    if n <= 0 {
        0
    } else {
        spec_active_count_b(contacts, n - 1) + if spec_live_b(contacts[n - 1]) {
            1int
        } else {
            0int
        }
    }
}

/// What one Protocol-B slot contributes to a cycle: its events and the
/// updated contact, shadow entry and touch-key state.
pub struct SlotStepB {
    pub events: Seq<OutputEvent>,
    pub contact: TouchContactB,
    pub shadow: i32,
    pub btn: bool,
}

/// One Protocol-B slot in one cycle. A live slot whose tracking id differs
/// from the dispatcher's shadow entry is a new touch: its tracking-id event
/// comes first, with the touch-key press when no finger was down yet; then
/// the slot-select event, the declared shape fields (major, minor,
/// pressure), and the position fields last, as real drivers expect. An
/// inactive slot whose shadow entry still holds a valid tracking id is
/// released: slot-select, then a tracking id of `-1`, clearing both the
/// shadow entry and the contact's own id.
pub open spec fn spec_slot_step_b(c: TouchContactB, shadow: i32, idx: int, btn: bool) -> SlotStepB {
    if spec_live_b(c) {
        let is_new = c.tracking_id != shadow;
        let head = if is_new {
            seq![spec_ev(EV_ABS, ABS_MT_TRACKING_ID, c.tracking_id)] + if !btn {
                seq![spec_ev(EV_KEY, BTN_TOUCH, 1i32)]
            } else {
                Seq::empty()
            }
        } else {
            Seq::empty()
        };
        let shape = (if c.touch_major >= 0 {
            seq![spec_ev(EV_ABS, ABS_MT_TOUCH_MAJOR, c.touch_major)]
        } else {
            Seq::empty()
        }) + (if c.touch_minor >= 0 {
            seq![spec_ev(EV_ABS, ABS_MT_TOUCH_MINOR, c.touch_minor)]
        } else {
            Seq::empty()
        }) + (if c.pressure >= 0 {
            seq![spec_ev(EV_ABS, ABS_MT_PRESSURE, c.pressure)]
        } else {
            Seq::empty()
        });
        let pos = (if c.position_x >= 0 {
            seq![spec_ev(EV_ABS, ABS_MT_POSITION_X, c.position_x)]
        } else {
            Seq::empty()
        }) + (if c.position_y >= 0 {
            seq![spec_ev(EV_ABS, ABS_MT_POSITION_Y, c.position_y)]
        } else {
            Seq::empty()
        });
        SlotStepB {
            events: head + seq![spec_ev(EV_ABS, ABS_MT_SLOT, idx as i32)] + shape + pos,
            contact: c,
            shadow: if is_new {
                c.tracking_id
            } else {
                shadow
            },
            btn: btn || is_new,
        }
    } else if !c.active && shadow >= 0 {
        SlotStepB {
            events: seq![
                spec_ev(EV_ABS, ABS_MT_SLOT, idx as i32),
                spec_ev(EV_ABS, ABS_MT_TRACKING_ID, -1i32),
            ],
            contact: TouchContactB { tracking_id: -1i32, ..c },
            shadow: -1i32,
            btn,
        }
    } else {
        SlotStepB { events: Seq::empty(), contact: c, shadow, btn }
    }
}

/// One whole Protocol-B per-slot pass and its outcome.
pub struct DispatchB {
    pub events: Seq<OutputEvent>,
    pub contacts: Seq<TouchContactB>,
    pub shadow: Seq<i32>,
    pub btn: bool,
}

/// The per-slot pass from slot `i` up, threading the contact pool, the
/// shadow table and the touch-key state through each slot in order.
pub open spec fn spec_dispatch_slots_b(
    contacts: Seq<TouchContactB>,
    shadow: Seq<i32>,
    btn: bool,
    i: int,
) -> DispatchB
    decreases contacts.len() - i,
{
    if i < 0 || i >= contacts.len() {
        DispatchB { events: Seq::empty(), contacts, shadow, btn }
    } else {
        let step = spec_slot_step_b(contacts[i], shadow[i], i, btn);
        let rest = spec_dispatch_slots_b(
            contacts.update(i, step.contact),
            shadow.update(i, step.shadow),
            step.btn,
            i + 1,
        );
        DispatchB {
            events: step.events + rest.events,
            contacts: rest.contacts,
            shadow: rest.shadow,
            btn: rest.btn,
        }
    }
}

/// One full Protocol-B cycle: the per-slot pass; the touch-key release when
/// the pre-pass live count is zero while the key is down after the pass; and
/// always the closing frame sync.
pub open spec fn spec_dispatch_b(
    contacts: Seq<TouchContactB>,
    shadow: Seq<i32>,
    btn: bool,
) -> DispatchB {
    let pass = spec_dispatch_slots_b(contacts, shadow, btn, 0);
    let count = spec_active_count_b(contacts, contacts.len() as int);
    let btn_up = count == 0 && pass.btn;
    DispatchB {
        events: pass.events + (if btn_up {
            seq![spec_ev(EV_KEY, BTN_TOUCH, 0i32)]
        } else {
            Seq::empty()
        }) + seq![spec_ev(EV_SYN, SYN_REPORT, 0i32)],
        contacts: pass.contacts,
        shadow: pass.shadow,
        btn: if btn_up {
            false
        } else {
            pass.btn
        },
    }
}

/// The dispatcher loop's connecting fact: the work already emitted plus the
/// pass over the remaining slots equals the whole pass.
spec fn dispatch_b_loop_inv(
    c0: Seq<TouchContactB>,
    s0: Seq<i32>,
    b0: bool,
    cur_c: Seq<TouchContactB>,
    cur_s: Seq<i32>,
    cur_b: bool,
    done: Seq<OutputEvent>,
    i: int,
) -> bool {
    let full = spec_dispatch_slots_b(c0, s0, b0, 0);
    let rest = spec_dispatch_slots_b(cur_c, cur_s, cur_b, i);
    &&& full.events == done + rest.events
    &&& full.contacts == rest.contacts
    &&& full.shadow == rest.shadow
    &&& full.btn == rest.btn
}

/// One slot's worth of progress keeps the dispatcher loop's connecting fact.
proof fn lemma_dispatch_b_loop_step(
    c0: Seq<TouchContactB>,
    s0: Seq<i32>,
    b0: bool,
    cur_c: Seq<TouchContactB>,
    cur_s: Seq<i32>,
    cur_b: bool,
    done: Seq<OutputEvent>,
    i: int,
)
    requires
        dispatch_b_loop_inv(c0, s0, b0, cur_c, cur_s, cur_b, done, i),
        0 <= i < cur_c.len(),
        cur_s.len() == cur_c.len(),
    ensures
        ({
            let step = spec_slot_step_b(cur_c[i], cur_s[i], i, cur_b);
            dispatch_b_loop_inv(
                c0,
                s0,
                b0,
                cur_c.update(i, step.contact),
                cur_s.update(i, step.shadow),
                step.btn,
                done + step.events,
                i + 1,
            )
        }),
{
    let step = spec_slot_step_b(cur_c[i], cur_s[i], i, cur_b);
    let rest_cur = spec_dispatch_slots_b(cur_c, cur_s, cur_b, i);
    let rest_next = spec_dispatch_slots_b(
        cur_c.update(i, step.contact),
        cur_s.update(i, step.shadow),
        step.btn,
        i + 1,
    );
    assert(rest_cur.events == step.events + rest_next.events);
    assert((done + step.events) + rest_next.events =~= done + (step.events + rest_next.events));
}

impl TouchSimulation {
    /// One Protocol-B dispatcher cycle: reads the contact pool and the
    /// caller's per-slot shadow table of last-sent tracking ids, returns the
    /// event sequence to flush, releases slots whose shadow id outlived the
    /// contact, and updates the shadow table and touch-key state.
    #[verifier::rlimit(100)]
    #[verifier::spinoff_prover]
    pub fn event_dispatcher_b(
        &mut self,
        tracking_id_state: &mut Vec<i32>,
        is_btn_down: &mut bool,
    ) -> (events: Vec<OutputEvent>)
        requires
            old(tracking_id_state)@.len() == old(self)@.touch_contacts_b.len(),
            old(self)@.touch_contacts_b.len() <= i32::MAX,
        ensures
            final(self)@ == (SimState {
                touch_contacts_b: spec_dispatch_b(
                    old(self)@.touch_contacts_b,
                    old(tracking_id_state)@,
                    *old(is_btn_down),
                ).contacts,
                ..old(self)@
            }),
            events@ == spec_dispatch_b(
                old(self)@.touch_contacts_b,
                old(tracking_id_state)@,
                *old(is_btn_down),
            ).events,
            final(tracking_id_state)@ == spec_dispatch_b(
                old(self)@.touch_contacts_b,
                old(tracking_id_state)@,
                *old(is_btn_down),
            ).shadow,
            *final(is_btn_down) == spec_dispatch_b(
                old(self)@.touch_contacts_b,
                old(tracking_id_state)@,
                *old(is_btn_down),
            ).btn,
    {
        let ghost c0 = self.touch_contacts_b@;
        let ghost s0 = tracking_id_state@;
        let ghost b0 = *is_btn_down;
        let ghost sim0 = self@;

        let n: usize = self.touch_contacts_b.len();
        let mut events: Vec<OutputEvent> = Vec::new();

        let mut active_slots: i32 = 0;
        let mut k: usize = 0;
        while k < n
            invariant
                k <= n,
                n == c0.len(),
                n <= i32::MAX,
                self.touch_contacts_b@ == c0,
                active_slots == spec_active_count_b(c0, k as int),
                0 <= active_slots <= k,
            decreases n - k,
        {
            let contact = self.touch_contacts_b[k];
            if contact.active && contact.tracking_id >= 0 {
                active_slots = active_slots + 1;
            }
            k = k + 1;
        }

        let mut idx: usize = 0;
        while idx < n
            invariant
                idx <= n,
                n <= i32::MAX,
                self.touch_contacts_b@.len() == n,
                tracking_id_state@.len() == n,
                c0.len() == n,
                s0.len() == n,
                self@ == (SimState { touch_contacts_b: self.touch_contacts_b@, ..sim0 }),
                dispatch_b_loop_inv(
                    c0,
                    s0,
                    b0,
                    self.touch_contacts_b@,
                    tracking_id_state@,
                    *is_btn_down,
                    events@,
                    idx as int,
                ),
            decreases n - idx,
        {
            let ghost cur_c = self.touch_contacts_b@;
            let ghost cur_s = tracking_id_state@;
            let ghost cur_b = *is_btn_down;
            let ghost ev0 = events@;
            let ghost step = spec_slot_step_b(cur_c[idx as int], cur_s[idx as int], idx as int, cur_b);

            let contact = self.touch_contacts_b[idx];
            let sid = tracking_id_state[idx];
            if contact.active && contact.tracking_id >= 0 {
                let is_new = contact.tracking_id != sid;
                if is_new {
                    push_ev(&mut events, EV_ABS, ABS_MT_TRACKING_ID, contact.tracking_id);
                    tracking_id_state[idx] = contact.tracking_id;
                    if !*is_btn_down {
                        *is_btn_down = true;
                        push_ev(&mut events, EV_KEY, BTN_TOUCH, 1);
                    }
                }
                push_ev(&mut events, EV_ABS, ABS_MT_SLOT, idx as i32);
                if contact.touch_major >= 0 {
                    push_ev(&mut events, EV_ABS, ABS_MT_TOUCH_MAJOR, contact.touch_major);
                }
                if contact.touch_minor >= 0 {
                    push_ev(&mut events, EV_ABS, ABS_MT_TOUCH_MINOR, contact.touch_minor);
                }
                if contact.pressure >= 0 {
                    push_ev(&mut events, EV_ABS, ABS_MT_PRESSURE, contact.pressure);
                }
                if contact.position_x >= 0 {
                    push_ev(&mut events, EV_ABS, ABS_MT_POSITION_X, contact.position_x);
                }
                if contact.position_y >= 0 {
                    push_ev(&mut events, EV_ABS, ABS_MT_POSITION_Y, contact.position_y);
                }
                proof {
                    assert(events@ =~= ev0 + step.events);
                    assert(self.touch_contacts_b@ =~= cur_c.update(idx as int, step.contact));
                    assert(tracking_id_state@ =~= cur_s.update(idx as int, step.shadow));
                    assert(*is_btn_down == step.btn);
                }
            } else if !contact.active && sid >= 0 {
                push_ev(&mut events, EV_ABS, ABS_MT_SLOT, idx as i32);
                push_ev(&mut events, EV_ABS, ABS_MT_TRACKING_ID, -1);
                tracking_id_state[idx] = -1;
                let mut cleared = contact;
                cleared.tracking_id = -1;
                self.touch_contacts_b[idx] = cleared;
                proof {
                    assert(events@ =~= ev0 + step.events);
                    assert(self.touch_contacts_b@ =~= cur_c.update(idx as int, step.contact));
                    assert(tracking_id_state@ =~= cur_s.update(idx as int, step.shadow));
                    assert(*is_btn_down == step.btn);
                }
            } else {
                proof {
                    assert(events@ =~= ev0 + step.events);
                    assert(self.touch_contacts_b@ =~= cur_c.update(idx as int, step.contact));
                    assert(tracking_id_state@ =~= cur_s.update(idx as int, step.shadow));
                    assert(*is_btn_down == step.btn);
                }
            }
            proof {
                lemma_dispatch_b_loop_step(c0, s0, b0, cur_c, cur_s, cur_b, ev0, idx as int);
                assert(self@ == (SimState { touch_contacts_b: self.touch_contacts_b@, ..sim0 }));
            }
            idx = idx + 1;
        }

        proof {
            let rest_n = spec_dispatch_slots_b(
                self.touch_contacts_b@,
                tracking_id_state@,
                *is_btn_down,
                n as int,
            );
            assert(rest_n.events =~= Seq::<OutputEvent>::empty());
            let full = spec_dispatch_slots_b(c0, s0, b0, 0);
            assert(full.events =~= events@);
            assert(full.contacts == self.touch_contacts_b@);
            assert(full.shadow == tracking_id_state@);
            assert(full.btn == *is_btn_down);
        }
        if active_slots == 0 && *is_btn_down {
            *is_btn_down = false;
            push_ev(&mut events, EV_KEY, BTN_TOUCH, 0);
        }
        push_ev(&mut events, EV_SYN, SYN_REPORT, 0);
        proof {
            assert(events@ =~= spec_dispatch_b(c0, s0, b0).events);
        }
        events
    }
}

} // verus!

verus! {

/// Stopping twice in a row is safe and only the first stop has observable
/// effect: a second stop finds the session stopped and changes nothing.
pub proof fn lemma_stop_idempotent(s: SimState)
    ensures
        spec_stopped(spec_stopped(s)) == spec_stopped(s),
{
}

/// A move followed immediately by a lift leaves the driver contact's
/// position and tracking id at their inactive sentinels, inactive, and
/// changes no other slot's state in either pool.
pub proof fn lemma_move_then_up_clears_driver(s: SimState, x: i32, y: i32)
    requires
        s.wf(),
        s.touch_start,
    ensures
        ({
            let after = spec_send_touch_up(spec_send_touch_move(s, x, y));
            &&& (s.curr_mode == TypeMode::TypeB ==> {
                &&& after.touch_contacts_b.len() == s.touch_contacts_b.len()
                &&& after.touch_contacts_b[FAKE_CONTACT as int].position_x == -1
                &&& after.touch_contacts_b[FAKE_CONTACT as int].position_y == -1
                &&& after.touch_contacts_b[FAKE_CONTACT as int].tracking_id == -1
                &&& !after.touch_contacts_b[FAKE_CONTACT as int].active
                &&& (forall|i: int|
                    0 <= i < s.touch_contacts_b.len() && i != FAKE_CONTACT
                        ==> after.touch_contacts_b[i] == s.touch_contacts_b[i])
                &&& after.touch_contacts_a == s.touch_contacts_a
            })
            &&& (s.curr_mode != TypeMode::TypeB ==> {
                &&& after.touch_contacts_a.len() == s.touch_contacts_a.len()
                &&& after.touch_contacts_a[FAKE_CONTACT as int].pos_x == -1
                &&& after.touch_contacts_a[FAKE_CONTACT as int].pos_y == -1
                &&& !after.touch_contacts_a[FAKE_CONTACT as int].active
                &&& (forall|i: int|
                    0 <= i < s.touch_contacts_a.len() && i != FAKE_CONTACT
                        ==> after.touch_contacts_a[i] == s.touch_contacts_a[i])
                &&& after.touch_contacts_b == s.touch_contacts_b
            })
        }),
{
}

/// Locates the contiguous block of events that slot `idx` contributes to the
/// per-slot pass starting at slot `i`: its offset in the pass's event
/// sequence, and the touch-key state the pass reaches at that slot.
proof fn lemma_dispatch_slots_b_step_at(
    contacts: Seq<TouchContactB>,
    shadow: Seq<i32>,
    btn: bool,
    i: int,
    idx: int,
) -> (r: (int, bool))
    requires
        shadow.len() == contacts.len(),
        0 <= i <= idx < contacts.len(),
    ensures
        ({
            let d = spec_dispatch_slots_b(contacts, shadow, btn, i);
            let step = spec_slot_step_b(contacts[idx], shadow[idx], idx, r.1);
            &&& 0 <= r.0
            &&& r.0 + step.events.len() <= d.events.len()
            &&& d.events.subrange(r.0, r.0 + step.events.len() as int) == step.events
        }),
    decreases idx - i,
{
    let d = spec_dispatch_slots_b(contacts, shadow, btn, i);
    let step_i = spec_slot_step_b(contacts[i], shadow[i], i, btn);
    if i == idx {
        let step = spec_slot_step_b(contacts[idx], shadow[idx], idx, btn);
        assert(d.events.subrange(0, step.events.len() as int) =~= step.events);
        (0, btn)
    } else {
        let next_c = contacts.update(i, step_i.contact);
        let next_s = shadow.update(i, step_i.shadow);
        let r2 = lemma_dispatch_slots_b_step_at(next_c, next_s, step_i.btn, i + 1, idx);
        let rest = spec_dispatch_slots_b(next_c, next_s, step_i.btn, i + 1);
        let step = spec_slot_step_b(contacts[idx], shadow[idx], idx, r2.1);
        assert(next_c[idx] == contacts[idx]);
        assert(next_s[idx] == shadow[idx]);
        let off = step_i.events.len() as int + r2.0;
        assert(d.events.subrange(off, off + step.events.len() as int) =~= rest.events.subrange(
            r2.0,
            r2.0 + step.events.len() as int,
        ));
        (off, r2.1)
    }
}

/// Protocol-B ordering invariant: for a slot newly activated in this cycle
/// (live, with a tracking id the shadow table has not seen), the emitted
/// sequence holds its tracking-id event before its slot-select event, and
/// the slot-select event before its position events. The returned triple
/// gives the positions of the tracking-id, slot-select and X events in
/// order; the Y event, when the contact holds one, follows directly.
pub proof fn lemma_dispatch_b_new_touch_order(
    contacts: Seq<TouchContactB>,
    shadow: Seq<i32>,
    btn: bool,
    idx: int,
) -> (r: (int, int, int))
    requires
        shadow.len() == contacts.len(),
        0 <= idx < contacts.len(),
        contacts[idx].active,
        contacts[idx].tracking_id >= 0,
        contacts[idx].tracking_id != shadow[idx],
        contacts[idx].position_x >= 0,
    ensures
        ({
            let evs = spec_dispatch_b(contacts, shadow, btn).events;
            &&& 0 <= r.0 < r.1 < r.2 < evs.len()
            &&& evs[r.0] == spec_ev(EV_ABS, ABS_MT_TRACKING_ID, contacts[idx].tracking_id)
            &&& evs[r.1] == spec_ev(EV_ABS, ABS_MT_SLOT, idx as i32)
            &&& evs[r.2] == spec_ev(EV_ABS, ABS_MT_POSITION_X, contacts[idx].position_x)
            &&& contacts[idx].position_y >= 0 ==> r.2 + 1 < evs.len() && evs[r.2 + 1] == spec_ev(
                EV_ABS,
                ABS_MT_POSITION_Y,
                contacts[idx].position_y,
            )
        }),
{
    let w = lemma_dispatch_slots_b_step_at(contacts, shadow, btn, 0, idx);
    let off = w.0;
    let b = w.1;
    let pass = spec_dispatch_slots_b(contacts, shadow, btn, 0);
    let step = spec_slot_step_b(contacts[idx], shadow[idx], idx, b);
    let c = contacts[idx];
    let head_len: int = 1 + if !b {
        1int
    } else {
        0int
    };
    let shape_len: int = (if c.touch_major >= 0 {
        1int
    } else {
        0int
    }) + (if c.touch_minor >= 0 {
        1int
    } else {
        0int
    }) + (if c.pressure >= 0 {
        1int
    } else {
        0int
    });
    assert(step.events[0] == spec_ev(EV_ABS, ABS_MT_TRACKING_ID, c.tracking_id));
    assert(step.events[head_len] == spec_ev(EV_ABS, ABS_MT_SLOT, idx as i32));
    assert(step.events[head_len + 1 + shape_len] == spec_ev(
        EV_ABS,
        ABS_MT_POSITION_X,
        c.position_x,
    ));
    if c.position_y >= 0 {
        assert(step.events[head_len + 1 + shape_len + 1] == spec_ev(
            EV_ABS,
            ABS_MT_POSITION_Y,
            c.position_y,
        ));
    }
    let evs = spec_dispatch_b(contacts, shadow, btn).events;
    assert(evs[off] == step.events[0]);
    assert(evs[off + head_len] == step.events[head_len]);
    assert(evs[off + head_len + 1 + shape_len] == step.events[head_len + 1 + shape_len]);
    if c.position_y >= 0 {
        assert(evs[off + head_len + 1 + shape_len + 1] == step.events[head_len + 1 + shape_len
            + 1]);
    }
    (off, off + head_len, off + head_len + 1 + shape_len)
}

} // verus!

verus! {

/// Why a session cannot start on a device.
#[derive(Debug, Clone, Copy, PartialEq, Eq, Structural)]
pub enum DeviceError {
    /// The device does not declare both the key and absolute event types.
    UnsupportedEventTypes,
}

/// One absolute-axis range setting to apply to the real device.
#[derive(Debug, Clone, Copy, PartialEq, Eq, Structural)]
pub struct AbsParamsRequest {
    pub code: u16,
    pub minimum: i32,
    pub maximum: i32,
    pub fuzz: i32,
    pub flat: i32,
}

/// Shorthand for one range setting with zero fuzz and flat.
pub open spec fn spec_abs_req(code: u16, minimum: i32, maximum: i32) -> AbsParamsRequest {
    AbsParamsRequest { code, minimum, maximum, fuzz: 0i32, flat: 0i32 }
}

/// The per-axis range settings a Protocol-B session applies to its device,
/// one for each shape, orientation or pressure axis the device declares;
/// Protocol-A sessions apply none.
pub open spec fn spec_configure_plan(dev: InputDevice, mode: TypeMode) -> Seq<AbsParamsRequest> {
    if mode == TypeMode::TypeB {
        (if dev.has_touch_major {
            seq![spec_abs_req(ABS_MT_TOUCH_MAJOR, 0i32, 100i32)]
        } else {
            Seq::empty()
        }) + (if dev.has_touch_minor {
            seq![spec_abs_req(ABS_MT_TOUCH_MINOR, 0i32, 100i32)]
        } else {
            Seq::empty()
        }) + (if dev.has_width_major {
            seq![spec_abs_req(ABS_MT_WIDTH_MAJOR, 0i32, 100i32)]
        } else {
            Seq::empty()
        }) + (if dev.has_width_minor {
            seq![spec_abs_req(ABS_MT_WIDTH_MINOR, 0i32, 100i32)]
        } else {
            Seq::empty()
        }) + (if dev.has_orientation {
            seq![spec_abs_req(ABS_MT_ORIENTATION, 0i32, 90i32)]
        } else {
            Seq::empty()
        }) + (if dev.has_pressure {
            seq![spec_abs_req(ABS_MT_PRESSURE, 0i32, 255i32)]
        } else {
            Seq::empty()
        })
    } else {
        Seq::empty()
    }
}

fn push_abs_req(out: &mut Vec<AbsParamsRequest>, code: u16, minimum: i32, maximum: i32)
    ensures
        final(out)@ == old(out)@.push(spec_abs_req(code, minimum, maximum)),
{
    out.push(AbsParamsRequest { code, minimum, maximum, fuzz: 0, flat: 0 });
}

/// Decides whether a real device can carry a session, from its queried
/// event-type bitmap, and plans the per-axis range settings for the mode.
/// Succeeds iff the device declares both the key and absolute event types;
/// the caller then applies each setting and declares the "direct" property,
/// treating individual setting failures as non-fatal.
pub fn configure_real_device(dev: &InputDevice, mode: TypeMode, ev_bits: &[u8]) -> (r: Result<
    Vec<AbsParamsRequest>,
    DeviceError,
>)
    ensures
        (r is Ok) == (crate::bitmap::spec_bit_set(ev_bits@, EV_ABS) && crate::bitmap::spec_bit_set(
            ev_bits@,
            EV_KEY,
        )),
        (match r {
            Ok(plan) => plan@ == spec_configure_plan(*dev, mode),
            Err(e) => e == DeviceError::UnsupportedEventTypes,
        }),
{
    let has_ev_abs = crate::bitmap::has_specific_bit(ev_bits, EV_ABS);
    let has_ev_key = crate::bitmap::has_specific_bit(ev_bits, EV_KEY);
    if !has_ev_abs || !has_ev_key {
        return Err(DeviceError::UnsupportedEventTypes);
    }
    let mut plan: Vec<AbsParamsRequest> = Vec::new();
    if mode == TypeMode::TypeB {
        if dev.has_touch_major {
            push_abs_req(&mut plan, ABS_MT_TOUCH_MAJOR, 0, 100);
        }
        if dev.has_touch_minor {
            push_abs_req(&mut plan, ABS_MT_TOUCH_MINOR, 0, 100);
        }
        if dev.has_width_major {
            push_abs_req(&mut plan, ABS_MT_WIDTH_MAJOR, 0, 100);
        }
        if dev.has_width_minor {
            push_abs_req(&mut plan, ABS_MT_WIDTH_MINOR, 0, 100);
        }
        if dev.has_orientation {
            push_abs_req(&mut plan, ABS_MT_ORIENTATION, 0, 90);
        }
        if dev.has_pressure {
            push_abs_req(&mut plan, ABS_MT_PRESSURE, 0, 255);
        }
    }
    proof {
        assert(plan@ =~= spec_configure_plan(*dev, mode));
    }
    Ok(plan)
}

} // verus!
