//! The vocabulary of the Linux input subsystem that the driver speaks: key
//! codes, axes, single events, and which virtual device an event is meant for.

use vstd::prelude::*;

verus! {

/// Code of the end-of-frame marker among the synchronization events.
pub const SYN_REPORT: u16 = 0;

/// Relative axis of the horizontal wheel.
pub const REL_HWHEEL: u16 = 0x06;

/// Relative axis of the vertical wheel.
pub const REL_WHEEL: u16 = 0x08;

/// Absolute horizontal axis.
pub const ABS_X: u16 = 0x00;

/// Absolute vertical axis.
pub const ABS_Y: u16 = 0x01;

/// Absolute axis of the pen's pressure.
pub const ABS_PRESSURE: u16 = 0x18;

/// Left control key.
pub const KEY_LEFTCTRL: u16 = 29;

/// The letter Z.
pub const KEY_Z: u16 = 44;

/// The letter V.
pub const KEY_V: u16 = 47;

/// Left mouse button.
pub const BTN_LEFT: u16 = 0x110;

/// Right mouse button.
pub const BTN_RIGHT: u16 = 0x111;

/// "A pen is in range."
pub const BTN_TOOL_PEN: u16 = 0x140;

/// "The pen touches the surface."
pub const BTN_TOUCH: u16 = 0x14a;

/// How many key codes a device can advertise: the codes below this number.
pub const KEY_CNT: u16 = 0x300;

/// How many relative axes a device can advertise: the codes below this number.
pub const REL_CNT: u16 = 0x10;

/// A key or button, by its code.
#[derive(Clone, Copy, PartialEq, Eq, Structural, Debug)]
pub struct Key(pub u16);

impl Key {
    /// The key with the given code.
    pub fn new(code: u16) -> (key: Key)
        ensures
            key == Key(code),
    {
        Key(code)
    }

    /// The code of this key.
    pub fn code(self) -> (code: u16)
        ensures
            code == self.0,
    {
        self.0
    }
}

/// The class of an event.
#[derive(Clone, Copy, PartialEq, Eq, Structural, Debug)]
pub enum EventType {
    /// Frame markers.
    Synchronization,
    /// Keys and buttons.
    Key,
    /// Relative axes, such as a wheel.
    Relative,
    /// Absolute axes, such as a pen's position.
    Absolute,
}

/// One event: its class, what it is about, and the new value.
#[derive(Clone, Copy, PartialEq, Eq, Structural, Debug)]
pub struct InputEvent {
    pub event_type: EventType,
    pub code: u16,
    pub value: i32,
}

impl InputEvent {
    /// The event with the given class, code and value.
    pub fn new(event_type: EventType, code: u16, value: i32) -> (event: InputEvent)
        ensures
            event == (InputEvent { event_type, code, value }),
    {
        InputEvent { event_type, code, value }
    }
}

/// The virtual devices that the driver offers to the system.
#[derive(Clone, Copy, PartialEq, Eq, Structural, Debug)]
pub enum VirtualDevice {
    /// Position, pressure and proximity of the pen.
    Pen,
    /// Keyboard chords.
    Keyboard,
    /// The scroll wheel.
    Pointer,
}

/// One event on its way to one virtual device.
#[derive(Clone, Copy, PartialEq, Eq, Structural, Debug)]
pub struct Emission {
    pub device: VirtualDevice,
    pub event: InputEvent,
}

/// The emission of a key's new value on a device.
pub open spec fn key_emission(device: VirtualDevice, key: Key, value: i32) -> Emission {
    Emission { device, event: InputEvent { event_type: EventType::Key, code: key.0, value } }
}

/// The emission that ends a frame on a device.
pub open spec fn syn_emission(device: VirtualDevice) -> Emission {
    Emission {
        device,
        event: InputEvent { event_type: EventType::Synchronization, code: SYN_REPORT, value: 0 },
    }
}

/// The emission of a step on a relative axis.
pub open spec fn rel_emission(device: VirtualDevice, axis: u16, value: i32) -> Emission {
    Emission { device, event: InputEvent { event_type: EventType::Relative, code: axis, value } }
}

/// The emission of a new value of an absolute axis.
pub open spec fn abs_emission(device: VirtualDevice, axis: u16, value: i32) -> Emission {
    Emission { device, event: InputEvent { event_type: EventType::Absolute, code: axis, value } }
}

/// One value for each of a run of keys, in their order.
pub open spec fn key_emissions(device: VirtualDevice, keys: Seq<Key>, value: i32) -> Seq<Emission> {
    keys.map_values(|key: Key| key_emission(device, key, value))
}

} // verus!
