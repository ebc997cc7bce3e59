//! What the driver owes the system for each packet: which emissions, in which
//! order, and what it remembers afterwards.

use vstd::prelude::*;

use crate::action::ActionModel;
use crate::input::{
    abs_emission, key_emission, key_emissions, rel_emission, syn_emission, Emission, Key,
    VirtualDevice, ABS_PRESSURE, ABS_X, ABS_Y, BTN_TOOL_PEN, BTN_TOUCH, KEY_LEFTCTRL, KEY_V, KEY_Z,
    REL_WHEEL,
};
use crate::outbox::OutboxModel;
use crate::packet::{
    is_down, packet_pen_button, packet_pressure, packet_tablet_buttons, packet_x, packet_y,
};

verus! {

/// Value of a key that goes down.
pub const PRESSED: i32 = 1;

/// Value of a key that goes up.
pub const RELEASED: i32 = 0;

/// Value of a key that stays down.
pub const HOLD: i32 = 2;

/// The pen starts to touch below this raw pressure.
pub const PRESS_TOUCH_THRESHOLD: i32 = 1600;

/// The pen stops touching at this raw pressure.
pub const PRESS_RELEASE_THRESHOLD: i32 = 1620;

/// Raw pressure at which the output is full.
pub const PRESS_RAW_MIN: i32 = 933;

/// Forces up to this one count as none.
pub const PRESS_DEADBAND: i32 = 8;

/// Full output pressure.
pub const PRESS_OUT_MAX: i32 = 5000;

/// The far end of the position axes.
pub const AXIS_MAX: i32 = 4096;

/// How long, in milliseconds, the pen stays in range without a sign of it.
pub const PROXIMITY_TIMEOUT_MS: u128 = 600;

/// Nanoseconds in a millisecond.
pub const NANOS_PER_MS: u128 = 1_000_000;

/// Barrel button that pastes.
pub const PEN_BUTTON_PLUS: u8 = 4;

/// Barrel button that undoes.
pub const PEN_BUTTON_MINUS: u8 = 6;

/// One past the last tablet control that is scanned.
pub const TABLET_BUTTON_END: u8 = 14;

/// The two readings of a monotonic clock that belong to a packet, in
/// nanoseconds: when it came in, and when the pen's proximity was looked at.
#[derive(Clone, Copy, PartialEq, Eq, Structural, Debug)]
pub struct PacketClock {
    pub arrived_at: u128,
    pub checked_at: u128,
}

/// What the driver remembers from one packet to the next.
#[derive(Clone, Copy, PartialEq, Eq, Structural, Debug)]
pub struct Memory {
    /// Tablet buttons of the last packet, low where pressed.
    pub tablet_last_raw_pressed_buttons: u16,
    /// Barrel button of the last packet.
    pub pen_last_raw_pressed_button: u8,
    /// Whether the pen touches the surface.
    pub was_touching: bool,
    /// Whether the pen is in range.
    pub was_in_range: bool,
    /// When the pen last gave a sign of itself.
    pub last_pen_packet_at: Option<u128>,
    /// Position of the last packet, after rotation.
    pub last_x: i32,
    pub last_y: i32,
    /// Output pressure of the last packet.
    pub last_pressure: i32,
    /// Whether there is a last position at all.
    pub have_last_xy: bool,
    /// Which way the next nudge of a resting pen goes.
    pub hover_jitter_toggle: bool,
}

/// What a dispatcher stands for: the bindings of the controls, and the memory.
pub struct DispatcherModel {
    pub tablet_map: Map<u8, ActionModel>,
    pub pen_map: Map<u8, Seq<Key>>,
    pub memory: Memory,
}

/// The bindings of the tablet's controls: the scroll wheel's two directions,
/// one plain notch each.
pub open spec fn default_tablet_model() -> Map<u8, ActionModel> {
    Map::<u8, ActionModel>::empty().insert(
        8,
        ActionModel::Wheel { modifiers: Seq::empty(), delta: 1 },
    ).insert(5, ActionModel::Wheel { modifiers: Seq::empty(), delta: -1i32 })
}

/// The bindings of the barrel buttons: paste and undo.
pub open spec fn default_pen_model() -> Map<u8, Seq<Key>> {
    Map::<u8, Seq<Key>>::empty().insert(
        PEN_BUTTON_PLUS,
        seq![Key(KEY_LEFTCTRL), Key(KEY_V)],
    ).insert(PEN_BUTTON_MINUS, seq![Key(KEY_LEFTCTRL), Key(KEY_Z)])
}

/// The memory before the first packet: no control is pressed, and there is no
/// pen.
pub open spec fn fresh_memory() -> Memory {
    Memory {
        tablet_last_raw_pressed_buttons: 0xffff,
        pen_last_raw_pressed_button: 0,
        was_touching: false,
        was_in_range: false,
        last_pen_packet_at: None,
        last_x: 0,
        last_y: 0,
        last_pressure: -1i32,
        have_last_xy: false,
        hover_jitter_toggle: false,
    }
}

// ---------------------------------------------------------------------------
// Tablet controls
// ---------------------------------------------------------------------------

/// The key value that belongs to a control's change, if there is one: pressed,
/// released, or held. A control that stays up has none.
pub open spec fn key_state(was_pressed: bool, is_pressed: bool) -> Option<i32> {
    if is_pressed && !was_pressed {
        Some(PRESSED)
    } else if was_pressed && !is_pressed {
        Some(RELEASED)
    } else if was_pressed && is_pressed {
        Some(HOLD)
    } else {
        None
    }
}

/// A chord on the keyboard: every key takes the value, in order, in one frame.
pub open spec fn chord_run(keys: Seq<Key>, value: i32) -> Seq<Emission> {
    key_emissions(VirtualDevice::Keyboard, keys, value) + seq![
        syn_emission(VirtualDevice::Keyboard),
    ]
}

/// One wheel notch in a frame of its own.
pub open spec fn notch_run(delta: i32) -> Seq<Emission> {
    seq![
        rel_emission(VirtualDevice::Pointer, REL_WHEEL, delta),
        syn_emission(VirtualDevice::Pointer),
    ]
}

/// A frame in which the wheel's modifiers take a value. Without modifiers
/// there is no such frame.
pub open spec fn modifier_run(modifiers: Seq<Key>, value: i32) -> Seq<Emission> {
    if modifiers.len() == 0 {
        Seq::empty()
    } else {
        key_emissions(VirtualDevice::Pointer, modifiers, value) + seq![
            syn_emission(VirtualDevice::Pointer),
        ]
    }
}

/// One wheel notch with the modifiers held around it: pressed in order before,
/// released in reverse order after, all on the pointer.
pub open spec fn wheel_run(modifiers: Seq<Key>, delta: i32) -> Seq<Emission> {
    modifier_run(modifiers, PRESSED) + notch_run(delta) + modifier_run(
        modifiers.reverse(),
        RELEASED,
    )
}

/// What an action emits for a key value: a chord follows the control all the
/// way, a wheel notch comes once, when the control is pressed.
pub open spec fn action_run(action: ActionModel, state: i32) -> Seq<Emission> {
    match action {
        ActionModel::Keys(keys) => chord_run(keys, state),
        ActionModel::Wheel { modifiers, delta } => if state == PRESSED {
            wheel_run(modifiers, delta)
        } else {
            Seq::empty()
        },
    }
}

/// What one tablet control emits, given the button words before and now.
/// Controls without a binding emit nothing.
pub open spec fn tablet_key_run(
    map: Map<u8, ActionModel>,
    before: u16,
    now: u16,
    id: u8,
) -> Seq<Emission> {
    match key_state(is_down(before, id), is_down(now, id)) {
        Some(state) => if map.contains_key(id) {
            action_run(map[id], state)
        } else {
            Seq::empty()
        },
        None => Seq::empty(),
    }
}

/// Whether a bit of the button word is scanned at all.
pub open spec fn is_scanned(id: int) -> bool {
    0 <= id < TABLET_BUTTON_END && id != 10 && id != 11
}

/// What the tablet controls below `end` emit, from the lowest bit up.
pub open spec fn tablet_run(
    map: Map<u8, ActionModel>,
    before: u16,
    now: u16,
    end: nat,
) -> Seq<Emission>
    decreases end,
{
    if end == 0 {
        Seq::empty()
    } else {
        let lower = tablet_run(map, before, now, (end - 1) as nat);
        if is_scanned(end - 1) {
            lower + tablet_key_run(map, before, now, (end - 1) as u8)
        } else {
            lower
        }
    }
}

// ---------------------------------------------------------------------------
// The pen
// ---------------------------------------------------------------------------

/// A chord that is pressed and released again at once, in reverse order.
pub open spec fn pulse_run(keys: Seq<Key>) -> Seq<Emission> {
    chord_run(keys, PRESSED) + chord_run(keys.reverse(), RELEASED)
}

/// Whether a barrel button has just been pressed: its code is there and was not
/// before. Which other code was there does not matter, be it that of a pen
/// without a pressed button, of no pen, or of the other button.
pub open spec fn barrel_pressed(before: u8, now: u8) -> bool {
    before != now && (now == PEN_BUTTON_PLUS || now == PEN_BUTTON_MINUS)
}

/// What the barrel buttons emit: one pulse of the bound chord per press.
pub open spec fn pen_button_run(map: Map<u8, Seq<Key>>, before: u8, now: u8) -> Seq<Emission> {
    if barrel_pressed(before, now) && map.contains_key(now) {
        pulse_run(map[now])
    } else {
        Seq::empty()
    }
}

/// What the pen emits for a button that is down or up: only the changes.
pub open spec fn change_run(button: u16, before: bool, now: bool) -> Seq<Emission> {
    if now && !before {
        seq![key_emission(VirtualDevice::Pen, Key(button), PRESSED)]
    } else if before && !now {
        seq![key_emission(VirtualDevice::Pen, Key(button), RELEASED)]
    } else {
        Seq::empty()
    }
}

/// When the pen last gave a sign of itself, once a packet has come in: a
/// packet with any pressure reading is such a sign.
pub open spec fn last_sign(memory: Memory, pressure: int, clock: PacketClock) -> Option<u128> {
    if pressure > 0 {
        Some(clock.arrived_at)
    } else {
        memory.last_pen_packet_at
    }
}

/// Whole milliseconds from one reading of the clock to a later one; none if
/// the second is not later.
pub open spec fn elapsed_ms(from: u128, to: u128) -> int {
    if to <= from {
        0
    } else {
        (to - from) / 1_000_000
    }
}

/// Whether a pen that last gave a sign of itself at `sign` counts as in range.
pub open spec fn in_range(sign: Option<u128>, checked_at: u128) -> bool {
    match sign {
        Some(at) => elapsed_ms(at, checked_at) < PROXIMITY_TIMEOUT_MS,
        None => false,
    }
}

/// What the pen's proximity emits.
pub open spec fn proximity_run(memory: Memory, pressure: int, clock: PacketClock) -> Seq<Emission> {
    change_run(
        BTN_TOOL_PEN,
        memory.was_in_range,
        in_range(last_sign(memory, pressure, clock), clock.checked_at),
    )
}

/// The output pressure for a raw one: the force is what the reading falls
/// short of the touch threshold, scaled from the deadband's end up to full.
pub open spec fn output_pressure(raw: int) -> int {
    let range = PRESS_TOUCH_THRESHOLD - PRESS_RAW_MIN;
    let force = PRESS_TOUCH_THRESHOLD - raw;
    if force <= PRESS_DEADBAND {
        0
    } else if force >= range {
        PRESS_OUT_MAX as int
    } else {
        (force * PRESS_OUT_MAX) / range
    }
}

/// A position turned by half a turn.
pub open spec fn rotated(raw: int) -> int {
    AXIS_MAX - raw
}

/// Whether the pen hovers where it was: its position has to be nudged, or the
/// system takes it for stale and hides the cursor.
pub open spec fn needs_nudge(memory: Memory, x: int, y: int) -> bool {
    memory.have_last_xy && x == memory.last_x && y == memory.last_y && !memory.was_touching
}

/// Which way the next nudge goes, once a position has been looked at.
pub open spec fn toggled(memory: Memory, x: int, y: int) -> bool {
    if needs_nudge(memory, x, y) {
        !memory.hover_jitter_toggle
    } else {
        memory.hover_jitter_toggle
    }
}

/// The horizontal position that is emitted: every other nudge moves it by one.
pub open spec fn nudged_x(memory: Memory, x: int, y: int) -> int {
    if needs_nudge(memory, x, y) && toggled(memory, x, y) {
        x + 1
    } else {
        x
    }
}

/// What the pen's position and pressure emit, for rotated coordinates.
pub open spec fn position_run(memory: Memory, x: int, y: int, pressure: int) -> Seq<Emission> {
    seq![
        abs_emission(VirtualDevice::Pen, ABS_X, nudged_x(memory, x, y) as i32),
        abs_emission(VirtualDevice::Pen, ABS_Y, y as i32),
        abs_emission(VirtualDevice::Pen, ABS_PRESSURE, pressure as i32),
    ]
}

/// Whether the pen touches: a touch starts below one threshold and lasts until
/// a higher one.
pub open spec fn touching(was_touching: bool, pressure: int) -> bool {
    if was_touching {
        pressure < PRESS_RELEASE_THRESHOLD
    } else {
        pressure < PRESS_TOUCH_THRESHOLD
    }
}

/// What the pen's touch emits.
pub open spec fn touch_run(memory: Memory, pressure: int) -> Seq<Emission> {
    change_run(BTN_TOUCH, memory.was_touching, touching(memory.was_touching, pressure))
}

// ---------------------------------------------------------------------------
// Whole packets
// ---------------------------------------------------------------------------

/// Everything that a packet emits for the pen.
pub open spec fn pen_run(model: DispatcherModel, data: Seq<u8>, clock: PacketClock) -> Seq<Emission> {
    pen_button_run(
        model.pen_map,
        model.memory.pen_last_raw_pressed_button,
        packet_pen_button(data),
    ) + proximity_run(model.memory, packet_pressure(data), clock) + position_run(
        model.memory,
        rotated(packet_x(data)),
        rotated(packet_y(data)),
        output_pressure(packet_pressure(data)),
    ) + touch_run(model.memory, packet_pressure(data))
}

/// Everything that a packet emits for the tablet's controls.
pub open spec fn controls_run(model: DispatcherModel, data: Seq<u8>) -> Seq<Emission> {
    tablet_run(
        model.tablet_map,
        model.memory.tablet_last_raw_pressed_buttons,
        packet_tablet_buttons(data),
        TABLET_BUTTON_END as nat,
    )
}

/// Everything that a packet emits, in order.
pub open spec fn dispatch_run(
    model: DispatcherModel,
    data: Seq<u8>,
    clock: PacketClock,
) -> Seq<Emission> {
    pen_run(model, data, clock) + controls_run(model, data)
}

/// The memory once the barrel buttons were handled.
pub open spec fn after_pen_buttons(memory: Memory, data: Seq<u8>) -> Memory {
    Memory { pen_last_raw_pressed_button: packet_pen_button(data), ..memory }
}

/// The memory once the pen's sign was noted.
pub open spec fn after_sign(memory: Memory, pressure: int, clock: PacketClock) -> Memory {
    Memory { last_pen_packet_at: last_sign(memory, pressure, clock), ..memory }
}

/// The memory once the pen's proximity was handled.
pub open spec fn after_proximity(memory: Memory, pressure: int, clock: PacketClock) -> Memory {
    Memory {
        was_in_range: in_range(last_sign(memory, pressure, clock), clock.checked_at),
        ..after_sign(memory, pressure, clock)
    }
}

/// The memory once the nudge of a position was decided.
pub open spec fn after_nudge(memory: Memory, x: int, y: int) -> Memory {
    Memory { hover_jitter_toggle: toggled(memory, x, y), ..memory }
}

/// The memory once the pen's position was handled.
pub open spec fn after_position(memory: Memory, x: int, y: int, pressure: int) -> Memory {
    Memory {
        last_x: x as i32,
        last_y: y as i32,
        last_pressure: pressure as i32,
        have_last_xy: true,
        ..after_nudge(memory, x, y)
    }
}

/// The memory once the pen's touch was handled.
pub open spec fn after_touch(memory: Memory, pressure: int) -> Memory {
    Memory { was_touching: touching(memory.was_touching, pressure), ..memory }
}

/// The memory once the tablet's controls were handled.
pub open spec fn after_controls(memory: Memory, data: Seq<u8>) -> Memory {
    Memory { tablet_last_raw_pressed_buttons: packet_tablet_buttons(data), ..memory }
}

/// The memory after a packet's pen readings, given the outbox before them. A
/// refusal stops the work: what had been handled before it is remembered, and
/// so are the pen's sign and the nudge that were decided before emitting.
pub open spec fn memory_after_pen(
    model: DispatcherModel,
    data: Seq<u8>,
    clock: PacketClock,
    outbox: OutboxModel,
) -> Memory {
    let pressure = packet_pressure(data);
    let x = rotated(packet_x(data));
    let y = rotated(packet_y(data));
    let out_pressure = output_pressure(pressure);
    let m0 = model.memory;
    let run1 = pen_button_run(model.pen_map, m0.pen_last_raw_pressed_button, packet_pen_button(data));
    let m1 = after_pen_buttons(m0, data);
    let run2 = run1 + proximity_run(m0, pressure, clock);
    let m2 = after_proximity(m1, pressure, clock);
    let run3 = run2 + position_run(m0, x, y, out_pressure);
    let m3 = after_position(m2, x, y, out_pressure);
    let run4 = run3 + touch_run(m0, pressure);
    if !outbox.accepts(run1) {
        m0
    } else if !outbox.accepts(run2) {
        after_sign(m1, pressure, clock)
    } else if !outbox.accepts(run3) {
        after_nudge(m2, x, y)
    } else if !outbox.accepts(run4) {
        m3
    } else {
        after_touch(m3, pressure)
    }
}

/// The memory after a packet, given the outbox before it.
pub open spec fn memory_after_dispatch(
    model: DispatcherModel,
    data: Seq<u8>,
    clock: PacketClock,
    outbox: OutboxModel,
) -> Memory {
    let memory = memory_after_pen(model, data, clock, outbox);
    if outbox.accepts(dispatch_run(model, data, clock)) {
        after_controls(memory, data)
    } else {
        memory
    }
}

/// What a synchronization of all devices emits.
pub open spec fn syn_run() -> Seq<Emission> {
    seq![
        syn_emission(VirtualDevice::Keyboard),
        syn_emission(VirtualDevice::Pen),
        syn_emission(VirtualDevice::Pointer),
    ]
}

} // verus!
