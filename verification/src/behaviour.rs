//! What the driver does, in the terms of those on its two sides: bytes of the
//! tablet in, codes and values of the system out, and nothing of the driver's
//! own making in between.

use vstd::prelude::*;

use crate::action::ActionModel;
use crate::dispatcher::DeviceDispatcher;
use crate::input::{Emission, EventType, Key, VirtualDevice};
use crate::laws::law_controls_come_in_order;
use crate::model::{
    after_nudge, after_position, after_proximity, after_sign, after_touch, controls_run,
    dispatch_run, in_range, memory_after_dispatch, output_pressure, pen_button_run,
    pen_run, position_run, proximity_run, rotated, syn_run, tablet_key_run, tablet_run, touch_run,
    touching, DispatcherModel, Memory, PacketClock, TABLET_BUTTON_END,
};
use crate::outbox::OutboxModel;
use crate::packet::{
    is_down, law_readings_are_big_endian, packet_pen_button, packet_pressure,
    packet_tablet_buttons, packet_x, packet_y,
};
use crate::setup::{law_devices_have_what_is_bound, DeviceSetup};

verus! {

/// Whether an emission is this very event on this very device.
pub open spec fn says(
    emission: Emission,
    device: VirtualDevice,
    event_type: EventType,
    code: int,
    value: int,
) -> bool {
    &&& emission.device == device
    &&& emission.event.event_type == event_type
    &&& emission.event.code == code
    &&& emission.event.value == value
}

/// Whether an emission ends a frame on a device.
pub open spec fn ends_frame(emission: Emission, device: VirtualDevice) -> bool {
    says(emission, device, EventType::Synchronization, 0, 0)
}

// ---------------------------------------------------------------------------
// The pen
// ---------------------------------------------------------------------------

/// The pen's position comes out turned by half a turn on both axes, whether it
/// hovers or draws, rests or moves: a raw coordinate and the emitted one add up
/// to the length of the axis. Only a pen that hovers where it was is emitted one
/// unit further along the first axis, every other time. The pressure comes out
/// as it is handed in.
pub proof fn law_position_is_turned_by_half(memory: Memory, raw_x: int, raw_y: int, pressure: int)
    requires
        i32::MIN <= 4096 - raw_x <= i32::MAX,
        i32::MIN <= 4096 - raw_y <= i32::MAX,
        i32::MIN <= pressure <= i32::MAX,
    ensures
        ({
            let run = position_run(memory, rotated(raw_x), rotated(raw_y), pressure);
            let rests = memory.have_last_xy && !memory.was_touching && raw_x + memory.last_x == 4096
                && raw_y + memory.last_y == 4096;
            let nudge: int = if rests && !memory.hover_jitter_toggle {
                1
            } else {
                0
            };
            &&& run.len() == 3
            &&& 4096 - raw_x + nudge <= i32::MAX ==> says(
                run[0],
                VirtualDevice::Pen,
                EventType::Absolute,
                0,
                4096 - raw_x + nudge,
            )
            &&& says(run[1], VirtualDevice::Pen, EventType::Absolute, 1, 4096 - raw_y)
            &&& says(run[2], VirtualDevice::Pen, EventType::Absolute, 0x18, pressure)
        }),
{
}

/// What is remembered of a position is the turned one, without the nudge. Of a
/// position that was refused nothing is, but whether it called for a nudge.
pub proof fn law_position_is_remembered(memory: Memory, raw_x: int, raw_y: int, pressure: int)
    requires
        i32::MIN <= 4096 - raw_x <= i32::MAX,
        i32::MIN <= 4096 - raw_y <= i32::MAX,
        i32::MIN <= pressure <= i32::MAX,
    ensures
        ({
            let rests = memory.have_last_xy && !memory.was_touching && raw_x + memory.last_x == 4096
                && raw_y + memory.last_y == 4096;
            let after = after_position(memory, rotated(raw_x), rotated(raw_y), pressure);
            let refused = after_nudge(memory, rotated(raw_x), rotated(raw_y));
            &&& after.last_x + raw_x == 4096
            &&& after.last_y + raw_y == 4096
            &&& after.last_pressure == pressure
            &&& after.have_last_xy
            &&& after.hover_jitter_toggle == (memory.hover_jitter_toggle != rests)
            &&& refused.hover_jitter_toggle == (memory.hover_jitter_toggle != rests)
            &&& after == (Memory {
                last_x: after.last_x,
                last_y: after.last_y,
                last_pressure: after.last_pressure,
                have_last_xy: true,
                hover_jitter_toggle: after.hover_jitter_toggle,
                ..memory
            })
            &&& refused == (Memory {
                hover_jitter_toggle: refused.hover_jitter_toggle,
                ..memory
            })
        }),
{
}

/// A pen is in range exactly for the six hundred milliseconds, of a million
/// nanoseconds each, that follow its last sign. Without a sign it is not.
pub proof fn law_range_lasts_as_long_as_the_timeout(sign: u128, checked_at: u128)
    ensures
        in_range(Some(sign), checked_at) <==> checked_at < sign + 600 * 1_000_000,
        !in_range(None, checked_at),
{
    if sign < checked_at {
        let passed = checked_at - sign;
        assert(passed / 1_000_000 < 600 <==> passed < 600 * 1_000_000);
    }
}

/// The pen comes into range with a sign of it, leaves it when the timeout has
/// run out, and the system is told of each change and of nothing else. A packet
/// is a sign if it has any pressure, and it counts from when it came in.
pub proof fn law_proximity_follows_the_signs(memory: Memory, pressure: int, clock: PacketClock)
    ensures
        ({
            let run = proximity_run(memory, pressure, clock);
            let sign = if pressure > 0 {
                Some(clock.arrived_at)
            } else {
                memory.last_pen_packet_at
            };
            let near = match sign {
                Some(at) => clock.checked_at < at + 600 * 1_000_000,
                None => false,
            };
            &&& near == memory.was_in_range ==> run.len() == 0
            &&& near && !memory.was_in_range ==> run.len() == 1 && says(
                run[0],
                VirtualDevice::Pen,
                EventType::Key,
                0x140,
                1,
            )
            &&& !near && memory.was_in_range ==> run.len() == 1 && says(
                run[0],
                VirtualDevice::Pen,
                EventType::Key,
                0x140,
                0,
            )
            &&& after_sign(memory, pressure, clock) == (Memory {
                last_pen_packet_at: sign,
                ..memory
            })
            &&& after_proximity(memory, pressure, clock) == (Memory {
                last_pen_packet_at: sign,
                was_in_range: near,
                ..memory
            })
        }),
{
    match memory.last_pen_packet_at {
        Some(at) => law_range_lasts_as_long_as_the_timeout(at, clock.checked_at),
        None => {},
    }
    law_range_lasts_as_long_as_the_timeout(clock.arrived_at, clock.checked_at);
}

/// Any reading below 1600 is a touch, any from 1620 on is none, and in between
/// it stays as it was.
pub proof fn law_touch_follows_the_pressure(was_touching: bool, raw: int)
    ensures
        raw < 1600 ==> touching(was_touching, raw),
        raw >= 1620 ==> !touching(was_touching, raw),
        1600 <= raw < 1620 ==> touching(was_touching, raw) == was_touching,
{
}

/// The system is told when a touch begins and when it ends, and of nothing else,
/// and that is all that is remembered.
pub proof fn law_touch_is_told_as_it_changes(memory: Memory, raw: int)
    ensures
        ({
            let run = touch_run(memory, raw);
            let begins = !memory.was_touching && raw < 1600;
            let ends = memory.was_touching && raw >= 1620;
            &&& begins ==> run.len() == 1 && says(
                run[0],
                VirtualDevice::Pen,
                EventType::Key,
                0x14a,
                1,
            )
            &&& ends ==> run.len() == 1 && says(
                run[0],
                VirtualDevice::Pen,
                EventType::Key,
                0x14a,
                0,
            )
            &&& !begins && !ends ==> run.len() == 0
            &&& after_touch(memory, raw) == (Memory {
                was_touching: (memory.was_touching || begins) && !ends,
                ..memory
            })
        }),
{
}

/// The output pressure is proportional to what the reading falls short of 1600:
/// 5000 for 667 units and for all beyond them, whole numbers rounded down, and
/// none at all up to eight units.
pub proof fn law_output_pressure_is_proportional(raw: int)
    ensures
        raw >= 1592 ==> output_pressure(raw) == 0,
        raw <= 933 ==> output_pressure(raw) == 5000,
        933 < raw < 1592 ==> output_pressure(raw) * 667 <= (1600 - raw) * 5000 < (output_pressure(
            raw,
        ) + 1) * 667,
{
    if 933 < raw < 1592 {
        let scaled = (1600 - raw) * 5000;
        assert(output_pressure(raw) == scaled / 667);
        assert(scaled / 667 * 667 <= scaled < (scaled / 667 + 1) * 667);
    }
}

/// A barrel button fires when its code, 4 or 6, is there and was not before. It
/// then presses every key of its chord in order, ends the frame, releases them
/// in reverse, and ends the frame: all on the keyboard. Otherwise nothing comes.
pub proof fn law_barrel_button_sends_its_chord(map: Map<u8, Seq<Key>>, before: u8, now: u8)
    ensures
        ({
            let run = pen_button_run(map, before, now);
            let fires = before != now && (now == 4 || now == 6) && map.contains_key(now);
            let keys = map[now];
            let n = keys.len() as int;
            &&& !fires ==> run.len() == 0
            &&& fires ==> {
                &&& run.len() == 2 * n + 2
                &&& forall|k: int|
                    0 <= k < n ==> says(
                        #[trigger] run[k],
                        VirtualDevice::Keyboard,
                        EventType::Key,
                        keys[k].0 as int,
                        1,
                    )
                &&& ends_frame(run[n], VirtualDevice::Keyboard)
                &&& forall|k: int|
                    n < k <= 2 * n ==> says(
                        #[trigger] run[k],
                        VirtualDevice::Keyboard,
                        EventType::Key,
                        keys[2 * n - k].0 as int,
                        0,
                    )
                &&& ends_frame(run[2 * n + 1], VirtualDevice::Keyboard)
            }
        }),
{
}

// ---------------------------------------------------------------------------
// Tablet controls
// ---------------------------------------------------------------------------

/// A control that is bound to a chord takes its keys along on the keyboard: down
/// with it, up with it, and repeated while it is held, in order and in one frame.
pub proof fn law_control_takes_its_chord_along(
    map: Map<u8, ActionModel>,
    before: u16,
    now: u16,
    id: u8,
    keys: Seq<Key>,
)
    requires
        map.contains_key(id),
        map[id] == ActionModel::Keys(keys),
    ensures
        ({
            let run = tablet_key_run(map, before, now, id);
            let value: int = if !is_down(now, id) {
                0
            } else if !is_down(before, id) {
                1
            } else {
                2
            };
            &&& !is_down(before, id) && !is_down(now, id) ==> run.len() == 0
            &&& is_down(before, id) || is_down(now, id) ==> {
                &&& run.len() == keys.len() + 1
                &&& forall|k: int|
                    0 <= k < keys.len() ==> says(
                        #[trigger] run[k],
                        VirtualDevice::Keyboard,
                        EventType::Key,
                        keys[k].0 as int,
                        value,
                    )
                &&& ends_frame(run[keys.len() as int], VirtualDevice::Keyboard)
            }
        }),
{
}

/// A control that is bound to the wheel sends one notch when it goes down, and
/// nothing else at any time. Its modifiers, if it has any, go down in order in a
/// frame before the notch, and up in reverse in a frame after it: all on the
/// pointer.
pub proof fn law_control_turns_the_wheel(
    map: Map<u8, ActionModel>,
    before: u16,
    now: u16,
    id: u8,
    modifiers: Seq<Key>,
    delta: i32,
)
    requires
        map.contains_key(id),
        map[id] == (ActionModel::Wheel { modifiers, delta }),
    ensures
        ({
            let run = tablet_key_run(map, before, now, id);
            let goes_down = !is_down(before, id) && is_down(now, id);
            let n = modifiers.len() as int;
            &&& !goes_down ==> run.len() == 0
            &&& goes_down && n == 0 ==> {
                &&& run.len() == 2
                &&& says(run[0], VirtualDevice::Pointer, EventType::Relative, 8, delta as int)
                &&& ends_frame(run[1], VirtualDevice::Pointer)
            }
            &&& goes_down && n > 0 ==> {
                &&& run.len() == 2 * n + 4
                &&& forall|k: int|
                    0 <= k < n ==> says(
                        #[trigger] run[k],
                        VirtualDevice::Pointer,
                        EventType::Key,
                        modifiers[k].0 as int,
                        1,
                    )
                &&& ends_frame(run[n], VirtualDevice::Pointer)
                &&& says(run[n + 1], VirtualDevice::Pointer, EventType::Relative, 8, delta as int)
                &&& ends_frame(run[n + 2], VirtualDevice::Pointer)
                &&& forall|k: int|
                    n + 3 <= k < 2 * n + 3 ==> says(
                        #[trigger] run[k],
                        VirtualDevice::Pointer,
                        EventType::Key,
                        modifiers[2 * n + 2 - k].0 as int,
                        0,
                    )
                &&& ends_frame(run[2 * n + 3], VirtualDevice::Pointer)
            }
        }),
{
}

/// The controls speak one after the other, from the lowest bit up: the first
/// ten, and the two after the next two. No other ever does, nor one without a
/// binding.
pub proof fn law_twelve_controls_speak_in_turn(map: Map<u8, ActionModel>, before: u16, now: u16)
    ensures
        tablet_run(map, before, now, 14) == seq![
            tablet_key_run(map, before, now, 0),
            tablet_key_run(map, before, now, 1),
            tablet_key_run(map, before, now, 2),
            tablet_key_run(map, before, now, 3),
            tablet_key_run(map, before, now, 4),
            tablet_key_run(map, before, now, 5),
            tablet_key_run(map, before, now, 6),
            tablet_key_run(map, before, now, 7),
            tablet_key_run(map, before, now, 8),
            tablet_key_run(map, before, now, 9),
            tablet_key_run(map, before, now, 12),
            tablet_key_run(map, before, now, 13),
        ].flatten(),
        TABLET_BUTTON_END == 14,
        forall|id: u8|
            !map.contains_key(id) ==> (#[trigger] tablet_key_run(map, before, now, id)).len() == 0,
{
    law_controls_come_in_order(map, before, now);
    let by_name = seq![0u8, 1, 2, 3, 4, 5, 6, 7, 8, 9, 12, 13].map_values(
        |id: u8| tablet_key_run(map, before, now, id),
    );
    let listed = seq![
        tablet_key_run(map, before, now, 0),
        tablet_key_run(map, before, now, 1),
        tablet_key_run(map, before, now, 2),
        tablet_key_run(map, before, now, 3),
        tablet_key_run(map, before, now, 4),
        tablet_key_run(map, before, now, 5),
        tablet_key_run(map, before, now, 6),
        tablet_key_run(map, before, now, 7),
        tablet_key_run(map, before, now, 8),
        tablet_key_run(map, before, now, 9),
        tablet_key_run(map, before, now, 12),
        tablet_key_run(map, before, now, 13),
    ];
    assert(by_name =~= listed);
}

/// A synchronization ends the frame on the keyboard, then on the pen, then on
/// the pointer.
pub proof fn law_every_device_is_synchronized()
    ensures
        syn_run().len() == 3,
        ends_frame(syn_run()[0], VirtualDevice::Keyboard),
        ends_frame(syn_run()[1], VirtualDevice::Pen),
        ends_frame(syn_run()[2], VirtualDevice::Pointer),
{
}

// ---------------------------------------------------------------------------
// A new dispatcher
// ---------------------------------------------------------------------------

/// With a new dispatcher, stylus `+`, whose code is 4, pastes: left control and
/// V go down, the frame ends, they come up again, the frame ends. Stylus `-`,
/// whose code is 6, undoes: the same with Z. So it is from whatever other code,
/// and no other code does anything.
pub proof fn law_stylus_pastes_and_undoes(dispatcher: DeviceDispatcher, before: u8, now: u8)
    requires
        call_ensures(DeviceDispatcher::new, (), dispatcher),
    ensures
        ({
            let run = pen_button_run(dispatcher@.pen_map, before, now);
            let letter: int = if now == 4 {
                47
            } else {
                44
            };
            &&& before == now || now != 4 && now != 6 ==> run.len() == 0
            &&& before != now && (now == 4 || now == 6) ==> {
                &&& run.len() == 6
                &&& says(run[0], VirtualDevice::Keyboard, EventType::Key, 29, 1)
                &&& says(run[1], VirtualDevice::Keyboard, EventType::Key, letter, 1)
                &&& ends_frame(run[2], VirtualDevice::Keyboard)
                &&& says(run[3], VirtualDevice::Keyboard, EventType::Key, letter, 0)
                &&& says(run[4], VirtualDevice::Keyboard, EventType::Key, 29, 0)
                &&& ends_frame(run[5], VirtualDevice::Keyboard)
            }
        }),
{
}

/// With a new dispatcher, control 8 scrolls up by one notch as it goes down and
/// control 5 scrolls down by one. Nothing else comes of these two, and nothing at
/// all of the others.
pub proof fn law_wheel_scrolls_both_ways(
    dispatcher: DeviceDispatcher,
    before: u16,
    now: u16,
    id: u8,
)
    requires
        call_ensures(DeviceDispatcher::new, (), dispatcher),
    ensures
        ({
            let run = tablet_key_run(dispatcher@.tablet_map, before, now, id);
            let scrolls = (id == 8 || id == 5) && !is_down(before, id) && is_down(now, id);
            let delta: int = if id == 8 {
                1
            } else {
                -1
            };
            &&& !scrolls ==> run.len() == 0
            &&& scrolls ==> {
                &&& run.len() == 2
                &&& says(run[0], VirtualDevice::Pointer, EventType::Relative, 8, delta)
                &&& ends_frame(run[1], VirtualDevice::Pointer)
            }
        }),
{
    let map = dispatcher@.tablet_map;
    if map.contains_key(id) {
        let modifiers = map[id]->modifiers;
        law_control_turns_the_wheel(map, before, now, id, modifiers, map[id]->delta);
    }
}

/// A new dispatcher has seen nothing yet: no control is down, no barrel button is
/// pressed, and there is neither a pen nor a position.
pub proof fn law_new_dispatcher_has_seen_nothing(dispatcher: DeviceDispatcher, id: u8)
    requires
        call_ensures(DeviceDispatcher::new, (), dispatcher) || call_ensures(
            DeviceDispatcher::default,
            (),
            dispatcher,
        ),
        id < 16,
    ensures
        ({
            let memory = dispatcher@.memory;
            &&& !is_down(memory.tablet_last_raw_pressed_buttons, id)
            &&& memory.tablet_last_raw_pressed_buttons == 0xffff
            &&& memory.pen_last_raw_pressed_button == 0
            &&& !memory.was_touching
            &&& !memory.was_in_range
            &&& memory.last_pen_packet_at is None
            &&& memory.last_x == 0
            &&& memory.last_y == 0
            &&& memory.last_pressure == -1
            &&& !memory.have_last_xy
            &&& !memory.hover_jitter_toggle
        }),
{
    assert(0xffffu16 & (1u16 << id) != 0) by (bit_vector)
        requires
            id < 16,
    ;
}

/// The devices of a new dispatcher, in the order of their creation: a pen with
/// its own four buttons, a keyboard with left control, V and Z, and a pointer
/// with the left button; of these three, only the pointer has wheels.
pub proof fn law_new_dispatcher_needs_these_devices(
    dispatcher: DeviceDispatcher,
    setups: (DeviceSetup, DeviceSetup, DeviceSetup),
    code: u16,
)
    requires
        call_ensures(DeviceDispatcher::new, (), dispatcher),
        call_ensures(DeviceDispatcher::device_setups, (&dispatcher,), setups),
    ensures
        setups.0.name@ == "virtual_tablet_pen"@,
        setups.0.keys@.contains(code) <==> code == 0x110 || code == 0x111 || code == 0x140 || code
            == 0x14a,
        setups.0.relative_axes is None,
        setups.0.absolute_axes@.len() == 3,
        setups.1.name@ == "virtual_tablet_keys"@,
        setups.1.keys@.contains(code) <==> code == 29 || code == 44 || code == 47,
        setups.1.relative_axes is None,
        setups.1.absolute_axes@.len() == 0,
        setups.2.name@ == "virtual_tablet_pointer"@,
        setups.2.keys@.contains(code) <==> code == 0x110,
        setups.2.relative_axes matches Some(axes) && (axes@.contains(code) <==> code == 6 || code
            == 8),
        setups.2.absolute_axes@.len() == 0,
{
    let model = dispatcher@;
    law_devices_have_what_is_bound(model, code);
    assert(setups.0.keys@.to_set().contains(code) <==> setups.0.keys@.contains(code));
    assert(setups.1.keys@.to_set().contains(code) <==> setups.1.keys@.contains(code));
    assert(setups.2.keys@.to_set().contains(code) <==> setups.2.keys@.contains(code));
    let axes = setups.2.relative_axes->0@;
    assert(axes.to_set().contains(code) <==> axes.contains(code));
    let map = model.tablet_map;
    assert(map.contains_key(8) && map.contains_key(5));
    let pens = model.pen_map;
    let paste = pens[4];
    let undo = pens[6];
    assert(pens.contains_key(4) && pens.contains_key(6));
    assert(paste[0] == Key(29) && paste[1] == Key(47) && paste.len() == 2);
    assert(undo[0] == Key(29) && undo[1] == Key(44) && undo.len() == 2);
    assert(paste.contains(Key(code)) <==> code == 29 || code == 47);
    assert(undo.contains(Key(code)) <==> code == 29 || code == 44);
}

// ---------------------------------------------------------------------------
// Whole packets
// ---------------------------------------------------------------------------

/// How many emissions the barrel buttons make of a packet.
pub open spec fn pulse_length(model: DispatcherModel, data: Seq<u8>) -> int {
    if data[9] != model.memory.pen_last_raw_pressed_button && (data[9] == 4 || data[9] == 6)
        && model.pen_map.contains_key(data[9]) {
        2 * model.pen_map[data[9]].len() as int + 2
    } else {
        0
    }
}

/// The pressure reading of a packet.
pub open spec fn pressure_in(data: Seq<u8>) -> int {
    256 * data[5] + data[6]
}

/// When the pen of a packet last gave a sign of itself.
pub open spec fn sign_in(memory: Memory, data: Seq<u8>, clock: PacketClock) -> Option<u128> {
    if pressure_in(data) > 0 {
        Some(clock.arrived_at)
    } else {
        memory.last_pen_packet_at
    }
}

/// Whether the pen of a packet is in range.
pub open spec fn near_in(memory: Memory, data: Seq<u8>, clock: PacketClock) -> bool {
    match sign_in(memory, data, clock) {
        Some(at) => clock.checked_at < at + 600 * 1_000_000,
        None => false,
    }
}

/// Whether the pen of a packet touches.
pub open spec fn touch_in(memory: Memory, data: Seq<u8>) -> bool {
    pressure_in(data) < 1600 || memory.was_touching && pressure_in(data) < 1620
}

/// Whether the pen of a packet hovers where it was.
pub open spec fn rests_in(memory: Memory, data: Seq<u8>) -> bool {
    &&& memory.have_last_xy
    &&& !memory.was_touching
    &&& memory.last_x == 4096 - (256 * data[1] + data[2])
    &&& memory.last_y == 4096 - (256 * data[3] + data[4])
}

/// A packet, from its bytes to what comes of them, in order: the chord of a
/// barrel button; whether the pen is in range, if that has changed; its turned
/// position and its pressure; whether it touches, if that has changed; and what
/// the tablet's controls send.
pub proof fn law_packet_comes_out_in_order(
    model: DispatcherModel,
    data: Seq<u8>,
    clock: PacketClock,
)
    ensures
        ({
            let run = dispatch_run(model, data, clock);
            let memory = model.memory;
            let a = pulse_length(model, data);
            let near = near_in(memory, data, clock);
            let b = if near != memory.was_in_range {
                a + 1
            } else {
                a
            };
            let touch = touch_in(memory, data);
            let c = if touch != memory.was_touching {
                b + 4
            } else {
                b + 3
            };
            let nudge: int = if rests_in(memory, data) && !memory.hover_jitter_toggle {
                1
            } else {
                0
            };
            &&& run.len() >= c
            &&& run.take(a) == pen_button_run(
                model.pen_map,
                memory.pen_last_raw_pressed_button,
                data[9],
            )
            &&& b > a ==> says(
                run[a],
                VirtualDevice::Pen,
                EventType::Key,
                0x140,
                if near {
                    1
                } else {
                    0
                },
            )
            &&& says(
                run[b],
                VirtualDevice::Pen,
                EventType::Absolute,
                0,
                4096 - (256 * data[1] + data[2]) + nudge,
            )
            &&& says(
                run[b + 1],
                VirtualDevice::Pen,
                EventType::Absolute,
                1,
                4096 - (256 * data[3] + data[4]),
            )
            &&& says(
                run[b + 2],
                VirtualDevice::Pen,
                EventType::Absolute,
                0x18,
                output_pressure(256 * data[5] + data[6]),
            )
            &&& c > b + 3 ==> says(
                run[b + 3],
                VirtualDevice::Pen,
                EventType::Key,
                0x14a,
                if touch {
                    1
                } else {
                    0
                },
            )
            &&& run.skip(c) == tablet_run(
                model.tablet_map,
                memory.tablet_last_raw_pressed_buttons,
                packet_tablet_buttons(data),
                14,
            )
            &&& run.take(c) == pen_run(model, data, clock)
            &&& run.skip(c) == controls_run(model, data)
        }),
{
    lemma_parts_of_a_packet(model, data, clock);
    let run = dispatch_run(model, data, clock);
    let memory = model.memory;
    let pulse = pen_button_run(model.pen_map, memory.pen_last_raw_pressed_button, data[9]);
    let near = proximity_run(memory, pressure_in(data), clock);
    let position = position_run(
        memory,
        4096 - (256 * data[1] + data[2]),
        4096 - (256 * data[3] + data[4]),
        output_pressure(pressure_in(data)),
    );
    let touch = touch_run(memory, pressure_in(data));
    let controls = controls_run(model, data);
    let a = pulse.len() as int;
    let b = a + near.len();
    let c = b + 3 + touch.len();
    assert(run == pulse + near + position + touch + controls);
    assert(run.take(a) =~= pulse);
    assert(run.skip(c) =~= controls);
    assert(pen_run(model, data, clock) =~= pulse + near + position + touch);
    assert(run.take(c) =~= pen_run(model, data, clock));
    assert(forall|i: int| 0 <= i < near.len() ==> run[a + i] == #[trigger] near[i]);
    assert(run[b] == position[0]);
    assert(run[b + 1] == position[1]);
    assert(run[b + 2] == position[2]);
    assert(forall|i: int| 0 <= i < touch.len() ==> run[b + 3 + i] == #[trigger] touch[i]);
    if near.len() > 0 {
        assert(run[a + 0] == near[0]);
    }
    if touch.len() > 0 {
        assert(run[b + 3 + 0] == touch[0]);
    }
}

/// The parts of a packet's run, and what each is.
proof fn lemma_parts_of_a_packet(model: DispatcherModel, data: Seq<u8>, clock: PacketClock)
    ensures
        ({
            let memory = model.memory;
            let pressure = pressure_in(data);
            let raw_x = 256 * data[1] + data[2];
            let raw_y = 256 * data[3] + data[4];
            let pulse = pen_button_run(model.pen_map, memory.pen_last_raw_pressed_button, data[9]);
            let near = proximity_run(memory, pressure, clock);
            let position = position_run(
                memory,
                4096 - raw_x,
                4096 - raw_y,
                output_pressure(pressure),
            );
            let touch = touch_run(memory, pressure);
            let nudge: int = if rests_in(memory, data) && !memory.hover_jitter_toggle {
                1
            } else {
                0
            };
            &&& packet_x(data) == raw_x
            &&& packet_y(data) == raw_y
            &&& packet_pressure(data) == pressure
            &&& packet_pen_button(data) == data[9]
            &&& 0 <= output_pressure(pressure) <= 5000
            &&& dispatch_run(model, data, clock) == pulse + near + position + touch + controls_run(
                model,
                data,
            )
            &&& pulse.len() == pulse_length(model, data)
            &&& near.len() == (if near_in(memory, data, clock) != memory.was_in_range {
                1int
            } else {
                0
            })
            &&& near.len() > 0 ==> says(
                near[0],
                VirtualDevice::Pen,
                EventType::Key,
                0x140,
                if near_in(memory, data, clock) {
                    1
                } else {
                    0
                },
            )
            &&& position.len() == 3
            &&& says(position[0], VirtualDevice::Pen, EventType::Absolute, 0, 4096 - raw_x + nudge)
            &&& says(position[1], VirtualDevice::Pen, EventType::Absolute, 1, 4096 - raw_y)
            &&& says(
                position[2],
                VirtualDevice::Pen,
                EventType::Absolute,
                0x18,
                output_pressure(pressure),
            )
            &&& touch.len() == (if touch_in(memory, data) != memory.was_touching {
                1int
            } else {
                0
            })
            &&& touch.len() > 0 ==> says(
                touch[0],
                VirtualDevice::Pen,
                EventType::Key,
                0x14a,
                if touch_in(memory, data) {
                    1
                } else {
                    0
                },
            )
        }),
{
    let memory = model.memory;
    let pressure = pressure_in(data);
    let raw_x = 256 * data[1] + data[2];
    let raw_y = 256 * data[3] + data[4];
    law_readings_are_big_endian(data);
    law_output_pressure_is_proportional(pressure);
    law_position_is_turned_by_half(memory, raw_x, raw_y, output_pressure(pressure));
    law_proximity_follows_the_signs(memory, pressure, clock);
    law_touch_is_told_as_it_changes(memory, pressure);
    law_barrel_button_sends_its_chord(
        model.pen_map,
        memory.pen_last_raw_pressed_button,
        data[9],
    );
}

/// What is remembered of a packet, field by field, from its bytes and from how
/// many of its emissions were taken. Each part is remembered once all of it, and
/// all before it, was taken; a sign of the pen and the turn of the nudge are
/// remembered as soon as all before them was.
pub proof fn law_packet_is_remembered_as_far_as_it_was_taken(
    model: DispatcherModel,
    data: Seq<u8>,
    clock: PacketClock,
    outbox: OutboxModel,
)
    ensures
        ({
            let run = dispatch_run(model, data, clock);
            let taken = outbox.taken_of(run).len();
            let old = model.memory;
            let new = memory_after_dispatch(model, data, clock, outbox);
            let near = near_in(old, data, clock);
            let touch = touch_in(old, data);
            let a = pulse_length(model, data);
            let b = if near != old.was_in_range {
                a + 1
            } else {
                a
            };
            let c = if touch != old.was_touching {
                b + 4
            } else {
                b + 3
            };
            &&& new.pen_last_raw_pressed_button == (if taken >= a {
                data[9]
            } else {
                old.pen_last_raw_pressed_button
            })
            &&& new.last_pen_packet_at == (if taken >= a {
                sign_in(old, data, clock)
            } else {
                old.last_pen_packet_at
            })
            &&& new.was_in_range == (if taken >= b {
                near
            } else {
                old.was_in_range
            })
            &&& new.hover_jitter_toggle == (if taken >= b && rests_in(old, data) {
                !old.hover_jitter_toggle
            } else {
                old.hover_jitter_toggle
            })
            &&& new.last_x == (if taken >= b + 3 {
                4096 - (256 * data[1] + data[2])
            } else {
                old.last_x as int
            })
            &&& new.last_y == (if taken >= b + 3 {
                4096 - (256 * data[3] + data[4])
            } else {
                old.last_y as int
            })
            &&& new.last_pressure == (if taken >= b + 3 {
                output_pressure(256 * data[5] + data[6])
            } else {
                old.last_pressure as int
            })
            &&& new.have_last_xy == (old.have_last_xy || taken >= b + 3)
            &&& new.was_touching == (if taken >= c {
                touch
            } else {
                old.was_touching
            })
            &&& new.tablet_last_raw_pressed_buttons == (if taken == run.len() {
                packet_tablet_buttons(data)
            } else {
                old.tablet_last_raw_pressed_buttons
            })
        }),
{
    let old = model.memory;
    let pressure = pressure_in(data);
    let raw_x = 256 * data[1] + data[2];
    let raw_y = 256 * data[3] + data[4];
    lemma_parts_of_a_packet(model, data, clock);
    let run = dispatch_run(model, data, clock);
    let pulse = pen_button_run(model.pen_map, old.pen_last_raw_pressed_button, data[9]);
    let near = proximity_run(old, pressure, clock);
    let position = position_run(old, 4096 - raw_x, 4096 - raw_y, output_pressure(pressure));
    let touch = touch_run(old, pressure);
    lemma_taken_counts(outbox, run, pulse);
    lemma_taken_counts(outbox, run, pulse + near);
    lemma_taken_counts(outbox, run, pulse + near + position);
    lemma_taken_counts(outbox, run, pulse + near + position + touch);
    lemma_taken_counts(outbox, run, run);
    law_proximity_follows_the_signs(old, pressure, clock);
    law_position_is_remembered(old, raw_x, raw_y, output_pressure(pressure));
    law_touch_is_told_as_it_changes(old, pressure);
}

/// A beginning of a run is taken whole exactly if as many emissions of the run
/// are taken.
proof fn lemma_taken_counts(outbox: OutboxModel, run: Seq<Emission>, beginning: Seq<Emission>)
    requires
        beginning.len() <= run.len(),
    ensures
        outbox.accepts(beginning) <==> outbox.taken_of(run).len() >= beginning.len(),
        outbox.taken_of(run).len() <= run.len(),
{
}

/// A pressure that is normalized is in proportion to the force, as is what a
/// packet's pressure comes out as.
pub proof fn law_normalized_pressure_is_proportional(raw: i32, pressure: i32)
    requires
        call_ensures(DeviceDispatcher::normalize_pressure, (raw,), pressure),
    ensures
        raw >= 1592 ==> pressure == 0,
        raw <= 933 ==> pressure == 5000,
        933 < raw < 1592 ==> pressure * 667 <= (1600 - raw) * 5000 < (pressure + 1) * 667,
{
    law_output_pressure_is_proportional(raw as int);
}

} // verus!
