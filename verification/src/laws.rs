//! What holds of the driver as a whole.

use vstd::prelude::*;

use crate::action::ActionModel;
use crate::input::{
    abs_emission, key_emission, rel_emission, syn_emission, Emission, EventType, Key,
    VirtualDevice, ABS_PRESSURE, ABS_X, ABS_Y, BTN_TOOL_PEN, REL_WHEEL,
};
use crate::model::{
    after_position, chord_run, controls_run, dispatch_run, elapsed_ms, in_range, is_scanned, last_sign,
    memory_after_dispatch, modifier_run, needs_nudge, notch_run, nudged_x, output_pressure,
    pen_button_run, pen_run, position_run, proximity_run, pulse_run, rotated, syn_run,
    tablet_key_run, tablet_run, touch_run, touching, wheel_run, DispatcherModel, Memory,
    PacketClock, AXIS_MAX, HOLD, PEN_BUTTON_MINUS, PEN_BUTTON_PLUS, PRESSED, PRESS_DEADBAND,
    PRESS_OUT_MAX, PRESS_RAW_MIN, PRESS_RELEASE_THRESHOLD, PRESS_TOUCH_THRESHOLD,
    PROXIMITY_TIMEOUT_MS, RELEASED, TABLET_BUTTON_END,
};
use crate::outbox::OutboxModel;
use crate::packet::{
    is_down, packet_pen_button, packet_pressure, packet_tablet_buttons, packet_x, packet_y,
};
use crate::setup::{
    advertises, bindings_advertisable, chord_part, in_a_chord, in_a_pulse, keyboard_codes,
    modifier_codes, modifies_a_wheel, setup_for, wheel_part,
};

verus! {

// ---------------------------------------------------------------------------
// Tablet controls
// ---------------------------------------------------------------------------

/// A wheel binding fires when its control goes down, and at no other time: a
/// held control does not repeat, and a released one does nothing.
pub proof fn law_wheel_fires_on_press_only(
    map: Map<u8, ActionModel>,
    before: u16,
    now: u16,
    id: u8,
)
    requires
        map.contains_key(id),
        map[id] is Wheel,
    ensures
        tablet_key_run(map, before, now, id) == (if is_down(now, id) && !is_down(before, id) {
            wheel_run(map[id]->modifiers, map[id]->delta)
        } else {
            Seq::empty()
        }),
{
}

/// One notch per press: once a packet in which a wheel control is down was
/// dispatched, the next one in which it is still down emits no further notch.
pub proof fn law_held_wheel_control_fires_once(
    model: DispatcherModel,
    data: Seq<u8>,
    clock: PacketClock,
    outbox: OutboxModel,
    next: Seq<u8>,
    id: u8,
)
    requires
        outbox.accepts(dispatch_run(model, data, clock)),
        model.tablet_map.contains_key(id),
        model.tablet_map[id] is Wheel,
        is_down(packet_tablet_buttons(data), id),
        is_down(packet_tablet_buttons(next), id),
    ensures
        tablet_key_run(
            model.tablet_map,
            memory_after_dispatch(model, data, clock, outbox).tablet_last_raw_pressed_buttons,
            packet_tablet_buttons(next),
            id,
        ) == Seq::<Emission>::empty(),
{
    lemma_accepts_prefixes(model, data, clock, outbox);
}

/// A wheel run holds exactly one notch, of the binding's size, and all of it
/// goes to the pointer.
pub proof fn law_wheel_run_holds_one_notch(modifiers: Seq<Key>, delta: i32)
    ensures
        ({
            let run = wheel_run(modifiers, delta);
            let notch = modifier_run(modifiers, PRESSED).len() as int;
            &&& 0 <= notch < run.len()
            &&& run[notch] == rel_emission(VirtualDevice::Pointer, REL_WHEEL, delta)
            &&& forall|i: int|
                0 <= i < run.len() ==> (#[trigger] run[i]).device == VirtualDevice::Pointer && (
                run[i].event.event_type == EventType::Relative <==> i == notch)
        }),
{
}

/// Every modifier is pressed before the notch and released after it: it is held
/// when the notch is seen. The releases come in reverse order.
pub proof fn law_modifiers_are_held_around_the_notch(modifiers: Seq<Key>, delta: i32, k: int)
    requires
        0 <= k < modifiers.len(),
    ensures
        ({
            let run = wheel_run(modifiers, delta);
            let notch = modifiers.len() as int + 1;
            let release = notch + 2 + (modifiers.len() - 1 - k);
            &&& run.len() == 2 * modifiers.len() + 4
            &&& run[k] == key_emission(VirtualDevice::Pointer, modifiers[k], PRESSED)
            &&& run[notch] == rel_emission(VirtualDevice::Pointer, REL_WHEEL, delta)
            &&& run[release] == key_emission(VirtualDevice::Pointer, modifiers[k], RELEASED)
            &&& forall|i: int|
                0 <= i < notch ==> (#[trigger] run[i]).event.event_type == EventType::Key
                    ==> run[i].event.value == PRESSED
        }),
{
}

/// Without modifiers a wheel run is the notch and the end of its frame.
pub proof fn law_plain_notch(delta: i32)
    ensures
        wheel_run(Seq::empty(), delta) == notch_run(delta),
{
    assert(Seq::<Key>::empty().reverse() =~= Seq::empty());
    assert(wheel_run(Seq::empty(), delta) =~= notch_run(delta));
}

/// Controls without a binding, and controls that stay up, emit nothing.
pub proof fn law_idle_and_unbound_controls_are_silent(
    map: Map<u8, ActionModel>,
    before: u16,
    now: u16,
    id: u8,
)
    requires
        !map.contains_key(id) || (!is_down(before, id) && !is_down(now, id)),
    ensures
        tablet_key_run(map, before, now, id) == Seq::<Emission>::empty(),
{
}

/// Where only wheel notches are bound, a packet whose controls are as before
/// emits nothing for them, however long a control is held.
pub proof fn law_held_wheel_controls_are_silent(map: Map<u8, ActionModel>, buttons: u16, end: nat)
    requires
        forall|id: u8| #[trigger] map.contains_key(id) ==> map[id] is Wheel,
    ensures
        tablet_run(map, buttons, buttons, end) == Seq::<Emission>::empty(),
    decreases end,
{
    if end > 0 {
        law_held_wheel_controls_are_silent(map, buttons, (end - 1) as nat);
        assert(tablet_run(map, buttons, buttons, end) =~= Seq::empty());
    }
}

/// Where no scanned control is down, or was, the controls emit nothing.
pub proof fn law_resting_controls_are_silent(map: Map<u8, ActionModel>, before: u16, now: u16, end: nat)
    requires
        end <= TABLET_BUTTON_END,
        forall|id: u8| is_scanned(id as int) ==> !(#[trigger] is_down(before, id)),
        forall|id: u8| is_scanned(id as int) ==> !(#[trigger] is_down(now, id)),
    ensures
        tablet_run(map, before, now, end) == Seq::<Emission>::empty(),
    decreases end,
{
    if end > 0 {
        law_resting_controls_are_silent(map, before, now, (end - 1) as nat);
        let id = (end - 1) as u8;
        if is_scanned(end - 1) {
            assert(is_scanned(id as int));
            assert(!is_down(before, id) && !is_down(now, id));
        }
        assert(tablet_run(map, before, now, end) =~= Seq::empty());
    }
}

/// The controls that are scanned, each once, in ascending order.
pub open spec fn scanned_controls() -> Seq<u8> {
    seq![0u8, 1, 2, 3, 4, 5, 6, 7, 8, 9, 12, 13]
}

/// What a packet emits for the tablet's controls is what each scanned control
/// emits, from the lowest bit up.
pub proof fn law_controls_come_in_order(map: Map<u8, ActionModel>, before: u16, now: u16)
    ensures
        tablet_run(map, before, now, TABLET_BUTTON_END as nat) == scanned_controls().map_values(
            |id: u8| tablet_key_run(map, before, now, id),
        ).flatten(),
{
    let runs = scanned_controls().map_values(|id: u8| tablet_key_run(map, before, now, id));
    runs.lemma_flatten_and_flatten_alt_are_equivalent();
    lemma_scanned_so_far(map, before, now, TABLET_BUTTON_END as nat);
    assert(runs.take(12) =~= runs);
}

/// How many of the scanned controls lie below a bit.
spec fn scanned_below(end: nat) -> int {
    if end <= 10 {
        end as int
    } else if end <= 12 {
        10
    } else {
        end - 2
    }
}

/// What the controls below a bit emit.
proof fn lemma_scanned_so_far(map: Map<u8, ActionModel>, before: u16, now: u16, end: nat)
    requires
        end <= TABLET_BUTTON_END,
    ensures
        tablet_run(map, before, now, end) == scanned_controls().map_values(
            |id: u8| tablet_key_run(map, before, now, id),
        ).take(scanned_below(end)).flatten_alt(),
    decreases end,
{
    let runs = scanned_controls().map_values(|id: u8| tablet_key_run(map, before, now, id));
    if end > 0 {
        lemma_scanned_so_far(map, before, now, (end - 1) as nat);
        if is_scanned(end - 1) {
            let count = scanned_below(end);
            assert(runs.take(count).drop_last() =~= runs.take(count - 1));
            assert(scanned_controls()[count - 1] == end - 1);
        }
    }
}

/// Bits of the button word that are not scanned have no influence, now or
/// before, whatever is bound to them.
pub proof fn law_unscanned_bits_have_no_influence(
    map: Map<u8, ActionModel>,
    before: (u16, u16),
    now: (u16, u16),
    end: nat,
)
    requires
        before.0 & 0x33ff == before.1 & 0x33ff,
        now.0 & 0x33ff == now.1 & 0x33ff,
    ensures
        tablet_run(map, before.0, now.0, end) == tablet_run(map, before.1, now.1, end),
    decreases end,
{
    if end > 0 {
        law_unscanned_bits_have_no_influence(map, before, now, (end - 1) as nat);
        if is_scanned(end - 1) {
            lemma_scanned_bit(before.0, before.1, (end - 1) as u8);
            lemma_scanned_bit(now.0, now.1, (end - 1) as u8);
        }
    }
}

/// Words that agree on the scanned bits agree on each of them.
proof fn lemma_scanned_bit(first: u16, second: u16, id: u8)
    requires
        first & 0x33ff == second & 0x33ff,
        is_scanned(id as int),
    ensures
        is_down(first, id) == is_down(second, id),
{
    assert(first & (1u16 << id) == 0 <==> second & (1u16 << id) == 0) by (bit_vector)
        requires
            first & 0x33ff == second & 0x33ff,
            id < 14,
            id != 10,
            id != 11,
    ;
}

// ---------------------------------------------------------------------------
// Barrel buttons
// ---------------------------------------------------------------------------

/// A pulse presses every key of its chord and releases it again, in reverse
/// order, each half in a frame of its own.
pub proof fn law_pulse_releases_what_it_presses(keys: Seq<Key>, k: int)
    requires
        0 <= k < keys.len(),
    ensures
        ({
            let run = pulse_run(keys);
            let n = keys.len() as int;
            &&& run.len() == 2 * n + 2
            &&& run[k] == key_emission(VirtualDevice::Keyboard, keys[k], PRESSED)
            &&& run[n] == syn_emission(VirtualDevice::Keyboard)
            &&& run[2 * n - k] == key_emission(VirtualDevice::Keyboard, keys[k], RELEASED)
            &&& run[2 * n + 1] == syn_emission(VirtualDevice::Keyboard)
        }),
{
}

/// A barrel button that is held fires once: once its pulse was taken, the next
/// packet with the same button emits none, even if the rest of the first packet
/// was refused.
pub proof fn law_held_barrel_button_fires_once(
    model: DispatcherModel,
    data: Seq<u8>,
    clock: PacketClock,
    outbox: OutboxModel,
)
    requires
        outbox.accepts(
            pen_button_run(
                model.pen_map,
                model.memory.pen_last_raw_pressed_button,
                packet_pen_button(data),
            ),
        ),
    ensures
        memory_after_dispatch(model, data, clock, outbox).pen_last_raw_pressed_button
            == packet_pen_button(data),
        pen_button_run(
            model.pen_map,
            memory_after_dispatch(model, data, clock, outbox).pen_last_raw_pressed_button,
            packet_pen_button(data),
        ) == Seq::<Emission>::empty(),
{
}

/// Bytes that name no barrel button emit nothing, whatever came before: neither
/// a release nor a pen without a pressed button does.
pub proof fn law_only_barrel_buttons_pulse(map: Map<u8, Seq<Key>>, before: u8, now: u8)
    requires
        now != PEN_BUTTON_PLUS,
        now != PEN_BUTTON_MINUS,
    ensures
        pen_button_run(map, before, now) == Seq::<Emission>::empty(),
{
}

// ---------------------------------------------------------------------------
// Pressure and touch
// ---------------------------------------------------------------------------

/// The output pressure stays within its range.
pub proof fn law_output_pressure_is_in_range(raw: int)
    ensures
        0 <= output_pressure(raw) <= PRESS_OUT_MAX,
{
    let range = PRESS_TOUCH_THRESHOLD - PRESS_RAW_MIN;
    let force = PRESS_TOUCH_THRESHOLD - raw;
    if PRESS_DEADBAND < force < range {
        assert(0 <= (force * PRESS_OUT_MAX) / range <= PRESS_OUT_MAX) by (nonlinear_arith)
            requires
                0 < force < range,
                0 < PRESS_OUT_MAX,
        ;
    }
}

/// A harder press, that is, a smaller reading, never gives less pressure.
pub proof fn law_output_pressure_grows_with_the_force(harder: int, softer: int)
    requires
        harder <= softer,
    ensures
        output_pressure(harder) >= output_pressure(softer),
{
    law_output_pressure_is_in_range(harder);
    law_output_pressure_is_in_range(softer);
    let range = PRESS_TOUCH_THRESHOLD - PRESS_RAW_MIN;
    let more = PRESS_TOUCH_THRESHOLD - harder;
    let less = PRESS_TOUCH_THRESHOLD - softer;
    if PRESS_DEADBAND < less && more < range {
        assert((less * PRESS_OUT_MAX) / range <= (more * PRESS_OUT_MAX) / range) by (nonlinear_arith)
            requires
                less <= more,
                0 < range,
                0 < PRESS_OUT_MAX,
        ;
    }
}

/// There is pressure only with a touch: a pen that does not touch gives none.
pub proof fn law_no_pressure_without_a_touch(was_touching: bool, raw: int)
    requires
        !touching(was_touching, raw),
    ensures
        output_pressure(raw) == 0,
{
}

/// Between the two thresholds a touch stays as it is.
pub proof fn law_touch_has_hysteresis(was_touching: bool, raw: int)
    requires
        PRESS_TOUCH_THRESHOLD <= raw < PRESS_RELEASE_THRESHOLD,
    ensures
        touching(was_touching, raw) == was_touching,
{
}

/// The same pressure again changes no touch.
pub proof fn law_touch_settles_at_once(was_touching: bool, raw: int)
    ensures
        touching(touching(was_touching, raw), raw) == touching(was_touching, raw),
{
}

// ---------------------------------------------------------------------------
// Proximity
// ---------------------------------------------------------------------------

/// After a sign of the pen, packets without one keep it in range for as long as
/// the timeout says, and no longer.
pub proof fn law_pen_stays_in_range_until_the_timeout(
    model: DispatcherModel,
    data: Seq<u8>,
    clock: PacketClock,
    outbox: OutboxModel,
    later_data: Seq<u8>,
    later: PacketClock,
)
    requires
        outbox.accepts(dispatch_run(model, data, clock)),
        packet_pressure(data) > 0,
        packet_pressure(later_data) == 0,
    ensures
        ({
            let memory = memory_after_dispatch(model, data, clock, outbox);
            in_range(
                last_sign(memory, packet_pressure(later_data), later),
                later.checked_at,
            ) <==> elapsed_ms(clock.arrived_at, later.checked_at) < PROXIMITY_TIMEOUT_MS
        }),
{
    lemma_accepts_prefixes(model, data, clock, outbox);
}

/// Without any sign of a pen yet, none is in range.
pub proof fn law_no_pen_without_a_sign(memory: Memory, clock: PacketClock)
    requires
        memory.last_pen_packet_at is None,
        !memory.was_in_range,
    ensures
        proximity_run(memory, 0, clock) == Seq::<Emission>::empty(),
{
}

// ---------------------------------------------------------------------------
// Position
// ---------------------------------------------------------------------------

/// The rotation is a half turn: done twice, it leaves a position where it was.
pub proof fn law_rotation_is_a_half_turn(raw: int)
    ensures
        rotated(rotated(raw)) == raw,
        0 <= raw <= AXIS_MAX ==> 0 <= rotated(raw) <= AXIS_MAX,
{
}

/// A nudge moves the emitted position by at most one unit, and is forgotten at
/// once: the position that is remembered is the true one.
pub proof fn law_nudge_is_small_and_forgotten(
    model: DispatcherModel,
    data: Seq<u8>,
    clock: PacketClock,
    outbox: OutboxModel,
)
    requires
        outbox.accepts(dispatch_run(model, data, clock)),
    ensures
        ({
            let x = rotated(packet_x(data));
            let y = rotated(packet_y(data));
            let memory = memory_after_dispatch(model, data, clock, outbox);
            &&& x <= nudged_x(model.memory, x, y) <= x + 1
            &&& memory.have_last_xy
            &&& memory.last_x == x
            &&& memory.last_y == y
        }),
{
    lemma_accepts_prefixes(model, data, clock, outbox);
}

/// A pen that hovers in one place keeps moving: from the second packet there
/// on, no two packets in a row emit the same horizontal position.
pub proof fn law_resting_pen_keeps_moving(
    model: DispatcherModel,
    data: Seq<u8>,
    clock: PacketClock,
    outbox: OutboxModel,
)
    requires
        outbox.accepts(dispatch_run(model, data, clock)),
        needs_nudge(model.memory, rotated(packet_x(data)), rotated(packet_y(data))),
        !memory_after_dispatch(model, data, clock, outbox).was_touching,
    ensures
        ({
            let x = rotated(packet_x(data));
            let y = rotated(packet_y(data));
            let memory = memory_after_dispatch(model, data, clock, outbox);
            &&& needs_nudge(memory, x, y)
            &&& nudged_x(memory, x, y) != nudged_x(model.memory, x, y)
        }),
{
    lemma_accepts_prefixes(model, data, clock, outbox);
}

/// Two looks at a pen that hovers where it was: the horizontal positions that
/// are emitted are the true one and its neighbour, in some order, and the
/// vertical one is true both times. After that the next nudge is as before.
pub proof fn law_two_nudges_are_a_pair(memory: Memory, raw_x: int, raw_y: int, pressures: (int, int))
    requires
        rotated(raw_x) < i32::MAX,
        needs_nudge(memory, rotated(raw_x), rotated(raw_y)),
    ensures
        ({
            let x = rotated(raw_x);
            let y = rotated(raw_y);
            let first = position_run(memory, x, y, pressures.0);
            let between = after_position(memory, x, y, pressures.0);
            let second = position_run(between, x, y, pressures.1);
            let after = after_position(between, x, y, pressures.1);
            &&& first[0] == abs_emission(VirtualDevice::Pen, ABS_X, x as i32) && second[0]
                == abs_emission(VirtualDevice::Pen, ABS_X, (x + 1) as i32) || first[0]
                == abs_emission(VirtualDevice::Pen, ABS_X, (x + 1) as i32) && second[0]
                == abs_emission(VirtualDevice::Pen, ABS_X, x as i32)
            &&& first[1] == abs_emission(VirtualDevice::Pen, ABS_Y, y as i32)
            &&& second[1] == first[1]
            &&& after.hover_jitter_toggle == memory.hover_jitter_toggle
        }),
{
}

/// A pen that touches, or that has moved, is never nudged.
pub proof fn law_moving_or_touching_pen_is_not_nudged(memory: Memory, x: int, y: int)
    requires
        memory.was_touching || !memory.have_last_xy || x != memory.last_x || y != memory.last_y,
    ensures
        nudged_x(memory, x, y) == x,
{
}

// ---------------------------------------------------------------------------
// Whole packets
// ---------------------------------------------------------------------------

/// An outbox that takes all of a packet's emissions takes every beginning.
proof fn lemma_accepts_prefixes(
    model: DispatcherModel,
    data: Seq<u8>,
    clock: PacketClock,
    outbox: OutboxModel,
)
    requires
        outbox.accepts(dispatch_run(model, data, clock)),
    ensures
        ({
            let m = model.memory;
            let pressure = packet_pressure(data);
            let run1 = pen_button_run(
                model.pen_map,
                m.pen_last_raw_pressed_button,
                packet_pen_button(data),
            );
            let run2 = run1 + proximity_run(m, pressure, clock);
            let run3 = run2 + position_run(
                m,
                rotated(packet_x(data)),
                rotated(packet_y(data)),
                output_pressure(pressure),
            );
            &&& outbox.accepts(run1)
            &&& outbox.accepts(run2)
            &&& outbox.accepts(run3)
            &&& outbox.accepts(pen_run(model, data, clock))
        }),
{
}

/// A packet that was taken whole is remembered whole: the next one is compared
/// with it alone.
pub proof fn law_accepted_packet_is_remembered(
    model: DispatcherModel,
    data: Seq<u8>,
    clock: PacketClock,
    outbox: OutboxModel,
)
    requires
        outbox.accepts(dispatch_run(model, data, clock)),
    ensures
        ({
            let memory = memory_after_dispatch(model, data, clock, outbox);
            let x = rotated(packet_x(data));
            let y = rotated(packet_y(data));
            let sign = last_sign(model.memory, packet_pressure(data), clock);
            &&& memory.tablet_last_raw_pressed_buttons == packet_tablet_buttons(data)
            &&& memory.pen_last_raw_pressed_button == packet_pen_button(data)
            &&& memory.last_pen_packet_at == sign
            &&& memory.was_in_range == in_range(sign, clock.checked_at)
            &&& memory.was_touching == touching(model.memory.was_touching, packet_pressure(data))
            &&& memory.have_last_xy
            &&& memory.last_x == x
            &&& memory.last_y == y
            &&& memory.last_pressure == output_pressure(packet_pressure(data))
        }),
{
    lemma_accepts_prefixes(model, data, clock, outbox);
    law_output_pressure_is_in_range(packet_pressure(data));
}

/// What a packet emits begins with the barrel buttons' pulse, if there is one,
/// whatever the clock says.
pub proof fn law_pulse_comes_first(model: DispatcherModel, data: Seq<u8>, clock: PacketClock)
    ensures
        ({
            let pulse = pen_button_run(
                model.pen_map,
                model.memory.pen_last_raw_pressed_button,
                packet_pen_button(data),
            );
            pulse.is_prefix_of(dispatch_run(model, data, clock))
        }),
{
    let pulse = pen_button_run(
        model.pen_map,
        model.memory.pen_last_raw_pressed_button,
        packet_pen_button(data),
    );
    assert(pulse =~= dispatch_run(model, data, clock).subrange(0, pulse.len() as int));
}

/// The same packet again, where only wheel notches are bound, emits the position
/// and nothing else, but for "out of range" once the timeout has run out on a
/// packet without a sign of the pen. The clock does not run backwards between
/// the two; and where there is such a sign, they have to agree on whether they
/// were looked at in time.
pub proof fn law_repeated_packet_emits_the_position(
    model: DispatcherModel,
    data: Seq<u8>,
    clock: PacketClock,
    outbox: OutboxModel,
    later: PacketClock,
)
    requires
        forall|id: u8| #[trigger]
            model.tablet_map.contains_key(id) ==> model.tablet_map[id] is Wheel,
        outbox.accepts(dispatch_run(model, data, clock)),
        packet_pressure(data) == 0 ==> clock.checked_at <= later.checked_at,
        packet_pressure(data) > 0 ==> (elapsed_ms(clock.arrived_at, clock.checked_at)
            < PROXIMITY_TIMEOUT_MS <==> elapsed_ms(later.arrived_at, later.checked_at)
            < PROXIMITY_TIMEOUT_MS),
    ensures
        ({
            let memory = memory_after_dispatch(model, data, clock, outbox);
            let after = DispatcherModel { memory, ..model };
            let lost = packet_pressure(data) == 0 && memory.was_in_range && !in_range(
                memory.last_pen_packet_at,
                later.checked_at,
            );
            dispatch_run(after, data, later) == (if lost {
                seq![key_emission(VirtualDevice::Pen, Key(BTN_TOOL_PEN), RELEASED)]
            } else {
                Seq::empty()
            }) + position_run(
                memory,
                rotated(packet_x(data)),
                rotated(packet_y(data)),
                output_pressure(packet_pressure(data)),
            )
        }),
{
    law_accepted_packet_is_remembered(model, data, clock, outbox);
    let memory = memory_after_dispatch(model, data, clock, outbox);
    let after = DispatcherModel { memory, ..model };
    let pressure = packet_pressure(data);
    law_touch_settles_at_once(model.memory.was_touching, pressure);
    law_held_wheel_controls_are_silent(
        model.tablet_map,
        packet_tablet_buttons(data),
        TABLET_BUTTON_END as nat,
    );
    assert(controls_run(after, data) =~= Seq::empty());
    assert(touch_run(memory, pressure) =~= Seq::empty());
    if pressure == 0 && memory.last_pen_packet_at is Some {
        lemma_time_only_passes(
            memory.last_pen_packet_at->0,
            clock.checked_at,
            later.checked_at,
        );
    }
    let lost = pressure == 0 && memory.was_in_range && !in_range(
        memory.last_pen_packet_at,
        later.checked_at,
    );
    assert(proximity_run(memory, pressure, later) =~= (if lost {
        seq![key_emission(VirtualDevice::Pen, Key(BTN_TOOL_PEN), RELEASED)]
    } else {
        Seq::empty()
    }));
    let position = position_run(
        memory,
        rotated(packet_x(data)),
        rotated(packet_y(data)),
        output_pressure(pressure),
    );
    assert(dispatch_run(after, data, later) =~= proximity_run(memory, pressure, later) + position);
}

/// No less time has passed at a later reading of the clock.
proof fn lemma_time_only_passes(from: u128, to: u128, later: u128)
    requires
        to <= later,
    ensures
        elapsed_ms(from, to) <= elapsed_ms(from, later),
{
}

/// A packet that was not taken whole leaves the tablet's controls as they were
/// remembered, so that what they did is seen again in the next packet.
pub proof fn law_refused_packet_leaves_the_controls(
    model: DispatcherModel,
    data: Seq<u8>,
    clock: PacketClock,
    outbox: OutboxModel,
    next: Seq<u8>,
)
    requires
        !outbox.accepts(dispatch_run(model, data, clock)),
    ensures
        ({
            let memory = memory_after_dispatch(model, data, clock, outbox);
            let after = DispatcherModel { memory, ..model };
            &&& memory.tablet_last_raw_pressed_buttons
                == model.memory.tablet_last_raw_pressed_buttons
            &&& controls_run(after, next) == controls_run(model, next)
        }),
{
}

/// A barrel button's press whose pulse was refused is seen again in the next
/// packet: nothing of the packet is remembered.
pub proof fn law_refused_pulse_leaves_the_memory(
    model: DispatcherModel,
    data: Seq<u8>,
    clock: PacketClock,
    outbox: OutboxModel,
)
    requires
        !outbox.accepts(
            pen_button_run(
                model.pen_map,
                model.memory.pen_last_raw_pressed_button,
                packet_pen_button(data),
            ),
        ),
    ensures
        memory_after_dispatch(model, data, clock, outbox) == model.memory,
{
}

// ---------------------------------------------------------------------------
// Advertising
// ---------------------------------------------------------------------------

/// Whether every emission of a run is about something that its device
/// advertises.
pub open spec fn all_advertised(model: DispatcherModel, run: Seq<Emission>) -> bool {
    forall|i: int|
        0 <= i < run.len() ==> advertises(
            setup_for(model, (#[trigger] run[i]).device),
            run[i].event,
        )
}

/// Every emission of a packet is about something that its device advertises,
/// whatever the packet, the bindings and the memory.
pub proof fn law_every_emission_is_advertised(
    model: DispatcherModel,
    data: Seq<u8>,
    clock: PacketClock,
)
    ensures
        all_advertised(model, dispatch_run(model, data, clock)),
        all_advertised(model, pen_run(model, data, clock)),
        all_advertised(model, controls_run(model, data)),
        all_advertised(model, syn_run()),
{
    let m = model.memory;
    let pressure = packet_pressure(data);
    law_pulse_is_advertised(model, m.pen_last_raw_pressed_button, packet_pen_button(data));
    law_position_is_advertised(
        model,
        rotated(packet_x(data)),
        rotated(packet_y(data)),
        output_pressure(pressure),
    );
    law_controls_are_advertised(
        model,
        m.tablet_last_raw_pressed_buttons,
        packet_tablet_buttons(data),
        TABLET_BUTTON_END as nat,
    );
    assert(all_advertised(model, proximity_run(m, pressure, clock)));
    assert(all_advertised(model, touch_run(m, pressure)));
}

/// What the barrel buttons emit is advertised.
pub proof fn law_pulse_is_advertised(model: DispatcherModel, before: u8, now: u8)
    ensures
        all_advertised(model, pen_button_run(model.pen_map, before, now)),
{
    if pen_button_run(model.pen_map, before, now).len() > 0 {
        let keys = model.pen_map[now];
        assert forall|key: Key| keys.contains(key) implies keyboard_codes(model).contains(
            key.0,
        ) by {
            assert(model.pen_map.contains_key(now));
            assert(in_a_pulse(model.pen_map, Key(key.0)));
        }
        lemma_chord_is_advertised(model, keys, PRESSED);
        lemma_reversed_contains(keys);
        lemma_chord_is_advertised(model, keys.reverse(), RELEASED);
    }
}

/// What the pen's position and pressure emit is advertised.
pub proof fn law_position_is_advertised(model: DispatcherModel, x: int, y: int, pressure: int)
    ensures
        all_advertised(model, position_run(model.memory, x, y, pressure)),
{
    let axes = setup_for(model, VirtualDevice::Pen).absolute_axes;
    assert(axes[0].axis == ABS_X);
    assert(axes[1].axis == ABS_Y);
    assert(axes[2].axis == ABS_PRESSURE);
}

/// A reversed run holds the same keys.
proof fn lemma_reversed_contains(keys: Seq<Key>)
    ensures
        forall|key: Key| #[trigger] keys.reverse().contains(key) ==> keys.contains(key),
{
}

/// A chord of keys that the keyboard advertises is advertised.
proof fn lemma_chord_is_advertised(model: DispatcherModel, keys: Seq<Key>, value: i32)
    requires
        forall|key: Key| keys.contains(key) ==> keyboard_codes(model).contains(key.0),
    ensures
        all_advertised(model, chord_run(keys, value)),
{
    assert forall|i: int| 0 <= i < chord_run(keys, value).len() implies advertises(
        setup_for(model, (#[trigger] chord_run(keys, value)[i]).device),
        chord_run(keys, value)[i].event,
    ) by {
        if i < keys.len() {
            assert(keys.contains(keys[i]));
        }
    }
}

/// A frame of modifiers that the pointer advertises is advertised.
proof fn lemma_modifiers_are_advertised(model: DispatcherModel, modifiers: Seq<Key>, value: i32)
    requires
        forall|key: Key| modifiers.contains(key) ==> modifier_codes(model).contains(key.0),
    ensures
        all_advertised(model, modifier_run(modifiers, value)),
{
    assert forall|i: int| 0 <= i < modifier_run(modifiers, value).len() implies advertises(
        setup_for(model, (#[trigger] modifier_run(modifiers, value)[i]).device),
        modifier_run(modifiers, value)[i].event,
    ) by {
        if i < modifiers.len() {
            assert(modifiers.contains(modifiers[i]));
        }
    }
}

/// What a single tablet control emits is advertised, be it one that is scanned
/// or not.
pub proof fn law_control_is_advertised(model: DispatcherModel, before: u16, now: u16, id: u8)
    ensures
        all_advertised(model, tablet_key_run(model.tablet_map, before, now, id)),
{
    if model.tablet_map.contains_key(id) {
        match model.tablet_map[id] {
            ActionModel::Keys(keys) => {
                assert forall|key: Key| keys.contains(key) implies keyboard_codes(model).contains(
                    key.0,
                ) by {
                    assert(chord_part(model.tablet_map[id]).contains(Key(key.0)));
                    assert(in_a_chord(model.tablet_map, Key(key.0)));
                }
                lemma_chord_is_advertised(model, keys, PRESSED);
                lemma_chord_is_advertised(model, keys, RELEASED);
                lemma_chord_is_advertised(model, keys, HOLD);
            },
            ActionModel::Wheel { modifiers, delta } => {
                assert forall|key: Key| modifiers.contains(key) implies modifier_codes(
                    model,
                ).contains(key.0) by {
                    assert(wheel_part(model.tablet_map[id]).contains(Key(key.0)));
                    assert(modifies_a_wheel(model.tablet_map, Key(key.0)));
                }
                lemma_modifiers_are_advertised(model, modifiers, PRESSED);
                lemma_reversed_contains(modifiers);
                lemma_modifiers_are_advertised(model, modifiers.reverse(), RELEASED);
            },
        }
    }
}

/// What the tablet's controls below a bit emit is advertised.
pub proof fn law_controls_are_advertised(model: DispatcherModel, before: u16, now: u16, end: nat)
    ensures
        all_advertised(model, tablet_run(model.tablet_map, before, now, end)),
    decreases end,
{
    if end > 0 {
        law_controls_are_advertised(model, before, now, (end - 1) as nat);
        law_control_is_advertised(model, before, now, (end - 1) as u8);
    }
}

/// How the devices are to be set up depends on the bindings alone, and no
/// packet changes those: devices that were set up once advertise what later
/// packets emit.
pub proof fn law_setups_do_not_depend_on_the_memory(
    model: DispatcherModel,
    memory: Memory,
    device: VirtualDevice,
)
    ensures
        setup_for(DispatcherModel { memory, ..model }, device) == setup_for(model, device),
        bindings_advertisable(DispatcherModel { memory, ..model }) <==> bindings_advertisable(model),
{
    let other = DispatcherModel { memory, ..model };
    assert(keyboard_codes(other) =~= keyboard_codes(model));
    assert(modifier_codes(other) =~= modifier_codes(model));
}

/// Whether an emission on an absolute axis lies in the range that its device
/// advertises for it.
pub open spec fn in_advertised_range(model: DispatcherModel, emission: Emission) -> bool {
    let axes = setup_for(model, emission.device).absolute_axes;
    emission.event.event_type == EventType::Absolute ==> exists|k: int|
        0 <= k < axes.len() && (#[trigger] axes[k]).axis == emission.event.code && axes[k].minimum
            <= emission.event.value <= axes[k].maximum
}

/// The tablet's controls emit nothing on absolute axes.
proof fn lemma_controls_emit_no_positions(map: Map<u8, ActionModel>, before: u16, now: u16, end: nat)
    ensures
        forall|i: int|
            0 <= i < tablet_run(map, before, now, end).len() ==> (#[trigger] tablet_run(
                map,
                before,
                now,
                end,
            )[i]).event.event_type != EventType::Absolute,
    decreases end,
{
    if end > 0 {
        lemma_controls_emit_no_positions(map, before, now, (end - 1) as nat);
        let run = tablet_key_run(map, before, now, (end - 1) as u8);
        assert(forall|i: int|
            0 <= i < run.len() ==> (#[trigger] run[i]).event.event_type != EventType::Absolute);
    }
}

/// Whatever a packet emits on an absolute axis lies in the range that the pen
/// advertises for it, as long as the tablet's readings lie on the axes. Only at
/// the very edge, where the rotated position is the far end, does a nudge reach
/// one unit beyond.
pub proof fn law_positions_are_in_the_advertised_range(
    model: DispatcherModel,
    data: Seq<u8>,
    clock: PacketClock,
    i: int,
)
    requires
        packet_x(data) <= AXIS_MAX,
        packet_y(data) <= AXIS_MAX,
        packet_x(data) == 0 ==> nudged_x(
            model.memory,
            rotated(packet_x(data)),
            rotated(packet_y(data)),
        ) == rotated(packet_x(data)),
        0 <= i < dispatch_run(model, data, clock).len(),
    ensures
        in_advertised_range(model, dispatch_run(model, data, clock)[i]),
{
    let m = model.memory;
    let pressure = packet_pressure(data);
    let run1 = pen_button_run(model.pen_map, m.pen_last_raw_pressed_button, packet_pen_button(data));
    let run2 = proximity_run(m, pressure, clock);
    let run3 = position_run(
        m,
        rotated(packet_x(data)),
        rotated(packet_y(data)),
        output_pressure(pressure),
    );
    law_output_pressure_is_in_range(pressure);
    lemma_controls_emit_no_positions(
        model.tablet_map,
        m.tablet_last_raw_pressed_buttons,
        packet_tablet_buttons(data),
        TABLET_BUTTON_END as nat,
    );
    let emission = dispatch_run(model, data, clock)[i];
    let axes = setup_for(model, VirtualDevice::Pen).absolute_axes;
    let start = run1.len() + run2.len();
    if start <= i < start + 3 {
        assert(emission == run3[i - start]);
        assert(axes[0].axis == ABS_X);
        assert(axes[1].axis == ABS_Y);
        assert(axes[2].axis == ABS_PRESSURE);
    } else {
        assert(emission.event.event_type != EventType::Absolute);
    }
}

} // verus!
