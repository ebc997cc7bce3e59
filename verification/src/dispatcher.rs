//! From packets to emissions.

use std::collections::HashMap;

use vstd::prelude::*;
use vstd::std_specs::iter::IteratorSpec;

use crate::action::{Action, ActionModel};
use crate::input::{
    key_emission, key_emissions, rel_emission, syn_emission, Emission, EventType, InputEvent, Key,
    VirtualDevice, ABS_PRESSURE, ABS_X, ABS_Y, BTN_TOOL_PEN, BTN_TOUCH, KEY_CNT, KEY_LEFTCTRL,
    KEY_V, KEY_Z, REL_WHEEL,
};
use crate::model::{
    after_controls, after_nudge, after_position, after_proximity, after_sign, after_touch,
    change_run, controls_run, default_pen_model, default_tablet_model, dispatch_run, fresh_memory,
    memory_after_dispatch, memory_after_pen, modifier_run, notch_run, nudged_x, output_pressure,
    pen_button_run, pen_run, position_run, proximity_run, pulse_run, rotated, syn_run,
    tablet_key_run, tablet_run, touch_run, wheel_run, DispatcherModel, Memory, PacketClock,
    AXIS_MAX, HOLD, NANOS_PER_MS, PEN_BUTTON_MINUS, PEN_BUTTON_PLUS, PRESSED, PRESS_DEADBAND,
    PRESS_OUT_MAX, PRESS_RAW_MIN, PRESS_RELEASE_THRESHOLD, PRESS_TOUCH_THRESHOLD,
    PROXIMITY_TIMEOUT_MS, RELEASED, TABLET_BUTTON_END,
};
use crate::outbox::{law_outbox_runs_add_up, EmitError, Outbox, OutboxModel};
use crate::packet::{packet_pen_button, packet_pressure, packet_x, packet_y, RawDataReader};
use crate::setup::{
    bindings_advertisable, chord_part, codes_of, in_a_chord, in_a_pulse, keyboard_codes,
    lemma_codes_of, modifier_codes, modifies_a_wheel, setup_for, virtual_keyboard_builder,
    virtual_pen_builder, virtual_pointer_builder, wheel_part, DeviceSetup,
};

verus! {

broadcast use vstd::std_specs::hash::group_hash_axioms;

/// Turns packets into emissions, with the bindings of the controls and the
/// memory of the packets before.
pub struct DeviceDispatcher {
    tablet_button_id_to_action_map: HashMap<u8, Action>,
    pen_button_id_to_key_code_map: HashMap<u8, Vec<Key>>,
    memory: Memory,
}

impl View for DeviceDispatcher {
    type V = DispatcherModel;

    closed spec fn view(&self) -> DispatcherModel {
        DispatcherModel {
            tablet_map: self.tablet_button_id_to_action_map@.map_values(|action: Action| action@),
            pen_map: self.pen_button_id_to_key_code_map@.map_values(|keys: Vec<Key>| keys@),
            memory: self.memory,
        }
    }
}

/// Emits one value for each of a run of keys, in order.
fn emit_keys(out: &mut Outbox, device: VirtualDevice, keys: &Vec<Key>, value: i32) -> (result: Result<
    (),
    EmitError,
>)
    ensures
        final(out)@ == old(out)@.after(key_emissions(device, keys@, value)),
        result == old(out)@.reply(key_emissions(device, keys@, value)),
{
    let ghost all = key_emissions(device, keys@, value);
    let ghost start = out@;
    proof {
        assert(all.take(0) =~= Seq::empty());
        lemma_nothing_to_emit(start);
    }
    for i in 0..keys.len()
        invariant
            all == key_emissions(device, keys@, value),
            start == old(out)@,
            out@ == start.after(all.take(i as int)),
            start.accepts(all.take(i as int)),
    {
        let ghost next = key_emission(device, keys@[i as int], value);
        proof {
            law_outbox_runs_add_up(start, all.take(i as int), seq![next]);
            assert(all.take(i + 1) =~= all.take(i as int) + seq![next]);
            law_outbox_runs_add_up(start, all.take(i + 1), all.skip(i + 1));
            assert(all =~= all.take(i + 1) + all.skip(i + 1));
        }
        out.emit(device, InputEvent::new(EventType::Key, keys[i].code(), value))?;
    }
    assert(all.take(keys@.len() as int) =~= all);
    Ok(())
}

/// Emits one value for each of a run of keys, in reverse order.
fn emit_keys_reversed(
    out: &mut Outbox,
    device: VirtualDevice,
    keys: &Vec<Key>,
    value: i32,
) -> (result: Result<(), EmitError>)
    ensures
        final(out)@ == old(out)@.after(key_emissions(device, keys@.reverse(), value)),
        result == old(out)@.reply(key_emissions(device, keys@.reverse(), value)),
{
    let ghost all = key_emissions(device, keys@.reverse(), value);
    let ghost start = out@;
    proof {
        assert(all.take(0) =~= Seq::empty());
        lemma_nothing_to_emit(start);
    }
    let count = keys.len();
    for i in 0..count
        invariant
            count == keys@.len(),
            all == key_emissions(device, keys@.reverse(), value),
            start == old(out)@,
            out@ == start.after(all.take(i as int)),
            start.accepts(all.take(i as int)),
    {
        let ghost next = key_emission(device, keys@[count - 1 - i], value);
        proof {
            law_outbox_runs_add_up(start, all.take(i as int), seq![next]);
            assert(all.take(i + 1) =~= all.take(i as int) + seq![next]);
            law_outbox_runs_add_up(start, all.take(i + 1), all.skip(i + 1));
            assert(all =~= all.take(i + 1) + all.skip(i + 1));
        }
        out.emit(device, InputEvent::new(EventType::Key, keys[count - 1 - i].code(), value))?;
    }
    assert(all.take(keys@.len() as int) =~= all);
    Ok(())
}

/// Appends a run of keys to another.
fn append_keys(to: &mut Vec<Key>, keys: &Vec<Key>)
    ensures
        final(to)@ == old(to)@ + keys@,
{
    assert(old(to)@ + keys@.take(0) =~= old(to)@);
    for i in 0..keys.len()
        invariant
            to@ == old(to)@ + keys@.take(i as int),
    {
        to.push(keys[i]);
        assert(keys@.take(i + 1) =~= keys@.take(i as int).push(keys@[i as int]));
    }
    assert(keys@.take(keys@.len() as int) =~= keys@);
}

/// The keys of all chords in the bindings of the tablet's controls.
fn chord_keys(map: &HashMap<u8, Action>) -> (keys: Vec<Key>)
    ensures
        forall|key: Key|
            #![trigger keys@.contains(key)]
            keys@.contains(key) <==> exists|id: u8| #[trigger]
                map@.contains_key(id) && chord_part(map@[id]@).contains(key),
{
    let mut keys: Vec<Key> = Vec::new();
    let ghost part = |action: Action| chord_part(action@);
    let ghost walk = map.values().remaining();
    for action in it: map.values()
        invariant
            it.seq() == walk,
            walk.unref().to_set() == map@.values(),
            part == (|action: Action| chord_part(action@)),
            holds_parts(keys@, walk, it.index() as int, part),
    {
        let ghost before = keys@;
        let ghost index = it.index() as int;
        if let Action::Keys(chord) = action {
            append_keys(&mut keys, chord);
        }
        proof {
            assert(keys@ =~= before + part(*walk[index]));
            lemma_part_is_added(before, walk, index, part);
        }
    }
    proof {
        lemma_parts_of_all(map@, walk, part, keys@);
    }
    keys
}

/// The modifiers of all wheel notches in the bindings of the tablet's controls.
fn wheel_keys(map: &HashMap<u8, Action>) -> (keys: Vec<Key>)
    ensures
        forall|key: Key|
            #![trigger keys@.contains(key)]
            keys@.contains(key) <==> exists|id: u8| #[trigger]
                map@.contains_key(id) && wheel_part(map@[id]@).contains(key),
{
    let mut keys: Vec<Key> = Vec::new();
    let ghost part = |action: Action| wheel_part(action@);
    let ghost walk = map.values().remaining();
    for action in it: map.values()
        invariant
            it.seq() == walk,
            walk.unref().to_set() == map@.values(),
            part == (|action: Action| wheel_part(action@)),
            holds_parts(keys@, walk, it.index() as int, part),
    {
        let ghost before = keys@;
        let ghost index = it.index() as int;
        if let Action::Wheel { modifiers, .. } = action {
            append_keys(&mut keys, modifiers);
        }
        proof {
            assert(keys@ =~= before + part(*walk[index]));
            lemma_part_is_added(before, walk, index, part);
        }
    }
    proof {
        lemma_parts_of_all(map@, walk, part, keys@);
    }
    keys
}

/// The keys of all chords in the bindings of the barrel buttons.
fn pulse_keys(map: &HashMap<u8, Vec<Key>>) -> (keys: Vec<Key>)
    ensures
        forall|key: Key|
            #![trigger keys@.contains(key)]
            keys@.contains(key) <==> exists|id: u8| #[trigger]
                map@.contains_key(id) && map@[id]@.contains(key),
{
    let mut keys: Vec<Key> = Vec::new();
    let ghost part = |chord: Vec<Key>| chord@;
    let ghost walk = map.values().remaining();
    for chord in it: map.values()
        invariant
            it.seq() == walk,
            walk.unref().to_set() == map@.values(),
            part == (|chord: Vec<Key>| chord@),
            holds_parts(keys@, walk, it.index() as int, part),
    {
        let ghost before = keys@;
        let ghost index = it.index() as int;
        append_keys(&mut keys, chord);
        proof {
            assert(keys@ =~= before + part(*walk[index]));
            lemma_part_is_added(before, walk, index, part);
        }
    }
    proof {
        lemma_parts_of_all(map@, walk, part, keys@);
    }
    keys
}

/// Whether a run of keys holds the parts of the first values of a walk, and
/// nothing else.
spec fn holds_parts<V>(keys: Seq<Key>, walk: Seq<&V>, count: int, part: spec_fn(V) -> Seq<Key>) -> bool {
    forall|key: Key|
        #![trigger keys.contains(key)]
        keys.contains(key) <==> exists|j: int|
            0 <= j < count && part(*(#[trigger] walk[j])).contains(key)
}

/// One more part, appended, belongs to one more value of the walk.
proof fn lemma_part_is_added<V>(
    before: Seq<Key>,
    walk: Seq<&V>,
    index: int,
    part: spec_fn(V) -> Seq<Key>,
)
    requires
        0 <= index < walk.len(),
        holds_parts(before, walk, index, part),
    ensures
        holds_parts(before + part(*walk[index]), walk, index + 1, part),
{
    let added = part(*walk[index]);
    let keys = before + added;
    assert forall|key: Key| #![trigger keys.contains(key)]
        keys.contains(key) <==> exists|j: int|
            0 <= j < index + 1 && part(*(#[trigger] walk[j])).contains(key) by {
        vstd::seq_lib::lemma_seq_concat_contains_all_elements(before, added, key);
        if added.contains(key) {
            assert(part(*walk[index]).contains(key));
        }
    }
}

/// The parts of a whole walk over a map's values are those of the values of
/// all its keys.
proof fn lemma_parts_of_all<V>(
    map: Map<u8, V>,
    walk: Seq<&V>,
    part: spec_fn(V) -> Seq<Key>,
    keys: Seq<Key>,
)
    requires
        walk.unref().to_set() == map.values(),
        holds_parts(keys, walk, walk.len() as int, part),
    ensures
        forall|key: Key|
            #![trigger keys.contains(key)]
            keys.contains(key) <==> exists|id: u8| #[trigger]
                map.contains_key(id) && part(map[id]).contains(key),
{
    lemma_values_are_walked(map, walk.unref());
    assert forall|key: Key| #![trigger keys.contains(key)]
        keys.contains(key) <==> exists|id: u8| #[trigger]
            map.contains_key(id) && part(map[id]).contains(key) by {
        if keys.contains(key) {
            let j = choose|j: int|
                0 <= j < walk.len() && part(*(#[trigger] walk[j])).contains(key);
            assert(walk.unref().contains(walk.unref()[j]));
        }
        if exists|id: u8| #[trigger] map.contains_key(id) && part(map[id]).contains(key) {
            let id = choose|id: u8| #[trigger]
                map.contains_key(id) && part(map[id]).contains(key);
            assert(walk.unref().contains(map[id]));
            let j = choose|j: int| 0 <= j < walk.len() && walk.unref()[j] == map[id];
            assert(*walk[j] == map[id]);
        }
    }
}

/// The walk over a map's values meets the value of every key, and no other.
proof fn lemma_values_are_walked<V>(map: Map<u8, V>, walk: Seq<V>)
    requires
        walk.to_set() == map.values(),
    ensures
        forall|value: V| #[trigger] walk.contains(value) ==> map.contains_value(value),
        forall|id: u8| #[trigger] map.contains_key(id) ==> walk.contains(map[id]),
{
    assert forall|value: V| #[trigger] walk.contains(value) implies map.contains_value(value) by {
        assert(walk.to_set().contains(value));
        assert(map.values().contains(value));
    }
    assert forall|id: u8| #[trigger] map.contains_key(id) implies walk.contains(map[id]) by {
        assert(map.values().contains(map[id]));
        assert(walk.to_set().contains(map[id]));
    }
}

impl DeviceDispatcher {
    /// The bindings of the tablet's controls.
    fn default_tablet_map() -> (map: HashMap<u8, Action>)
        ensures
            map@.map_values(|action: Action| action@) == default_tablet_model(),
    {
        let mut map: HashMap<u8, Action> = HashMap::new();
        map.insert(8, Action::Wheel { modifiers: Vec::new(), delta: 1 });
        map.insert(5, Action::Wheel { modifiers: Vec::new(), delta: -1 });
        assert(map@.map_values(|action: Action| action@) =~= default_tablet_model());
        map
    }

    /// The bindings of the barrel buttons.
    fn default_pen_map() -> (map: HashMap<u8, Vec<Key>>)
        ensures
            map@.map_values(|keys: Vec<Key>| keys@) == default_pen_model(),
    {
        let mut map: HashMap<u8, Vec<Key>> = HashMap::new();
        let paste: Vec<Key> = vec![Key::new(KEY_LEFTCTRL), Key::new(KEY_V)];
        let undo: Vec<Key> = vec![Key::new(KEY_LEFTCTRL), Key::new(KEY_Z)];
        assert(paste@ =~= seq![Key(KEY_LEFTCTRL), Key(KEY_V)]);
        assert(undo@ =~= seq![Key(KEY_LEFTCTRL), Key(KEY_Z)]);
        map.insert(PEN_BUTTON_PLUS, paste);
        map.insert(PEN_BUTTON_MINUS, undo);
        assert(map@.map_values(|keys: Vec<Key>| keys@) =~= default_pen_model());
        map
    }

    /// A dispatcher with the default bindings, before the first packet.
    pub fn new() -> (dispatcher: DeviceDispatcher)
        ensures
            dispatcher@ == (DispatcherModel {
                tablet_map: default_tablet_model(),
                pen_map: default_pen_model(),
                memory: fresh_memory(),
            }),
            bindings_advertisable(dispatcher@),
    {
        proof {
            lemma_default_bindings_advertisable();
        }
        DeviceDispatcher {
            tablet_button_id_to_action_map: Self::default_tablet_map(),
            pen_button_id_to_key_code_map: Self::default_pen_map(),
            memory: Memory {
                tablet_last_raw_pressed_buttons: 0xffff,
                pen_last_raw_pressed_button: 0,
                was_touching: false,
                was_in_range: false,
                last_pen_packet_at: None,
                last_x: 0,
                last_y: 0,
                last_pressure: -1,
                have_last_xy: false,
                hover_jitter_toggle: false,
            },
        }
    }

    /// The setups of the virtual devices, in the order in which they are to be
    /// created: the pen, the keyboard, the pointer. Each advertises all that it
    /// may emit.
    pub fn device_setups(&self) -> (setups: (DeviceSetup, DeviceSetup, DeviceSetup))
        requires
            bindings_advertisable(self@),
        ensures
            setups.0.is_setup_of(setup_for(self@, VirtualDevice::Pen)),
            setups.1.is_setup_of(setup_for(self@, VirtualDevice::Keyboard)),
            setups.2.is_setup_of(setup_for(self@, VirtualDevice::Pointer)),
    {
        let mut keyboard_keys = chord_keys(&self.tablet_button_id_to_action_map);
        let pen_keys = pulse_keys(&self.pen_button_id_to_key_code_map);
        let ghost tablet_keys = keyboard_keys@;
        append_keys(&mut keyboard_keys, &pen_keys);
        let pointer_modifier_keys = wheel_keys(&self.tablet_button_id_to_action_map);
        let no_keys: Vec<Key> = Vec::new();
        proof {
            let tablet = self.tablet_button_id_to_action_map@;
            let pen = self.pen_button_id_to_key_code_map@;
            assert forall|key: Key| keyboard_keys@.contains(key) <==> in_a_chord(
                self@.tablet_map,
                key,
            ) || in_a_pulse(self@.pen_map, key) by {
                vstd::seq_lib::lemma_seq_concat_contains_all_elements(tablet_keys, pen_keys@, key);
                assert(forall|id: u8| #[trigger]
                    tablet.contains_key(id) <==> self@.tablet_map.contains_key(id));
                assert(forall|id: u8| #[trigger]
                    pen.contains_key(id) <==> self@.pen_map.contains_key(id));
            }
            assert forall|key: Key| pointer_modifier_keys@.contains(key) <==> modifies_a_wheel(
                self@.tablet_map,
                key,
            ) by {
                assert(forall|id: u8| #[trigger]
                    tablet.contains_key(id) <==> self@.tablet_map.contains_key(id));
            }
            lemma_codes_of(keyboard_keys@);
            lemma_codes_of(pointer_modifier_keys@);
            lemma_codes_of(no_keys@);
            assert(codes_of(keyboard_keys@) =~= keyboard_codes(self@));
            assert(codes_of(pointer_modifier_keys@) =~= modifier_codes(self@));
            assert(codes_of(no_keys@) =~= Set::empty());
            assert forall|i: int| 0 <= i < keyboard_keys@.len() implies (
            #[trigger] keyboard_keys@[i]).0 < KEY_CNT by {
                assert(keyboard_codes(self@).contains(keyboard_keys@[i].0));
            }
            assert forall|i: int| 0 <= i < pointer_modifier_keys@.len() implies (
            #[trigger] pointer_modifier_keys@[i]).0 < KEY_CNT by {
                assert(modifier_codes(self@).contains(pointer_modifier_keys@[i].0));
            }
        }
        let virtual_pen = virtual_pen_builder(&no_keys);
        let virtual_keyboard = virtual_keyboard_builder(&keyboard_keys);
        let virtual_pointer = virtual_pointer_builder(&pointer_modifier_keys);
        (virtual_pen, virtual_keyboard, virtual_pointer)
    }

    /// Ends the frame on every device.
    pub fn syn(&self, out: &mut Outbox) -> (result: Result<(), EmitError>)
        ensures
            final(out)@ == old(out)@.after(syn_run()),
            result == old(out)@.reply(syn_run()),
    {
        proof {
            let first = seq![syn_emission(VirtualDevice::Keyboard)];
            let second = seq![syn_emission(VirtualDevice::Pen)];
            let third = seq![syn_emission(VirtualDevice::Pointer)];
            law_outbox_runs_add_up(out@, first, second);
            law_outbox_runs_add_up(out@, first + second, third);
            assert(syn_run() =~= first + second + third);
        }
        out.emit_syn(VirtualDevice::Keyboard)?;
        out.emit_syn(VirtualDevice::Pen)?;
        out.emit_syn(VirtualDevice::Pointer)?;
        Ok(())
    }

    /// Emits one wheel notch with modifiers held around it. All of it goes to
    /// the pointer, so that the modifiers are held when the notch is seen.
    fn emit_wheel(modifiers: &Vec<Key>, delta: i32, out: &mut Outbox) -> (result: Result<
        (),
        EmitError,
    >)
        ensures
            final(out)@ == old(out)@.after(wheel_run(modifiers@, delta)),
            result == old(out)@.reply(wheel_run(modifiers@, delta)),
    {
        let ghost start = out@;
        let ghost press = modifier_run(modifiers@, PRESSED);
        let ghost release = modifier_run(modifiers@.reverse(), RELEASED);
        let ghost syn = seq![syn_emission(VirtualDevice::Pointer)];
        let ghost step = seq![rel_emission(VirtualDevice::Pointer, REL_WHEEL, delta)];
        proof {
            law_outbox_runs_add_up(start, press, step);
            law_outbox_runs_add_up(start, press + step, syn);
            law_outbox_runs_add_up(start, press + step + syn, release);
            assert(press + step + syn =~= press + notch_run(delta));
            assert(press + step + syn + release =~= wheel_run(modifiers@, delta));
            law_outbox_runs_add_up(start, press + step, syn + release);
            assert(press + step + (syn + release) =~= wheel_run(modifiers@, delta));
            law_outbox_runs_add_up(start, press, step + syn + release);
            assert(press + (step + syn + release) =~= wheel_run(modifiers@, delta));
        }
        // 1. Press the modifiers.
        if !modifiers.is_empty() {
            proof {
                let keys = key_emissions(VirtualDevice::Pointer, modifiers@, PRESSED);
                law_outbox_runs_add_up(start, keys, syn);
            }
            emit_keys(out, VirtualDevice::Pointer, modifiers, PRESSED)?;
            out.emit_syn(VirtualDevice::Pointer)?;
        } else {
            assert(start.taken + press =~= start.taken);
        }

        // 2. One notch.
        out.emit(VirtualDevice::Pointer, InputEvent::new(EventType::Relative, REL_WHEEL, delta))?;
        out.emit_syn(VirtualDevice::Pointer)?;

        // 3. Release the modifiers, in reverse.
        let ghost before = out@;
        if !modifiers.is_empty() {
            proof {
                let keys = key_emissions(VirtualDevice::Pointer, modifiers@.reverse(), RELEASED);
                law_outbox_runs_add_up(before, keys, syn);
            }
            emit_keys_reversed(out, VirtualDevice::Pointer, modifiers, RELEASED)?;
            out.emit_syn(VirtualDevice::Pointer)?;
        } else {
            assert(before.taken + release =~= before.taken);
        }
        Ok(())
    }

    /// Handles one tablet control, given the button word of the new packet.
    pub fn emit_tablet_key_event(&self, i: u8, raw_button_as_flags: u16, out: &mut Outbox) -> (result:
        Result<(), EmitError>)
        requires
            i < 16,
        ensures
            final(out)@ == old(out)@.after(
                tablet_key_run(
                    self@.tablet_map,
                    self@.memory.tablet_last_raw_pressed_buttons,
                    raw_button_as_flags,
                    i,
                ),
            ),
            result == old(out)@.reply(
                tablet_key_run(
                    self@.tablet_map,
                    self@.memory.tablet_last_raw_pressed_buttons,
                    raw_button_as_flags,
                    i,
                ),
            ),
    {
        proof {
            lemma_nothing_to_emit(out@);
        }
        let id_as_binary_mask: u16 = 1u16 << i;
        let is_pressed = (raw_button_as_flags & id_as_binary_mask) == 0;
        let was_pressed = (self.memory.tablet_last_raw_pressed_buttons & id_as_binary_mask) == 0;

        let state: i32 = match (was_pressed, is_pressed) {
            (false, true) => PRESSED,
            (true, false) => RELEASED,
            (true, true) => HOLD,
            (false, false) => return Ok(()),
        };

        // Controls without a binding are ignored.
        match self.tablet_button_id_to_action_map.get(&i) {
            Some(Action::Keys(keys)) => {
                proof {
                    let emissions = key_emissions(VirtualDevice::Keyboard, keys@, state);
                    let syn = seq![syn_emission(VirtualDevice::Keyboard)];
                    law_outbox_runs_add_up(out@, emissions, syn);
                }
                emit_keys(out, VirtualDevice::Keyboard, keys, state)?;
                out.emit_syn(VirtualDevice::Keyboard)?;
            },
            // Exactly one notch, when the control goes down.
            Some(Action::Wheel { modifiers, delta }) => {
                if state == PRESSED {
                    Self::emit_wheel(modifiers, *delta, out)?;
                }
            },
            None => {},
        }
        Ok(())
    }

    /// Handles every tablet control that is scanned, from the lowest bit up.
    pub fn binary_flags_to_tablet_key_events(&self, raw_button_as_flags: u16, out: &mut Outbox) -> (result:
        Result<(), EmitError>)
        ensures
            final(out)@ == old(out)@.after(
                tablet_run(
                    self@.tablet_map,
                    self@.memory.tablet_last_raw_pressed_buttons,
                    raw_button_as_flags,
                    TABLET_BUTTON_END as nat,
                ),
            ),
            result == old(out)@.reply(
                tablet_run(
                    self@.tablet_map,
                    self@.memory.tablet_last_raw_pressed_buttons,
                    raw_button_as_flags,
                    TABLET_BUTTON_END as nat,
                ),
            ),
    {
        let ghost start = out@;
        let ghost map = self@.tablet_map;
        let ghost before = self@.memory.tablet_last_raw_pressed_buttons;
        proof {
            lemma_nothing_to_emit(start);
        }
        let mut i: u8 = 0;
        while i < TABLET_BUTTON_END
            invariant
                i <= TABLET_BUTTON_END,
                start == old(out)@,
                map == self@.tablet_map,
                before == self@.memory.tablet_last_raw_pressed_buttons,
                out@ == start.after(tablet_run(map, before, raw_button_as_flags, i as nat)),
                start.accepts(tablet_run(map, before, raw_button_as_flags, i as nat)),
            decreases TABLET_BUTTON_END - i,
        {
            if i != 10 && i != 11 {
                proof {
                    law_outbox_runs_add_up(
                        start,
                        tablet_run(map, before, raw_button_as_flags, i as nat),
                        tablet_key_run(map, before, raw_button_as_flags, i),
                    );
                    lemma_tablet_run_starts_with(
                        map,
                        before,
                        raw_button_as_flags,
                        (i + 1) as nat,
                        TABLET_BUTTON_END as nat,
                        start,
                    );
                }
                self.emit_tablet_key_event(i, raw_button_as_flags, out)?;
            }
            i = i + 1;
        }
        Ok(())
    }

    /// Handles the tablet's controls.
    pub fn emit_tablet_events(&mut self, raw_data: &RawDataReader, out: &mut Outbox) -> (result: Result<
        (),
        EmitError,
    >)
        requires
            raw_data@.len() > 12,
        ensures
            final(out)@ == old(out)@.after(controls_run(old(self)@, raw_data@)),
            result == old(out)@.reply(controls_run(old(self)@, raw_data@)),
            final(self)@ == (DispatcherModel {
                memory: if old(out)@.accepts(controls_run(old(self)@, raw_data@)) {
                    after_controls(old(self)@.memory, raw_data@)
                } else {
                    old(self)@.memory
                },
                ..old(self)@
            }),
    {
        let raw_button_as_binary_flags = raw_data.tablet_buttons_as_binary_flags();
        self.binary_flags_to_tablet_key_events(raw_button_as_binary_flags, out)?;
        self.memory.tablet_last_raw_pressed_buttons = raw_button_as_binary_flags;
        Ok(())
    }

    /// Handles the barrel buttons: one pulse of the bound chord per press.
    /// Releases and holds do nothing, as the chord has already been released.
    pub fn raw_pen_buttons_to_pen_key_events(&self, pen_button: u8, out: &mut Outbox) -> (result: Result<
        (),
        EmitError,
    >)
        ensures
            final(out)@ == old(out)@.after(
                pen_button_run(
                    self@.pen_map,
                    self@.memory.pen_last_raw_pressed_button,
                    pen_button,
                ),
            ),
            result == old(out)@.reply(
                pen_button_run(
                    self@.pen_map,
                    self@.memory.pen_last_raw_pressed_button,
                    pen_button,
                ),
            ),
    {
        proof {
            lemma_nothing_to_emit(out@);
        }
        if self.memory.pen_last_raw_pressed_button == pen_button || (pen_button != PEN_BUTTON_PLUS
            && pen_button != PEN_BUTTON_MINUS) {
            return Ok(());
        }
        if let Some(keys) = self.pen_button_id_to_key_code_map.get(&pen_button) {
            proof {
                let press = key_emissions(VirtualDevice::Keyboard, keys@, PRESSED);
                let release = key_emissions(VirtualDevice::Keyboard, keys@.reverse(), RELEASED);
                let syn = seq![syn_emission(VirtualDevice::Keyboard)];
                let start = out@;
                let all = pulse_run(keys@);
                law_outbox_runs_add_up(start, press, syn);
                law_outbox_runs_add_up(start, press + syn, release);
                law_outbox_runs_add_up(start, press + syn + release, syn);
                assert(all =~= press + syn + release + syn);
                law_outbox_runs_add_up(start, press + syn, release + syn);
                assert(all =~= press + syn + (release + syn));
                law_outbox_runs_add_up(start, press, syn + release + syn);
                assert(all =~= press + (syn + release + syn));
            }
            emit_keys(out, VirtualDevice::Keyboard, keys, PRESSED)?;
            out.emit_syn(VirtualDevice::Keyboard)?;
            emit_keys_reversed(out, VirtualDevice::Keyboard, keys, RELEASED)?;
            out.emit_syn(VirtualDevice::Keyboard)?;
        }
        Ok(())
    }

    /// Emits a pen button's change, if it has changed.
    fn emit_change(button: u16, before: bool, now: bool, out: &mut Outbox) -> (result: Result<
        (),
        EmitError,
    >)
        ensures
            final(out)@ == old(out)@.after(change_run(button, before, now)),
            result == old(out)@.reply(change_run(button, before, now)),
    {
        proof {
            lemma_nothing_to_emit(out@);
        }
        let state: i32 = match (before, now) {
            (false, true) => PRESSED,
            (true, false) => RELEASED,
            _ => return Ok(()),
        };
        out.emit(VirtualDevice::Pen, InputEvent::new(EventType::Key, button, state))
    }

    /// Handles the pen's proximity. The pen stays in range for a while after
    /// its last sign, since a resting pen sends none.
    pub fn pen_emit_proximity(&mut self, raw_data: &RawDataReader, clock: PacketClock, out: &mut Outbox)
        -> (result: Result<(), EmitError>)
        requires
            raw_data@.len() > 6,
        ensures
            final(out)@ == old(out)@.after(
                proximity_run(old(self)@.memory, packet_pressure(raw_data@), clock),
            ),
            result == old(out)@.reply(
                proximity_run(old(self)@.memory, packet_pressure(raw_data@), clock),
            ),
            final(self)@ == (DispatcherModel {
                memory: if result is Ok {
                    after_proximity(old(self)@.memory, packet_pressure(raw_data@), clock)
                } else {
                    after_sign(old(self)@.memory, packet_pressure(raw_data@), clock)
                },
                ..old(self)@
            }),
    {
        let raw = raw_data.pressure();
        if raw > 0 {
            self.memory.last_pen_packet_at = Some(clock.arrived_at);
        }
        let is_in_range = match self.memory.last_pen_packet_at {
            Some(at) => {
                let elapsed: u128 = if clock.checked_at > at {
                    clock.checked_at - at
                } else {
                    0
                };
                elapsed / NANOS_PER_MS < PROXIMITY_TIMEOUT_MS
            },
            None => false,
        };
        Self::emit_change(BTN_TOOL_PEN, self.memory.was_in_range, is_in_range, out)?;
        self.memory.was_in_range = is_in_range;
        Ok(())
    }

    /// The output pressure for a raw one.
    pub fn normalize_pressure(raw_pressure: i32) -> (pressure: i32)
        requires
            PRESS_TOUCH_THRESHOLD - raw_pressure <= i32::MAX,
        ensures
            pressure == output_pressure(raw_pressure as int),
    {
        let range: i32 = PRESS_TOUCH_THRESHOLD - PRESS_RAW_MIN;
        let force: i32 = PRESS_TOUCH_THRESHOLD - raw_pressure;
        if force <= PRESS_DEADBAND {
            return 0;
        }
        let clamped: i32 = if force < range {
            force
        } else {
            range
        };
        (clamped * PRESS_OUT_MAX) / range
    }

    /// Handles the pen's position and pressure. Positions are turned by half a
    /// turn; a pen that hovers where it was is nudged back and forth.
    pub fn raw_pen_abs_to_pen_abs_events(
        &mut self,
        x_axis: i32,
        y_axis: i32,
        pressure: i32,
        out: &mut Outbox,
    ) -> (result: Result<(), EmitError>)
        requires
            nudged_x(old(self)@.memory, rotated(x_axis as int), rotated(y_axis as int)) <= i32::MAX,
            rotated(y_axis as int) <= i32::MAX,
        ensures
            final(out)@ == old(out)@.after(
                position_run(
                    old(self)@.memory,
                    rotated(x_axis as int),
                    rotated(y_axis as int),
                    pressure as int,
                ),
            ),
            result == old(out)@.reply(
                position_run(
                    old(self)@.memory,
                    rotated(x_axis as int),
                    rotated(y_axis as int),
                    pressure as int,
                ),
            ),
            final(self)@ == (DispatcherModel {
                memory: if result is Ok {
                    after_position(
                        old(self)@.memory,
                        rotated(x_axis as int),
                        rotated(y_axis as int),
                        pressure as int,
                    )
                } else {
                    after_nudge(old(self)@.memory, rotated(x_axis as int), rotated(y_axis as int))
                },
                ..old(self)@
            }),
    {
        let x: i32 = AXIS_MAX - x_axis;
        let y: i32 = AXIS_MAX - y_axis;

        let stationary = self.memory.have_last_xy && x == self.memory.last_x && y
            == self.memory.last_y;
        let emit_x: i32 = if stationary && !self.memory.was_touching {
            self.memory.hover_jitter_toggle = !self.memory.hover_jitter_toggle;
            if self.memory.hover_jitter_toggle {
                x + 1
            } else {
                x
            }
        } else {
            x
        };
        proof {
            let run = position_run(old(self)@.memory, x as int, y as int, pressure as int);
            let first = seq![run[0]];
            let second = seq![run[1]];
            let third = seq![run[2]];
            law_outbox_runs_add_up(out@, first, second);
            law_outbox_runs_add_up(out@, first + second, third);
            assert(run =~= first + second + third);
        }
        out.emit(VirtualDevice::Pen, InputEvent::new(EventType::Absolute, ABS_X, emit_x))?;
        out.emit(VirtualDevice::Pen, InputEvent::new(EventType::Absolute, ABS_Y, y))?;
        out.emit(VirtualDevice::Pen, InputEvent::new(EventType::Absolute, ABS_PRESSURE, pressure))?;

        self.memory.last_x = x;
        self.memory.last_y = y;
        self.memory.last_pressure = pressure;
        self.memory.have_last_xy = true;
        Ok(())
    }

    /// Handles the pen's touch.
    pub fn pen_emit_touch(&mut self, raw_data: &RawDataReader, out: &mut Outbox) -> (result: Result<
        (),
        EmitError,
    >)
        requires
            raw_data@.len() > 6,
        ensures
            final(out)@ == old(out)@.after(touch_run(old(self)@.memory, packet_pressure(raw_data@))),
            result == old(out)@.reply(touch_run(old(self)@.memory, packet_pressure(raw_data@))),
            final(self)@ == (DispatcherModel {
                memory: if result is Ok {
                    after_touch(old(self)@.memory, packet_pressure(raw_data@))
                } else {
                    old(self)@.memory
                },
                ..old(self)@
            }),
    {
        let raw = raw_data.pressure();
        let is_touching = if self.memory.was_touching {
            raw < PRESS_RELEASE_THRESHOLD
        } else {
            raw < PRESS_TOUCH_THRESHOLD
        };
        Self::emit_change(BTN_TOUCH, self.memory.was_touching, is_touching, out)?;
        self.memory.was_touching = is_touching;
        Ok(())
    }

    /// Handles the pen: barrel buttons, proximity, position, touch.
    pub fn emit_pen_events(&mut self, raw_data: &RawDataReader, clock: PacketClock, out: &mut Outbox) -> (result:
        Result<(), EmitError>)
        requires
            raw_data@.len() > 9,
        ensures
            final(out)@ == old(out)@.after(pen_run(old(self)@, raw_data@, clock)),
            result == old(out)@.reply(pen_run(old(self)@, raw_data@, clock)),
            final(self)@ == (DispatcherModel {
                memory: memory_after_pen(old(self)@, raw_data@, clock, old(out)@),
                ..old(self)@
            }),
    {
        proof {
            let m = self@.memory;
            let data = raw_data@;
            let pressure = packet_pressure(data);
            let run1 = pen_button_run(
                self@.pen_map,
                m.pen_last_raw_pressed_button,
                packet_pen_button(data),
            );
            let run2 = proximity_run(m, pressure, clock);
            let run3 = position_run(
                m,
                rotated(packet_x(data)),
                rotated(packet_y(data)),
                output_pressure(pressure),
            );
            let run4 = touch_run(m, pressure);
            law_outbox_runs_add_up(out@, run1, run2);
            law_outbox_runs_add_up(out@, run1 + run2, run3);
            law_outbox_runs_add_up(out@, run1 + run2 + run3, run4);
        }
        let raw_pen_buttons = raw_data.pen_buttons();
        self.raw_pen_buttons_to_pen_key_events(raw_pen_buttons, out)?;
        self.memory.pen_last_raw_pressed_button = raw_pen_buttons;

        self.pen_emit_proximity(raw_data, clock, out)?;

        let normalized_pressure = Self::normalize_pressure(raw_data.pressure());
        self.raw_pen_abs_to_pen_abs_events(
            raw_data.x_axis(),
            raw_data.y_axis(),
            normalized_pressure,
            out,
        )?;

        self.pen_emit_touch(raw_data, out)?;
        Ok(())
    }

    /// Handles one packet: the pen first, then the tablet's controls. The
    /// first refusal ends it, so that the bytes of the controls need to be there
    /// only if all of the pen's emissions are taken.
    pub fn dispatch(&mut self, raw_data: &RawDataReader, clock: PacketClock, out: &mut Outbox) -> (result:
        Result<(), EmitError>)
        requires
            raw_data@.len() > 9,
            old(out)@.accepts(pen_run(old(self)@, raw_data@, clock)) ==> raw_data@.len() > 12,
        ensures
            final(out)@ == old(out)@.after(dispatch_run(old(self)@, raw_data@, clock)),
            result == old(out)@.reply(dispatch_run(old(self)@, raw_data@, clock)),
            final(self)@ == (DispatcherModel {
                memory: memory_after_dispatch(old(self)@, raw_data@, clock, old(out)@),
                ..old(self)@
            }),
    {
        proof {
            law_outbox_runs_add_up(
                out@,
                pen_run(self@, raw_data@, clock),
                controls_run(self@, raw_data@),
            );
        }
        self.emit_pen_events(raw_data, clock, out)?;
        self.emit_tablet_events(raw_data, out)?;
        Ok(())
    }

    /// Everything that a packet is going to emit. The packet is not handled.
    pub fn preview(&mut self, raw_data: &RawDataReader, clock: PacketClock) -> (run: Vec<Emission>)
        requires
            raw_data@.len() > 12,
        ensures
            run@ == dispatch_run(old(self)@, raw_data@, clock),
            final(self)@ == old(self)@,
    {
        let memory = self.memory;
        let mut out = Outbox::open();
        let _ = self.dispatch(raw_data, clock, &mut out);
        self.memory = memory;
        let run = out.into_taken();
        assert(Seq::<Emission>::empty() + run@ =~= run@);
        run
    }
}

impl Default for DeviceDispatcher {
    /// A dispatcher with the default bindings, before the first packet.
    fn default() -> (dispatcher: DeviceDispatcher)
        ensures
            dispatcher@ == (DispatcherModel {
                tablet_map: default_tablet_model(),
                pen_map: default_pen_model(),
                memory: fresh_memory(),
            }),
            bindings_advertisable(dispatcher@),
    {
        DeviceDispatcher::new()
    }
}

/// A refusal among the lower controls is one of all of them.
proof fn lemma_tablet_run_starts_with(
    map: Map<u8, ActionModel>,
    before: u16,
    now: u16,
    lower: nat,
    end: nat,
    outbox: OutboxModel,
)
    requires
        lower <= end,
    ensures
        !outbox.accepts(tablet_run(map, before, now, lower)) ==> {
            &&& !outbox.accepts(tablet_run(map, before, now, end))
            &&& outbox.after(tablet_run(map, before, now, end)) == outbox.after(
                tablet_run(map, before, now, lower),
            )
        },
    decreases end,
{
    if lower < end {
        let less = (end - 1) as nat;
        lemma_tablet_run_starts_with(map, before, now, lower, less, outbox);
        law_outbox_runs_add_up(
            outbox,
            tablet_run(map, before, now, less),
            tablet_key_run(map, before, now, less as u8),
        );
    }
}

/// The default bindings are plain keys, which a device can advertise.
proof fn lemma_default_bindings_advertisable()
    ensures
        forall|model: DispatcherModel|
            model.tablet_map == default_tablet_model() && model.pen_map == default_pen_model()
                ==> #[trigger] bindings_advertisable(model),
{
    assert forall|model: DispatcherModel|
        model.tablet_map == default_tablet_model() && model.pen_map
            == default_pen_model() implies #[trigger] bindings_advertisable(model) by {
        assert forall|code: u16| #[trigger] keyboard_codes(model).contains(code) implies code
            < KEY_CNT by {
            assert(!in_a_chord(model.tablet_map, Key(code)));
            assert(in_a_pulse(model.pen_map, Key(code)));
        }
        assert forall|code: u16| #[trigger] modifier_codes(model).contains(code) implies code
            < KEY_CNT by {
            assert(modifies_a_wheel(model.tablet_map, Key(code)));
        }
    }
}

/// A run without emissions leaves an outbox as it is.
proof fn lemma_nothing_to_emit(outbox: OutboxModel)
    ensures
        outbox.after(Seq::empty()) == outbox,
        outbox.accepts(Seq::empty()),
{
    assert(outbox.taken + Seq::<Emission>::empty() =~= outbox.taken);
}

} // verus!
