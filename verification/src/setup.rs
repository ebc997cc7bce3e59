//! What each virtual device has to advertise before it can emit.

use vstd::prelude::*;

use crate::action::ActionModel;
use crate::attributes::{
    axis_set_codes, axis_set_list, insert_axis, insert_key, key_set_codes, key_set_list, lists,
    new_axis_set, new_key_set, KeySet,
};
use crate::input::{
    EventType, InputEvent, Key, VirtualDevice, ABS_PRESSURE, ABS_X, ABS_Y, BTN_LEFT, BTN_RIGHT,
    BTN_TOOL_PEN, BTN_TOUCH, KEY_CNT, REL_HWHEEL, REL_WHEEL,
};
use crate::model::{DispatcherModel, AXIS_MAX, PRESS_OUT_MAX};

verus! {

/// The range and the resolution of an absolute axis.
#[derive(Clone, Copy, PartialEq, Eq, Structural, Debug)]
pub struct AbsSetup {
    pub axis: u16,
    pub value: i32,
    pub minimum: i32,
    pub maximum: i32,
    pub fuzz: i32,
    pub flat: i32,
    pub resolution: i32,
}

/// How to set up a virtual device: its absolute axes in their order, then its
/// relative axes, if it is to have any, then its keys.
pub struct DeviceSetup {
    pub name: &'static str,
    pub absolute_axes: Vec<AbsSetup>,
    pub relative_axes: Option<Vec<u16>>,
    pub keys: Vec<u16>,
}

/// What a [`DeviceSetup`] stands for.
pub struct SetupModel {
    pub name: Seq<char>,
    pub absolute_axes: Seq<AbsSetup>,
    pub relative_axes: Option<Set<u16>>,
    pub keys: Set<u16>,
}

impl DeviceSetup {
    /// Whether this setup is that of a model: the same name and absolute axes,
    /// and the codes of the sets, each once, from the lowest up.
    pub open spec fn is_setup_of(self, model: SetupModel) -> bool {
        &&& self.name@ == model.name
        &&& self.absolute_axes@ == model.absolute_axes
        &&& match (self.relative_axes, model.relative_axes) {
            (Some(codes), Some(set)) => lists(codes@, set),
            (None, None) => true,
            _ => false,
        }
        &&& lists(self.keys@, model.keys)
    }
}

/// The codes of a run of keys.
pub open spec fn codes_of(keys: Seq<Key>) -> Set<u16> {
    keys.map_values(|key: Key| key.0).to_set()
}

/// Whether a device can advertise every key of a run.
pub open spec fn advertisable(keys: Seq<Key>) -> bool {
    forall|i: int| 0 <= i < keys.len() ==> (#[trigger] keys[i]).0 < KEY_CNT
}

/// An absolute axis that starts at zero.
pub open spec fn abs_axis(axis: u16, maximum: i32) -> AbsSetup {
    AbsSetup { axis, value: 0, minimum: 0, maximum, fuzz: 0, flat: 0, resolution: 1 }
}

/// The keyboard: the keys that it emits.
pub open spec fn keyboard_setup(keys: Set<u16>) -> SetupModel {
    SetupModel {
        name: "virtual_tablet_keys"@,
        absolute_axes: Seq::empty(),
        relative_axes: None,
        keys,
    }
}

/// The pointer: both wheels, the left button, which makes it a pointer, and
/// the modifiers that it emits.
pub open spec fn pointer_setup(modifiers: Set<u16>) -> SetupModel {
    SetupModel {
        name: "virtual_tablet_pointer"@,
        absolute_axes: Seq::empty(),
        relative_axes: Some(set![REL_WHEEL, REL_HWHEEL]),
        keys: modifiers.insert(BTN_LEFT),
    }
}

/// The pen: position and pressure, its tool and touch buttons, the two mouse
/// buttons, and the keys that it emits.
pub open spec fn pen_setup(keys: Set<u16>) -> SetupModel {
    SetupModel {
        name: "virtual_tablet_pen"@,
        absolute_axes: seq![
            abs_axis(ABS_X, AXIS_MAX),
            abs_axis(ABS_Y, AXIS_MAX),
            abs_axis(ABS_PRESSURE, PRESS_OUT_MAX),
        ],
        relative_axes: None,
        keys: keys.union(set![BTN_TOOL_PEN, BTN_TOUCH, BTN_LEFT, BTN_RIGHT]),
    }
}

/// The keys of an action that is a chord.
pub open spec fn chord_part(action: ActionModel) -> Seq<Key> {
    match action {
        ActionModel::Keys(keys) => keys,
        ActionModel::Wheel { .. } => Seq::empty(),
    }
}

/// The modifiers of an action that is a wheel notch.
pub open spec fn wheel_part(action: ActionModel) -> Seq<Key> {
    match action {
        ActionModel::Keys(_) => Seq::empty(),
        ActionModel::Wheel { modifiers, .. } => modifiers,
    }
}

/// Whether some tablet control's chord holds a key.
pub open spec fn in_a_chord(map: Map<u8, ActionModel>, key: Key) -> bool {
    exists|id: u8| #[trigger] map.contains_key(id) && chord_part(map[id]).contains(key)
}

/// Whether a key modifies some tablet control's wheel notch.
pub open spec fn modifies_a_wheel(map: Map<u8, ActionModel>, key: Key) -> bool {
    exists|id: u8| #[trigger] map.contains_key(id) && wheel_part(map[id]).contains(key)
}

/// Whether some barrel button's chord holds a key.
pub open spec fn in_a_pulse(map: Map<u8, Seq<Key>>, key: Key) -> bool {
    exists|id: u8| #[trigger] map.contains_key(id) && map[id].contains(key)
}

/// The codes of the keys that the keyboard may emit.
pub open spec fn keyboard_codes(model: DispatcherModel) -> Set<u16> {
    Set::new(
        |code: u16|
            in_a_chord(model.tablet_map, Key(code)) || in_a_pulse(model.pen_map, Key(code)),
    )
}

/// The codes of the modifiers that the pointer may emit.
pub open spec fn modifier_codes(model: DispatcherModel) -> Set<u16> {
    Set::new(|code: u16| modifies_a_wheel(model.tablet_map, Key(code)))
}

/// Whether the devices can advertise every key in a dispatcher's bindings.
pub open spec fn bindings_advertisable(model: DispatcherModel) -> bool {
    &&& forall|code: u16| #[trigger] keyboard_codes(model).contains(code) ==> code < KEY_CNT
    &&& forall|code: u16| #[trigger] modifier_codes(model).contains(code) ==> code < KEY_CNT
}

/// How a device has to be set up for a dispatcher.
pub open spec fn setup_for(model: DispatcherModel, device: VirtualDevice) -> SetupModel {
    match device {
        VirtualDevice::Pen => pen_setup(Set::empty()),
        VirtualDevice::Keyboard => keyboard_setup(keyboard_codes(model)),
        VirtualDevice::Pointer => pointer_setup(modifier_codes(model)),
    }
}

/// Whether a device advertises what an event is about. Frame markers need no
/// advertising.
pub open spec fn advertises(setup: SetupModel, event: InputEvent) -> bool {
    match event.event_type {
        EventType::Synchronization => true,
        EventType::Key => setup.keys.contains(event.code),
        EventType::Relative => setup.relative_axes matches Some(axes) && axes.contains(event.code),
        EventType::Absolute => exists|i: int|
            0 <= i < setup.absolute_axes.len() && (#[trigger] setup.absolute_axes[i]).axis
                == event.code,
    }
}

/// A code is among those of a run of keys exactly where its key is in the run.
pub proof fn lemma_codes_of(keys: Seq<Key>)
    ensures
        forall|code: u16| #[trigger] codes_of(keys).contains(code) <==> keys.contains(Key(code)),
{
    let codes = keys.map_values(|key: Key| key.0);
    assert forall|code: u16| #[trigger] codes_of(keys).contains(code) <==> keys.contains(
        Key(code),
    ) by {
        if codes.contains(code) {
            let i = choose|i: int| 0 <= i < codes.len() && codes[i] == code;
            assert(keys[i] == Key(code));
        }
        if keys.contains(Key(code)) {
            let i = choose|i: int| 0 <= i < keys.len() && keys[i] == Key(code);
            assert(codes[i] == code);
        }
    }
}

/// Adds the codes of a run of keys to a set.
fn insert_keys(set: &mut KeySet, keys: &Vec<Key>)
    requires
        advertisable(keys@),
    ensures
        key_set_codes(*final(set)) == key_set_codes(*old(set)).union(codes_of(keys@)),
{
    let ghost codes = keys@.map_values(|key: Key| key.0);
    assert(codes.take(0).to_set() =~= Set::empty());
    for i in 0..keys.len()
        invariant
            advertisable(keys@),
            codes == keys@.map_values(|key: Key| key.0),
            key_set_codes(*set) =~= key_set_codes(*old(set)).union(codes.take(i as int).to_set()),
    {
        proof {
            assert(codes.take(i + 1) =~= codes.take(i as int).push(codes[i as int]));
            codes.take(i as int).lemma_push_to_set_commute(codes[i as int]);
        }
        insert_key(set, keys[i].code());
    }
    assert(codes.take(keys@.len() as int) =~= codes);
}

/// The setup of an absolute axis that starts at zero.
fn new_abs_axis(axis: u16, maximum: i32) -> (setup: AbsSetup)
    ensures
        setup == abs_axis(axis, maximum),
{
    AbsSetup { axis, value: 0, minimum: 0, maximum, fuzz: 0, flat: 0, resolution: 1 }
}

/// The setup of the keyboard, for the keys that it is going to emit.
pub fn virtual_keyboard_builder(tablet_emitted_keys: &Vec<Key>) -> (setup: DeviceSetup)
    requires
        advertisable(tablet_emitted_keys@),
    ensures
        setup.is_setup_of(keyboard_setup(codes_of(tablet_emitted_keys@))),
{
    let mut key_set = new_key_set();
    insert_keys(&mut key_set, tablet_emitted_keys);
    assert(key_set_codes(key_set) =~= codes_of(tablet_emitted_keys@));
    DeviceSetup {
        name: "virtual_tablet_keys",
        absolute_axes: Vec::new(),
        relative_axes: None,
        keys: key_set_list(&key_set),
    }
}

/// The setup of the pointer, for the modifiers that it is going to emit.
pub fn virtual_pointer_builder(modifier_keys: &Vec<Key>) -> (setup: DeviceSetup)
    requires
        advertisable(modifier_keys@),
    ensures
        setup.is_setup_of(pointer_setup(codes_of(modifier_keys@))),
{
    let mut rel_set = new_axis_set();
    insert_axis(&mut rel_set, REL_WHEEL);
    insert_axis(&mut rel_set, REL_HWHEEL);
    assert(axis_set_codes(rel_set) =~= set![REL_WHEEL, REL_HWHEEL]);

    let mut key_set = new_key_set();
    insert_key(&mut key_set, BTN_LEFT);
    insert_keys(&mut key_set, modifier_keys);
    assert(key_set_codes(key_set) =~= codes_of(modifier_keys@).insert(BTN_LEFT));
    DeviceSetup {
        name: "virtual_tablet_pointer",
        absolute_axes: Vec::new(),
        relative_axes: Some(axis_set_list(&rel_set)),
        keys: key_set_list(&key_set),
    }
}

/// The setup of the pen, for the further keys that it is going to emit.
pub fn virtual_pen_builder(pen_emitted_keys: &Vec<Key>) -> (setup: DeviceSetup)
    requires
        advertisable(pen_emitted_keys@),
    ensures
        setup.is_setup_of(pen_setup(codes_of(pen_emitted_keys@))),
{
    let absolute_axes: Vec<AbsSetup> = vec![
        new_abs_axis(ABS_X, AXIS_MAX),
        new_abs_axis(ABS_Y, AXIS_MAX),
        new_abs_axis(ABS_PRESSURE, PRESS_OUT_MAX),
    ];
    assert(absolute_axes@ =~= pen_setup(codes_of(pen_emitted_keys@)).absolute_axes);

    let mut key_set = new_key_set();
    insert_keys(&mut key_set, pen_emitted_keys);
    insert_key(&mut key_set, BTN_TOOL_PEN);
    insert_key(&mut key_set, BTN_TOUCH);
    insert_key(&mut key_set, BTN_LEFT);
    insert_key(&mut key_set, BTN_RIGHT);
    assert(key_set_codes(key_set) =~= pen_setup(codes_of(pen_emitted_keys@)).keys);
    DeviceSetup {
        name: "virtual_tablet_pen",
        absolute_axes,
        relative_axes: None,
        keys: key_set_list(&key_set),
    }
}

/// A list of codes from the lowest up, each once, holds the codes of its set.
proof fn lemma_lists(codes: Seq<u16>, set: Set<u16>)
    requires
        lists(codes, set),
    ensures
        forall|i: int, j: int| 0 <= i < j < codes.len() ==> codes[i] < codes[j],
        forall|code: u16| #[trigger] codes.contains(code) <==> set.contains(code),
{
    assert forall|code: u16| #[trigger] codes.contains(code) <==> set.contains(code) by {
        assert(codes.to_set().contains(code) <==> codes.contains(code));
    }
}

/// The keyboard has the keys that it was asked to have, each once, from the
/// lowest code up, and nothing else.
pub proof fn law_keyboard_has_its_keys(setup: DeviceSetup, keys: Seq<Key>)
    requires
        setup.is_setup_of(keyboard_setup(codes_of(keys))),
    ensures
        setup.name@ == "virtual_tablet_keys"@,
        setup.absolute_axes@.len() == 0,
        setup.relative_axes is None,
        forall|i: int, j: int| 0 <= i < j < setup.keys@.len() ==> setup.keys@[i] < setup.keys@[j],
        forall|code: u16| #[trigger] setup.keys@.contains(code) <==> keys.contains(Key(code)),
{
    lemma_codes_of(keys);
    lemma_lists(setup.keys@, codes_of(keys));
}

/// The pointer has the two wheels, the left button and the modifiers that it was
/// asked to have, each once, from the lowest code up, and nothing else.
pub proof fn law_pointer_has_its_wheels(setup: DeviceSetup, modifiers: Seq<Key>)
    requires
        setup.is_setup_of(pointer_setup(codes_of(modifiers))),
    ensures
        setup.name@ == "virtual_tablet_pointer"@,
        setup.absolute_axes@.len() == 0,
        setup.relative_axes matches Some(axes) && {
            &&& forall|i: int, j: int| 0 <= i < j < axes@.len() ==> axes@[i] < axes@[j]
            &&& forall|code: u16| #[trigger] axes@.contains(code) <==> code == 6 || code == 8
        },
        forall|i: int, j: int| 0 <= i < j < setup.keys@.len() ==> setup.keys@[i] < setup.keys@[j],
        forall|code: u16| #[trigger]
            setup.keys@.contains(code) <==> code == 0x110 || modifiers.contains(Key(code)),
{
    lemma_codes_of(modifiers);
    lemma_lists(setup.keys@, pointer_setup(codes_of(modifiers)).keys);
    lemma_lists(setup.relative_axes->0@, pointer_setup(codes_of(modifiers)).relative_axes->0);
}

/// The pen has three axes that start at zero, two as long as the tablet's and one
/// for the pressure; the buttons "in range" and "touches", two mouse buttons, and
/// the keys that it was asked to have, each once, from the lowest code up; and
/// nothing else.
pub proof fn law_pen_has_its_axes(setup: DeviceSetup, keys: Seq<Key>)
    requires
        setup.is_setup_of(pen_setup(codes_of(keys))),
    ensures
        setup.name@ == "virtual_tablet_pen"@,
        setup.absolute_axes@.len() == 3,
        forall|i: int|
            0 <= i < 3 ==> {
                let axis = #[trigger] setup.absolute_axes@[i];
                &&& axis.axis == (if i == 2 {
                    0x18
                } else {
                    i
                })
                &&& axis.maximum == (if i == 2 {
                    5000int
                } else {
                    4096
                })
                &&& axis.value == 0 && axis.minimum == 0 && axis.fuzz == 0 && axis.flat == 0
                &&& axis.resolution == 1
            },
        setup.relative_axes is None,
        forall|i: int, j: int| 0 <= i < j < setup.keys@.len() ==> setup.keys@[i] < setup.keys@[j],
        forall|code: u16| #[trigger]
            setup.keys@.contains(code) <==> code == 0x110 || code == 0x111 || code == 0x140 || code
                == 0x14a || keys.contains(Key(code)),
{
    lemma_codes_of(keys);
    lemma_lists(setup.keys@, pen_setup(codes_of(keys)).keys);
}

/// What a dispatcher's devices have: the keyboard every key of a bound chord, of
/// the tablet's controls and of the barrel buttons alike; the pointer every
/// modifier of a bound notch, besides its own button; the pen no key but its own.
pub proof fn law_devices_have_what_is_bound(model: DispatcherModel, code: u16)
    ensures
        setup_for(model, VirtualDevice::Keyboard).keys.contains(code) <==> (exists|id: u8|
            #[trigger] model.tablet_map.contains_key(id) && (model.tablet_map[id] matches
                ActionModel::Keys(keys) && keys.contains(Key(code)))) || (exists|id: u8|
            #[trigger] model.pen_map.contains_key(id) && model.pen_map[id].contains(Key(code))),
        setup_for(model, VirtualDevice::Pointer).keys.contains(code) <==> code == 0x110 || (
        exists|id: u8|
            #[trigger] model.tablet_map.contains_key(id) && (model.tablet_map[id] matches
                ActionModel::Wheel { modifiers, .. } && modifiers.contains(Key(code)))),
        setup_for(model, VirtualDevice::Pen).keys.contains(code) <==> code == 0x110 || code == 0x111
            || code == 0x140 || code == 0x14a,
        setup_for(model, VirtualDevice::Keyboard) == (SetupModel {
            keys: setup_for(model, VirtualDevice::Keyboard).keys,
            ..keyboard_setup(Set::empty())
        }),
        setup_for(model, VirtualDevice::Pointer) == (SetupModel {
            keys: setup_for(model, VirtualDevice::Pointer).keys,
            ..pointer_setup(Set::empty())
        }),
        setup_for(model, VirtualDevice::Pen) == (SetupModel {
            keys: setup_for(model, VirtualDevice::Pen).keys,
            ..pen_setup(Set::empty())
        }),
{
    let map = model.tablet_map;
    let key = Key(code);
    if in_a_chord(map, key) {
        let id = choose|id: u8| #[trigger]
            map.contains_key(id) && chord_part(map[id]).contains(key);
        assert(map.contains_key(id) && (map[id] matches ActionModel::Keys(keys) && keys.contains(
            key,
        )));
    }
    if exists|id: u8| #[trigger]
        map.contains_key(id) && (map[id] matches ActionModel::Keys(keys) && keys.contains(key)) {
        let id = choose|id: u8| #[trigger]
            map.contains_key(id) && (map[id] matches ActionModel::Keys(keys) && keys.contains(key));
        assert(map.contains_key(id) && chord_part(map[id]).contains(key));
    }
    if modifies_a_wheel(map, key) {
        let id = choose|id: u8| #[trigger]
            map.contains_key(id) && wheel_part(map[id]).contains(key);
        assert(map.contains_key(id) && (map[id] matches ActionModel::Wheel { modifiers, .. }
            && modifiers.contains(key)));
    }
    if exists|id: u8| #[trigger]
        map.contains_key(id) && (map[id] matches ActionModel::Wheel { modifiers, .. }
            && modifiers.contains(key)) {
        let id = choose|id: u8| #[trigger]
            map.contains_key(id) && (map[id] matches ActionModel::Wheel { modifiers, .. }
                && modifiers.contains(key));
        assert(map.contains_key(id) && wheel_part(map[id]).contains(key));
    }
}

/// The devices are set up as is said of them.
pub proof fn law_devices_are_set_up_as_said(
    keys: Vec<Key>,
    setups: (DeviceSetup, DeviceSetup, DeviceSetup),
)
    requires
        call_ensures(virtual_pen_builder, (&keys,), setups.0),
        call_ensures(virtual_keyboard_builder, (&keys,), setups.1),
        call_ensures(virtual_pointer_builder, (&keys,), setups.2),
    ensures
        setups.0.is_setup_of(pen_setup(codes_of(keys@))),
        setups.1.is_setup_of(keyboard_setup(codes_of(keys@))),
        setups.2.is_setup_of(pointer_setup(codes_of(keys@))),
{
}

} // verus!
