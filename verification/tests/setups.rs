use mx002::dispatcher::DeviceDispatcher;
use mx002::input::Key;
use mx002::setup::{
    virtual_keyboard_builder, virtual_pen_builder, virtual_pointer_builder, AbsSetup,
};

fn axis(axis: u16, maximum: i32) -> AbsSetup {
    AbsSetup { axis, value: 0, minimum: 0, maximum, fuzz: 0, flat: 0, resolution: 1 }
}

#[test]
fn setups_of_the_default_bindings() {
    let (pen, keyboard, pointer) = DeviceDispatcher::new().device_setups();

    assert_eq!(pen.name, "virtual_tablet_pen");
    assert_eq!(pen.absolute_axes, vec![axis(0, 4096), axis(1, 4096), axis(0x18, 5000)]);
    assert_eq!(pen.relative_axes, None);
    assert_eq!(pen.keys, vec![0x110, 0x111, 0x140, 0x14a]);

    assert_eq!(keyboard.name, "virtual_tablet_keys");
    assert_eq!(keyboard.absolute_axes, vec![]);
    assert_eq!(keyboard.relative_axes, None);
    assert_eq!(keyboard.keys, vec![29, 44, 47]);

    assert_eq!(pointer.name, "virtual_tablet_pointer");
    assert_eq!(pointer.absolute_axes, vec![]);
    assert_eq!(pointer.relative_axes, Some(vec![6, 8]));
    assert_eq!(pointer.keys, vec![0x110]);
}

#[test]
fn keys_are_listed_once_and_in_order() {
    let keys = vec![Key::new(47), Key::new(29), Key::new(0x2ff), Key::new(47), Key::new(0)];
    assert_eq!(virtual_keyboard_builder(&keys).keys, vec![0, 29, 47, 0x2ff]);
}

#[test]
fn pointer_adds_its_modifiers() {
    let setup = virtual_pointer_builder(&vec![Key::new(29)]);
    assert_eq!(setup.keys, vec![29, 0x110]);
    assert_eq!(setup.relative_axes, Some(vec![6, 8]));
}

#[test]
fn pen_adds_further_keys() {
    let setup = virtual_pen_builder(&vec![Key::new(0x14b), Key::new(0x110)]);
    assert_eq!(setup.keys, vec![0x110, 0x111, 0x140, 0x14a, 0x14b]);
}
