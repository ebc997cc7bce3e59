use mx002::input;
use mx002::usb;

#[test]
fn key_codes_are_those_of_the_input_subsystem() {
    assert_eq!(input::KEY_LEFTCTRL, evdev::Key::KEY_LEFTCTRL.code());
    assert_eq!(input::KEY_V, evdev::Key::KEY_V.code());
    assert_eq!(input::KEY_Z, evdev::Key::KEY_Z.code());
    assert_eq!(input::BTN_LEFT, evdev::Key::BTN_LEFT.code());
    assert_eq!(input::BTN_RIGHT, evdev::Key::BTN_RIGHT.code());
    assert_eq!(input::BTN_TOOL_PEN, evdev::Key::BTN_TOOL_PEN.code());
    assert_eq!(input::BTN_TOUCH, evdev::Key::BTN_TOUCH.code());
}

#[test]
fn axis_codes_are_those_of_the_input_subsystem() {
    assert_eq!(input::REL_WHEEL, evdev::RelativeAxisType::REL_WHEEL.0);
    assert_eq!(input::REL_HWHEEL, evdev::RelativeAxisType::REL_HWHEEL.0);
    assert_eq!(input::ABS_X, evdev::AbsoluteAxisType::ABS_X.0);
    assert_eq!(input::ABS_Y, evdev::AbsoluteAxisType::ABS_Y.0);
    assert_eq!(input::ABS_PRESSURE, evdev::AbsoluteAxisType::ABS_PRESSURE.0);
    assert_eq!(input::SYN_REPORT, evdev::Synchronization::SYN_REPORT.0);
}

#[test]
fn the_device_class_is_that_of_libusb() {
    assert_eq!(usb::CLASS_HID, rusb::constants::LIBUSB_CLASS_HID);
}

#[test]
fn the_highest_advertisable_codes_fit() {
    let mut keys: evdev::AttributeSet<evdev::Key> = evdev::AttributeSet::new();
    keys.insert(evdev::Key::new(input::KEY_CNT - 1));
    assert!(keys.contains(evdev::Key::new(input::KEY_CNT - 1)));
    let mut axes: evdev::AttributeSet<evdev::RelativeAxisType> = evdev::AttributeSet::new();
    axes.insert(evdev::RelativeAxisType(input::REL_CNT - 1));
    assert!(axes.contains(evdev::RelativeAxisType(input::REL_CNT - 1)));
}

#[test]
fn keys_and_events_keep_their_parts() {
    assert_eq!(input::Key::new(47).code(), 47);
    let event = input::InputEvent::new(input::EventType::Relative, input::REL_WHEEL, -1);
    assert_eq!(event.event_type, input::EventType::Relative);
    assert_eq!(event.code, 8);
    assert_eq!(event.value, -1);
}
