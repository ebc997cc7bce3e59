use mx002::action::{copy_keys, Action};
use mx002::dispatcher::DeviceDispatcher;
use mx002::input::{
    Emission, EventType, InputEvent, Key, VirtualDevice, ABS_PRESSURE, ABS_X, ABS_Y, BTN_TOOL_PEN,
    BTN_TOUCH, KEY_LEFTCTRL, KEY_V, KEY_Z, REL_WHEEL, SYN_REPORT,
};
use mx002::model::PacketClock;
use mx002::outbox::{EmitError, Outbox};
use mx002::packet::RawDataReader;

const MS: u128 = 1_000_000;

fn packet(x: u16, y: u16, pressure: u16, pen: u8, buttons: u16) -> RawDataReader {
    let mut reader = RawDataReader::new();
    reader.data[1] = (x >> 8) as u8;
    reader.data[2] = x as u8;
    reader.data[3] = (y >> 8) as u8;
    reader.data[4] = y as u8;
    reader.data[5] = (pressure >> 8) as u8;
    reader.data[6] = pressure as u8;
    reader.data[9] = pen;
    reader.data[11] = buttons as u8;
    reader.data[12] = (buttons >> 8) as u8;
    reader
}

fn at(ms: u128) -> PacketClock {
    PacketClock { arrived_at: ms * MS, checked_at: ms * MS }
}

fn key(device: VirtualDevice, code: u16, value: i32) -> Emission {
    Emission { device, event: InputEvent { event_type: EventType::Key, code, value } }
}

fn abs(code: u16, value: i32) -> Emission {
    Emission {
        device: VirtualDevice::Pen,
        event: InputEvent { event_type: EventType::Absolute, code, value },
    }
}

fn wheel(delta: i32) -> Emission {
    Emission {
        device: VirtualDevice::Pointer,
        event: InputEvent { event_type: EventType::Relative, code: REL_WHEEL, value: delta },
    }
}

fn syn(device: VirtualDevice) -> Emission {
    Emission {
        device,
        event: InputEvent { event_type: EventType::Synchronization, code: SYN_REPORT, value: 0 },
    }
}

fn dispatch(dispatcher: &mut DeviceDispatcher, data: &RawDataReader, clock: PacketClock) -> Vec<Emission> {
    let mut out = Outbox::open();
    assert_eq!(dispatcher.dispatch(data, clock, &mut out), Ok(()));
    out.into_taken()
}

/// A dispatcher that has seen a hovering pen at the given raw position.
fn hovering(x: u16, y: u16) -> DeviceDispatcher {
    let mut dispatcher = DeviceDispatcher::new();
    dispatch(&mut dispatcher, &packet(x, y, 2000, 2, 0xffff), at(0));
    dispatcher
}

#[test]
fn first_packet_of_a_hovering_pen() {
    let mut dispatcher = DeviceDispatcher::new();
    let run = dispatch(&mut dispatcher, &packet(96, 1000, 2000, 2, 0xffff), at(0));
    assert_eq!(
        run,
        vec![
            key(VirtualDevice::Pen, BTN_TOOL_PEN, 1),
            abs(ABS_X, 4000),
            abs(ABS_Y, 3096),
            abs(ABS_PRESSURE, 0),
        ]
    );
}

#[test]
fn all_zero_packet() {
    let mut dispatcher = DeviceDispatcher::default();
    let run = dispatch(&mut dispatcher, &RawDataReader::new(), at(0));
    assert_eq!(
        run,
        vec![
            abs(ABS_X, 4096),
            abs(ABS_Y, 4096),
            abs(ABS_PRESSURE, 5000),
            key(VirtualDevice::Pen, BTN_TOUCH, 1),
            wheel(-1),
            syn(VirtualDevice::Pointer),
            wheel(1),
            syn(VirtualDevice::Pointer),
        ]
    );
}

#[test]
fn positions_beyond_the_axis_become_negative() {
    let mut dispatcher = DeviceDispatcher::new();
    let run = dispatch(&mut dispatcher, &packet(0xffff, 4097, 2000, 2, 0xffff), at(0));
    assert_eq!(run[1], abs(ABS_X, 4096 - 65535));
    assert_eq!(run[2], abs(ABS_Y, -1));
}

#[test]
fn pressure_is_scaled() {
    assert_eq!(DeviceDispatcher::normalize_pressure(1600), 0);
    assert_eq!(DeviceDispatcher::normalize_pressure(1592), 0);
    assert_eq!(DeviceDispatcher::normalize_pressure(1591), 67);
    assert_eq!(DeviceDispatcher::normalize_pressure(1000), 4497);
    assert_eq!(DeviceDispatcher::normalize_pressure(934), 4992);
    assert_eq!(DeviceDispatcher::normalize_pressure(933), 5000);
    assert_eq!(DeviceDispatcher::normalize_pressure(932), 5000);
    assert_eq!(DeviceDispatcher::normalize_pressure(0), 5000);
    assert_eq!(DeviceDispatcher::normalize_pressure(65535), 0);
}

#[test]
fn touch_starts_and_ends_at_different_thresholds() {
    let mut dispatcher = hovering(10, 10);
    let touch = |run: Vec<Emission>| -> Vec<i32> {
        run.iter().filter(|e| e.event.code == BTN_TOUCH).map(|e| e.event.value).collect()
    };
    let none: Vec<i32> = vec![];
    assert_eq!(touch(dispatch(&mut dispatcher, &packet(10, 10, 1600, 2, 0xffff), at(1))), none);
    assert_eq!(touch(dispatch(&mut dispatcher, &packet(10, 10, 1599, 2, 0xffff), at(2))), vec![1]);
    assert_eq!(touch(dispatch(&mut dispatcher, &packet(10, 10, 1619, 2, 0xffff), at(3))), none);
    assert_eq!(touch(dispatch(&mut dispatcher, &packet(10, 10, 1620, 2, 0xffff), at(4))), vec![0]);
    assert_eq!(touch(dispatch(&mut dispatcher, &packet(10, 10, 1619, 2, 0xffff), at(5))), none);
}

#[test]
fn resting_pen_is_nudged_back_and_forth() {
    let mut dispatcher = hovering(96, 1000);
    let data = packet(96, 1000, 2000, 2, 0xffff);
    let xs: Vec<i32> = (1..5)
        .map(|ms| dispatch(&mut dispatcher, &data, at(ms))[0].event.value)
        .collect();
    assert_eq!(xs, vec![4001, 4000, 4001, 4000]);
}

#[test]
fn moving_pen_is_not_nudged() {
    let mut dispatcher = hovering(96, 1000);
    assert_eq!(dispatch(&mut dispatcher, &packet(96, 1001, 2000, 2, 0xffff), at(1))[0], abs(ABS_X, 4000));
    assert_eq!(dispatch(&mut dispatcher, &packet(97, 1001, 2000, 2, 0xffff), at(2))[0], abs(ABS_X, 3999));
}

#[test]
fn touching_pen_is_not_nudged() {
    let mut dispatcher = hovering(96, 1000);
    dispatch(&mut dispatcher, &packet(96, 1000, 1000, 2, 0xffff), at(1));
    let run = dispatch(&mut dispatcher, &packet(96, 1000, 1000, 2, 0xffff), at(2));
    assert_eq!(run[0], abs(ABS_X, 4000));
}

#[test]
fn nudge_at_the_edge_reaches_one_beyond() {
    let mut dispatcher = hovering(0, 0);
    let run = dispatch(&mut dispatcher, &packet(0, 0, 2000, 2, 0xffff), at(1));
    assert_eq!(run[0], abs(ABS_X, 4097));
}

#[test]
fn pen_stays_in_range_for_a_while() {
    let mut dispatcher = hovering(10, 10);
    let silent = packet(10, 10, 0, 2, 0xffff);
    let tool = |run: Vec<Emission>| -> Vec<i32> {
        run.iter().filter(|e| e.event.code == BTN_TOOL_PEN).map(|e| e.event.value).collect()
    };
    let none: Vec<i32> = vec![];
    assert_eq!(tool(dispatch(&mut dispatcher, &silent, at(599))), none);
    let almost = PacketClock { arrived_at: 0, checked_at: 600 * MS - 1 };
    assert_eq!(tool(dispatch(&mut dispatcher, &silent, almost)), none);
    assert_eq!(tool(dispatch(&mut dispatcher, &silent, at(600))), vec![0]);
    assert_eq!(tool(dispatch(&mut dispatcher, &silent, at(700))), none);
    assert_eq!(tool(dispatch(&mut dispatcher, &packet(10, 10, 1, 2, 0xffff), at(800))), vec![1]);
}

#[test]
fn late_check_loses_the_pen_at_once() {
    let mut dispatcher = DeviceDispatcher::new();
    let clock = PacketClock { arrived_at: 0, checked_at: 600 * MS };
    let run = dispatch(&mut dispatcher, &packet(10, 10, 2000, 2, 0xffff), clock);
    assert_eq!(run.len(), 3);
}

#[test]
fn clock_that_runs_backwards_keeps_the_pen() {
    let mut dispatcher = DeviceDispatcher::new();
    let clock = PacketClock { arrived_at: 5000 * MS, checked_at: 0 };
    let run = dispatch(&mut dispatcher, &packet(10, 10, 2000, 2, 0xffff), clock);
    assert_eq!(run[0], key(VirtualDevice::Pen, BTN_TOOL_PEN, 1));
}

#[test]
fn stylus_plus_pastes_once() {
    let mut dispatcher = hovering(10, 10);
    let data = packet(10, 11, 2000, 4, 0xffff);
    let run = dispatch(&mut dispatcher, &data, at(1));
    assert_eq!(
        run[..6].to_vec(),
        vec![
            key(VirtualDevice::Keyboard, KEY_LEFTCTRL, 1),
            key(VirtualDevice::Keyboard, KEY_V, 1),
            syn(VirtualDevice::Keyboard),
            key(VirtualDevice::Keyboard, KEY_V, 0),
            key(VirtualDevice::Keyboard, KEY_LEFTCTRL, 0),
            syn(VirtualDevice::Keyboard),
        ]
    );
    assert_eq!(dispatch(&mut dispatcher, &data, at(2)).len(), 3);
    assert_eq!(dispatch(&mut dispatcher, &packet(10, 11, 2000, 2, 0xffff), at(3)).len(), 3);
    assert_eq!(dispatch(&mut dispatcher, &data, at(4)).len(), 9);
}

#[test]
fn stylus_minus_undoes() {
    let mut dispatcher = hovering(10, 10);
    let run = dispatch(&mut dispatcher, &packet(10, 11, 2000, 6, 0xffff), at(1));
    assert_eq!(run[1], key(VirtualDevice::Keyboard, KEY_Z, 1));
    assert_eq!(run[3], key(VirtualDevice::Keyboard, KEY_Z, 0));
}

#[test]
fn one_barrel_button_after_the_other() {
    let mut dispatcher = hovering(10, 10);
    dispatch(&mut dispatcher, &packet(10, 11, 2000, 4, 0xffff), at(1));
    let run = dispatch(&mut dispatcher, &packet(10, 12, 2000, 6, 0xffff), at(2));
    assert_eq!(run[1], key(VirtualDevice::Keyboard, KEY_Z, 1));
}

#[test]
fn other_pen_bytes_do_nothing() {
    for button in [0u8, 1, 2, 3, 5, 7, 255] {
        let mut dispatcher = hovering(10, 10);
        let run = dispatch(&mut dispatcher, &packet(10, 11, 2000, button, 0xffff), at(1));
        assert_eq!(run.len(), 3);
    }
}

#[test]
fn wheel_fires_one_notch_per_press() {
    let mut dispatcher = hovering(10, 10);
    let up = packet(10, 11, 2000, 2, 0xffff & !(1 << 8));
    let rest = packet(10, 11, 2000, 2, 0xffff);
    let run = dispatch(&mut dispatcher, &up, at(1));
    assert_eq!(run[3..].to_vec(), vec![wheel(1), syn(VirtualDevice::Pointer)]);
    assert_eq!(dispatch(&mut dispatcher, &up, at(2)).len(), 3);
    assert_eq!(dispatch(&mut dispatcher, &rest, at(3)).len(), 3);
    let down = packet(10, 11, 2000, 2, 0xffff & !(1 << 5));
    let run = dispatch(&mut dispatcher, &down, at(4));
    assert_eq!(run[3..].to_vec(), vec![wheel(-1), syn(VirtualDevice::Pointer)]);
}

#[test]
fn unbound_controls_are_ignored() {
    for bit in (0..16).filter(|bit| *bit != 5 && *bit != 8) {
        let mut dispatcher = hovering(10, 10);
        let run = dispatch(&mut dispatcher, &packet(10, 11, 2000, 2, 0xffff & !(1 << bit)), at(1));
        assert_eq!(run.len(), 3);
    }
}

#[test]
fn single_controls() {
    let dispatcher = DeviceDispatcher::new();
    let mut out = Outbox::open();
    assert_eq!(dispatcher.emit_tablet_key_event(8, 0xfeff, &mut out), Ok(()));
    assert_eq!(dispatcher.emit_tablet_key_event(8, 0xffff, &mut out), Ok(()));
    assert_eq!(dispatcher.emit_tablet_key_event(15, 0x0000, &mut out), Ok(()));
    assert_eq!(out.taken(), &vec![wheel(1), syn(VirtualDevice::Pointer)]);
    let mut full = Outbox::taking(1);
    assert_eq!(dispatcher.emit_tablet_key_event(5, 0x0000, &mut full), Err(EmitError::Refused));
    assert_eq!(full.taken(), &vec![wheel(-1)]);
}

#[test]
fn every_device_is_synchronized() {
    let dispatcher = DeviceDispatcher::new();
    let mut out = Outbox::open();
    assert_eq!(dispatcher.syn(&mut out), Ok(()));
    assert_eq!(
        out.into_taken(),
        vec![syn(VirtualDevice::Keyboard), syn(VirtualDevice::Pen), syn(VirtualDevice::Pointer)]
    );
    let mut full = Outbox::taking(1);
    assert_eq!(dispatcher.syn(&mut full), Err(EmitError::Refused));
    assert_eq!(full.taken().len(), 1);
}

#[test]
fn preview_changes_nothing() {
    let mut dispatcher = hovering(96, 1000);
    let data = packet(96, 1000, 1000, 4, 0xfedf);
    let preview = dispatcher.preview(&data, at(1));
    assert_eq!(dispatcher.preview(&data, at(1)), preview);
    assert_eq!(dispatch(&mut dispatcher, &data, at(1)), preview);
    assert_eq!(preview.len(), 14);
}

#[test]
fn refusal_cuts_the_run_short() {
    let data = packet(96, 1000, 1000, 4, 0xfedf);
    let whole = hovering(96, 1000).preview(&data, at(1));
    for count in 0..whole.len() {
        let mut dispatcher = hovering(96, 1000);
        let mut out = Outbox::taking(count);
        assert_eq!(dispatcher.dispatch(&data, at(1), &mut out), Err(EmitError::Refused));
        assert_eq!(out.taken(), &whole[..count].to_vec());
    }
    let mut dispatcher = hovering(96, 1000);
    let mut out = Outbox::taking(whole.len());
    assert_eq!(dispatcher.dispatch(&data, at(1), &mut out), Ok(()));
    assert_eq!(out.into_taken(), whole);
}

#[test]
fn refused_pulse_is_tried_again() {
    let data = packet(96, 1000, 2000, 4, 0xffff);
    let mut dispatcher = hovering(96, 1000);
    let before = dispatcher.preview(&data, at(1));
    assert_eq!(
        dispatcher.dispatch(&data, at(1), &mut Outbox::taking(5)),
        Err(EmitError::Refused)
    );
    assert_eq!(dispatcher.preview(&data, at(1)), before);
}

#[test]
fn refused_controls_are_tried_again() {
    let data = packet(96, 1001, 2000, 2, 0xfeff);
    let mut dispatcher = hovering(96, 1000);
    assert_eq!(
        dispatcher.dispatch(&data, at(1), &mut Outbox::taking(4)),
        Err(EmitError::Refused)
    );
    let run = dispatcher.preview(&data, at(2));
    assert_eq!(run[3..].to_vec(), vec![wheel(1), syn(VirtualDevice::Pointer)]);
    // The position was handled before the refusal: the pen now counts as resting.
    assert_eq!(run[0], abs(ABS_X, 4001));
}

#[test]
fn refused_position_still_flips_the_nudge() {
    let data = packet(96, 1000, 2000, 2, 0xffff);
    let mut dispatcher = hovering(96, 1000);
    assert_eq!(
        dispatcher.dispatch(&data, at(1), &mut Outbox::taking(0)),
        Err(EmitError::Refused)
    );
    assert_eq!(dispatcher.preview(&data, at(2))[0], abs(ABS_X, 4000));
}

#[test]
fn refused_proximity_is_tried_again() {
    let data = packet(96, 1000, 2000, 2, 0xffff);
    let mut dispatcher = DeviceDispatcher::new();
    assert_eq!(
        dispatcher.dispatch(&data, at(1), &mut Outbox::taking(0)),
        Err(EmitError::Refused)
    );
    // The sign of the pen was noted: it still counts in a packet without one.
    let silent = packet(96, 1000, 0, 2, 0xffff);
    assert_eq!(dispatcher.preview(&silent, at(600))[0], key(VirtualDevice::Pen, BTN_TOOL_PEN, 1));
    assert_eq!(dispatcher.preview(&silent, at(601))[0], abs(ABS_X, 4000));
}

#[test]
fn refused_touch_is_tried_again() {
    let data = packet(96, 1001, 1000, 2, 0xffff);
    let mut dispatcher = hovering(96, 1000);
    assert_eq!(
        dispatcher.dispatch(&data, at(1), &mut Outbox::taking(3)),
        Err(EmitError::Refused)
    );
    assert_eq!(dispatcher.preview(&data, at(2))[3], key(VirtualDevice::Pen, BTN_TOUCH, 1));
}

#[test]
fn actions_can_be_copied() {
    let keys = vec![Key::new(KEY_LEFTCTRL), Key::new(KEY_Z)];
    assert_eq!(copy_keys(&keys), keys);
    let wheel = Action::Wheel { modifiers: copy_keys(&keys), delta: -1 };
    assert!(matches!(wheel.clone(), Action::Wheel { modifiers, delta: -1 } if modifiers == keys));
    let chord = Action::Keys(copy_keys(&keys));
    assert!(matches!(chord.clone(), Action::Keys(copy) if copy == keys));
}

#[test]
fn refused_pen_needs_no_bytes_of_the_controls() {
    let whole = packet(96, 1000, 1000, 4, 0xffff);
    let mut short = RawDataReader::default();
    short.data = whole.data[..10].to_vec();
    let mut dispatcher = DeviceDispatcher::new();
    let mut out = Outbox::taking(7);
    assert_eq!(dispatcher.dispatch(&short, at(1), &mut out), Err(EmitError::Refused));
    assert_eq!(out.taken().len(), 7);
    assert_eq!(out.taken()[6], key(VirtualDevice::Pen, BTN_TOOL_PEN, 1));
    // The pulse and the proximity were handled before the refusal.
    let run = dispatcher.preview(&whole, at(2));
    assert_eq!(
        run,
        vec![
            abs(ABS_X, 4000),
            abs(ABS_Y, 3096),
            abs(ABS_PRESSURE, 4497),
            key(VirtualDevice::Pen, BTN_TOUCH, 1),
        ]
    );
}

#[test]
fn pen_buttons_alternate_over_refusals() {
    let mut dispatcher = DeviceDispatcher::new();
    let mut history: Vec<Emission> = vec![];
    for round in 0..200u128 {
        let pressure = [2000, 1000, 0, 1610, 0, 1000, 1700][(round % 7) as usize];
        let data = packet((round % 3) as u16, 10, pressure, 2, 0xffff);
        let mut out = Outbox::taking((round % 6) as usize);
        let _ = dispatcher.dispatch(&data, at(round * 700), &mut out);
        history.extend(out.into_taken());
    }
    for button in [BTN_TOOL_PEN, BTN_TOUCH] {
        let values: Vec<i32> = history
            .iter()
            .filter(|e| e.event.event_type == EventType::Key && e.event.code == button)
            .map(|e| e.event.value)
            .collect();
        assert!(values.len() > 1);
        for (i, value) in values.iter().enumerate() {
            assert_eq!(*value, if i % 2 == 0 { 1 } else { 0 });
        }
    }
}

#[test]
fn unscanned_bits_have_no_influence() {
    for unscanned in [0x0400u16, 0x0800, 0x4000, 0x8000, 0xcc00] {
        for buttons in [0xffffu16, 0xfeff, 0xffdf, 0x33ff] {
            let one = hovering(10, 10).preview(&packet(10, 11, 2000, 2, buttons), at(1));
            let other = packet(10, 11, 2000, 2, buttons & !unscanned);
            assert_eq!(hovering(10, 10).preview(&other, at(1)), one);
        }
    }
}

#[test]
fn repeated_packet_emits_the_position() {
    let mut dispatcher = hovering(10, 10);
    let data = packet(96, 1000, 1000, 4, 0xfedf);
    assert_eq!(dispatch(&mut dispatcher, &data, at(1)).len(), 14);
    let position = vec![abs(ABS_X, 4000), abs(ABS_Y, 3096), abs(ABS_PRESSURE, 4497)];
    assert_eq!(dispatch(&mut dispatcher, &data, at(2)), position);
    assert_eq!(dispatch(&mut dispatcher, &data, at(9000)), position);

    let silent = packet(96, 1000, 0, 4, 0xfedf);
    let still = vec![abs(ABS_X, 4000), abs(ABS_Y, 3096), abs(ABS_PRESSURE, 5000)];
    assert_eq!(dispatch(&mut dispatcher, &silent, at(9001)), still);
    assert_eq!(dispatch(&mut dispatcher, &silent, at(9599)), still);
    let mut lost = vec![key(VirtualDevice::Pen, BTN_TOOL_PEN, 0)];
    lost.extend(still.clone());
    assert_eq!(dispatch(&mut dispatcher, &silent, at(9600)), lost);
    assert_eq!(dispatch(&mut dispatcher, &silent, at(9601)), still);
}

fn first_bytes(data: &RawDataReader, count: usize) -> RawDataReader {
    let mut short = RawDataReader::default();
    short.data = data.data[..count].to_vec();
    short
}

#[test]
fn two_nudges_are_a_pair() {
    let mut dispatcher = hovering(96, 1000);
    let mut out = Outbox::open();
    for _ in 0..2 {
        assert_eq!(dispatcher.raw_pen_abs_to_pen_abs_events(96, 1000, 7, &mut out), Ok(()));
    }
    assert_eq!(
        out.into_taken(),
        vec![
            abs(ABS_X, 4001),
            abs(ABS_Y, 3096),
            abs(ABS_PRESSURE, 7),
            abs(ABS_X, 4000),
            abs(ABS_Y, 3096),
            abs(ABS_PRESSURE, 7),
        ]
    );
}

#[test]
fn proximity_alone() {
    let near = first_bytes(&packet(0, 0, 1, 0, 0), 7);
    let silent = first_bytes(&packet(0, 0, 0, 0, 0), 7);
    let mut dispatcher = DeviceDispatcher::new();
    let mut out = Outbox::open();
    assert_eq!(dispatcher.pen_emit_proximity(&silent, at(0), &mut out), Ok(()));
    let refused = dispatcher.pen_emit_proximity(&near, at(0), &mut Outbox::taking(0));
    assert_eq!(refused, Err(EmitError::Refused));
    assert_eq!(dispatcher.pen_emit_proximity(&near, at(1), &mut out), Ok(()));
    assert_eq!(dispatcher.pen_emit_proximity(&silent, at(600), &mut out), Ok(()));
    assert_eq!(dispatcher.pen_emit_proximity(&silent, at(601), &mut out), Ok(()));
    assert_eq!(
        out.into_taken(),
        vec![
            key(VirtualDevice::Pen, BTN_TOOL_PEN, 1),
            key(VirtualDevice::Pen, BTN_TOOL_PEN, 0),
        ]
    );
}

#[test]
fn touch_alone() {
    let mut dispatcher = DeviceDispatcher::new();
    let mut out = Outbox::open();
    for pressure in [1600, 1599, 1619, 1620, 1610, 0] {
        let data = first_bytes(&packet(0, 0, pressure, 0, 0), 7);
        assert_eq!(dispatcher.pen_emit_touch(&data, &mut out), Ok(()));
    }
    let values: Vec<i32> = out.into_taken().iter().map(|e| e.event.value).collect();
    assert_eq!(values, vec![1, 0, 1]);
}

#[test]
fn button_words_alone() {
    let dispatcher = DeviceDispatcher::new();
    let mut out = Outbox::open();
    assert_eq!(dispatcher.binary_flags_to_tablet_key_events(0x0000, &mut out), Ok(()));
    let mut scanned = Outbox::open();
    assert_eq!(dispatcher.binary_flags_to_tablet_key_events(0xcc00, &mut scanned), Ok(()));
    assert_eq!(out.taken(), scanned.taken());
    assert_eq!(
        out.into_taken(),
        vec![
            wheel(-1),
            syn(VirtualDevice::Pointer),
            wheel(1),
            syn(VirtualDevice::Pointer),
        ]
    );
}

#[test]
fn packet_is_the_pen_and_then_the_controls() {
    let data = packet(96, 1000, 1000, 4, 0xfedf);
    let mut dispatcher = hovering(96, 1000);
    let whole = dispatcher.preview(&data, at(1));
    let mut pulse = Outbox::open();
    assert_eq!(dispatcher.raw_pen_buttons_to_pen_key_events(4, &mut pulse), Ok(()));
    assert_eq!(pulse.taken(), &whole[..6].to_vec());
    let mut out = Outbox::open();
    assert_eq!(dispatcher.emit_pen_events(&first_bytes(&data, 10), at(1), &mut out), Ok(()));
    assert_eq!(dispatcher.emit_tablet_events(&data, &mut out), Ok(()));
    assert_eq!(out.into_taken(), whole);
}
