use mx002::input::{EventType, InputEvent, VirtualDevice, KEY_V};
use mx002::outbox::{EmitError, Outbox};

fn press() -> InputEvent {
    InputEvent::new(EventType::Key, KEY_V, 1)
}

#[test]
fn open_outbox_takes_all() {
    let mut out = Outbox::open();
    for _ in 0..100 {
        assert_eq!(out.emit(VirtualDevice::Keyboard, press()), Ok(()));
    }
    assert_eq!(out.taken().len(), 100);
}

#[test]
fn bounded_outbox_refuses_beyond_its_count() {
    let mut out = Outbox::taking(2);
    assert_eq!(out.emit(VirtualDevice::Keyboard, press()), Ok(()));
    assert_eq!(out.emit_syn(VirtualDevice::Keyboard), Ok(()));
    assert_eq!(out.emit(VirtualDevice::Keyboard, press()), Err(EmitError::Refused));
    assert_eq!(out.emit_syn(VirtualDevice::Pen), Err(EmitError::Refused));
    let taken = out.into_taken();
    assert_eq!(taken.len(), 2);
    assert_eq!(taken[0].event, press());
    assert_eq!(taken[1].event, InputEvent::new(EventType::Synchronization, 0, 0));
}
