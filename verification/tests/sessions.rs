use mx002::session::{run, SessionAction, SessionError, SessionEvent, SessionStage};
use mx002::usb::UsbError;

type Event = SessionEvent<&'static str>;
type Action = SessionAction<&'static str>;

fn over(error: SessionError<&'static str>) -> (SessionStage, Action) {
    (SessionStage::Open, SessionAction::RestartAfter { delay_ms: 2000, error })
}

#[test]
fn setup_comes_first() {
    let mut stage = SessionStage::Open;
    let mut actions = vec![];
    while stage != SessionStage::Read {
        let (next, action) = run(stage, Event::Done);
        stage = next;
        actions.push(action);
    }
    assert_eq!(
        actions,
        vec![
            SessionAction::Init,
            SessionAction::SetFullMode,
            SessionAction::CreateDevices,
            SessionAction::Read,
        ]
    );
}

#[test]
fn failures_end_the_session() {
    for stage in [
        SessionStage::Open,
        SessionStage::Init,
        SessionStage::FullMode,
        SessionStage::CreateDevices,
        SessionStage::Syn,
    ] {
        let expected = over(SessionError::Failed("no such file"));
        assert_eq!(run(stage, SessionEvent::Failed("no such file")), expected);
    }
}

#[test]
fn failed_dispatch_does_not_end_the_session() {
    let syn = (SessionStage::Syn, SessionAction::Syn);
    assert_eq!(run(SessionStage::Dispatch, Event::Failed("refused")), syn);
    assert_eq!(run(SessionStage::Dispatch, Event::Done), syn);
    assert_eq!(
        run(SessionStage::Syn, Event::Done),
        (SessionStage::Read, SessionAction::Read)
    );
}

#[test]
fn packets_are_dispatched() {
    assert_eq!(
        run(SessionStage::Read, Event::Read(Ok(13))),
        (SessionStage::Dispatch, SessionAction::Dispatch { length: 13 })
    );
}

#[test]
fn read_errors() {
    let read = |error| run(SessionStage::Read, Event::Read(Err(error)));
    assert_eq!(read(UsbError::Timeout), (SessionStage::Read, SessionAction::Read));
    assert_eq!(read(UsbError::NoDevice), over(SessionError::Disconnected));
    assert_eq!(read(UsbError::NotFound), over(SessionError::Disconnected));
    for error in [
        UsbError::Io,
        UsbError::InvalidParam,
        UsbError::Access,
        UsbError::Busy,
        UsbError::Overflow,
        UsbError::Pipe,
        UsbError::Interrupted,
        UsbError::NoMem,
        UsbError::NotSupported,
        UsbError::BadDescriptor,
        UsbError::Other,
    ] {
        assert_eq!(
            read(error),
            (SessionStage::Read, SessionAction::ReadAfter { delay_ms: 50, cause: error })
        );
    }
}
