//! The course of a driver session: set everything up, then read packets until
//! the tablet goes away, then start over.

use vstd::prelude::*;

use crate::usb::UsbError;

verus! {

/// Vendor of the tablet.
pub const VID: u16 = 0x08f2;

/// The tablet among its vendor's products.
pub const PID: u16 = 0x6811;

/// Pause before a new session, in milliseconds.
pub const RESTART_DELAY_MS: u64 = 2000;

/// Pause after a read that went wrong, in milliseconds.
pub const READ_RETRY_DELAY_MS: u64 = 50;

/// What the session waits for.
#[derive(Clone, Copy, PartialEq, Eq, Structural, Debug)]
pub enum SessionStage {
    /// The tablet to be opened.
    Open,
    /// The tablet to be initialized.
    Init,
    /// The tablet to be put into its full reporting mode.
    FullMode,
    /// The virtual devices to be created.
    CreateDevices,
    /// A packet.
    Read,
    /// The packet to be dispatched.
    Dispatch,
    /// The devices to be synchronized.
    Syn,
}

/// What has happened. The errors of actions are whatever the caller has.
#[derive(PartialEq, Eq, Debug)]
pub enum SessionEvent<E> {
    /// The last action worked.
    Done,
    /// The last action failed, with this error.
    Failed(E),
    /// The last action was a read, with this reply.
    Read(Result<usize, UsbError>),
}

/// Why a session is over.
#[derive(PartialEq, Eq, Debug)]
pub enum SessionError<E> {
    /// An action failed, with this error.
    Failed(E),
    /// The tablet went away.
    Disconnected,
}

/// What to do next.
#[derive(PartialEq, Eq, Debug)]
pub enum SessionAction<E> {
    /// Initialize the tablet.
    Init,
    /// Put the tablet into its full reporting mode.
    SetFullMode,
    /// Create the virtual devices.
    CreateDevices,
    /// Read a packet.
    Read,
    /// Report why the last read failed, wait, then read a packet.
    ReadAfter { delay_ms: u64, cause: UsbError },
    /// Dispatch the packet of this many bytes.
    Dispatch { length: usize },
    /// Synchronize the devices.
    Syn,
    /// The session is over: report the error, wait, then open the tablet anew.
    RestartAfter { delay_ms: u64, error: SessionError<E> },
}

/// Whether an event can happen at a stage: reads have replies of their own.
pub open spec fn event_fits<E>(stage: SessionStage, event: SessionEvent<E>) -> bool {
    stage == SessionStage::Read <==> event is Read
}

/// Whether the reply to a read says that the tablet is gone.
pub open spec fn is_disconnect(reply: Result<usize, UsbError>) -> bool {
    match reply {
        Ok(_) => false,
        Err(error) => error == UsbError::NoDevice || error == UsbError::NotFound,
    }
}

/// A session that is over.
pub open spec fn over<E>(error: SessionError<E>) -> (SessionStage, SessionAction<E>) {
    (SessionStage::Open, SessionAction::RestartAfter { delay_ms: RESTART_DELAY_MS, error })
}

/// The course of a session. Whatever fails while everything is set up ends it,
/// and so do a lost tablet and a failed synchronization. A failed dispatch does
/// not, nor does a read that brings nothing.
pub open spec fn session_step<E>(stage: SessionStage, event: SessionEvent<E>) -> (
    SessionStage,
    SessionAction<E>,
) {
    match event {
        SessionEvent::Read(Ok(length)) => (
            SessionStage::Dispatch,
            SessionAction::Dispatch { length },
        ),
        SessionEvent::Read(Err(error)) => if error == UsbError::Timeout {
            (SessionStage::Read, SessionAction::Read)
        } else if error == UsbError::NoDevice || error == UsbError::NotFound {
            over(SessionError::Disconnected)
        } else {
            (
                SessionStage::Read,
                SessionAction::ReadAfter { delay_ms: READ_RETRY_DELAY_MS, cause: error },
            )
        },
        SessionEvent::Failed(error) => if stage == SessionStage::Dispatch {
            (SessionStage::Syn, SessionAction::Syn)
        } else {
            over(SessionError::Failed(error))
        },
        SessionEvent::Done => match stage {
            SessionStage::Open => (SessionStage::Init, SessionAction::Init),
            SessionStage::Init => (SessionStage::FullMode, SessionAction::SetFullMode),
            SessionStage::FullMode => (SessionStage::CreateDevices, SessionAction::CreateDevices),
            SessionStage::Dispatch => (SessionStage::Syn, SessionAction::Syn),
            _ => (SessionStage::Read, SessionAction::Read),
        },
    }
}

/// Ends a session.
fn end<E>(error: SessionError<E>) -> (next: (SessionStage, SessionAction<E>))
    ensures
        next == over(error),
{
    (SessionStage::Open, SessionAction::RestartAfter { delay_ms: RESTART_DELAY_MS, error })
}

/// Decides how a session goes on.
pub fn run<E>(stage: SessionStage, event: SessionEvent<E>) -> (next: (
    SessionStage,
    SessionAction<E>,
))
    requires
        event_fits(stage, event),
    ensures
        next == session_step(stage, event),
{
    match event {
        SessionEvent::Read(Ok(length)) => (
            SessionStage::Dispatch,
            SessionAction::Dispatch { length },
        ),
        // Normal while the pen is idle.
        SessionEvent::Read(Err(UsbError::Timeout)) => (SessionStage::Read, SessionAction::Read),
        // The tablet went away.
        SessionEvent::Read(Err(UsbError::NoDevice)) => end(SessionError::Disconnected),
        SessionEvent::Read(Err(UsbError::NotFound)) => end(SessionError::Disconnected),
        SessionEvent::Read(Err(error)) => (
            SessionStage::Read,
            SessionAction::ReadAfter { delay_ms: READ_RETRY_DELAY_MS, cause: error },
        ),
        SessionEvent::Done => match stage {
            SessionStage::Open => (SessionStage::Init, SessionAction::Init),
            SessionStage::Init => (SessionStage::FullMode, SessionAction::SetFullMode),
            SessionStage::FullMode => (
                SessionStage::CreateDevices,
                SessionAction::CreateDevices,
            ),
            SessionStage::Dispatch => (SessionStage::Syn, SessionAction::Syn),
            SessionStage::CreateDevices | SessionStage::Syn | SessionStage::Read => (
                SessionStage::Read,
                SessionAction::Read,
            ),
        },
        SessionEvent::Failed(error) => match stage {
            // A single failed dispatch does not end the session.
            SessionStage::Dispatch => (SessionStage::Syn, SessionAction::Syn),
            _ => end(SessionError::Failed(error)),
        },
    }
}

/// What ends a session: a failure while everything is set up, a failed
/// synchronization, or a tablet that is gone; and nothing else does.
pub proof fn law_what_ends_a_session<E>(stage: SessionStage, event: SessionEvent<E>)
    requires
        event_fits(stage, event),
    ensures
        session_step(stage, event).1 is RestartAfter <==> {
            ||| event is Failed && stage != SessionStage::Dispatch
            ||| event matches SessionEvent::Read(reply) && is_disconnect(reply)
        },
        session_step(stage, event).1 is RestartAfter ==> session_step(stage, event).0
            == SessionStage::Open,
{
}

/// A session ends with the error of what failed, unchanged, or with the word
/// that the tablet went away; either way there is a pause before the next one.
pub proof fn law_a_session_ends_with_its_error<E>(
    stage: SessionStage,
    error: E,
    reply: Result<usize, UsbError>,
)
    ensures
        stage != SessionStage::Dispatch ==> session_step(stage, SessionEvent::Failed(error)) == (
            SessionStage::Open,
            SessionAction::RestartAfter {
                delay_ms: RESTART_DELAY_MS,
                error: SessionError::Failed(error),
            },
        ),
        is_disconnect(reply) ==> session_step(
            SessionStage::Read,
            SessionEvent::<E>::Read(reply),
        ) == (
            SessionStage::Open,
            SessionAction::RestartAfter {
                delay_ms: RESTART_DELAY_MS,
                error: SessionError::<E>::Disconnected,
            },
        ),
{
}

/// Every packet is dispatched, and after it the devices are synchronized,
/// whether or not the dispatch worked; then the next packet is read.
pub proof fn law_every_packet_is_dispatched_and_synchronized<E>(
    length: usize,
    dispatched: SessionEvent<E>,
)
    requires
        !(dispatched is Read),
    ensures
        session_step(SessionStage::Read, SessionEvent::<E>::Read(Ok(length))) == (
            SessionStage::Dispatch,
            SessionAction::<E>::Dispatch { length },
        ),
        session_step(SessionStage::Dispatch, dispatched) == (
            SessionStage::Syn,
            SessionAction::<E>::Syn,
        ),
        session_step(SessionStage::Syn, SessionEvent::<E>::Done) == (
            SessionStage::Read,
            SessionAction::<E>::Read,
        ),
{
}

/// Each stage of the setup is reached only once the one before it has worked,
/// and packets are read only once all have.
pub proof fn law_setup_comes_first<E>(stage: SessionStage, event: SessionEvent<E>)
    requires
        event_fits(stage, event),
    ensures
        ({
            let next = session_step(stage, event).0;
            let done = event is Done;
            &&& next == SessionStage::Init ==> stage == SessionStage::Open && done
            &&& next == SessionStage::FullMode ==> stage == SessionStage::Init && done
            &&& next == SessionStage::CreateDevices ==> stage == SessionStage::FullMode && done
            &&& next == SessionStage::Read ==> {
                ||| stage == SessionStage::CreateDevices && done
                ||| stage == SessionStage::Syn && done
                ||| stage == SessionStage::Read
            }
        }),
{
}

/// The whole course of a session. Opening, initializing, the full reporting mode
/// and the virtual devices come one after the other, each once the one before has
/// worked; then packets are read, dispatched and synchronized in turn. A read that
/// timed out is repeated at once, one that found no tablet ends the session, any
/// other failed one is reported and repeated after 50 milliseconds. Whatever else
/// fails, but for a dispatch, ends the session with its error and a pause of two
/// seconds.
pub proof fn law_course_of_a_session<E>(
    stage: SessionStage,
    error: E,
    length: usize,
    usb_error: UsbError,
)
    ensures
        session_step(SessionStage::Open, SessionEvent::<E>::Done) == (
            SessionStage::Init,
            SessionAction::<E>::Init,
        ),
        session_step(SessionStage::Init, SessionEvent::<E>::Done) == (
            SessionStage::FullMode,
            SessionAction::<E>::SetFullMode,
        ),
        session_step(SessionStage::FullMode, SessionEvent::<E>::Done) == (
            SessionStage::CreateDevices,
            SessionAction::<E>::CreateDevices,
        ),
        session_step(SessionStage::CreateDevices, SessionEvent::<E>::Done) == (
            SessionStage::Read,
            SessionAction::<E>::Read,
        ),
        session_step(SessionStage::Read, SessionEvent::<E>::Read(Ok(length))) == (
            SessionStage::Dispatch,
            SessionAction::<E>::Dispatch { length },
        ),
        session_step(SessionStage::Dispatch, SessionEvent::<E>::Done) == (
            SessionStage::Syn,
            SessionAction::<E>::Syn,
        ),
        session_step(SessionStage::Dispatch, SessionEvent::Failed(error)) == (
            SessionStage::Syn,
            SessionAction::<E>::Syn,
        ),
        session_step(SessionStage::Syn, SessionEvent::<E>::Done) == (
            SessionStage::Read,
            SessionAction::<E>::Read,
        ),
        stage != SessionStage::Dispatch ==> session_step(stage, SessionEvent::Failed(error)) == (
            SessionStage::Open,
            SessionAction::RestartAfter { delay_ms: 2000, error: SessionError::Failed(error) },
        ),
        ({
            let next = session_step(SessionStage::Read, SessionEvent::<E>::Read(Err(usb_error)));
            match usb_error {
                UsbError::Timeout => next == (SessionStage::Read, SessionAction::<E>::Read),
                UsbError::NoDevice | UsbError::NotFound => next == (
                    SessionStage::Open,
                    SessionAction::<E>::RestartAfter {
                        delay_ms: 2000,
                        error: SessionError::<E>::Disconnected,
                    },
                ),
                _ => next == (
                    SessionStage::Read,
                    SessionAction::<E>::ReadAfter { delay_ms: 50, cause: usb_error },
                ),
            }
        }),
{
}

/// The tablet's vendor and product.
pub proof fn law_tablet_has_these_ids()
    ensures
        VID == 0x08f2,
        PID == 0x6811,
{
}

/// The decisions that are made are those of the course.
pub proof fn law_session_keeps_to_its_course<E>(
    stage: SessionStage,
    event: SessionEvent<E>,
    next: (SessionStage, SessionAction<E>),
)
    requires
        call_ensures(run::<E>, (stage, event), next),
    ensures
        next == session_step(stage, event),
{
}

} // verus!
