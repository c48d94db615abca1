//! What the callbacks of the service do on the host side.
//!
//! A callback runs on a thread of the service. It is kept to the minimum:
//! copy what is needed out of the native payload, decide whether there is
//! anything to deliver, and push it into a queue. What to deliver, and
//! whether, is decided here; the queues themselves belong to the caller.
//!
//! The session-state callback is special. The call that unregisters it does
//! not promise that no invocation is still on its way, so it must not read a
//! context that its owner might be releasing. It reads its destination from
//! one process-wide slot instead, and finds the slot empty once the session
//! is being torn down.
use crate::event::CueEvent;
use crate::event::{CueEventFromFfiErrorView, CueEventView};
use crate::native::{RawEvent, RawSessionDetails, RawSessionStateChanged};
use vstd::prelude::*;

verus! {

/// Data sent through the session-state queue.
#[derive(Debug, Clone, Copy, PartialEq, Eq)]
pub struct SessionStateChange {
    pub state: u32,
    pub details: RawSessionDetails,
}

/// The process-wide slot for the destination of session state changes.
/// There is one slot per process, guarded by a lock that is taken for each
/// of these operations and never held across a wait.
#[derive(Debug)]
pub struct SessionSlot<D> {
    destination: Option<D>,
}

impl<D> View for SessionSlot<D> {
    type V = Option<D>;

    closed spec fn view(&self) -> Option<D> {
        self.destination
    }
}

impl<D> SessionSlot<D> {
    /// An empty slot.
    pub fn new() -> (slot: Self)
        ensures
            slot@ is None,
    {
        SessionSlot { destination: None }
    }

    /// Installs a destination. One that was installed before is taken out
    /// and handed back, to be dropped: whoever listened to it sees its queue
    /// closed.
    pub fn install(&mut self, destination: D) -> (previous: Option<D>)
        ensures
            final(self)@ == Some(destination),
            previous == old(self)@,
    {
        let mut next = Some(destination);
        core::mem::swap(&mut self.destination, &mut next);
        next
    }

    /// Empties the slot, so that the callback delivers nothing from now on.
    /// The destination that was installed is handed back, to be dropped.
    pub fn clear(&mut self) -> (previous: Option<D>)
        ensures
            final(self)@ is None,
            previous == old(self)@,
    {
        let mut next = None;
        core::mem::swap(&mut self.destination, &mut next);
        next
    }

    /// The destination that is installed, if any.
    pub fn destination(&self) -> (destination: Option<&D>)
        ensures
            match destination {
                Some(d) => self@ == Some(*d),
                None => self@ is None,
            },
    {
        self.destination.as_ref()
    }
}

/// Install a destination for session state changes into the slot.
pub fn install_session_sender<D>(slot: &mut SessionSlot<D>, tx: D)
    ensures
        final(slot)@ == Some(tx),
{
    let _ = slot.install(tx);
}

/// Remove the destination of session state changes, making the callback a
/// no-op. Must be called before the service is told to disconnect.
pub fn clear_session_sender<D>(slot: &mut SessionSlot<D>)
    ensures
        final(slot)@ is None,
{
    let _ = slot.clear();
}

/// What the session-state callback does with a state change: where to send
/// it and what to send. With an empty slot there is nothing to do. The
/// context that the service passes to the callback plays no part.
pub fn session_state_trampoline<'a, D>(
    slot: &'a SessionSlot<D>,
    event_data: &RawSessionStateChanged,
) -> (delivery: Option<(&'a D, SessionStateChange)>)
    ensures
        match delivery {
            Some((destination, change)) => slot@ == Some(*destination) && change == (
            SessionStateChange { state: event_data.state, details: event_data.details }),
            None => slot@ is None,
        },
{
    match slot.destination() {
        Some(tx) => Some(
            (tx, SessionStateChange { state: event_data.state, details: event_data.details }),
        ),
        None => None,
    }
}

/// What the event callback delivers for a native event: the event, if it
/// converts. An event that does not convert (an unknown discriminant, a null
/// payload, an unknown key, an identifier that is no text) is dropped without
/// a trace: it is no error of the subscription, and the stream goes on.
pub fn event_trampoline(event: &RawEvent) -> (delivery: Option<CueEvent>)
    ensures
        match delivery {
            Some(e) => CueEvent::spec_from_ffi(*event) == Ok::<
                CueEventView,
                CueEventFromFfiErrorView,
            >(e.deep_view()),
            None => CueEvent::spec_from_ffi(*event) is Err,
        },
{
    match CueEvent::from_ffi(event) {
        Ok(parsed) => Some(parsed),
        Err(_) => None,
    }
}

/// What the completion callback of a flush delivers: the result code, as it
/// is.
pub fn flush_trampoline(error: u32) -> (delivery: u32)
    ensures
        delivery == error,
{
    error
}

} // verus!
