//! Event-loop pieces that are not protocol transitions: the user-event
//! proxy and the translation of internal events.
use vstd::prelude::*;
use std::sync::mpsc::{SendError, Sender};
use crate::event::Event;

verus! {

/// The standard channel's sending half, carried opaquely.
#[verifier::external_type_specification]
#[verifier::external_body]
#[verifier::reject_recursive_types(T)]
pub struct ExSender<T>(Sender<T>);

/// The standard channel's send error, carried opaquely.
#[verifier::external_type_specification]
#[verifier::external_body]
#[verifier::reject_recursive_types(T)]
pub struct ExSendError<T>(SendError<T>);

/// `Sender::send`: hands `value` to the receiving end, or returns it
/// inside the error when the receiver is gone. Which of the two happens
/// depends on the other end and is not stated.
#[verifier::external_body]
fn channel_send<T>(tx: &Sender<T>, value: T) -> Result<(), SendError<T>> {
    tx.send(value)
}

/// `Sender::clone`: another handle to the same channel. Nothing about the
/// handle is stated.
#[verifier::external_body]
fn channel_clone<T>(tx: &Sender<T>) -> Sender<T> {
    tx.clone()
}

/// Send-able, clone-able handle for dispatching user events into the
/// loop from other threads.
#[verifier::reject_recursive_types(T)]
pub struct EventLoopProxy<T> {
    tx: Sender<T>,
}

impl<T> EventLoopProxy<T> {
    /// A proxy sending through `tx`.
    pub fn new(tx: Sender<T>) -> (p: EventLoopProxy<T>)
        ensures
            p.sender() == tx,
    {
        EventLoopProxy { tx }
    }

    /// The channel the proxy sends through.
    pub closed spec fn sender(&self) -> Sender<T> {
        self.tx
    }

    /// Send a user event; it arrives at the handler as a user event.
    /// Returns `Err` (holding the event) when the loop has already
    /// exited.
    pub fn send_event(&self, event: T) -> Result<(), SendError<T>> {
        channel_send(&self.tx, event)
    }
}

impl<T> Clone for EventLoopProxy<T> {
    fn clone(&self) -> Self {
        EventLoopProxy { tx: channel_clone(&self.tx) }
    }
}

/// Convert an event produced by the protocol transitions (which never
/// carry a user event) to the consumer's event type.
pub fn map_event<T>(internal: Event<()>) -> (e: Event<T>)
    requires
        !(internal is UserEvent),
    ensures
        (internal matches Event::WindowEvent { surface_id, event } ==> e == (Event::<T>::WindowEvent { surface_id, event })),
        internal is Resumed ==> (e is Resumed),
        internal is AboutToWait ==> (e is AboutToWait),
        internal is LoopExiting ==> (e is LoopExiting),
{
    match internal {
        Event::WindowEvent { surface_id, event } => Event::WindowEvent { surface_id, event },
        Event::Resumed => Event::Resumed,
        Event::AboutToWait => Event::AboutToWait,
        Event::LoopExiting => Event::LoopExiting,
        Event::UserEvent(()) => {
            assert(false);
            Event::LoopExiting
        },
    }
}

} // verus!
