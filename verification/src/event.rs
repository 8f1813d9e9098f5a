//! The events through which a lock wakes the tasks that wait for it.

use vstd::prelude::*;
use event_listener::Event;
use event_listener::EventListener;

verus! {

/// `event_listener::Event`: a list of listeners that can be notified. Nothing of
/// what is inside it is visible here.
#[verifier::external_type_specification]
#[verifier::external_body]
pub struct ExEvent(Event);

/// `event_listener::EventListener`: one listener of an event, to be waited for or
/// dropped. Nothing of what is inside it is visible here.
#[verifier::external_type_specification]
#[verifier::external_body]
pub struct ExEventListener(EventListener);

/// `Event::new`: an event with no listener. Nothing is claimed of the value.
#[verifier::external_body]
pub(crate) fn new_event() -> (event: Event) {
    Event::new()
}

/// `Event::listen`: registers a listener behind those already registered and returns
/// it. Nothing is claimed of the value.
#[verifier::external_body]
pub(crate) fn listen(event: &Event) -> (listener: EventListener) {
    event.listen()
}

/// `Event::notify_one`: sees to it that at least one registered listener is notified,
/// the one that registered first among those not yet notified; does nothing where no
/// listener is registered. Nothing is claimed of it here. The event calls the wakers
/// of the listeners that it notifies, so the call unwinds where such a waker panics.
#[verifier::external_body]
pub(crate) fn notify_one(event: &Event)
{
    event.notify_one()
}

} // verus!
