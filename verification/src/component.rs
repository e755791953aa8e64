use vstd::prelude::*;

use crate::event::Event;

verus! {

/// A part of the screen that handles events, giving back the events they give rise to.
pub trait Component<E> {
    fn on_event(&mut self, evt: Event) -> Result<Vec<Event>, E>;
}

/// A component that can also draw itself.
pub trait DrawableComponent<E>: Component<E> {
    fn draw(&self) -> Result<(), E>;
}

} // verus!
