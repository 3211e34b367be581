//! The life cycle that every stateful widget follows.

use crate::event::{KeyEvent, MouseEvent};
use vstd::prelude::*;

verus! {

/// A stateful widget.
///
/// A widget is built from a snapshot of the application state and a handle
/// on which it may send events to the rest of the application, is rebuilt
/// against each newer snapshot, and consumes input events in between. It
/// keeps no reference to the snapshot. `State` is the type of the snapshot
/// and `Sender` the type of the handle; any channel sender will do.
pub trait Component<State, Sender>: Sized {
    /// Builds a fresh widget.
    fn new(state: &State, action_tx: Sender) -> Self;

    /// Gives up this widget for one that agrees with a newer snapshot.
    fn move_with_state(self, state: &State) -> Self;

    /// A stable label for the widget.
    fn name(&self) -> &str;

    /// Consumes one keyboard event.
    fn handle_key_event(&mut self, key: KeyEvent);

    /// Consumes one pointer event.
    fn handle_mouse_event(&mut self, mouse: MouseEvent);
}

} // verus!
