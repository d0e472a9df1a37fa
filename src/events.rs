use vstd::prelude::*;

use crate::key::Key;

verus! {

/// What the event source hands the application: a key press, or a tick of
/// the redraw clock.
#[derive(Debug, Clone, Copy, PartialEq, Eq, Structural)]
pub enum InputEvent {
    Input(Key),
    Tick,
}

} // verus!
