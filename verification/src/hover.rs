use vstd::prelude::*;

use crate::app::AppEvent;
use crate::sounds::Sound;

verus! {

/// What a screen answers to a cursor move.
#[derive(Clone, Copy, Debug, PartialEq, Eq)]
pub struct HoverOutcome {
    /// The application-level event the move produced, if any.
    pub event: Option<AppEvent>,
    /// The sound to play as feedback, if any.
    pub sound: Option<Sound>,
}

impl HoverOutcome {
    /// The answer of a screen on which the move had no effect worth reporting.
    pub open spec fn silent() -> HoverOutcome {
        HoverOutcome { event: None, sound: None }
    }
}

/// trait for types which should receive cursor move events
///
/// `hits[i]` tells whether the cursor lies inside the rectangle of the `i`-th
/// control of the screen that is shown; an index past the end of `hits` counts
/// as a miss.
pub trait Hover {
    fn hover(&mut self, hits: &[bool]) -> HoverOutcome;
}

} // verus!
