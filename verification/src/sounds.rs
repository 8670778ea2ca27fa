//! Names of the sounds that the audio layer knows how to play.

use vstd::prelude::*;

verus! {

/// One of the sounds shipped with the application. Screens only name a sound;
/// playing it is left to whoever drives them.
#[derive(Clone, Copy, Debug, Eq, Hash, PartialEq)]
pub enum Sound {
    /// A soft tap, the feedback for the cursor arriving on a button.
    TapMuted,
    /// The background music.
    Holst,
}

} // verus!
