use vstd::prelude::*;

use crate::app::AppEvent;
use crate::input::Button;

verus! {

/// trait for types which can respond to keyboard and mouse button up events
pub trait Release {
    fn release(&mut self, button: Button) -> Option<AppEvent>;
}

} // verus!
