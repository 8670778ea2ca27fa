use vstd::prelude::*;

use crate::app::AppEvent;
use crate::input::Button;

verus! {

/// trait for types which can respond to keyboard and mouse button down events
pub trait Press {
    fn press(&mut self, button: Button) -> Option<AppEvent>;
}

} // verus!
