use vstd::prelude::*;

use crate::app::AppEvent;

verus! {

/// trait for types which change with the simulation tick
pub trait Update {
    fn update(&mut self) -> Option<AppEvent>;
}

} // verus!
