//! The buttons a driver can report as pressed or released.

use vstd::prelude::*;

verus! {

/// A keyboard key. Only Escape means anything to the screens; every other key
/// is reported as `Other`.
#[derive(Clone, Copy, Debug, PartialEq, Eq)]
pub enum Key {
    Escape,
    Other,
}

/// A button of the pointing device. `Left` is the primary button.
#[derive(Clone, Copy, Debug, PartialEq, Eq)]
pub enum MouseButton {
    Left,
    Right,
    Middle,
    Other,
}

/// Any button whose going down or up is delivered to a screen.
#[derive(Clone, Copy, Debug, PartialEq, Eq)]
pub enum Button {
    Keyboard(Key),
    Mouse(MouseButton),
    /// A button of some other device, such as a game controller.
    Other,
}

impl Button {
    /// Whether this is the primary pointer button, the one that clicks.
    pub open spec fn is_primary(self) -> bool {
        self == Button::Mouse(MouseButton::Left)
    }

    /// Whether this is the Escape key.
    pub open spec fn is_escape(self) -> bool {
        self == Button::Keyboard(Key::Escape)
    }
}

} // verus!
