//! The mission screen: a small state machine that so far only shows its budget
//! and lets Escape summon the menu.

use vstd::prelude::*;

use crate::app::AppEvent;
use crate::hover::Hover;
use crate::hover::HoverOutcome;
use crate::input::Button;
use crate::input::Key;
use crate::press::Press;
use crate::release::Release;
use crate::update::Update;

verus! {

/// The phase a mission is in.
#[derive(Clone, Copy, Debug, PartialEq, Eq)]
pub enum MissionState {
    /// The mission is being prepared; `budget` is what is left to spend, in
    /// millions.
    Planning { budget: u32 },
    /// The mission is under way.
    Execution {},
}

impl MissionState {
    /// What the mission screen answers to a button going up: Escape summons the
    /// menu, nothing else has an effect.
    pub open spec fn release_event(button: Button) -> Option<AppEvent> {
        if button.is_escape() {
            Some(AppEvent::OpenMenu)
        } else {
            None
        }
    }
}

impl Hover for MissionState {
    /// Cursor moves mean nothing to a mission.
    fn hover(&mut self, _hits: &[bool]) -> (outcome: HoverOutcome)
        ensures
            *final(self) == *old(self),
            outcome == HoverOutcome::silent(),
    {
        HoverOutcome { event: None, sound: None }
    }
}

impl Press for MissionState {
    /// A button going down has no effect.
    fn press(&mut self, _button: Button) -> (event: Option<AppEvent>)
        ensures
            *final(self) == *old(self),
            event is None,
    {
        None
    }
}

impl Release for MissionState {
    /// Escape going up asks for the menu; any other button has no effect. The
    /// mission itself never changes.
    fn release(&mut self, button: Button) -> (event: Option<AppEvent>)
        ensures
            *final(self) == *old(self),
            event == MissionState::release_event(button),
    {
        match button {
            Button::Keyboard(Key::Escape) => Some(AppEvent::OpenMenu),
            _ => None,
        }
    }
}

impl Update for MissionState {
    /// A tick changes nothing yet and produces no event.
    fn update(&mut self) -> (event: Option<AppEvent>)
        ensures
            *final(self) == *old(self),
            event is None,
    {
        None
    }
}

} // verus!
