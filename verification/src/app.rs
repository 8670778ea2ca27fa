//! The top-level application state and the events that change it.

use vstd::prelude::*;

use crate::hover::Hover;
use crate::hover::HoverOutcome;
use crate::input::Button;
use crate::input::Key;
use crate::menu::MenuModel;
use crate::menu::MenuState;
use crate::menu::lemma_hover_keeps_wf;
use crate::menu::lemma_opened_is_wf;
use crate::menu::lemma_press_keeps_wf;
use crate::menu::lemma_release_keeps_wf;
use crate::mission::MissionState;
use crate::press::Press;
use crate::release::Release;

verus! {

/// How hard a mission is. It decides the budget a mission starts with and is
/// fixed once chosen.
#[derive(Clone, Copy, Debug, Eq, PartialEq)]
pub enum MissionDifficulty {
    Easy,
    Medium,
    Hard,
}

impl MissionDifficulty {
    /// The budget, in millions, that a mission of this difficulty starts with.
    pub open spec fn spec_starting_budget(self) -> u32 {
        match self {
            MissionDifficulty::Easy => 1000,
            MissionDifficulty::Medium => 750,
            MissionDifficulty::Hard => 500,
        }
    }

    /// The budget, in millions, that a mission of this difficulty starts with.
    #[verifier::when_used_as_spec(spec_starting_budget)]
    pub fn starting_budget(self) -> (budget: u32)
        ensures
            budget == self.spec_starting_budget(),
    {
        match self {
            MissionDifficulty::Easy => 1000,
            MissionDifficulty::Medium => 750,
            MissionDifficulty::Hard => 500,
        }
    }
}

/// returned from various event handlers to allow lower level components to affect app level state
#[derive(Clone, Copy, Debug, Eq, PartialEq)]
pub enum AppEvent {
    Exit,
    OpenMenu,
    ResumeMission,
    NewMission(MissionDifficulty),
}

/// A screen that can receive routed input.
#[derive(Clone, Copy, Debug, Eq, PartialEq)]
pub enum Screen {
    Menu,
    Mission,
}

/// The top-level state: at most one menu and at most one mission. The two may
/// coexist, the menu then lying over the running mission.
#[derive(Debug, PartialEq, Eq)]
pub struct AppState {
    pub menu_state: Option<MenuState>,
    pub mission_state: Option<MissionState>,
    /// Set once `Exit` has been handled: the driver is asked to close its
    /// window. Nothing ever clears it.
    pub close_requested: bool,
}

/// The mathematical view of an [`AppState`].
#[verifier::ext_equal]
pub struct AppModel {
    pub menu: Option<MenuModel>,
    pub mission: Option<MissionState>,
    pub close_requested: bool,
}

impl View for AppState {
    type V = AppModel;

    open spec fn view(&self) -> AppModel {
        AppModel {
            menu: match self.menu_state {
                Some(menu) => Some(menu@),
                None => None,
            },
            mission: self.mission_state,
            close_requested: self.close_requested,
        }
    }
}

impl AppModel {
    /// The application as it starts: the main menu is open and there is no
    /// mission.
    pub open spec fn started() -> AppModel {
        AppModel { menu: Some(MenuModel::opened(false)), mission: None, close_requested: false }
    }

    /// The screen that shows and that input is routed to: the menu whenever one
    /// is open, even over a running mission; the mission only when no menu is
    /// open; none when there is neither.
    pub open spec fn active_screen(self) -> Option<Screen> {
        if self.menu is Some {
            Some(Screen::Menu)
        } else if self.mission is Some {
            Some(Screen::Mission)
        } else {
            None
        }
    }

    /// The invariant of every state reached from the start: some screen is
    /// active, and an open menu is well formed and offers "resume" exactly when
    /// there is a mission.
    pub open spec fn wf(self) -> bool {
        &&& self.active_screen() is Some
        &&& self.menu matches Some(menu) ==> menu.wf() && (menu.active_mission <==> self.mission is Some)
    }

    /// This state after applying `event` to it.
    pub open spec fn after_handle(self, event: AppEvent) -> AppModel {
        match event {
            AppEvent::Exit => AppModel { menu: self.menu, mission: self.mission, close_requested: true },
            AppEvent::OpenMenu => AppModel {
                menu: Some(MenuModel::opened(self.mission is Some)),
                mission: self.mission,
                close_requested: self.close_requested,
            },
            AppEvent::ResumeMission => if self.mission is Some {
                AppModel { menu: None, mission: self.mission, close_requested: self.close_requested }
            } else {
                self
            },
            AppEvent::NewMission(difficulty) => AppModel {
                menu: None,
                mission: Some(MissionState::Planning { budget: difficulty.starting_budget() }),
                close_requested: self.close_requested,
            },
        }
    }

    /// This state with `menu` in place of its menu.
    pub open spec fn with_menu(self, menu: MenuModel) -> AppModel {
        AppModel { menu: Some(menu), mission: self.mission, close_requested: self.close_requested }
    }

    /// This state after a cursor move. Only an open menu takes notice.
    pub open spec fn after_hover(self, hits: Seq<bool>) -> AppModel {
        match self.menu {
            Some(menu) => self.with_menu(menu.after_hover(hits)),
            None => self,
        }
    }

    /// What a cursor move is answered with: never an event, and the sound that
    /// the open menu asks for, if a menu is open.
    pub open spec fn hover_outcome(self, hits: Seq<bool>) -> HoverOutcome {
        match self.menu {
            Some(menu) => HoverOutcome { event: None, sound: menu.hover_sound(hits) },
            None => HoverOutcome::silent(),
        }
    }

    /// This state after `button` went down. Escape going down is dropped before
    /// it reaches any screen; anything else arms the open menu, if there is one.
    pub open spec fn after_press(self, button: Button) -> AppModel {
        match self.menu {
            Some(menu) if !button.is_escape() => self.with_menu(menu.after_press()),
            _ => self,
        }
    }

    /// This state after `button` went up. Only an open menu changes.
    pub open spec fn after_release(self, button: Button) -> AppModel {
        match self.menu {
            Some(menu) => self.with_menu(menu.after_release(button)),
            None => self,
        }
    }

    /// The event that `button` going up produces: the open menu's answer, or
    /// the mission's when no menu is open, or none when no screen is active.
    pub open spec fn release_event(self, button: Button) -> Option<AppEvent> {
        match self.menu {
            Some(menu) => menu.release_event(button),
            None => if self.mission is Some {
                MissionState::release_event(button)
            } else {
                None
            },
        }
    }
}

impl AppState {
    /// Starts the application on the main menu, with no mission.
    pub fn new() -> (app: AppState)
        ensures
            app@ == AppModel::started(),
            app@.wf(),
    {
        AppState { menu_state: Some(MenuState::new(false)), mission_state: None, close_requested: false }
    }

    /// Applies an event that a screen produced. `Exit` asks the driver to close
    /// the window; `OpenMenu` opens a fresh main menu, which offers "resume" if
    /// there is a mission; `ResumeMission` closes the menu, but only if there is
    /// a mission to go back to; `NewMission` starts a mission with the budget its
    /// difficulty gives, replacing any other, and closes the menu.
    pub fn handle(&mut self, event: AppEvent)
        ensures
            final(self)@ == old(self)@.after_handle(event),
            old(self)@.wf() ==> final(self)@.wf(),
    {
        match event {
            AppEvent::Exit => {
                self.close_requested = true;
            },
            AppEvent::OpenMenu => {
                self.menu_state = Some(MenuState::new(self.mission_state.is_some()));
            },
            AppEvent::ResumeMission => {
                if self.mission_state.is_some() {
                    self.menu_state = None;
                }
            },
            AppEvent::NewMission(difficulty) => {
                self.mission_state = Some(MissionState::Planning { budget: difficulty.starting_budget() });
                self.menu_state = None;
            },
        }
    }

    /// The screen that shows and that input is routed to.
    pub fn active_screen(&self) -> (screen: Option<Screen>)
        ensures
            screen == self@.active_screen(),
    {
        if self.menu_state.is_some() {
            Some(Screen::Menu)
        } else if self.mission_state.is_some() {
            Some(Screen::Mission)
        } else {
            None
        }
    }
}

impl Hover for AppState {
    /// Routes a cursor move to the open menu, or else to the mission, or else
    /// drops it.
    fn hover(&mut self, hits: &[bool]) -> (outcome: HoverOutcome)
        ensures
            final(self)@ == old(self)@.after_hover(hits@),
            outcome == old(self)@.hover_outcome(hits@),
            old(self)@.wf() ==> final(self)@.wf(),
    {
        match &mut self.menu_state {
            Some(menu) => menu.hover(hits),
            None => match &mut self.mission_state {
                Some(mission) => mission.hover(hits),
                None => HoverOutcome { event: None, sound: None },
            },
        }
    }
}

impl Press for AppState {
    /// Routes a button going down to the open menu, or else to the mission, or
    /// else drops it. Escape going down is dropped in any case.
    fn press(&mut self, button: Button) -> (event: Option<AppEvent>)
        ensures
            final(self)@ == old(self)@.after_press(button),
            event is None,
            old(self)@.wf() ==> final(self)@.wf(),
    {
        match button {
            Button::Keyboard(Key::Escape) => None,
            _ => match &mut self.menu_state {
                Some(menu) => menu.press(button),
                None => match &mut self.mission_state {
                    Some(mission) => mission.press(button),
                    None => None,
                },
            },
        }
    }
}

impl Release for AppState {
    /// Routes a button going up to the open menu, or else to the mission, or
    /// else drops it. Escape is routed like any other button.
    fn release(&mut self, button: Button) -> (event: Option<AppEvent>)
        ensures
            final(self)@ == old(self)@.after_release(button),
            event == old(self)@.release_event(button),
            old(self)@.wf() ==> final(self)@.wf(),
    {
        match &mut self.menu_state {
            Some(menu) => menu.release(button),
            None => match &mut self.mission_state {
                Some(mission) => mission.release(button),
                None => None,
            },
        }
    }
}

/// Starting a mission always ends in planning with the budget of the chosen
/// difficulty, 750 for a medium one, and with no menu open, whatever mission or
/// menu there was before.
pub proof fn lemma_new_mission_starts_planning(app: AppModel, difficulty: MissionDifficulty)
    ensures
        app.after_handle(AppEvent::NewMission(difficulty)).mission == Some(
            MissionState::Planning { budget: difficulty.starting_budget() },
        ),
        app.after_handle(AppEvent::NewMission(difficulty)).menu is None,
        app.after_handle(AppEvent::NewMission(MissionDifficulty::Medium)).mission == Some(
            MissionState::Planning { budget: 750 },
        ),
{
}

/// Without a mission there is nothing to resume: `ResumeMission` then changes
/// nothing, and the menu stays as it is.
pub proof fn lemma_resume_needs_mission(app: AppModel)
    requires
        app.mission is None,
    ensures
        app.after_handle(AppEvent::ResumeMission) == app,
{
}

/// No event takes the last screen away: applying an event to a state that
/// satisfies the invariant gives a state that satisfies it.
pub proof fn lemma_handle_keeps_wf(app: AppModel, event: AppEvent)
    requires
        app.wf(),
    ensures
        app.after_handle(event).wf(),
{
    lemma_opened_is_wf(app.mission is Some);
}

/// Routed input keeps the invariant, and never touches the mission or the
/// request to close.
pub proof fn lemma_input_keeps_wf(app: AppModel, hits: Seq<bool>, button: Button)
    requires
        app.wf(),
    ensures
        app.after_hover(hits).wf(),
        app.after_press(button).wf(),
        app.after_release(button).wf(),
        app.after_hover(hits).mission == app.mission,
        app.after_press(button).mission == app.mission,
        app.after_release(button).mission == app.mission,
        app.after_hover(hits).close_requested == app.close_requested,
        app.after_press(button).close_requested == app.close_requested,
        app.after_release(button).close_requested == app.close_requested,
{
    if let Some(menu) = app.menu {
        lemma_hover_keeps_wf(menu, hits);
        lemma_press_keeps_wf(menu);
        lemma_release_keeps_wf(menu, button);
    }
}

} // verus!
