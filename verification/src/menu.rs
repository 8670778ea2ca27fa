//! The menu screen: a column of clickable labels, one column per submenu.
//!
//! The cursor hovers at most one label at a time. A click is confirmed in two
//! phases: a button going down arms the label under the cursor, and the primary
//! button going up commits only if the cursor is still on that same label. What a
//! committed click does is looked up in a table keyed by the submenu shown,
//! whether a mission can be resumed, and the label's position in the column.
//!
//! [`MenuModel`] is the mathematical view of a [`MenuState`]; every handler's
//! contract gives the view afterwards as a function of the view before.

use vstd::prelude::*;

use crate::app::AppEvent;
use crate::app::MissionDifficulty;
use crate::hover::Hover;
use crate::hover::HoverOutcome;
use crate::input::Button;
use crate::input::Key;
use crate::input::MouseButton;
use crate::press::Press;
use crate::release::Release;
use crate::sounds::Sound;

verus! {

/// The size of the font that labels are set in; it is also the height of a
/// label's rectangle.
pub const MENU_BUTTON_FONT_SIZE: u32 = 32;

/// A clickable label.
#[derive(Clone, Copy, Debug, PartialEq, Eq)]
pub struct MenuButton {
    /// What the label says.
    pub text: &'static str,
    /// Where the label sits, as an offset in pixels from the menu's anchor.
    pub pos: [i32; 2],
    /// Whether the cursor was on the label at the last cursor move.
    pub hovered: bool,
}

impl MenuButton {
    /// A label that says `text`, `pos` pixels away from the menu's anchor.
    pub fn new(text: &'static str, pos: [i32; 2], hovered: bool) -> (button: MenuButton)
        ensures
            button == (MenuButton { text, pos, hovered }),
    {
        MenuButton { text, pos, hovered }
    }

    /// The same label with its hover flag set to `hovered`.
    pub open spec fn with_hovered(self, hovered: bool) -> MenuButton {
        MenuButton { text: self.text, pos: self.pos, hovered }
    }
}

/// A label at the left edge of the column, `y` pixels down, not hovered.
pub open spec fn label(text: &'static str, y: i32) -> MenuButton {
    MenuButton { text, pos: [0, y], hovered: false }
}

/// The labels of the main menu, top to bottom. "resume" is offered only when
/// there is a mission to resume, and then pushes the others down by one place.
pub open spec fn main_menu_layout(active_mission: bool) -> Seq<MenuButton> {
    if active_mission {
        seq![
            label("resume", 0),
            label("new mission", 50),
            label("load mission", 100),
            label("options", 150),
            label("exit", 200),
        ]
    } else {
        seq![
            label("new mission", 0),
            label("load mission", 50),
            label("options", 100),
            label("exit", 150),
        ]
    }
}

/// The labels of the submenu that starts a mission, top to bottom.
pub open spec fn new_mission_menu_layout() -> Seq<MenuButton> {
    seq![label("easy", 0), label("medium", 50), label("hard", 100), label("back", 200)]
}

/// The labels shown for `submenu`, where `None` is the main menu. The submenus
/// for loading a mission and for options have no labels yet.
pub open spec fn layout(submenu: Option<SubMenu>, active_mission: bool) -> Seq<MenuButton> {
    match submenu {
        None => main_menu_layout(active_mission),
        Some(SubMenu::NewMission) => new_mission_menu_layout(),
        Some(SubMenu::LoadMission) => Seq::empty(),
        Some(SubMenu::Options) => Seq::empty(),
    }
}

/// The submenus that can be opened from the main menu.
#[derive(Clone, Copy, Debug, PartialEq, Eq)]
pub enum SubMenu {
    NewMission,
    LoadMission,
    Options,
}

/// What a committed click on a label does.
#[derive(Clone, Copy, Debug, PartialEq, Eq)]
pub enum MenuAction {
    /// Hand an event to the application.
    Emit(AppEvent),
    /// Open a submenu.
    Open(SubMenu),
    /// Go back to the main menu.
    Back,
    /// Do nothing: no meaning is attached to the label yet.
    Nothing,
}

impl MenuAction {
    /// The event the action hands to the application, if it hands over one.
    pub open spec fn event(self) -> Option<AppEvent> {
        match self {
            MenuAction::Emit(event) => Some(event),
            _ => None,
        }
    }
}

/// The transition table: what a committed click on the label at `index` does
/// while `submenu` is shown (`None` being the main menu). Every combination the
/// table does not list does nothing.
pub open spec fn menu_action(submenu: Option<SubMenu>, active_mission: bool, index: usize) -> MenuAction {
    match (submenu, active_mission, index) {
        (None, true, 0) => MenuAction::Emit(AppEvent::ResumeMission),
        (None, true, 1) | (None, false, 0) => MenuAction::Open(SubMenu::NewMission),
        (None, true, 2) | (None, false, 1) => MenuAction::Open(SubMenu::LoadMission),
        (None, true, 3) | (None, false, 2) => MenuAction::Open(SubMenu::Options),
        (None, true, 4) | (None, false, 3) => MenuAction::Emit(AppEvent::Exit),
        (Some(SubMenu::NewMission), _, 0) => MenuAction::Emit(AppEvent::NewMission(MissionDifficulty::Easy)),
        (Some(SubMenu::NewMission), _, 1) => MenuAction::Emit(AppEvent::NewMission(MissionDifficulty::Medium)),
        (Some(SubMenu::NewMission), _, 2) => MenuAction::Emit(AppEvent::NewMission(MissionDifficulty::Hard)),
        (Some(SubMenu::NewMission), _, 3) => MenuAction::Back,
        _ => MenuAction::Nothing,
    }
}

/// Whether `hits` reports the cursor inside the rectangle of the label at `i`.
pub open spec fn hit(hits: Seq<bool>, i: int) -> bool {
    0 <= i < hits.len() && hits[i]
}

/// The first of the labels `0..count` that `hits` reports the cursor on.
pub open spec fn first_hit(hits: Seq<bool>, count: nat) -> Option<usize>
    decreases count,
{
    if count == 0 {
        None
    } else {
        match first_hit(hits, (count - 1) as nat) {
            Some(i) => Some(i),
            None => if hit(hits, count - 1) {
                Some((count - 1) as usize)
            } else {
                None
            },
        }
    }
}

/// The state of the menu screen.
#[derive(Debug, PartialEq, Eq)]
pub struct MenuState {
    /// whether there's a mission running which can be resumed
    pub active_mission: bool,
    /// whether and which submenus is shown
    pub submenu: Option<SubMenu>,
    /// buttons on the current menu, swapped whenever submenu changes
    pub buttons: Vec<MenuButton>,
    /// index of the hovered button (if any), used for detecting presses
    pub hovered: Option<usize>,
    /// indicates that a button went down while hovering the button at this index. only
    /// consider a button pressed if the cursor is there on both down and up
    pub pressing: Option<usize>,
}

/// The mathematical view of a [`MenuState`].
#[verifier::ext_equal]
pub struct MenuModel {
    pub active_mission: bool,
    pub submenu: Option<SubMenu>,
    pub buttons: Seq<MenuButton>,
    pub hovered: Option<usize>,
    pub pressing: Option<usize>,
}

impl View for MenuState {
    type V = MenuModel;

    open spec fn view(&self) -> MenuModel {
        MenuModel {
            active_mission: self.active_mission,
            submenu: self.submenu,
            buttons: self.buttons@,
            hovered: self.hovered,
            pressing: self.pressing,
        }
    }
}

impl MenuModel {
    /// A menu as it is when it has just been opened: the main menu, nothing
    /// hovered, nothing armed.
    pub open spec fn opened(active_mission: bool) -> MenuModel {
        MenuModel {
            active_mission,
            submenu: None,
            buttons: main_menu_layout(active_mission),
            hovered: None,
            pressing: None,
        }
    }

    /// This menu after switching to `submenu` (`None` being the main menu): the
    /// labels are replaced, and with them go the hovered and the armed index,
    /// which spoke of the old labels.
    pub open spec fn showing(self, submenu: Option<SubMenu>) -> MenuModel {
        MenuModel {
            active_mission: self.active_mission,
            submenu,
            buttons: layout(submenu, self.active_mission),
            hovered: None,
            pressing: None,
        }
    }

    /// The invariant of every menu reached from a freshly opened one: the labels
    /// are those of the submenu shown, the hovered and the armed index point at
    /// one of them, and exactly the hovered label carries the hover flag.
    pub open spec fn wf(self) -> bool {
        &&& self.buttons.len() == layout(self.submenu, self.active_mission).len()
        &&& forall|i: int|
            0 <= i < self.buttons.len() ==> #[trigger] self.buttons[i] == layout(
                self.submenu,
                self.active_mission,
            )[i].with_hovered(self.hovered == Some(i as usize))
        &&& self.hovered matches Some(i) ==> i < self.buttons.len()
        &&& self.pressing matches Some(i) ==> i < self.buttons.len()
    }

    /// This menu after a cursor move: the first label the cursor is on becomes
    /// the hovered one and alone carries the hover flag.
    pub open spec fn after_hover(self, hits: Seq<bool>) -> MenuModel {
        let target = first_hit(hits, self.buttons.len());
        MenuModel {
            active_mission: self.active_mission,
            submenu: self.submenu,
            buttons: Seq::new(
                self.buttons.len(),
                |i: int| self.buttons[i].with_hovered(target == Some(i as usize)),
            ),
            hovered: target,
            pressing: self.pressing,
        }
    }

    /// The feedback for a cursor move: a soft tap when the cursor arrives on a
    /// label other than the one hovered before, and silence otherwise.
    pub open spec fn hover_sound(self, hits: Seq<bool>) -> Option<Sound> {
        let target = first_hit(hits, self.buttons.len());
        if target is Some && target != self.hovered {
            Some(Sound::TapMuted)
        } else {
            None
        }
    }

    /// This menu after a button went down: the hovered label, if any, is armed,
    /// whatever was armed before.
    pub open spec fn after_press(self) -> MenuModel {
        MenuModel {
            active_mission: self.active_mission,
            submenu: self.submenu,
            buttons: self.buttons,
            hovered: self.hovered,
            pressing: self.hovered,
        }
    }

    /// This menu with nothing armed.
    pub open spec fn disarmed(self) -> MenuModel {
        MenuModel {
            active_mission: self.active_mission,
            submenu: self.submenu,
            buttons: self.buttons,
            hovered: self.hovered,
            pressing: None,
        }
    }

    /// The label that the primary button going up would commit now: the armed
    /// one, provided the cursor is still on it.
    pub open spec fn committed(self) -> Option<usize> {
        if self.pressing is Some && self.pressing == self.hovered {
            self.pressing
        } else {
            None
        }
    }

    /// This menu after carrying out `action`.
    pub open spec fn apply(self, action: MenuAction) -> MenuModel {
        match action {
            MenuAction::Open(submenu) => self.showing(Some(submenu)),
            MenuAction::Back => self.showing(None),
            MenuAction::Emit(_) => self,
            MenuAction::Nothing => self,
        }
    }

    /// This menu after `button` went up. The primary button disarms and, if it
    /// commits, carries out what the table says; Escape leaves a submenu for the
    /// main menu; any other button changes nothing.
    pub open spec fn after_release(self, button: Button) -> MenuModel {
        if button.is_primary() {
            match self.committed() {
                Some(i) => self.disarmed().apply(menu_action(self.submenu, self.active_mission, i)),
                None => self.disarmed(),
            }
        } else if button.is_escape() {
            if self.submenu is Some {
                self.showing(None)
            } else {
                self
            }
        } else {
            self
        }
    }

    /// The event that `button` going up produces. A committed click produces
    /// what the table says; Escape on the main menu asks to resume the mission.
    pub open spec fn release_event(self, button: Button) -> Option<AppEvent> {
        if button.is_primary() {
            match self.committed() {
                Some(i) => menu_action(self.submenu, self.active_mission, i).event(),
                None => None,
            }
        } else if button.is_escape() {
            if self.submenu is Some {
                None
            } else {
                Some(AppEvent::ResumeMission)
            }
        } else {
            None
        }
    }
}

impl MenuState {
    /// The labels of the main menu, with "resume" on top if there is a mission
    /// to resume.
    pub fn main_menu_buttons(active_mission: bool) -> (buttons: Vec<MenuButton>)
        ensures
            buttons@ == main_menu_layout(active_mission),
    {
        let mut buttons: Vec<MenuButton> = Vec::new();
        let mut y: i32 = 0;
        if active_mission {
            buttons.push(MenuButton::new("resume", [0, y], false));
            y += 50;
        }
        buttons.push(MenuButton::new("new mission", [0, y], false));
        y += 50;
        buttons.push(MenuButton::new("load mission", [0, y], false));
        y += 50;
        buttons.push(MenuButton::new("options", [0, y], false));
        y += 50;
        buttons.push(MenuButton::new("exit", [0, y], false));
        buttons
    }

    /// The labels of the submenu that starts a mission: the three difficulties,
    /// and "back" set apart below them.
    pub fn new_mission_menu_buttons() -> (buttons: Vec<MenuButton>)
        ensures
            buttons@ == new_mission_menu_layout(),
    {
        let mut buttons: Vec<MenuButton> = Vec::new();
        let mut y: i32 = 0;
        buttons.push(MenuButton::new("easy", [0, y], false));
        y += 50;
        buttons.push(MenuButton::new("medium", [0, y], false));
        y += 50;
        buttons.push(MenuButton::new("hard", [0, y], false));
        y += 100;
        buttons.push(MenuButton::new("back", [0, y], false));
        buttons
    }

    /// The labels of the submenu that loads a mission: none yet.
    pub fn load_mission_menu_buttons() -> (buttons: Vec<MenuButton>)
        ensures
            buttons@ == Seq::<MenuButton>::empty(),
    {
        Vec::new()
    }

    /// The labels of the options submenu: none yet.
    pub fn options_menu_buttons() -> (buttons: Vec<MenuButton>)
        ensures
            buttons@ == Seq::<MenuButton>::empty(),
    {
        Vec::new()
    }

    /// Opens the main menu. `active_mission` says whether there is a mission to
    /// resume.
    pub fn new(active_mission: bool) -> (menu: MenuState)
        ensures
            menu@ == MenuModel::opened(active_mission),
            menu@.wf(),
    {
        MenuState {
            active_mission,
            submenu: None,
            buttons: MenuState::main_menu_buttons(active_mission),
            hovered: None,
            pressing: None,
        }
    }

    /// Looks up what a committed click on the label at `index` does.
    pub fn action_at(&self, index: usize) -> (action: MenuAction)
        ensures
            action == menu_action(self.submenu, self.active_mission, index),
    {
        match self.submenu {
            None => {
                // without "resume" at the top every label sits one place higher
                let shift: usize = if self.active_mission { 0 } else { 1 };
                if index > 4 - shift {
                    MenuAction::Nothing
                } else {
                    let place: usize = index + shift;
                    if place == 0 {
                        MenuAction::Emit(AppEvent::ResumeMission)
                    } else if place == 1 {
                        MenuAction::Open(SubMenu::NewMission)
                    } else if place == 2 {
                        MenuAction::Open(SubMenu::LoadMission)
                    } else if place == 3 {
                        MenuAction::Open(SubMenu::Options)
                    } else {
                        MenuAction::Emit(AppEvent::Exit)
                    }
                }
            },
            Some(SubMenu::NewMission) => {
                if index == 0 {
                    MenuAction::Emit(AppEvent::NewMission(MissionDifficulty::Easy))
                } else if index == 1 {
                    MenuAction::Emit(AppEvent::NewMission(MissionDifficulty::Medium))
                } else if index == 2 {
                    MenuAction::Emit(AppEvent::NewMission(MissionDifficulty::Hard))
                } else if index == 3 {
                    MenuAction::Back
                } else {
                    MenuAction::Nothing
                }
            },
            Some(SubMenu::LoadMission) => MenuAction::Nothing,
            Some(SubMenu::Options) => MenuAction::Nothing,
        }
    }

    /// Switches to `submenu` (`None` being the main menu), replacing the labels
    /// and forgetting the hovered and the armed index.
    fn show(&mut self, submenu: Option<SubMenu>)
        ensures
            final(self)@ == old(self)@.showing(submenu),
    {
        let buttons = match submenu {
            None => MenuState::main_menu_buttons(self.active_mission),
            Some(SubMenu::NewMission) => MenuState::new_mission_menu_buttons(),
            Some(SubMenu::LoadMission) => MenuState::load_mission_menu_buttons(),
            Some(SubMenu::Options) => MenuState::options_menu_buttons(),
        };
        self.submenu = submenu;
        self.buttons = buttons;
        self.hovered = None;
        self.pressing = None;
    }

    /// Carries out `action` and returns the event it hands to the application.
    fn carry_out(&mut self, action: MenuAction) -> (event: Option<AppEvent>)
        ensures
            final(self)@ == old(self)@.apply(action),
            event == action.event(),
    {
        match action {
            MenuAction::Emit(event) => Some(event),
            MenuAction::Open(submenu) => {
                self.show(Some(submenu));
                None
            },
            MenuAction::Back => {
                self.show(None);
                None
            },
            MenuAction::Nothing => None,
        }
    }
}

impl Hover for MenuState {
    /// Moves the cursor. The first label that `hits` reports the cursor on
    /// becomes the hovered one and alone carries the hover flag; arriving on a
    /// label other than the one hovered before is answered with a soft tap. A
    /// cursor move never produces an event.
    fn hover(&mut self, hits: &[bool]) -> (outcome: HoverOutcome)
        ensures
            final(self)@ == old(self)@.after_hover(hits@),
            outcome.event is None,
            outcome.sound == old(self)@.hover_sound(hits@),
            old(self)@.wf() ==> final(self)@.wf(),
    {
        let previously_hovered = self.hovered;
        let count: usize = self.buttons.len();
        let mut target: Option<usize> = None;
        let mut i: usize = 0;
        while i < count
            invariant
                i <= count,
                count == old(self).buttons@.len(),
                count == self.buttons@.len(),
                self.active_mission == old(self).active_mission,
                self.submenu == old(self).submenu,
                self.hovered == old(self).hovered,
                self.pressing == old(self).pressing,
                target == first_hit(hits@, i as nat),
                target matches Some(t) ==> t < i,
                forall|j: int|
                    0 <= j < i ==> #[trigger] self.buttons@[j] == old(self).buttons@[j].with_hovered(
                        target == Some(j as usize),
                    ),
                forall|j: int| i <= j < count ==> #[trigger] self.buttons@[j] == old(self).buttons@[j],
            decreases count - i,
        {
            let on_label: bool = target.is_none() && i < hits.len() && hits[i];
            self.buttons[i].hovered = on_label;
            if on_label {
                target = Some(i);
            }
            i += 1;
        }
        self.hovered = target;
        let sound: Option<Sound> = if target.is_some() && target != previously_hovered {
            Some(Sound::TapMuted)
        } else {
            None
        };
        proof {
            assert(self@.buttons =~= old(self)@.after_hover(hits@).buttons);
            if old(self)@.wf() {
                lemma_hover_keeps_wf(old(self)@, hits@);
            }
        }
        HoverOutcome { event: None, sound }
    }
}

impl Press for MenuState {
    /// Arms the hovered label, if any, whichever button went down and whatever
    /// was armed before. Nothing is committed yet, so no event is produced.
    fn press(&mut self, _button: Button) -> (event: Option<AppEvent>)
        ensures
            final(self)@ == old(self)@.after_press(),
            event is None,
            old(self)@.wf() ==> final(self)@.wf(),
    {
        self.pressing = self.hovered;
        None
    }
}

impl Release for MenuState {
    /// Ends a click or leaves a submenu. The primary button disarms, and commits
    /// the armed label if the cursor is still on it; Escape goes back from a
    /// submenu to the main menu, and on the main menu asks to resume the
    /// mission; any other button has no effect.
    fn release(&mut self, button: Button) -> (event: Option<AppEvent>)
        ensures
            final(self)@ == old(self)@.after_release(button),
            event == old(self)@.release_event(button),
            old(self)@.wf() ==> final(self)@.wf(),
    {
        proof {
            if old(self)@.wf() {
                lemma_release_keeps_wf(old(self)@, button);
            }
        }
        match button {
            Button::Mouse(MouseButton::Left) => {
                let pressing = self.pressing;
                self.pressing = None;
                if pressing == self.hovered {
                    if let Some(i) = pressing {
                        let action = self.action_at(i);
                        return self.carry_out(action);
                    }
                }
                None
            },
            Button::Keyboard(Key::Escape) => {
                if self.submenu.is_some() {
                    self.show(None);
                    None
                } else {
                    Some(AppEvent::ResumeMission)
                }
            },
            _ => None,
        }
    }
}

/// `first_hit` finds the least label that is hit: it answers with a label only
/// if that label is hit and none before it is, and with none only if none of
/// the labels is hit.
pub proof fn lemma_first_hit_is_least(hits: Seq<bool>, count: nat)
    requires
        count <= usize::MAX,
    ensures
        match first_hit(hits, count) {
            Some(i) => i < count && hit(hits, i as int) && forall|j: int| 0 <= j < i ==> !hit(hits, j),
            None => forall|j: int| 0 <= j < count ==> !hit(hits, j),
        },
    decreases count,
{
    if count > 0 {
        lemma_first_hit_is_least(hits, (count - 1) as nat);
    }
}

/// A freshly opened menu satisfies the invariant.
pub proof fn lemma_opened_is_wf(active_mission: bool)
    ensures
        MenuModel::opened(active_mission).wf(),
{
}

/// A menu that has just switched to another submenu satisfies the invariant,
/// whatever it was before.
pub proof fn lemma_showing_is_wf(menu: MenuModel, submenu: Option<SubMenu>)
    ensures
        menu.showing(submenu).wf(),
{
}

/// A cursor move keeps the invariant.
pub proof fn lemma_hover_keeps_wf(menu: MenuModel, hits: Seq<bool>)
    requires
        menu.wf(),
    ensures
        menu.after_hover(hits).wf(),
{
    lemma_first_hit_is_least(hits, menu.buttons.len());
}

/// A button going down keeps the invariant.
pub proof fn lemma_press_keeps_wf(menu: MenuModel)
    requires
        menu.wf(),
    ensures
        menu.after_press().wf(),
{
}

/// A button going up keeps the invariant.
pub proof fn lemma_release_keeps_wf(menu: MenuModel, button: Button)
    requires
        menu.wf(),
    ensures
        menu.after_release(button).wf(),
{
    lemma_showing_is_wf(menu, None);
    lemma_showing_is_wf(menu, Some(SubMenu::NewMission));
    lemma_showing_is_wf(menu, Some(SubMenu::LoadMission));
    lemma_showing_is_wf(menu, Some(SubMenu::Options));
}

/// With no label hit, `first_hit` finds none.
pub proof fn lemma_first_hit_none(hits: Seq<bool>, count: nat)
    requires
        forall|i: int| 0 <= i < count ==> !hit(hits, i),
    ensures
        first_hit(hits, count) is None,
    decreases count,
{
    if count > 0 {
        lemma_first_hit_none(hits, (count - 1) as nat);
    }
}

/// A cursor that lies outside every label's rectangle hovers nothing: after the
/// move no label is the hovered one, no label carries the hover flag, and no
/// sound is asked for.
pub proof fn lemma_hover_outside_clears(menu: MenuModel, hits: Seq<bool>)
    requires
        forall|i: int| 0 <= i < menu.buttons.len() ==> !hit(hits, i),
    ensures
        menu.after_hover(hits).hovered is None,
        menu.after_hover(hits).buttons.len() == menu.buttons.len(),
        forall|i: int| 0 <= i < menu.buttons.len() ==> !(#[trigger] menu.after_hover(hits).buttons[i]).hovered,
        menu.hover_sound(hits) is None,
{
    lemma_first_hit_none(hits, menu.buttons.len());
}

/// Arriving on a label is answered with exactly one soft tap: the move that
/// brings the cursor onto a label that was not the hovered one asks for the tap,
/// and a further move that stays on that label asks for nothing.
pub proof fn lemma_hover_taps_once(menu: MenuModel, arrive: Seq<bool>, stay: Seq<bool>)
    requires
        first_hit(arrive, menu.buttons.len()) is Some,
        first_hit(arrive, menu.buttons.len()) != menu.hovered,
        first_hit(stay, menu.buttons.len()) == first_hit(arrive, menu.buttons.len()),
    ensures
        menu.hover_sound(arrive) == Some(Sound::TapMuted),
        menu.after_hover(arrive).hover_sound(stay) is None,
{
}

/// A click that stays on its label commits: a button going down on the label at
/// `index` followed by the primary button going up, with the cursor still there,
/// carries out exactly the action that the table gives for that label, and
/// produces that action's event.
pub proof fn lemma_click_commits(menu: MenuModel, index: usize)
    requires
        menu.hovered == Some(index),
    ensures
        ({
            let armed = menu.after_press();
            let action = menu_action(menu.submenu, menu.active_mission, index);
            let primary = Button::Mouse(MouseButton::Left);
            &&& armed.committed() == Some(index)
            &&& armed.release_event(primary) == action.event()
            &&& armed.after_release(primary) == menu.disarmed().apply(action)
        }),
{
    assert(menu.after_press().disarmed() =~= menu.disarmed());
}

/// A click is cancelled by moving away: when the cursor moves, between a button
/// going down and the primary button going up, so that it is no longer on the
/// label it was on, the button going up only disarms. Nothing is committed and
/// no event is produced.
pub proof fn lemma_click_cancelled_by_moving(menu: MenuModel, hits: Seq<bool>)
    requires
        first_hit(hits, menu.buttons.len()) != menu.hovered,
    ensures
        ({
            let moved = menu.after_press().after_hover(hits);
            let primary = Button::Mouse(MouseButton::Left);
            &&& moved.committed() is None
            &&& moved.release_event(primary) is None
            &&& moved.after_release(primary) == moved.disarmed()
        }),
{
}

/// Escape leads out of the menu one level at a time. On the main menu it asks to
/// resume the mission and changes nothing; in a submenu it goes back to the main
/// menu without an event, so that a second Escape asks to resume the mission.
pub proof fn lemma_escape_leads_out(menu: MenuModel)
    ensures
        ({
            let escape = Button::Keyboard(Key::Escape);
            let once = menu.after_release(escape);
            &&& menu.submenu is None ==> once == menu && menu.release_event(escape) == Some(
                AppEvent::ResumeMission,
            )
            &&& menu.submenu is Some ==> once == MenuModel::opened(menu.active_mission)
                && menu.release_event(escape) is None
            &&& once.submenu is None
            &&& once.release_event(escape) == Some(AppEvent::ResumeMission)
            &&& once.after_release(escape) == once
        }),
{
}

} // verus!
