use mars::app::AppEvent;
use mars::app::AppState;
use mars::app::MissionDifficulty;
use mars::app::Screen;
use mars::hover::Hover;
use mars::hover::HoverOutcome;
use mars::input::Button;
use mars::input::Key;
use mars::input::MouseButton;
use mars::menu::MenuState;
use mars::menu::SubMenu;
use mars::mission::MissionState;
use mars::press::Press;
use mars::release::Release;
use mars::sounds::Sound;
use mars::update::Update;

const PRIMARY: Button = Button::Mouse(MouseButton::Left);
const ESC: Button = Button::Keyboard(Key::Escape);

fn at(index: usize, count: usize) -> Vec<bool> {
    (0..count).map(|i| i == index).collect()
}

/// Delivers a button going up and applies the event it produces, as a driver does.
fn release_and_handle(app: &mut AppState, button: Button) -> Option<AppEvent> {
    let event = app.release(button);
    if let Some(event) = event {
        app.handle(event);
    }
    event
}

fn click_at(app: &mut AppState, index: usize, count: usize) -> Option<AppEvent> {
    app.hover(&at(index, count));
    assert_eq!(app.press(PRIMARY), None);
    release_and_handle(app, PRIMARY)
}

fn in_mission(difficulty: MissionDifficulty) -> AppState {
    let mut app = AppState::new();
    app.handle(AppEvent::NewMission(difficulty));
    app
}

#[test]
fn starting_budgets() {
    assert_eq!(MissionDifficulty::Easy.starting_budget(), 1000);
    assert_eq!(MissionDifficulty::Medium.starting_budget(), 750);
    assert_eq!(MissionDifficulty::Hard.starting_budget(), 500);
}

#[test]
fn app_starts_on_the_main_menu_without_mission() {
    let app = AppState::new();
    assert_eq!(app.menu_state, Some(MenuState::new(false)));
    assert_eq!(app.mission_state, None);
    assert!(!app.close_requested);
    assert_eq!(app.active_screen(), Some(Screen::Menu));
}

#[test]
fn exit_asks_to_close_and_changes_nothing_else() {
    let mut app = AppState::new();
    app.handle(AppEvent::Exit);
    assert!(app.close_requested);
    assert_eq!(app.menu_state, Some(MenuState::new(false)));
    assert_eq!(app.mission_state, None);
    app.handle(AppEvent::OpenMenu);
    assert!(app.close_requested);
}

#[test]
fn new_mission_medium_plans_with_750_and_closes_the_menu() {
    let mut from_start = AppState::new();
    from_start.handle(AppEvent::NewMission(MissionDifficulty::Medium));
    assert_eq!(from_start.mission_state, Some(MissionState::Planning { budget: 750 }));
    assert_eq!(from_start.menu_state, None);

    let mut over_mission = in_mission(MissionDifficulty::Easy);
    over_mission.handle(AppEvent::OpenMenu);
    over_mission.handle(AppEvent::NewMission(MissionDifficulty::Medium));
    assert_eq!(over_mission.mission_state, Some(MissionState::Planning { budget: 750 }));
    assert_eq!(over_mission.menu_state, None);

    let mut executing = AppState {
        menu_state: None,
        mission_state: Some(MissionState::Execution {}),
        close_requested: false,
    };
    executing.handle(AppEvent::NewMission(MissionDifficulty::Medium));
    assert_eq!(executing.mission_state, Some(MissionState::Planning { budget: 750 }));
    assert_eq!(executing.menu_state, None);
    assert!(!executing.close_requested);
}

#[test]
fn new_mission_budget_follows_difficulty() {
    for (difficulty, budget) in [
        (MissionDifficulty::Easy, 1000),
        (MissionDifficulty::Medium, 750),
        (MissionDifficulty::Hard, 500),
    ] {
        let app = in_mission(difficulty);
        assert_eq!(app.mission_state, Some(MissionState::Planning { budget }));
        assert_eq!(app.menu_state, None);
        assert_eq!(app.active_screen(), Some(Screen::Mission));
    }
}

#[test]
fn resume_without_mission_keeps_the_menu() {
    let mut app = AppState::new();
    app.hover(&at(2, 4));
    app.press(PRIMARY);
    let before = (app.menu_state.as_ref().unwrap().hovered, app.menu_state.as_ref().unwrap().pressing);
    app.handle(AppEvent::ResumeMission);
    let menu = app.menu_state.as_ref().expect("the menu stays open");
    assert_eq!((menu.hovered, menu.pressing), before);
    assert_eq!(menu.submenu, None);
    assert_eq!(menu.buttons.len(), 4);
    assert!(menu.buttons[2].hovered);
    assert_eq!(app.mission_state, None);
    assert!(!app.close_requested);
}

#[test]
fn resume_with_mission_closes_the_menu() {
    let mut app = in_mission(MissionDifficulty::Hard);
    app.handle(AppEvent::OpenMenu);
    assert_eq!(app.active_screen(), Some(Screen::Menu));
    app.handle(AppEvent::ResumeMission);
    assert_eq!(app.menu_state, None);
    assert_eq!(app.mission_state, Some(MissionState::Planning { budget: 500 }));
}

#[test]
fn open_menu_offers_resume_only_with_a_mission() {
    let mut app = AppState::new();
    click_at(&mut app, 0, 4);
    assert_eq!(app.menu_state.as_ref().unwrap().submenu, Some(SubMenu::NewMission));
    app.handle(AppEvent::OpenMenu);
    assert_eq!(app.menu_state, Some(MenuState::new(false)));

    let mut app = in_mission(MissionDifficulty::Easy);
    app.handle(AppEvent::OpenMenu);
    assert_eq!(app.menu_state, Some(MenuState::new(true)));
    assert_eq!(app.mission_state, Some(MissionState::Planning { budget: 1000 }));
}

#[test]
fn menu_over_mission_takes_all_input() {
    let mut app = in_mission(MissionDifficulty::Easy);
    app.handle(AppEvent::OpenMenu);
    let outcome = app.hover(&at(4, 5));
    assert_eq!(outcome, HoverOutcome { event: None, sound: Some(Sound::TapMuted) });
    assert_eq!(app.menu_state.as_ref().unwrap().hovered, Some(4));
    assert_eq!(app.press(PRIMARY), None);
    assert_eq!(app.menu_state.as_ref().unwrap().pressing, Some(4));
    assert_eq!(app.release(PRIMARY), Some(AppEvent::Exit));
    // Escape goes to the menu, which asks to resume; the mission would have asked for the menu
    assert_eq!(app.release(ESC), Some(AppEvent::ResumeMission));
    assert_eq!(app.mission_state, Some(MissionState::Planning { budget: 1000 }));
}

#[test]
fn mission_alone_takes_input() {
    let mut app = in_mission(MissionDifficulty::Easy);
    assert_eq!(app.hover(&[true, true]), HoverOutcome { event: None, sound: None });
    assert_eq!(app.press(PRIMARY), None);
    assert_eq!(app.release(PRIMARY), None);
    assert_eq!(app.release(ESC), Some(AppEvent::OpenMenu));
    assert_eq!(app.menu_state, None);
    assert_eq!(app.mission_state, Some(MissionState::Planning { budget: 1000 }));
}

#[test]
fn input_without_any_screen_is_dropped() {
    let mut app = AppState { menu_state: None, mission_state: None, close_requested: false };
    assert_eq!(app.active_screen(), None);
    assert_eq!(app.hover(&[true]), HoverOutcome { event: None, sound: None });
    assert_eq!(app.press(PRIMARY), None);
    assert_eq!(app.release(PRIMARY), None);
    assert_eq!(app.release(ESC), None);
    assert_eq!(app, AppState { menu_state: None, mission_state: None, close_requested: false });
}

#[test]
fn escape_going_down_never_reaches_the_menu() {
    let mut app = AppState::new();
    app.hover(&at(3, 4));
    assert_eq!(app.press(ESC), None);
    assert_eq!(app.menu_state.as_ref().unwrap().pressing, None);
    // any other key arms the hovered label
    assert_eq!(app.press(Button::Keyboard(Key::Other)), None);
    assert_eq!(app.menu_state.as_ref().unwrap().pressing, Some(3));
    // and Escape going down does not disarm it either
    assert_eq!(app.press(ESC), None);
    assert_eq!(app.menu_state.as_ref().unwrap().pressing, Some(3));
}

#[test]
fn escape_going_up_is_routed_to_the_menu() {
    let mut app = AppState::new();
    click_at(&mut app, 0, 4);
    assert_eq!(app.menu_state.as_ref().unwrap().submenu, Some(SubMenu::NewMission));
    assert_eq!(release_and_handle(&mut app, ESC), None);
    assert_eq!(app.menu_state, Some(MenuState::new(false)));
    // on the main menu Escape asks to resume, which without a mission does nothing
    assert_eq!(release_and_handle(&mut app, ESC), Some(AppEvent::ResumeMission));
    assert_eq!(app.menu_state, Some(MenuState::new(false)));
    assert_eq!(app.mission_state, None);
}

#[test]
fn walk_from_start_to_mission_and_back_to_menu() {
    let mut app = AppState::new();

    assert_eq!(click_at(&mut app, 0, 4), None);
    let menu = app.menu_state.as_ref().unwrap();
    assert_eq!(menu.submenu, Some(SubMenu::NewMission));
    assert_eq!(menu.buttons.len(), 4);

    assert_eq!(click_at(&mut app, 2, 4), Some(AppEvent::NewMission(MissionDifficulty::Hard)));
    assert_eq!(app.mission_state, Some(MissionState::Planning { budget: 500 }));
    assert_eq!(app.menu_state, None);

    assert_eq!(app.press(ESC), None);
    assert_eq!(release_and_handle(&mut app, ESC), Some(AppEvent::OpenMenu));
    let menu = app.menu_state.as_ref().unwrap();
    assert!(menu.active_mission);
    assert_eq!(menu.submenu, None);
    assert_eq!(menu.buttons.len(), 5);
    assert_eq!(menu.buttons[0].text, "resume");
    assert_eq!(app.mission_state, Some(MissionState::Planning { budget: 500 }));

    assert_eq!(click_at(&mut app, 0, 5), Some(AppEvent::ResumeMission));
    assert_eq!(app.menu_state, None);
    assert_eq!(app.active_screen(), Some(Screen::Mission));
}

#[test]
fn exit_from_the_menu_asks_to_close() {
    let mut app = AppState::new();
    assert_eq!(click_at(&mut app, 3, 4), Some(AppEvent::Exit));
    assert!(app.close_requested);
    assert_eq!(app.active_screen(), Some(Screen::Menu));
}

#[test]
fn mission_ignores_hover_press_and_tick() {
    for mut mission in [MissionState::Planning { budget: 750 }, MissionState::Execution {}] {
        let before = mission;
        assert_eq!(mission.hover(&[true, false]), HoverOutcome { event: None, sound: None });
        assert_eq!(mission.press(PRIMARY), None);
        assert_eq!(mission.press(ESC), None);
        assert_eq!(mission.update(), None);
        assert_eq!(mission, before);
    }
}

#[test]
fn mission_answers_escape_going_up_with_open_menu() {
    for mut mission in [MissionState::Planning { budget: 1000 }, MissionState::Execution {}] {
        let before = mission;
        assert_eq!(mission.release(ESC), Some(AppEvent::OpenMenu));
        assert_eq!(mission.release(PRIMARY), None);
        assert_eq!(mission.release(Button::Keyboard(Key::Other)), None);
        assert_eq!(mission.release(Button::Other), None);
        assert_eq!(mission, before);
    }
}
