use kiosk_menu::events::{InputEvent, InputMode, BUTTON_CONFIRM};
use kiosk_menu::launcher::LaunchableApp;
use kiosk_menu::navigation::{
    apply_events, handle_main_menu_input, handle_welcome_input, option_label, tab_name,
    transition, ScreenState,
};

fn rotate(encoder_id: u8, delta: i8) -> InputEvent {
    InputEvent::EncoderRotated { encoder_id, delta }
}

#[test]
fn welcome_touch_in_first_third_opens_first_section() {
    let (state, request) = transition(ScreenState::Welcome, InputEvent::Touch(100, 400));
    assert_eq!(state, ScreenState::MainMenu(0));
    assert!(request.is_none());
}

#[test]
fn welcome_touch_columns_are_equal_thirds() {
    assert_eq!(handle_welcome_input(InputEvent::Touch(266, 10)), ScreenState::MainMenu(0));
    assert_eq!(handle_welcome_input(InputEvent::Touch(267, 10)), ScreenState::MainMenu(1));
    assert_eq!(handle_welcome_input(InputEvent::Touch(533, 10)), ScreenState::MainMenu(1));
    assert_eq!(handle_welcome_input(InputEvent::Touch(534, 10)), ScreenState::MainMenu(2));
    assert_eq!(handle_welcome_input(InputEvent::Touch(799, 479)), ScreenState::MainMenu(2));
    assert_eq!(handle_welcome_input(InputEvent::Touch(-5, 0)), ScreenState::MainMenu(0));
    assert_eq!(handle_welcome_input(InputEvent::Touch(i32::MAX, 0)), ScreenState::MainMenu(2));
}

#[test]
fn welcome_section_buttons_and_select() {
    assert_eq!(handle_welcome_input(InputEvent::ButtonPressed(0)), ScreenState::MainMenu(0));
    assert_eq!(handle_welcome_input(InputEvent::ButtonPressed(1)), ScreenState::MainMenu(1));
    assert_eq!(handle_welcome_input(InputEvent::ButtonPressed(2)), ScreenState::MainMenu(2));
    assert_eq!(handle_welcome_input(InputEvent::ButtonPressed(BUTTON_CONFIRM)), ScreenState::Welcome);
    assert_eq!(handle_welcome_input(InputEvent::Select), ScreenState::MainMenu(0));
    assert_eq!(handle_welcome_input(InputEvent::Activate), ScreenState::Welcome);
}

#[test]
fn main_menu_tab_encoder_moves_to_next_section() {
    let (state, request) = transition(ScreenState::MainMenu(1), rotate(0, 1));
    assert_eq!(state, ScreenState::MainMenu(2));
    assert!(request.is_none());
}

#[test]
fn main_menu_tab_encoder_wraps_both_ways() {
    assert_eq!(handle_main_menu_input(2, rotate(0, 1)), ScreenState::MainMenu(0));
    assert_eq!(handle_main_menu_input(0, rotate(0, -1)), ScreenState::MainMenu(2));
    assert_eq!(handle_main_menu_input(1, rotate(0, -1)), ScreenState::MainMenu(0));
    assert_eq!(handle_main_menu_input(1, rotate(1, 1)), ScreenState::MainMenu(1));
    assert_eq!(handle_main_menu_input(1, rotate(0, 3)), ScreenState::MainMenu(1));
}

#[test]
fn main_menu_confirm_and_select_open_the_section() {
    assert_eq!(
        handle_main_menu_input(2, InputEvent::ButtonPressed(BUTTON_CONFIRM)),
        ScreenState::OptionSelection(2, 0)
    );
    assert_eq!(handle_main_menu_input(1, InputEvent::Select), ScreenState::OptionSelection(1, 0));
    assert_eq!(handle_main_menu_input(1, InputEvent::ButtonPressed(0)), ScreenState::MainMenu(1));
}

#[test]
fn main_menu_click_selects_row_or_opens_highlighted_one() {
    assert_eq!(handle_main_menu_input(0, InputEvent::Touch(150, 175)), ScreenState::MainMenu(1));
    assert_eq!(handle_main_menu_input(1, InputEvent::Touch(150, 175)), ScreenState::OptionSelection(1, 0));
    assert_eq!(handle_main_menu_input(0, InputEvent::Touch(700, 249)), ScreenState::MainMenu(2));
    assert_eq!(handle_main_menu_input(0, InputEvent::Touch(100, 100)), ScreenState::OptionSelection(0, 0));
}

#[test]
fn main_menu_click_outside_rows_is_ignored() {
    assert_eq!(handle_main_menu_input(1, InputEvent::Touch(99, 175)), ScreenState::MainMenu(1));
    assert_eq!(handle_main_menu_input(1, InputEvent::Touch(701, 175)), ScreenState::MainMenu(1));
    assert_eq!(handle_main_menu_input(1, InputEvent::Touch(150, 99)), ScreenState::MainMenu(1));
    assert_eq!(handle_main_menu_input(1, InputEvent::Touch(150, 250)), ScreenState::MainMenu(1));
    assert_eq!(handle_main_menu_input(1, InputEvent::Touch(150, 60)), ScreenState::MainMenu(1));
}

#[test]
fn option_select_launches_terminal() {
    let (state, request) = transition(ScreenState::OptionSelection(0, 3), InputEvent::Select);
    assert_eq!(state, ScreenState::OptionSelection(0, 3));
    assert!(matches!(request, Some(LaunchableApp::Terminal)));
}

#[test]
fn option_back_slot_returns_to_welcome() {
    for tab in 0..3 {
        let (state, request) = transition(ScreenState::OptionSelection(tab, 4), InputEvent::Select);
        assert_eq!(state, ScreenState::Welcome);
        assert!(request.is_none());
    }
}

#[test]
fn option_launch_table() {
    let launched = |tab: usize, option: usize| {
        transition(ScreenState::OptionSelection(tab, option), InputEvent::Select).1.unwrap()
    };
    assert!(matches!(launched(0, 0), LaunchableApp::AudioPlayer));
    assert!(matches!(launched(0, 1), LaunchableApp::Calendar));
    assert!(matches!(launched(0, 2), LaunchableApp::FileExplorer));
    assert!(matches!(launched(0, 3), LaunchableApp::Terminal));
    assert!(matches!(launched(1, 0), LaunchableApp::Maps));
    assert!(matches!(launched(1, 1), LaunchableApp::Notes));
    assert!(matches!(launched(1, 2), LaunchableApp::TodoList));
    assert!(matches!(launched(1, 3), LaunchableApp::TextEditor));
    assert!(matches!(launched(2, 0), LaunchableApp::Writer(None)));
    assert!(matches!(launched(2, 1), LaunchableApp::Calc(None)));
    assert!(matches!(launched(2, 2), LaunchableApp::Impress(None)));
    assert!(matches!(launched(2, 3), LaunchableApp::IDE));
}

#[test]
fn option_confirm_button_launches_and_other_buttons_escape() {
    let (state, request) =
        transition(ScreenState::OptionSelection(1, 1), InputEvent::ButtonPressed(BUTTON_CONFIRM));
    assert_eq!(state, ScreenState::OptionSelection(1, 1));
    assert!(matches!(request, Some(LaunchableApp::Notes)));
    let (state, request) = transition(ScreenState::OptionSelection(1, 1), InputEvent::ButtonPressed(0));
    assert_eq!(state, ScreenState::Welcome);
    assert!(request.is_none());
}

#[test]
fn option_encoder_wraps_over_the_options() {
    let (state, _) = transition(ScreenState::OptionSelection(0, 4), rotate(1, 1));
    assert_eq!(state, ScreenState::OptionSelection(0, 0));
    let (state, _) = transition(ScreenState::OptionSelection(0, 0), rotate(1, -1));
    assert_eq!(state, ScreenState::OptionSelection(0, 4));
    let (state, _) = transition(ScreenState::OptionSelection(0, 2), rotate(0, 1));
    assert_eq!(state, ScreenState::OptionSelection(0, 2));
}

#[test]
fn unhandled_pairs_leave_the_screen_alone() {
    let states = [ScreenState::Welcome, ScreenState::MainMenu(2), ScreenState::OptionSelection(1, 3)];
    let events = [
        InputEvent::NavigateUp,
        InputEvent::NavigateDown,
        InputEvent::NavigateLeft,
        InputEvent::NavigateRight,
        InputEvent::Activate,
        InputEvent::KeyPress('a'),
        InputEvent::EncoderButtonPressed(0),
        InputEvent::ModeChanged(InputMode::Keyboard),
    ];
    for state in states {
        for event in events {
            let (next, request) = transition(state, event);
            assert_eq!(next, state);
            assert!(request.is_none());
        }
    }
    let (next, request) = transition(ScreenState::OptionSelection(1, 3), InputEvent::Touch(150, 175));
    assert_eq!(next, ScreenState::OptionSelection(1, 3));
    assert!(request.is_none());
    let (next, _) = transition(ScreenState::Welcome, rotate(0, 1));
    assert_eq!(next, ScreenState::Welcome);
}

#[test]
fn events_of_one_tick_are_folded_in_order() {
    let (state, requests) = apply_events(ScreenState::MainMenu(0), &vec![rotate(0, 1), InputEvent::Select]);
    assert_eq!(state, ScreenState::OptionSelection(1, 0));
    assert!(requests.is_empty());

    let events = vec![rotate(1, 1), rotate(1, 1), rotate(1, 1), InputEvent::Select, rotate(1, -1), InputEvent::Select];
    let (state, requests) = apply_events(ScreenState::OptionSelection(1, 0), &events);
    assert_eq!(state, ScreenState::OptionSelection(1, 2));
    assert_eq!(requests.len(), 2);
    assert!(matches!(requests[0], LaunchableApp::TextEditor));
    assert!(matches!(requests[1], LaunchableApp::TodoList));
}

#[test]
fn empty_tick_keeps_the_screen() {
    let (state, requests) = apply_events(ScreenState::MainMenu(2), &vec![]);
    assert_eq!(state, ScreenState::MainMenu(2));
    assert!(requests.is_empty());
}

#[test]
fn labels_of_sections_and_options() {
    assert_eq!(tab_name(0), "APPS");
    assert_eq!(tab_name(1), "PROFILE");
    assert_eq!(tab_name(2), "SETTINGS");
    assert_eq!(option_label(0, 3), "Terminal");
    assert_eq!(option_label(2, 3), "IDE");
    assert_eq!(option_label(1, 4), "Back");
}

#[test]
fn validity_of_screen_states() {
    assert!(ScreenState::Welcome.is_valid());
    assert!(ScreenState::MainMenu(2).is_valid());
    assert!(!ScreenState::MainMenu(3).is_valid());
    assert!(ScreenState::OptionSelection(2, 4).is_valid());
    assert!(!ScreenState::OptionSelection(2, 5).is_valid());
    assert!(!ScreenState::OptionSelection(3, 0).is_valid());
}
