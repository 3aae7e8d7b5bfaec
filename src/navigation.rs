//! The navigation state machine: screens, selections, and launch requests.

use vstd::prelude::*;
use crate::events::{InputEvent, BUTTON_CONFIRM, OPTION_ENCODER, TAB_ENCODER};
use crate::launcher::LaunchableApp;

verus! {

/// Width of the screen in pixels.
pub const SCREEN_WIDTH: i32 = 800;

/// Number of sections of the main menu.
pub const TAB_COUNT: usize = 3;

/// Number of options of each section, the back slot included.
pub const OPTIONS_PER_TAB: usize = 5;

/// The option of each section that leads back to the welcome screen.
pub const BACK_OPTION: usize = 4;

/// Left edge of the main menu's rows, in pixels.
pub const MENU_LEFT: i32 = 100;

/// Right edge of the main menu's rows, in pixels (inclusive).
pub const MENU_RIGHT: i32 = 700;

/// Top of the first row of the main menu, in pixels.
pub const MENU_TOP: i32 = 100;

/// Height of one row of the main menu, in pixels.
pub const MENU_ROW_HEIGHT: i32 = 50;

/// What is on screen.
#[derive(Clone, Copy, Debug, PartialEq, Eq, Structural)]
pub enum ScreenState {
    Welcome,
    /// The main menu with this section highlighted.
    MainMenu(usize),
    /// The options of a section (first field) with one option highlighted.
    OptionSelection(usize, usize),
}

impl ScreenState {
    /// Every index names an existing section or option.
    pub open spec fn wf(self) -> bool {
        match self {
            ScreenState::Welcome => true,
            ScreenState::MainMenu(tab) => tab < TAB_COUNT,
            ScreenState::OptionSelection(tab, option) => tab < TAB_COUNT && option < OPTIONS_PER_TAB,
        }
    }

    /// Every index names an existing section or option.
    pub fn is_valid(&self) -> (r: bool)
        ensures
            r == self.wf(),
    {
        match self {
            ScreenState::Welcome => true,
            ScreenState::MainMenu(tab) => *tab < TAB_COUNT,
            ScreenState::OptionSelection(tab, option) => *tab < TAB_COUNT && *option < OPTIONS_PER_TAB,
        }
    }
}

/// The section under a touch at column `x`: the screen is cut into three
/// equal columns; touches left or right of the screen count for the nearest.
pub open spec fn section_at(x: i32) -> usize {
    if 3 * x < SCREEN_WIDTH {
        0
    } else if 3 * x < 2 * SCREEN_WIDTH {
        1
    } else {
        2
    }
}

/// The main menu row under the pointer, if the pointer is on one.
pub open spec fn menu_row_at(x: i32, y: i32) -> Option<usize> {
    if MENU_LEFT <= x <= MENU_RIGHT && MENU_TOP <= y < MENU_TOP + MENU_ROW_HEIGHT * TAB_COUNT {
        Some(((y - MENU_TOP) / MENU_ROW_HEIGHT as int) as usize)
    } else {
        None
    }
}

/// The application behind an option; `None` for the back slot.
pub open spec fn app_for(tab: usize, option: usize) -> Option<LaunchableApp> {
    if tab == 0 {
        if option == 0 {
            Some(LaunchableApp::AudioPlayer)
        } else if option == 1 {
            Some(LaunchableApp::Calendar)
        } else if option == 2 {
            Some(LaunchableApp::FileExplorer)
        } else if option == 3 {
            Some(LaunchableApp::Terminal)
        } else {
            None
        }
    } else if tab == 1 {
        if option == 0 {
            Some(LaunchableApp::Maps)
        } else if option == 1 {
            Some(LaunchableApp::Notes)
        } else if option == 2 {
            Some(LaunchableApp::TodoList)
        } else if option == 3 {
            Some(LaunchableApp::TextEditor)
        } else {
            None
        }
    } else if tab == 2 {
        if option == 0 {
            Some(LaunchableApp::Writer(None))
        } else if option == 1 {
            Some(LaunchableApp::Calc(None))
        } else if option == 2 {
            Some(LaunchableApp::Impress(None))
        } else if option == 3 {
            Some(LaunchableApp::IDE)
        } else {
            None
        }
    } else {
        None
    }
}

/// The welcome screen's response to an event.
pub open spec fn welcome_next(event: InputEvent) -> ScreenState {
    match event {
        InputEvent::Touch(x, _) => ScreenState::MainMenu(section_at(x)),
        InputEvent::ButtonPressed(id) => {
            if (id as usize) < TAB_COUNT {
                ScreenState::MainMenu(id as usize)
            } else {
                ScreenState::Welcome
            }
        },
        InputEvent::Select => ScreenState::MainMenu(0),
        _ => ScreenState::Welcome,
    }
}

/// The main menu's response to an event, with section `tab` highlighted.
pub open spec fn main_menu_next(tab: usize, event: InputEvent) -> ScreenState {
    match event {
        InputEvent::EncoderRotated { encoder_id, delta } => {
            if encoder_id == TAB_ENCODER && delta == 1 {
                ScreenState::MainMenu(((tab + 1) % TAB_COUNT as int) as usize)
            } else if encoder_id == TAB_ENCODER && delta == -1 {
                ScreenState::MainMenu(((tab + TAB_COUNT - 1) % TAB_COUNT as int) as usize)
            } else {
                ScreenState::MainMenu(tab)
            }
        },
        InputEvent::ButtonPressed(id) => {
            if id == BUTTON_CONFIRM {
                ScreenState::OptionSelection(tab, 0)
            } else {
                ScreenState::MainMenu(tab)
            }
        },
        InputEvent::Select => ScreenState::OptionSelection(tab, 0),
        InputEvent::Touch(x, y) => match menu_row_at(x, y) {
            Some(row) => {
                if row == tab {
                    ScreenState::OptionSelection(tab, 0)
                } else {
                    ScreenState::MainMenu(row)
                }
            },
            None => ScreenState::MainMenu(tab),
        },
        _ => ScreenState::MainMenu(tab),
    }
}

/// Confirming `option` of section `tab`: a leaf stays on screen and asks
/// for its application; the back slot returns to the welcome screen.
pub open spec fn activate(tab: usize, option: usize) -> (ScreenState, Option<LaunchableApp>) {
    match app_for(tab, option) {
        Some(app) => (ScreenState::OptionSelection(tab, option), Some(app)),
        None => (ScreenState::Welcome, None),
    }
}

/// The option list's response to an event.
pub open spec fn option_next(tab: usize, option: usize, event: InputEvent) -> (
    ScreenState,
    Option<LaunchableApp>,
) {
    match event {
        InputEvent::EncoderRotated { encoder_id, delta } => {
            if encoder_id == OPTION_ENCODER && delta == 1 {
                (ScreenState::OptionSelection(tab, ((option + 1) % OPTIONS_PER_TAB as int) as usize), None)
            } else if encoder_id == OPTION_ENCODER && delta == -1 {
                (
                    ScreenState::OptionSelection(
                        tab,
                        ((option + OPTIONS_PER_TAB - 1) % OPTIONS_PER_TAB as int) as usize,
                    ),
                    None,
                )
            } else {
                (ScreenState::OptionSelection(tab, option), None)
            }
        },
        InputEvent::Select => activate(tab, option),
        InputEvent::ButtonPressed(id) => {
            if id == BUTTON_CONFIRM {
                activate(tab, option)
            } else {
                (ScreenState::Welcome, None)
            }
        },
        _ => (ScreenState::OptionSelection(tab, option), None),
    }
}

/// The transition function: next screen and launch request.
pub open spec fn next_screen(state: ScreenState, event: InputEvent) -> (ScreenState, Option<LaunchableApp>) {
    match state {
        ScreenState::Welcome => (welcome_next(event), None),
        ScreenState::MainMenu(tab) => (main_menu_next(tab, event), None),
        ScreenState::OptionSelection(tab, option) => option_next(tab, option, event),
    }
}

/// Folds a stream of events through the machine from `state`: the last
/// screen and the launch requests, in the order they were made.
pub open spec fn run_events(state: ScreenState, events: Seq<InputEvent>) -> (ScreenState, Seq<LaunchableApp>)
    decreases events.len(),
{
    if events.len() == 0 {
        (state, Seq::empty())
    } else {
        let (before, requests) = run_events(state, events.drop_last());
        let (after, request) = next_screen(before, events.last());
        match request {
            Some(app) => (after, requests.push(app)),
            None => (after, requests),
        }
    }
}

/// The pairs of screen and event to which the machine responds. Every other
/// pair leaves the screen as it is.
pub open spec fn is_handled(state: ScreenState, event: InputEvent) -> bool {
    match state {
        ScreenState::Welcome => match event {
            InputEvent::Touch(_, _) => true,
            InputEvent::ButtonPressed(id) => (id as usize) < TAB_COUNT,
            InputEvent::Select => true,
            _ => false,
        },
        ScreenState::MainMenu(_) => match event {
            InputEvent::EncoderRotated { encoder_id, delta } => encoder_id == TAB_ENCODER && (delta == 1
                || delta == -1),
            InputEvent::ButtonPressed(id) => id == BUTTON_CONFIRM,
            InputEvent::Select => true,
            InputEvent::Touch(x, y) => menu_row_at(x, y) is Some,
            _ => false,
        },
        ScreenState::OptionSelection(_, _) => match event {
            InputEvent::EncoderRotated { encoder_id, delta } => encoder_id == OPTION_ENCODER && (delta == 1
                || delta == -1),
            InputEvent::ButtonPressed(_) => true,
            InputEvent::Select => true,
            _ => false,
        },
    }
}

/// The welcome screen's response to an event.
pub fn handle_welcome_input(event: InputEvent) -> (r: ScreenState)
    ensures
        r == welcome_next(event),
        r.wf(),
{
    match event {
        InputEvent::Touch(x, _) => {
            let x3 = (x as i64) * 3;
            if x3 < SCREEN_WIDTH as i64 {
                ScreenState::MainMenu(0)
            } else if x3 < 2 * SCREEN_WIDTH as i64 {
                ScreenState::MainMenu(1)
            } else {
                ScreenState::MainMenu(2)
            }
        },
        InputEvent::ButtonPressed(id) => {
            if (id as usize) < TAB_COUNT {
                ScreenState::MainMenu(id as usize)
            } else {
                ScreenState::Welcome
            }
        },
        InputEvent::Select => ScreenState::MainMenu(0),
        _ => ScreenState::Welcome,
    }
}

fn row_under(x: i32, y: i32) -> (r: Option<usize>)
    ensures
        r == menu_row_at(x, y),
        r matches Some(row) ==> row < TAB_COUNT,
{
    if MENU_LEFT <= x && x <= MENU_RIGHT && MENU_TOP <= y && (y as i64) < MENU_TOP as i64
        + MENU_ROW_HEIGHT as i64 * TAB_COUNT as i64 {
        let offset = y - MENU_TOP;
        let row = offset / MENU_ROW_HEIGHT;
        assert(0 <= row < 3) by (nonlinear_arith)
            requires
                0 <= offset < 150,
                row == offset / 50,
        ;
        Some(row as usize)
    } else {
        None
    }
}

/// The main menu's response to an event, with section `selected` highlighted.
pub fn handle_main_menu_input(selected: usize, event: InputEvent) -> (r: ScreenState)
    requires
        selected < TAB_COUNT,
    ensures
        r == main_menu_next(selected, event),
        r.wf(),
{
    match event {
        InputEvent::EncoderRotated { encoder_id, delta } => {
            if encoder_id == TAB_ENCODER && delta == 1 {
                ScreenState::MainMenu((selected + 1) % TAB_COUNT)
            } else if encoder_id == TAB_ENCODER && delta == -1 {
                ScreenState::MainMenu((selected + TAB_COUNT - 1) % TAB_COUNT)
            } else {
                ScreenState::MainMenu(selected)
            }
        },
        InputEvent::ButtonPressed(id) => {
            if id == BUTTON_CONFIRM {
                ScreenState::OptionSelection(selected, 0)
            } else {
                ScreenState::MainMenu(selected)
            }
        },
        InputEvent::Select => ScreenState::OptionSelection(selected, 0),
        InputEvent::Touch(x, y) => match row_under(x, y) {
            Some(row) => {
                if row == selected {
                    ScreenState::OptionSelection(selected, 0)
                } else {
                    ScreenState::MainMenu(row)
                }
            },
            None => ScreenState::MainMenu(selected),
        },
        _ => ScreenState::MainMenu(selected),
    }
}

/// The application behind an option; `None` for the back slot.
pub fn app_for_option(tab: usize, option: usize) -> (r: Option<LaunchableApp>)
    ensures
        r == app_for(tab, option),
{
    if tab == 0 {
        if option == 0 {
            Some(LaunchableApp::AudioPlayer)
        } else if option == 1 {
            Some(LaunchableApp::Calendar)
        } else if option == 2 {
            Some(LaunchableApp::FileExplorer)
        } else if option == 3 {
            Some(LaunchableApp::Terminal)
        } else {
            None
        }
    } else if tab == 1 {
        if option == 0 {
            Some(LaunchableApp::Maps)
        } else if option == 1 {
            Some(LaunchableApp::Notes)
        } else if option == 2 {
            Some(LaunchableApp::TodoList)
        } else if option == 3 {
            Some(LaunchableApp::TextEditor)
        } else {
            None
        }
    } else if tab == 2 {
        if option == 0 {
            Some(LaunchableApp::Writer(None))
        } else if option == 1 {
            Some(LaunchableApp::Calc(None))
        } else if option == 2 {
            Some(LaunchableApp::Impress(None))
        } else if option == 3 {
            Some(LaunchableApp::IDE)
        } else {
            None
        }
    } else {
        None
    }
}

fn activate_option(tab: usize, option: usize) -> (r: (ScreenState, Option<LaunchableApp>))
    ensures
        r == activate(tab, option),
{
    match app_for_option(tab, option) {
        Some(app) => (ScreenState::OptionSelection(tab, option), Some(app)),
        None => (ScreenState::Welcome, None),
    }
}

/// The option list's response to an event, with `option` of section `tab`
/// highlighted.
pub fn handle_option_input(tab: usize, option: usize, event: InputEvent) -> (r: (
    ScreenState,
    Option<LaunchableApp>,
))
    requires
        tab < TAB_COUNT,
        option < OPTIONS_PER_TAB,
    ensures
        r == option_next(tab, option, event),
        r.0.wf(),
{
    match event {
        InputEvent::EncoderRotated { encoder_id, delta } => {
            if encoder_id == OPTION_ENCODER && delta == 1 {
                (ScreenState::OptionSelection(tab, (option + 1) % OPTIONS_PER_TAB), None)
            } else if encoder_id == OPTION_ENCODER && delta == -1 {
                (
                    ScreenState::OptionSelection(
                        tab,
                        (option + OPTIONS_PER_TAB - 1) % OPTIONS_PER_TAB,
                    ),
                    None,
                )
            } else {
                (ScreenState::OptionSelection(tab, option), None)
            }
        },
        InputEvent::Select => activate_option(tab, option),
        InputEvent::ButtonPressed(id) => {
            if id == BUTTON_CONFIRM {
                activate_option(tab, option)
            } else {
                (ScreenState::Welcome, None)
            }
        },
        _ => (ScreenState::OptionSelection(tab, option), None),
    }
}

/// One transition: the next screen, and the application to launch when the
/// event confirms a leaf option. Total over every screen and event.
pub fn transition(state: ScreenState, event: InputEvent) -> (r: (ScreenState, Option<LaunchableApp>))
    requires
        state.wf(),
    ensures
        r == next_screen(state, event),
        r.0.wf(),
{
    match state {
        ScreenState::Welcome => (handle_welcome_input(event), None),
        ScreenState::MainMenu(tab) => (handle_main_menu_input(tab, event), None),
        ScreenState::OptionSelection(tab, option) => handle_option_input(tab, option, event),
    }
}

/// Folds the events of one tick through the machine, one after the other,
/// so that each sees the screen the previous one left. Returns the last
/// screen and the launch requests in the order they were made.
pub fn apply_events(state: ScreenState, events: &Vec<InputEvent>) -> (r: (ScreenState, Vec<LaunchableApp>))
    requires
        state.wf(),
    ensures
        r.0 == run_events(state, events@).0,
        r.1@ == run_events(state, events@).1,
        r.0.wf(),
{
    let mut current = state;
    let mut requests: Vec<LaunchableApp> = Vec::new();
    let mut i: usize = 0;
    while i < events.len()
        invariant
            i <= events@.len(),
            current.wf(),
            current == run_events(state, events@.take(i as int)).0,
            requests@ == run_events(state, events@.take(i as int)).1,
        decreases events@.len() - i,
    {
        proof {
            assert(events@.take(i + 1 as int).drop_last() =~= events@.take(i as int));
        }
        let (next, request) = transition(current, events[i]);
        current = next;
        if let Some(app) = request {
            requests.push(app);
        }
        i += 1;
    }
    assert(events@.take(i as int) =~= events@);
    (current, requests)
}

/// Every pair of screen and event that the machine does not handle leaves
/// the screen unchanged and asks for no launch.
pub proof fn lemma_unhandled_pairs_are_noops(state: ScreenState, event: InputEvent)
    requires
        state.wf(),
        !is_handled(state, event),
    ensures
        next_screen(state, event) == (state, Option::<LaunchableApp>::None),
{
}

/// The name of a section.
pub open spec fn tab_label(tab: usize) -> Seq<char> {
    if tab == 0 {
        "APPS"@
    } else if tab == 1 {
        "PROFILE"@
    } else {
        "SETTINGS"@
    }
}

/// The label of an option of a section.
pub open spec fn option_label_of(tab: usize, option: usize) -> Seq<char> {
    if option == BACK_OPTION {
        "Back"@
    } else if tab == 0 {
        if option == 0 {
            "Music Player"@
        } else if option == 1 {
            "Calendar"@
        } else if option == 2 {
            "Files"@
        } else {
            "Terminal"@
        }
    } else if tab == 1 {
        if option == 0 {
            "Maps"@
        } else if option == 1 {
            "Notes"@
        } else if option == 2 {
            "To-do List"@
        } else {
            "Text Editor"@
        }
    } else {
        if option == 0 {
            "Writer"@
        } else if option == 1 {
            "Calc"@
        } else if option == 2 {
            "Impress"@
        } else {
            "IDE"@
        }
    }
}

/// The name of section `tab`, as the renderer shows it.
pub fn tab_name(tab: usize) -> (r: &'static str)
    requires
        tab < TAB_COUNT,
    ensures
        r@ == tab_label(tab),
{
    if tab == 0 {
        "APPS"
    } else if tab == 1 {
        "PROFILE"
    } else {
        "SETTINGS"
    }
}

/// The label of `option` in section `tab`, as the renderer shows it.
pub fn option_label(tab: usize, option: usize) -> (r: &'static str)
    requires
        tab < TAB_COUNT,
        option < OPTIONS_PER_TAB,
    ensures
        r@ == option_label_of(tab, option),
{
    if option == BACK_OPTION {
        "Back"
    } else if tab == 0 {
        if option == 0 {
            "Music Player"
        } else if option == 1 {
            "Calendar"
        } else if option == 2 {
            "Files"
        } else {
            "Terminal"
        }
    } else if tab == 1 {
        if option == 0 {
            "Maps"
        } else if option == 1 {
            "Notes"
        } else if option == 2 {
            "To-do List"
        } else {
            "Text Editor"
        }
    } else {
        if option == 0 {
            "Writer"
        } else if option == 1 {
            "Calc"
        } else if option == 2 {
            "Impress"
        } else {
            "IDE"
        }
    }
}

} // verus!
