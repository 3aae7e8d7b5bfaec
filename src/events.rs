//! The normalized event stream shared by every input source.

use vstd::prelude::*;

verus! {

/// Button channel of the first section (`APPS`).
pub const BUTTON_APPS: u8 = 0;

/// Button channel of the second section (`PROFILE`).
pub const BUTTON_PROFILE: u8 = 1;

/// Button channel of the third section (`SETTINGS`).
pub const BUTTON_SETTINGS: u8 = 2;

/// Button channel that confirms the highlighted entry.
pub const BUTTON_CONFIRM: u8 = 3;

/// Button channel that switches between hardware and keyboard input. Its
/// presses are consumed by the arbitrator and never forwarded.
pub const MODE_TOGGLE_BUTTON: u8 = 4;

/// Encoder that moves between the sections of the main menu.
pub const TAB_ENCODER: u8 = 0;

/// Encoder that moves between the options of a section.
pub const OPTION_ENCODER: u8 = 1;

/// Which family of sources feeds the shell.
#[derive(Clone, Copy, Debug, PartialEq, Eq, Structural)]
pub enum InputMode {
    Hardware,
    Keyboard,
}

/// The other mode.
pub open spec fn toggled_mode(mode: InputMode) -> InputMode {
    match mode {
        InputMode::Hardware => InputMode::Keyboard,
        InputMode::Keyboard => InputMode::Hardware,
    }
}

impl InputMode {
    /// The other mode.
    pub fn toggled(self) -> (r: InputMode)
        ensures
            r == toggled_mode(self),
    {
        match self {
            InputMode::Hardware => InputMode::Keyboard,
            InputMode::Keyboard => InputMode::Hardware,
        }
    }
}

/// One semantic input event.
#[derive(Clone, Copy, Debug, PartialEq, Eq, Structural)]
pub enum InputEvent {
    /// A press on the touch surface, in screen pixels.
    Touch(i32, i32),
    /// A debounced press of the button channel with this id.
    ButtonPressed(u8),
    /// One detent of an encoder; `delta` is `1` or `-1`.
    EncoderRotated { encoder_id: u8, delta: i8 },
    /// A debounced press of an encoder's push button.
    EncoderButtonPressed(u8),
    /// A letter passed through from the keyboard.
    KeyPress(char),
    NavigateUp,
    NavigateDown,
    NavigateLeft,
    NavigateRight,
    Activate,
    Select,
    /// The input mode has just switched to this value.
    ModeChanged(InputMode),
}

} // verus!
