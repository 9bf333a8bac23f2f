//! The vocabulary of the input source (buttons and axes) and of the GUI
//! (gamepad keys), and the fixed mapping from digital buttons to keys.
use vstd::prelude::*;

verus! {

/// A digital button of a gamepad, as the input source names it.
#[derive(Clone, Copy, Debug, PartialEq, Eq, Structural)]
pub enum Button {
    South,
    East,
    North,
    West,
    C,
    Z,
    LeftTrigger,
    LeftTrigger2,
    RightTrigger,
    RightTrigger2,
    Select,
    Start,
    Mode,
    LeftThumb,
    RightThumb,
    DPadUp,
    DPadDown,
    DPadLeft,
    DPadRight,
    Unknown,
}

/// An analogue axis of a gamepad, as the input source names it.
#[derive(Clone, Copy, Debug, PartialEq, Eq, Structural)]
pub enum Axis {
    LeftStickX,
    LeftStickY,
    LeftZ,
    RightStickX,
    RightStickY,
    RightZ,
    DPadX,
    DPadY,
    Unknown,
}

/// A gamepad key of the GUI's input vocabulary.
#[derive(Clone, Copy, Debug, PartialEq, Eq, Structural)]
pub enum GamepadKey {
    Start,
    Back,
    FaceLeft,
    FaceRight,
    FaceUp,
    FaceDown,
    DpadLeft,
    DpadRight,
    DpadUp,
    DpadDown,
    L1,
    R1,
    L2,
    R2,
    L3,
    R3,
    LStickLeft,
    LStickRight,
    LStickUp,
    LStickDown,
    RStickLeft,
    RStickRight,
    RStickUp,
    RStickDown,
}

/// The GUI key that a digital button stands for, if any.
pub open spec fn key_of(button: Button) -> Option<GamepadKey> {
    match button {
        Button::South => Some(GamepadKey::FaceDown),
        Button::East => Some(GamepadKey::FaceRight),
        Button::North => Some(GamepadKey::FaceUp),
        Button::West => Some(GamepadKey::FaceLeft),
        Button::C => None,
        Button::Z => None,
        Button::LeftTrigger => Some(GamepadKey::L1),
        Button::LeftTrigger2 => Some(GamepadKey::L2),
        Button::RightTrigger => Some(GamepadKey::R1),
        Button::RightTrigger2 => Some(GamepadKey::R2),
        Button::Select => Some(GamepadKey::Back),
        Button::Start => Some(GamepadKey::Start),
        Button::Mode => None,
        Button::LeftThumb => Some(GamepadKey::L3),
        Button::RightThumb => Some(GamepadKey::R3),
        Button::DPadUp => Some(GamepadKey::DpadUp),
        Button::DPadDown => Some(GamepadKey::DpadDown),
        Button::DPadLeft => Some(GamepadKey::DpadLeft),
        Button::DPadRight => Some(GamepadKey::DpadRight),
        Button::Unknown => None,
    }
}

/// Maps a digital button to its GUI key; `None` for buttons the GUI has no
/// key for.
pub fn to_imgui_gamepad_key(button: Button) -> (r: Option<GamepadKey>)
    ensures
        r == key_of(button),
{
    match button {
        Button::South => Some(GamepadKey::FaceDown),
        Button::East => Some(GamepadKey::FaceRight),
        Button::North => Some(GamepadKey::FaceUp),
        Button::West => Some(GamepadKey::FaceLeft),
        Button::C => None,
        Button::Z => None,
        Button::LeftTrigger => Some(GamepadKey::L1),
        Button::LeftTrigger2 => Some(GamepadKey::L2),
        Button::RightTrigger => Some(GamepadKey::R1),
        Button::RightTrigger2 => Some(GamepadKey::R2),
        Button::Select => Some(GamepadKey::Back),
        Button::Start => Some(GamepadKey::Start),
        Button::Mode => None,
        Button::LeftThumb => Some(GamepadKey::L3),
        Button::RightThumb => Some(GamepadKey::R3),
        Button::DPadUp => Some(GamepadKey::DpadUp),
        Button::DPadDown => Some(GamepadKey::DpadDown),
        Button::DPadLeft => Some(GamepadKey::DpadLeft),
        Button::DPadRight => Some(GamepadKey::DpadRight),
        Button::Unknown => None,
    }
}

/// The mapping is total, and the buttons without a GUI key are exactly
/// `C`, `Z`, `Mode` and `Unknown`.
pub proof fn lemma_unmapped_buttons(button: Button)
    ensures
        key_of(button) is None <==> (button == Button::C || button == Button::Z
            || button == Button::Mode || button == Button::Unknown),
{
}

} // verus!
