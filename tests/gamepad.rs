use imgui_gilrs::analogue::{AnalogueGamepadInput, AxisValue, GamepadState};
use imgui_gilrs::handler::{Event, EventType};
use imgui_gilrs::keys::{to_imgui_gamepad_key, Axis, Button, GamepadKey};
use imgui_gilrs::sink::{InputSink, KeyEvent};
use imgui_gilrs::GamepadHandler;

fn value(v: f32) -> AxisValue {
    AxisValue::from_bits(v.to_bits())
}

fn ev(id: usize, event: EventType) -> Event {
    Event { id, event }
}

fn down(key: GamepadKey) -> KeyEvent {
    KeyEvent { key, down: true }
}

fn up(key: GamepadKey) -> KeyEvent {
    KeyEvent { key, down: false }
}

const ALL_BUTTONS: [Button; 20] = [
    Button::South,
    Button::East,
    Button::North,
    Button::West,
    Button::C,
    Button::Z,
    Button::LeftTrigger,
    Button::LeftTrigger2,
    Button::RightTrigger,
    Button::RightTrigger2,
    Button::Select,
    Button::Start,
    Button::Mode,
    Button::LeftThumb,
    Button::RightThumb,
    Button::DPadUp,
    Button::DPadDown,
    Button::DPadLeft,
    Button::DPadRight,
    Button::Unknown,
];

#[test]
fn mapping_of_every_button() {
    let expected = [
        Some(GamepadKey::FaceDown),
        Some(GamepadKey::FaceRight),
        Some(GamepadKey::FaceUp),
        Some(GamepadKey::FaceLeft),
        None,
        None,
        Some(GamepadKey::L1),
        Some(GamepadKey::L2),
        Some(GamepadKey::R1),
        Some(GamepadKey::R2),
        Some(GamepadKey::Back),
        Some(GamepadKey::Start),
        None,
        Some(GamepadKey::L3),
        Some(GamepadKey::R3),
        Some(GamepadKey::DpadUp),
        Some(GamepadKey::DpadDown),
        Some(GamepadKey::DpadLeft),
        Some(GamepadKey::DpadRight),
        None,
    ];
    for (b, k) in ALL_BUTTONS.iter().zip(expected.iter()) {
        assert_eq!(to_imgui_gamepad_key(*b), *k);
        assert_eq!(to_imgui_gamepad_key(*b), to_imgui_gamepad_key(*b));
    }
    let unmapped: Vec<Button> = ALL_BUTTONS
        .iter()
        .copied()
        .filter(|b| to_imgui_gamepad_key(*b).is_none())
        .collect();
    assert_eq!(unmapped, vec![Button::C, Button::Z, Button::Mode, Button::Unknown]);
}

#[test]
fn button_press_and_release_emit_mapped_keys() {
    let mut h = GamepadHandler::new();
    let mut io = InputSink::new();
    h.handle_event(&mut io, &ev(3, EventType::ButtonPressed(Button::South)));
    h.handle_event(&mut io, &ev(3, EventType::ButtonReleased(Button::South)));
    h.handle_event(&mut io, &ev(3, EventType::ButtonPressed(Button::Mode)));
    h.handle_event(&mut io, &ev(3, EventType::ButtonReleased(Button::C)));
    assert_eq!(io.key_events, vec![down(GamepadKey::FaceDown), up(GamepadKey::FaceDown)]);
    assert!(!io.has_gamepad);
}

#[test]
fn events_for_unconnected_controller_do_nothing() {
    let mut h = GamepadHandler::new();
    let mut io = InputSink::new();
    h.handle_event(&mut io, &ev(1, EventType::Connected));
    h.handle_event(&mut io, &ev(7, EventType::AxisChanged(Axis::LeftStickX, value(1.0))));
    h.handle_event(&mut io, &ev(7, EventType::ButtonChanged(Button::LeftTrigger2, value(1.0))));
    h.handle_event(&mut io, &ev(7, EventType::ButtonRepeated(Button::South)));
    h.handle_event(&mut io, &ev(7, EventType::Dropped));
    assert!(io.key_events.is_empty());
    // no state was created for controller 7: disconnecting controller 1 empties the set
    h.handle_event(&mut io, &ev(1, EventType::Disconnected));
    assert!(!io.has_gamepad);
}

#[test]
fn connect_then_disconnect() {
    let mut h = GamepadHandler::default();
    let mut io = InputSink::new();
    h.handle_event(&mut io, &ev(4, EventType::Connected));
    assert!(io.has_gamepad);
    h.handle_event(&mut io, &ev(4, EventType::Disconnected));
    assert!(!io.has_gamepad);
    assert!(io.key_events.is_empty());
    // the state is gone: an axis event for it emits nothing
    h.handle_event(&mut io, &ev(4, EventType::AxisChanged(Axis::LeftStickY, value(1.0))));
    assert!(io.key_events.is_empty());
}

#[test]
fn left_stick_y_crossing_emits_two_transitions() {
    let mut h = GamepadHandler::new();
    let mut io = InputSink::new();
    h.handle_event(&mut io, &ev(1, EventType::Connected));
    h.handle_event(&mut io, &ev(1, EventType::AxisChanged(Axis::LeftStickY, value(0.5))));
    assert_eq!(io.key_events, vec![down(GamepadKey::LStickUp)]);
    io.key_events.clear();
    h.handle_event(&mut io, &ev(1, EventType::AxisChanged(Axis::LeftStickY, value(-0.5))));
    assert_eq!(io.key_events.len(), 2);
    assert!(io.key_events.contains(&up(GamepadKey::LStickUp)));
    assert!(io.key_events.contains(&down(GamepadKey::LStickDown)));
}

#[test]
fn repeated_axis_value_emits_once() {
    let mut h = GamepadHandler::new();
    let mut io = InputSink::new();
    h.handle_event(&mut io, &ev(1, EventType::Connected));
    h.handle_event(&mut io, &ev(1, EventType::AxisChanged(Axis::RightStickX, value(0.8))));
    h.handle_event(&mut io, &ev(1, EventType::AxisChanged(Axis::RightStickX, value(0.8))));
    assert_eq!(io.key_events, vec![down(GamepadKey::RStickRight)]);
    h.handle_event(&mut io, &ev(1, EventType::AxisChanged(Axis::RightStickX, value(0.9))));
    assert_eq!(io.key_events, vec![down(GamepadKey::RStickRight)]);
}

#[test]
fn threshold_is_strict() {
    let mut s = GamepadState::new();
    s.l2 = value(0.01);
    s.ly = value(-0.01);
    assert!(!s.is_triggered(AnalogueGamepadInput::L2));
    assert!(!s.is_triggered(AnalogueGamepadInput::LDown));
    s.l2 = value(0.0100001);
    s.ly = value(-0.0100001);
    assert!(s.is_triggered(AnalogueGamepadInput::L2));
    assert!(s.is_triggered(AnalogueGamepadInput::LDown));
    assert!(!s.is_triggered(AnalogueGamepadInput::LUp));
}

#[test]
fn special_values_against_threshold() {
    assert!(value(f32::INFINITY).is_above_threshold());
    assert!(value(f32::NEG_INFINITY).is_below_threshold());
    assert!(!value(f32::NAN).is_above_threshold());
    assert!(!value(f32::NAN).is_below_threshold());
    assert!(!value(-f32::NAN).is_below_threshold());
    assert!(!value(-0.0).is_below_threshold());
    assert!(!value(-0.5).is_above_threshold());
    assert!(!value(0.5).is_below_threshold());
    assert!(AxisValue::zero().to_bits() == 0);
}

#[test]
fn right_trigger_scenario() {
    let mut h = GamepadHandler::new();
    let mut io = InputSink::new();
    h.handle_event(&mut io, &ev(1, EventType::Connected));
    assert!(io.has_gamepad);
    h.handle_event(&mut io, &ev(1, EventType::ButtonChanged(Button::RightTrigger2, value(0.5))));
    assert_eq!(io.key_events, vec![down(GamepadKey::R2)]);
    h.handle_event(&mut io, &ev(1, EventType::ButtonChanged(Button::RightTrigger2, value(0.0))));
    assert_eq!(io.key_events, vec![down(GamepadKey::R2), up(GamepadKey::R2)]);
    h.handle_event(&mut io, &ev(1, EventType::Disconnected));
    assert!(!io.has_gamepad);
    h.handle_event(&mut io, &ev(1, EventType::ButtonChanged(Button::RightTrigger2, value(0.5))));
    assert_eq!(io.key_events.len(), 2);
}

#[test]
fn flag_stays_while_a_controller_remains() {
    let mut h = GamepadHandler::new();
    let mut io = InputSink::new();
    h.handle_event(&mut io, &ev(1, EventType::Connected));
    h.handle_event(&mut io, &ev(2, EventType::Connected));
    h.handle_event(&mut io, &ev(1, EventType::Disconnected));
    assert!(io.has_gamepad);
    h.handle_event(&mut io, &ev(2, EventType::Disconnected));
    assert!(!io.has_gamepad);
}

#[test]
fn left_trigger_and_non_trigger_buttons() {
    let mut s = GamepadState::new();
    let mut io = InputSink::new();
    s.change_analogue_button(&mut io, Button::LeftTrigger2, value(1.0));
    s.change_analogue_button(&mut io, Button::South, value(1.0));
    s.change_analogue_button(&mut io, Button::RightTrigger, value(1.0));
    assert_eq!(io.key_events, vec![down(GamepadKey::L2)]);
    assert_eq!(s.l2, value(1.0));
    assert_eq!(s.r2, value(0.0));
}

#[test]
fn dpad_axes_drive_their_own_directions() {
    let mut s = GamepadState::new();
    let mut io = InputSink::new();
    s.change_axis(&mut io, Axis::DPadX, value(-1.0));
    assert_eq!(s.dpad_x, value(-1.0));
    assert_eq!(s.dpad_y, value(0.0));
    s.change_axis(&mut io, Axis::DPadX, value(1.0));
    s.change_axis(&mut io, Axis::DPadY, value(1.0));
    s.change_axis(&mut io, Axis::DPadY, value(-1.0));
    assert_eq!(
        io.key_events,
        vec![
            down(GamepadKey::DpadLeft),
            up(GamepadKey::DpadLeft),
            down(GamepadKey::DpadRight),
            down(GamepadKey::DpadUp),
            down(GamepadKey::DpadDown),
            up(GamepadKey::DpadUp),
        ]
    );
    assert!(s.is_triggered(AnalogueGamepadInput::DPadRight));
    assert!(!s.is_triggered(AnalogueGamepadInput::DPadLeft));
    assert!(s.is_triggered(AnalogueGamepadInput::DPadDown));
}

#[test]
fn sticks_map_to_their_keys() {
    let mut s = GamepadState::new();
    let mut io = InputSink::new();
    s.change_axis(&mut io, Axis::LeftStickX, value(-0.7));
    s.change_axis(&mut io, Axis::RightStickY, value(0.7));
    s.change_axis(&mut io, Axis::RightStickY, value(0.005));
    s.change_axis(&mut io, Axis::LeftZ, value(1.0));
    s.change_axis(&mut io, Axis::RightZ, value(1.0));
    s.change_axis(&mut io, Axis::Unknown, value(1.0));
    assert_eq!(
        io.key_events,
        vec![down(GamepadKey::LStickLeft), down(GamepadKey::RStickUp), up(GamepadKey::RStickUp)]
    );
    assert_eq!(s.ry, value(0.005));
}

#[test]
fn reconnect_resets_state() {
    let mut h = GamepadHandler::new();
    let mut io = InputSink::new();
    h.handle_event(&mut io, &ev(1, EventType::Connected));
    h.handle_event(&mut io, &ev(1, EventType::AxisChanged(Axis::LeftStickX, value(1.0))));
    h.handle_event(&mut io, &ev(1, EventType::Connected));
    h.handle_event(&mut io, &ev(1, EventType::AxisChanged(Axis::LeftStickX, value(1.0))));
    assert_eq!(
        io.key_events,
        vec![down(GamepadKey::LStickRight), down(GamepadKey::LStickRight)]
    );
}
