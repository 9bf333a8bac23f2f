//! The analogue state of one gamepad, and the edge detection that turns
//! changes of its triggers, sticks and d-pad axes into key transitions.
use vstd::prelude::*;

use crate::keys::{Axis, Button, GamepadKey};
use crate::sink::{InputSink, KeyEvent};

verus! {

/// Bit pattern of the activation threshold, the single-precision value 0.01.
pub const THRESHOLD_BITS: u32 = 0x3C23_D70A;

/// The sign bit of a single-precision value.
pub const SIGN_BIT: u32 = 0x8000_0000;

/// Bit pattern of positive infinity; larger magnitudes are NaN.
pub const INFINITY_BITS: u32 = 0x7F80_0000;

/// An analogue reading, held as the IEEE 754 single-precision bit pattern
/// that the input source delivers.
///
/// For values that are not NaN the order of magnitudes is the order of
/// their bit patterns without the sign bit, so the threshold tests below
/// are exact comparisons of the floating-point values: `above` is
/// `value > 0.01` and `below` is `value < -0.01`; both are false for NaN.
#[derive(Clone, Copy, Debug, PartialEq, Eq, Structural)]
pub struct AxisValue {
    pub bits: u32,
}

impl AxisValue {
    pub open spec fn is_sign_negative(self) -> bool {
        self.bits >= SIGN_BIT
    }

    /// The bit pattern without the sign bit.
    pub open spec fn magnitude(self) -> int {
        if self.is_sign_negative() {
            self.bits - SIGN_BIT
        } else {
            self.bits as int
        }
    }

    /// A magnitude beyond the threshold that is not NaN.
    pub open spec fn beyond_threshold(self) -> bool {
        THRESHOLD_BITS < self.magnitude() <= INFINITY_BITS
    }

    /// The value is greater than 0.01.
    pub open spec fn above(self) -> bool {
        !self.is_sign_negative() && self.beyond_threshold()
    }

    /// The value is less than -0.01.
    pub open spec fn below(self) -> bool {
        self.is_sign_negative() && self.beyond_threshold()
    }

    pub fn from_bits(bits: u32) -> (r: AxisValue)
        ensures
            r.bits == bits,
    {
        AxisValue { bits }
    }

    pub fn to_bits(self) -> (r: u32)
        ensures
            r == self.bits,
    {
        self.bits
    }

    /// The value 0.0.
    pub fn zero() -> (r: AxisValue)
        ensures
            r.bits == 0,
            !r.above(),
            !r.below(),
    {
        AxisValue { bits: 0 }
    }

    pub fn is_above_threshold(self) -> (r: bool)
        ensures
            r == self.above(),
    {
        self.bits < SIGN_BIT && THRESHOLD_BITS < self.bits && self.bits <= INFINITY_BITS
    }

    pub fn is_below_threshold(self) -> (r: bool)
        ensures
            r == self.below(),
    {
        self.bits >= SIGN_BIT && THRESHOLD_BITS < self.bits - SIGN_BIT && self.bits - SIGN_BIT
            <= INFINITY_BITS
    }
}

/// A virtual direction: a digital signal derived from one analogue value.
#[derive(Clone, Copy, Debug, PartialEq, Eq, Structural)]
pub enum AnalogueGamepadInput {
    L2,
    R2,
    LUp,
    LDown,
    LLeft,
    LRight,
    RUp,
    RDown,
    RLeft,
    RRight,
    DPadUp,
    DPadDown,
    DPadLeft,
    DPadRight,
}

/// The transition, if any, that a change of a direction's activation from
/// `before` to `after` emits for `key`.
pub open spec fn edge(before: bool, after: bool, key: GamepadKey) -> Seq<KeyEvent> {
    if !before && after {
        seq![KeyEvent { key, down: true }]
    } else if before && !after {
        seq![KeyEvent { key, down: false }]
    } else {
        Seq::empty()
    }
}

/// For the two analogue triggers, the direction they drive and its key.
pub open spec fn trigger_input(button: Button) -> Option<(AnalogueGamepadInput, GamepadKey)> {
    match button {
        Button::LeftTrigger2 => Some((AnalogueGamepadInput::L2, GamepadKey::L2)),
        Button::RightTrigger2 => Some((AnalogueGamepadInput::R2, GamepadKey::R2)),
        _ => None,
    }
}

/// For the six recognised axes, the negative and the positive direction
/// they drive and the keys of those two directions.
pub open spec fn axis_inputs(axis: Axis) -> Option<
    (AnalogueGamepadInput, AnalogueGamepadInput, GamepadKey, GamepadKey),
> {
    match axis {
        Axis::LeftStickX => Some(
            (
                AnalogueGamepadInput::LLeft,
                AnalogueGamepadInput::LRight,
                GamepadKey::LStickLeft,
                GamepadKey::LStickRight,
            ),
        ),
        Axis::LeftStickY => Some(
            (
                AnalogueGamepadInput::LDown,
                AnalogueGamepadInput::LUp,
                GamepadKey::LStickDown,
                GamepadKey::LStickUp,
            ),
        ),
        Axis::RightStickX => Some(
            (
                AnalogueGamepadInput::RLeft,
                AnalogueGamepadInput::RRight,
                GamepadKey::RStickLeft,
                GamepadKey::RStickRight,
            ),
        ),
        Axis::RightStickY => Some(
            (
                AnalogueGamepadInput::RDown,
                AnalogueGamepadInput::RUp,
                GamepadKey::RStickDown,
                GamepadKey::RStickUp,
            ),
        ),
        Axis::DPadX => Some(
            (
                AnalogueGamepadInput::DPadLeft,
                AnalogueGamepadInput::DPadRight,
                GamepadKey::DpadLeft,
                GamepadKey::DpadRight,
            ),
        ),
        Axis::DPadY => Some(
            (
                AnalogueGamepadInput::DPadDown,
                AnalogueGamepadInput::DPadUp,
                GamepadKey::DpadDown,
                GamepadKey::DpadUp,
            ),
        ),
        _ => None,
    }
}

/// The last known analogue values of one connected gamepad.
#[derive(Clone, Copy, Debug, PartialEq, Eq, Structural)]
pub struct GamepadState {
    pub l2: AxisValue,
    pub r2: AxisValue,
    pub lx: AxisValue,
    pub ly: AxisValue,
    pub rx: AxisValue,
    pub ry: AxisValue,
    pub dpad_x: AxisValue,
    pub dpad_y: AxisValue,
}

impl GamepadState {
    /// The state of a gamepad at rest: all eight values zero.
    pub open spec fn rest() -> GamepadState {
        let zero = AxisValue { bits: 0 };
        GamepadState {
            l2: zero,
            r2: zero,
            lx: zero,
            ly: zero,
            rx: zero,
            ry: zero,
            dpad_x: zero,
            dpad_y: zero,
        }
    }

    /// Whether a virtual direction is active.
    pub open spec fn active(self, input: AnalogueGamepadInput) -> bool {
        match input {
            AnalogueGamepadInput::L2 => self.l2.above(),
            AnalogueGamepadInput::R2 => self.r2.above(),
            AnalogueGamepadInput::LUp => self.ly.above(),
            AnalogueGamepadInput::LDown => self.ly.below(),
            AnalogueGamepadInput::LLeft => self.lx.below(),
            AnalogueGamepadInput::LRight => self.lx.above(),
            AnalogueGamepadInput::RUp => self.ry.above(),
            AnalogueGamepadInput::RDown => self.ry.below(),
            AnalogueGamepadInput::RLeft => self.rx.below(),
            AnalogueGamepadInput::RRight => self.rx.above(),
            AnalogueGamepadInput::DPadUp => self.dpad_y.above(),
            AnalogueGamepadInput::DPadDown => self.dpad_y.below(),
            AnalogueGamepadInput::DPadLeft => self.dpad_x.below(),
            AnalogueGamepadInput::DPadRight => self.dpad_x.above(),
        }
    }

    /// The state after an analogue trigger reports `value`; other buttons
    /// leave it as it is.
    pub open spec fn with_trigger(self, button: Button, value: AxisValue) -> GamepadState {
        match button {
            Button::LeftTrigger2 => GamepadState { l2: value, ..self },
            Button::RightTrigger2 => GamepadState { r2: value, ..self },
            _ => self,
        }
    }

    /// The state after `axis` reports `value`; unrecognised axes leave it as
    /// it is.
    pub open spec fn with_axis(self, axis: Axis, value: AxisValue) -> GamepadState {
        match axis {
            Axis::LeftStickX => GamepadState { lx: value, ..self },
            Axis::LeftStickY => GamepadState { ly: value, ..self },
            Axis::RightStickX => GamepadState { rx: value, ..self },
            Axis::RightStickY => GamepadState { ry: value, ..self },
            Axis::DPadX => GamepadState { dpad_x: value, ..self },
            Axis::DPadY => GamepadState { dpad_y: value, ..self },
            _ => self,
        }
    }

    /// The transitions that a trigger change emits.
    pub open spec fn trigger_events(self, button: Button, value: AxisValue) -> Seq<KeyEvent> {
        match trigger_input(button) {
            Some((input, key)) => edge(
                self.active(input),
                self.with_trigger(button, value).active(input),
                key,
            ),
            None => Seq::empty(),
        }
    }

    /// The transitions that an axis change emits: first that of the negative
    /// direction, then that of the positive one.
    pub open spec fn axis_events(self, axis: Axis, value: AxisValue) -> Seq<KeyEvent> {
        match axis_inputs(axis) {
            Some((neg, pos, key_neg, key_pos)) => {
                let next = self.with_axis(axis, value);
                edge(self.active(neg), next.active(neg), key_neg) + edge(
                    self.active(pos),
                    next.active(pos),
                    key_pos,
                )
            },
            None => Seq::empty(),
        }
    }

    /// A gamepad at rest: every value zero.
    pub fn new() -> (r: GamepadState)
        ensures
            r == GamepadState::rest(),
    {
        GamepadState {
            l2: AxisValue::zero(),
            r2: AxisValue::zero(),
            lx: AxisValue::zero(),
            ly: AxisValue::zero(),
            rx: AxisValue::zero(),
            ry: AxisValue::zero(),
            dpad_x: AxisValue::zero(),
            dpad_y: AxisValue::zero(),
        }
    }

    /// Whether the virtual direction `trigger` is active.
    pub fn is_triggered(&self, trigger: AnalogueGamepadInput) -> (r: bool)
        ensures
            r == self.active(trigger),
    {
        match trigger {
            AnalogueGamepadInput::L2 => self.l2.is_above_threshold(),
            AnalogueGamepadInput::R2 => self.r2.is_above_threshold(),
            AnalogueGamepadInput::LUp => self.ly.is_above_threshold(),
            AnalogueGamepadInput::LDown => self.ly.is_below_threshold(),
            AnalogueGamepadInput::LLeft => self.lx.is_below_threshold(),
            AnalogueGamepadInput::LRight => self.lx.is_above_threshold(),
            AnalogueGamepadInput::RUp => self.ry.is_above_threshold(),
            AnalogueGamepadInput::RDown => self.ry.is_below_threshold(),
            AnalogueGamepadInput::RLeft => self.rx.is_below_threshold(),
            AnalogueGamepadInput::RRight => self.rx.is_above_threshold(),
            AnalogueGamepadInput::DPadUp => self.dpad_y.is_above_threshold(),
            AnalogueGamepadInput::DPadDown => self.dpad_y.is_below_threshold(),
            AnalogueGamepadInput::DPadLeft => self.dpad_x.is_below_threshold(),
            AnalogueGamepadInput::DPadRight => self.dpad_x.is_above_threshold(),
        }
    }

    /// Applies an analogue trigger reading and emits the transition of the
    /// trigger's direction, if it flipped. Buttons other than the two
    /// analogue triggers are ignored.
    pub fn change_analogue_button(&mut self, io: &mut InputSink, button: Button, value: AxisValue)
        ensures
            *final(self) == old(self).with_trigger(button, value),
            final(io).key_events@ == old(io).key_events@ + old(self).trigger_events(
                button,
                value,
            ),
            final(io).has_gamepad == old(io).has_gamepad,
    {
        let (analogue_input, imgui_key) = match button {
            Button::LeftTrigger2 => (AnalogueGamepadInput::L2, GamepadKey::L2),
            Button::RightTrigger2 => (AnalogueGamepadInput::R2, GamepadKey::R2),
            _ => {
                assert(io.key_events@ + Seq::<KeyEvent>::empty() =~= io.key_events@);
                return ;
            },
        };
        let was_triggered = self.is_triggered(analogue_input);
        match button {
            Button::LeftTrigger2 => self.l2 = value,
            _ => self.r2 = value,
        }
        let is_triggered = self.is_triggered(analogue_input);
        emit_edge(io, was_triggered, is_triggered, imgui_key);
    }

    /// Applies an axis reading and emits the transitions of the axis's two
    /// directions, each one independently, if it flipped. Axes other than
    /// the two sticks and the d-pad are ignored.
    pub fn change_axis(&mut self, io: &mut InputSink, axis: Axis, value: AxisValue)
        ensures
            *final(self) == old(self).with_axis(axis, value),
            final(io).key_events@ == old(io).key_events@ + old(self).axis_events(axis, value),
            final(io).has_gamepad == old(io).has_gamepad,
    {
        let (analogue_input_neg, analogue_input_pos, imgui_key_neg, imgui_key_pos) = match axis {
            Axis::LeftStickX => (
                AnalogueGamepadInput::LLeft,
                AnalogueGamepadInput::LRight,
                GamepadKey::LStickLeft,
                GamepadKey::LStickRight,
            ),
            Axis::LeftStickY => (
                AnalogueGamepadInput::LDown,
                AnalogueGamepadInput::LUp,
                GamepadKey::LStickDown,
                GamepadKey::LStickUp,
            ),
            Axis::RightStickX => (
                AnalogueGamepadInput::RLeft,
                AnalogueGamepadInput::RRight,
                GamepadKey::RStickLeft,
                GamepadKey::RStickRight,
            ),
            Axis::RightStickY => (
                AnalogueGamepadInput::RDown,
                AnalogueGamepadInput::RUp,
                GamepadKey::RStickDown,
                GamepadKey::RStickUp,
            ),
            Axis::DPadX => (
                AnalogueGamepadInput::DPadLeft,
                AnalogueGamepadInput::DPadRight,
                GamepadKey::DpadLeft,
                GamepadKey::DpadRight,
            ),
            Axis::DPadY => (
                AnalogueGamepadInput::DPadDown,
                AnalogueGamepadInput::DPadUp,
                GamepadKey::DpadDown,
                GamepadKey::DpadUp,
            ),
            _ => {
                assert(io.key_events@ + Seq::<KeyEvent>::empty() =~= io.key_events@);
                return ;
            },
        };
        let ghost start = io.key_events@;
        let was_triggered_neg = self.is_triggered(analogue_input_neg);
        let was_triggered_pos = self.is_triggered(analogue_input_pos);
        match axis {
            Axis::LeftStickX => self.lx = value,
            Axis::LeftStickY => self.ly = value,
            Axis::RightStickX => self.rx = value,
            Axis::RightStickY => self.ry = value,
            Axis::DPadX => self.dpad_x = value,
            _ => self.dpad_y = value,
        }
        let is_triggered_neg = self.is_triggered(analogue_input_neg);
        let is_triggered_pos = self.is_triggered(analogue_input_pos);
        emit_edge(io, was_triggered_neg, is_triggered_neg, imgui_key_neg);
        emit_edge(io, was_triggered_pos, is_triggered_pos, imgui_key_pos);
        assert(io.key_events@ =~= start + (edge(was_triggered_neg, is_triggered_neg, imgui_key_neg)
            + edge(was_triggered_pos, is_triggered_pos, imgui_key_pos)));
    }
}

/// Reporting the value an axis already holds changes nothing and emits no
/// transition.
pub proof fn lemma_axis_change_idempotent(state: GamepadState, axis: Axis, value: AxisValue)
    ensures
        state.with_axis(axis, value).with_axis(axis, value) == state.with_axis(axis, value),
        state.with_axis(axis, value).axis_events(axis, value) == Seq::<KeyEvent>::empty(),
{
}

/// Reporting the value a trigger already holds changes nothing and emits no
/// transition.
pub proof fn lemma_trigger_change_idempotent(
    state: GamepadState,
    button: Button,
    value: AxisValue,
)
    ensures
        state.with_trigger(button, value).with_trigger(button, value) == state.with_trigger(
            button,
            value,
        ),
        state.with_trigger(button, value).trigger_events(button, value) == Seq::<
            KeyEvent,
        >::empty(),
{
}

/// When an axis update moves a stick from its positive direction straight
/// into its negative one, exactly two transitions are emitted: the negative
/// direction's key goes down and the positive direction's key goes up.
pub proof fn lemma_axis_crossing(
    state: GamepadState,
    axis: Axis,
    value: AxisValue,
    neg: AnalogueGamepadInput,
    pos: AnalogueGamepadInput,
    key_neg: GamepadKey,
    key_pos: GamepadKey,
)
    requires
        axis_inputs(axis) == Some((neg, pos, key_neg, key_pos)),
        state.active(pos),
        state.with_axis(axis, value).active(neg),
    ensures
        state.axis_events(axis, value) == seq![
            KeyEvent { key: key_neg, down: true },
            KeyEvent { key: key_pos, down: false },
        ],
{
    assert(state.axis_events(axis, value) =~= seq![
        KeyEvent { key: key_neg, down: true },
        KeyEvent { key: key_pos, down: false },
    ]);
}

/// Emits a key-down for `key` when its direction went from inactive to
/// active, a key-up when it went the other way, and nothing otherwise.
fn emit_edge(io: &mut InputSink, was_triggered: bool, is_triggered: bool, key: GamepadKey)
    ensures
        final(io).key_events@ == old(io).key_events@ + edge(was_triggered, is_triggered, key),
        final(io).has_gamepad == old(io).has_gamepad,
{
    let ghost start = io.key_events@;
    if !was_triggered && is_triggered {
        io.add_key_event(key, true);
    } else if was_triggered && !is_triggered {
        io.add_key_event(key, false);
    }
    assert(io.key_events@ =~= start + edge(was_triggered, is_triggered, key));
}

} // verus!
