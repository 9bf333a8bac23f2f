//! The registry of connected gamepads, which dispatches each input event to
//! the key mapper or to the analogue state of the gamepad it comes from.
use vstd::prelude::*;

use std::collections::HashMap;

use crate::analogue::{
    lemma_axis_change_idempotent, lemma_trigger_change_idempotent, AxisValue, GamepadState,
};
use crate::keys::{key_of, to_imgui_gamepad_key, Axis, Button};
use crate::sink::{InputSink, KeyEvent};

verus! {

broadcast use vstd::std_specs::hash::group_hash_axioms;

/// What happened on a gamepad.
#[derive(Clone, Copy, Debug, PartialEq, Eq, Structural)]
pub enum EventType {
    ButtonPressed(Button),
    ButtonRepeated(Button),
    ButtonReleased(Button),
    ButtonChanged(Button, AxisValue),
    AxisChanged(Axis, AxisValue),
    Connected,
    Disconnected,
    Dropped,
}

/// An input event together with the identifier of the gamepad it comes from.
#[derive(Clone, Copy, Debug, PartialEq, Eq, Structural)]
pub struct Event {
    pub id: usize,
    pub event: EventType,
}

/// The connection set after `e`: a connect puts a gamepad at rest under
/// its identifier, a disconnect removes it, an analogue change addressed
/// to a connected gamepad updates its state.
pub open spec fn next_connections(m: Map<usize, GamepadState>, e: Event) -> Map<
    usize,
    GamepadState,
> {
    match e.event {
        EventType::Connected => m.insert(e.id, GamepadState::rest()),
        EventType::Disconnected => m.remove(e.id),
        EventType::ButtonChanged(button, value) => if m.contains_key(e.id) {
            m.insert(e.id, m[e.id].with_trigger(button, value))
        } else {
            m
        },
        EventType::AxisChanged(axis, value) => if m.contains_key(e.id) {
            m.insert(e.id, m[e.id].with_axis(axis, value))
        } else {
            m
        },
        _ => m,
    }
}

/// The capability flag after `e`: set on a connect, cleared on a
/// disconnect that leaves no gamepad connected, kept otherwise.
pub open spec fn next_flag(m: Map<usize, GamepadState>, flag: bool, e: Event) -> bool {
    match e.event {
        EventType::Connected => true,
        EventType::Disconnected => if m.remove(e.id).is_empty() {
            false
        } else {
            flag
        },
        _ => flag,
    }
}

/// The key transitions that `e` emits.
pub open spec fn emitted(m: Map<usize, GamepadState>, e: Event) -> Seq<KeyEvent> {
    match e.event {
        EventType::ButtonPressed(button) => match key_of(button) {
            Some(key) => seq![KeyEvent { key, down: true }],
            None => Seq::empty(),
        },
        EventType::ButtonReleased(button) => match key_of(button) {
            Some(key) => seq![KeyEvent { key, down: false }],
            None => Seq::empty(),
        },
        EventType::ButtonChanged(button, value) => if m.contains_key(e.id) {
            m[e.id].trigger_events(button, value)
        } else {
            Seq::empty()
        },
        EventType::AxisChanged(axis, value) => if m.contains_key(e.id) {
            m[e.id].axis_events(axis, value)
        } else {
            Seq::empty()
        },
        _ => Seq::empty(),
    }
}

/// Analogue events addressed to a gamepad that is not connected, repeated
/// buttons and dropped events change nothing and emit nothing.
pub proof fn lemma_unconnected_events_inert(m: Map<usize, GamepadState>, flag: bool, e: Event)
    requires
        !m.contains_key(e.id),
        e.event is ButtonChanged || e.event is AxisChanged || e.event is ButtonRepeated
            || e.event is Dropped,
    ensures
        next_connections(m, e) == m,
        next_flag(m, flag, e) == flag,
        emitted(m, e) == Seq::<KeyEvent>::empty(),
{
}

/// Connecting a gamepad and at once disconnecting it emits nothing and
/// leaves the other connections as they were; the flag ends up set exactly
/// when some other gamepad is still connected, so with no other gamepad
/// the connection set is empty and the flag cleared.
pub proof fn lemma_connect_then_disconnect(m: Map<usize, GamepadState>, flag: bool, id: usize)
    ensures
        ({
            let connect = Event { id, event: EventType::Connected };
            let disconnect = Event { id, event: EventType::Disconnected };
            let m1 = next_connections(m, connect);
            let m2 = next_connections(m1, disconnect);
            let flag2 = next_flag(m1, next_flag(m, flag, connect), disconnect);
            &&& m2 == m.remove(id)
            &&& flag2 == !m2.is_empty()
            &&& emitted(m, connect) == Seq::<KeyEvent>::empty()
            &&& emitted(m1, disconnect) == Seq::<KeyEvent>::empty()
            &&& (forall|k: usize| m.contains_key(k) ==> k == id) ==> m2.is_empty() && !flag2
        }),
{
    let m2 = m.insert(id, GamepadState::rest()).remove(id);
    assert(m2 =~= m.remove(id));
    if forall|k: usize| m.contains_key(k) ==> k == id {
        assert(m2.dom() =~= Set::empty());
    }
}

/// Sending the same analogue event twice in a row: the second one changes
/// nothing and emits nothing.
pub proof fn lemma_repeated_analogue_event(m: Map<usize, GamepadState>, flag: bool, e: Event)
    requires
        e.event is ButtonChanged || e.event is AxisChanged,
    ensures
        next_connections(next_connections(m, e), e) == next_connections(m, e),
        next_flag(next_connections(m, e), flag, e) == flag,
        emitted(next_connections(m, e), e) == Seq::<KeyEvent>::empty(),
{
    let m1 = next_connections(m, e);
    if m.contains_key(e.id) {
        match e.event {
            EventType::ButtonChanged(button, value) => {
                lemma_trigger_change_idempotent(m[e.id], button, value);
                assert(next_connections(m1, e) =~= m1);
            },
            EventType::AxisChanged(axis, value) => {
                lemma_axis_change_idempotent(m[e.id], axis, value);
                assert(next_connections(m1, e) =~= m1);
            },
            _ => {},
        }
    }
}

/// The capability flag is set exactly when some gamepad is connected, and
/// every event keeps it so.
pub proof fn lemma_flag_tracks_connections(m: Map<usize, GamepadState>, flag: bool, e: Event)
    requires
        flag == !m.is_empty(),
    ensures
        next_flag(m, flag, e) == !next_connections(m, e).is_empty(),
{
    let m1 = next_connections(m, e);
    match e.event {
        EventType::Connected => {
            assert(m1.contains_key(e.id));
        },
        EventType::Disconnected => {
            if !m.remove(e.id).is_empty() {
                let k = choose|k: usize| m.remove(e.id).contains_key(k);
                assert(m.remove(e.id).dom().contains(k));
                assert(m.contains_key(k));
            }
        },
        _ => {
            assert(m1.dom() =~= m.dom());
        },
    }
}

/// Tracks the connected gamepads, one analogue state for each.
#[derive(Debug)]
pub struct GamepadHandler {
    connected_controllers: HashMap<usize, GamepadState>,
}

impl View for GamepadHandler {
    type V = Map<usize, GamepadState>;

    /// Each connected gamepad's identifier, mapped to its analogue state.
    closed spec fn view(&self) -> Map<usize, GamepadState> {
        self.connected_controllers@
    }
}

impl Default for GamepadHandler {
    fn default() -> (r: GamepadHandler)
        ensures
            r@.is_empty(),
    {
        GamepadHandler::new()
    }
}

impl GamepadHandler {
    /// A handler with no gamepad connected.
    pub fn new() -> (r: GamepadHandler)
        ensures
            r@.is_empty(),
    {
        let r = GamepadHandler { connected_controllers: HashMap::new() };
        assert(r@ =~= Map::empty());
        r
    }

    /// Dispatches one input event, writing the key transitions it causes
    /// and the capability flag into `io`.
    pub fn handle_event(&mut self, io: &mut InputSink, controller_event: &Event)
        ensures
            final(self)@ == next_connections(old(self)@, *controller_event),
            final(io).has_gamepad == next_flag(
                old(self)@,
                old(io).has_gamepad,
                *controller_event,
            ),
            final(io).key_events@ == old(io).key_events@ + emitted(old(self)@, *controller_event),
    {
        let id = controller_event.id;
        let ghost start = io.key_events@;
        match controller_event.event {
            EventType::ButtonPressed(button) => {
                if let Some(key) = to_imgui_gamepad_key(button) {
                    io.add_key_event(key, true);
                }
            },
            EventType::ButtonReleased(button) => {
                if let Some(key) = to_imgui_gamepad_key(button) {
                    io.add_key_event(key, false);
                }
            },
            EventType::Connected => {
                self.connected_controllers.insert(id, GamepadState::new());
                io.has_gamepad = true;
            },
            EventType::Disconnected => {
                self.connected_controllers.remove(&id);
                if self.connected_controllers.is_empty() {
                    io.has_gamepad = false;
                }
            },
            EventType::ButtonChanged(button, value) => {
                if let Some(gamepad) = self.connected_controllers.get(&id) {
                    let mut state = *gamepad;
                    state.change_analogue_button(io, button, value);
                    self.connected_controllers.insert(id, state);
                }
            },
            EventType::AxisChanged(axis, value) => {
                if let Some(gamepad) = self.connected_controllers.get(&id) {
                    let mut state = *gamepad;
                    state.change_axis(io, axis, value);
                    self.connected_controllers.insert(id, state);
                }
            },
            EventType::ButtonRepeated(_) => {},
            EventType::Dropped => {},
        }
        assert(io.key_events@ =~= start + emitted(old(self)@, *controller_event));
    }
}

} // verus!
