//! The GUI's input sink: the key transitions handed to the GUI and its
//! "gamepad present" capability flag.
use vstd::prelude::*;

use crate::keys::GamepadKey;

verus! {

/// One digital transition: `key` went down (`down == true`) or up.
#[derive(Clone, Copy, Debug, PartialEq, Eq, Structural)]
pub struct KeyEvent {
    pub key: GamepadKey,
    pub down: bool,
}

/// What the GUI's input layer receives: key transitions, in order, and the
/// flag that tells it whether a gamepad backend is available.
#[derive(Debug)]
pub struct InputSink {
    pub key_events: Vec<KeyEvent>,
    pub has_gamepad: bool,
}

impl InputSink {
    /// A sink with no transitions and the flag unset.
    pub fn new() -> (r: InputSink)
        ensures
            r.key_events@ == Seq::<KeyEvent>::empty(),
            !r.has_gamepad,
    {
        InputSink { key_events: Vec::new(), has_gamepad: false }
    }

    /// Records one transition of `key`.
    pub fn add_key_event(&mut self, key: GamepadKey, down: bool)
        ensures
            final(self).key_events@ == old(self).key_events@.push(KeyEvent { key, down }),
            final(self).has_gamepad == old(self).has_gamepad,
    {
        self.key_events.push(KeyEvent { key, down });
    }
}

} // verus!
