//! Keyboard input capture.
//!
//! The demo reacts to four movement keys and a quit key. Held movement keys
//! are tracked as a set of booleans; auto-repeat events never change the set
//! and never re-trigger the quit signal.

use vstd::prelude::*;

verus! {

/// A key the camera demo reacts to.
#[derive(Clone, Copy, PartialEq, Eq, Structural, Debug)]
pub enum Key {
    /// Move forward.
    W,
    /// Strafe left.
    A,
    /// Move back.
    S,
    /// Strafe right.
    D,
    /// Request shutdown.
    Escape,
    /// Any key the demo ignores.
    Other,
}

/// The set of movement keys currently held down.
#[derive(Clone, Copy, PartialEq, Eq, Structural, Debug)]
pub struct InputState {
    pub forward: bool,
    pub back: bool,
    pub strafe_left: bool,
    pub strafe_right: bool,
}

impl InputState {
    /// The state with the given key marked held; quit and unknown keys
    /// leave the set unchanged.
    pub open spec fn with_key(self, key: Key) -> InputState {
        match key {
            Key::W => InputState { forward: true, ..self },
            Key::A => InputState { strafe_left: true, ..self },
            Key::S => InputState { back: true, ..self },
            Key::D => InputState { strafe_right: true, ..self },
            Key::Escape => self,
            Key::Other => self,
        }
    }

    /// The state with the given key marked released.
    pub open spec fn without_key(self, key: Key) -> InputState {
        match key {
            Key::W => InputState { forward: false, ..self },
            Key::A => InputState { strafe_left: false, ..self },
            Key::S => InputState { back: false, ..self },
            Key::D => InputState { strafe_right: false, ..self },
            Key::Escape => self,
            Key::Other => self,
        }
    }

    /// No key held.
    pub fn new() -> (s: InputState)
        ensures
            s == (InputState {
                forward: false,
                back: false,
                strafe_left: false,
                strafe_right: false,
            }),
    {
        InputState { forward: false, back: false, strafe_left: false, strafe_right: false }
    }

    /// Key-down event. Auto-repeat events are ignored entirely; a fresh
    /// press of the quit key requests shutdown, and a fresh press of a
    /// movement key adds it to the held set.
    pub fn on_key_down(&mut self, key: Key, repeat: bool) -> (quit: bool)
        ensures
            quit == (key == Key::Escape && !repeat),
            *final(self) == if repeat { *old(self) } else { old(self).with_key(key) },
    {
        if repeat {
            return false;
        }
        match key {
            Key::W => {
                self.forward = true;
                false
            },
            Key::A => {
                self.strafe_left = true;
                false
            },
            Key::S => {
                self.back = true;
                false
            },
            Key::D => {
                self.strafe_right = true;
                false
            },
            Key::Escape => true,
            Key::Other => false,
        }
    }

    /// Key-up event: the key leaves the held set unconditionally.
    pub fn on_key_up(&mut self, key: Key)
        ensures
            *final(self) == old(self).without_key(key),
    {
        match key {
            Key::W => self.forward = false,
            Key::A => self.strafe_left = false,
            Key::S => self.back = false,
            Key::D => self.strafe_right = false,
            Key::Escape => {},
            Key::Other => {},
        }
    }
}

/// Pressing a key that is already held adds nothing: the held set after two
/// presses of the same key equals the set after one, so any number of
/// repeated key-down events yields exactly one movement contribution.
pub proof fn lemma_key_down_idempotent(s: InputState, key: Key)
    ensures
        s.with_key(key).with_key(key) == s.with_key(key),
{
}

} // verus!
