use vstd::prelude::*;

verus! {

/// The physical movement keys a player controller reacts to; any
/// other key is `Unmapped` and leaves the controller untouched.
#[derive(Clone, Copy, Debug, PartialEq, Eq, Structural)]
pub enum MotionKey {
    KeyW,
    KeyA,
    KeyS,
    KeyD,
    Unmapped,
}

/// Which movement directions are currently held down.  Each key press
/// raises its direction flag and each release clears it; the camera
/// integration that consumes these flags lives with the examples.
#[derive(Clone, Copy, Debug, PartialEq, Eq, Structural)]
pub struct PlayerController {
    pub forward: bool,
    pub left: bool,
    pub right: bool,
    pub backward: bool,
}

impl Default for PlayerController {
    /// A controller with no direction held.
    fn default() -> (c: PlayerController)
        ensures
            !c.forward && !c.left && !c.right && !c.backward,
    {
        PlayerController { forward: false, left: false, right: false, backward: false }
    }
}

impl PlayerController {
    /// The controller after one key event: the flag of the key's
    /// direction takes the pressed state, everything else is kept.
    pub open spec fn spec_handle_keyboard_input(self, key: MotionKey, pressed: bool) -> PlayerController {
        match key {
            MotionKey::KeyW => PlayerController { forward: pressed, ..self },
            MotionKey::KeyA => PlayerController { left: pressed, ..self },
            MotionKey::KeyS => PlayerController { backward: pressed, ..self },
            MotionKey::KeyD => PlayerController { right: pressed, ..self },
            MotionKey::Unmapped => self,
        }
    }

    /// Record one keyboard event.
    pub fn handle_keyboard_input(&mut self, key: MotionKey, pressed: bool)
        ensures
            *final(self) == old(self).spec_handle_keyboard_input(key, pressed),
    {
        match key {
            MotionKey::KeyW => {
                self.forward = pressed;
            },
            MotionKey::KeyA => {
                self.left = pressed;
            },
            MotionKey::KeyS => {
                self.backward = pressed;
            },
            MotionKey::KeyD => {
                self.right = pressed;
            },
            MotionKey::Unmapped => {},
        }
    }
}

} // verus!
