//! The two states a physical key can be in.

use vstd::prelude::*;

verus! {

/// Whether a key is held down or not.
#[derive(Debug, PartialEq, Eq, Structural, Clone, Copy, Hash)]
pub enum ButtonState {
    Pressed,
    Released,
}

impl ButtonState {
    /// The opposite state.
    pub open spec fn inverted(self) -> ButtonState {
        match self {
            ButtonState::Pressed => ButtonState::Released,
            ButtonState::Released => ButtonState::Pressed,
        }
    }

    /// Returns the opposite state.
    pub fn invert(self) -> (r: ButtonState)
        ensures
            r == self.inverted(),
    {
        match self {
            ButtonState::Pressed => ButtonState::Released,
            ButtonState::Released => ButtonState::Pressed,
        }
    }

    /// Says whether the key is held down.
    pub fn is_pressed(&self) -> (r: bool)
        ensures
            r == (*self == ButtonState::Pressed),
    {
        matches!(self, ButtonState::Pressed)
    }

    /// Says whether the key is up.
    pub fn is_released(&self) -> (r: bool)
        ensures
            r == (*self == ButtonState::Released),
    {
        matches!(self, ButtonState::Released)
    }
}

impl Default for ButtonState {
    /// A key starts out released.
    fn default() -> (r: ButtonState)
        ensures
            r == ButtonState::Released,
    {
        ButtonState::Released
    }
}

/// Inverting twice gives the state back, and inverting always changes it.
pub proof fn lemma_invert_involution(s: ButtonState)
    ensures
        s.inverted().inverted() == s,
        s.inverted() != s,
{
}

} // verus!
