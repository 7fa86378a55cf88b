//! The four modifier flags, as the last press or release of each left them.

use vstd::prelude::*;
use crate::key::{Key, Modifier};

verus! {

/// Which of the four modifiers are down.
///
/// A flag follows the most recent press or release of either physical key
/// of its modifier; presses are not counted.
#[derive(Clone, Copy, Debug, PartialEq, Eq, Structural)]
pub struct ModifierState {
    pub shift: bool,
    pub ctrl: bool,
    pub alt: bool,
    pub meta: bool,
}

impl ModifierState {
    /// The state with no modifier down.
    pub open spec fn none() -> ModifierState {
        ModifierState { shift: false, ctrl: false, alt: false, meta: false }
    }

    /// Whether the flag of `modifier` is set.
    pub open spec fn has(self, modifier: Modifier) -> bool {
        match modifier {
            Modifier::Shift => self.shift,
            Modifier::Ctrl => self.ctrl,
            Modifier::Alt => self.alt,
            Modifier::Meta => self.meta,
        }
    }

    /// This state with the flag of `modifier` set to `down` and the other
    /// three flags as they are.
    pub open spec fn with(self, modifier: Modifier, down: bool) -> ModifierState {
        match modifier {
            Modifier::Shift => ModifierState { shift: down, ..self },
            Modifier::Ctrl => ModifierState { ctrl: down, ..self },
            Modifier::Alt => ModifierState { alt: down, ..self },
            Modifier::Meta => ModifierState { meta: down, ..self },
        }
    }

    /// The state after `key` was pressed (`is_press`) or released: a
    /// modifier key moves its flag, any other key moves nothing.
    pub open spec fn after(self, key: Key, is_press: bool) -> ModifierState {
        match key.modifier_of() {
            Some(modifier) => self.with(modifier, is_press),
            None => self,
        }
    }

    /// A state with no modifier down.
    pub fn new() -> (state: ModifierState)
        ensures
            state == ModifierState::none(),
    {
        ModifierState { shift: false, ctrl: false, alt: false, meta: false }
    }

    /// Sets the flag of `modifier` to `down`.
    pub fn set(&mut self, modifier: Modifier, down: bool)
        ensures
            *final(self) == old(self).with(modifier, down),
    {
        match modifier {
            Modifier::Shift => self.shift = down,
            Modifier::Ctrl => self.ctrl = down,
            Modifier::Alt => self.alt = down,
            Modifier::Meta => self.meta = down,
        }
    }

    /// Records a press or release of `key`.
    pub fn update(&mut self, key: &Key, is_press: bool)
        ensures
            *final(self) == old(self).after(*key, is_press),
    {
        match key.modifier() {
            Some(modifier) => self.set(modifier, is_press),
            None => {},
        }
    }

    /// Whether exactly the modifiers of `required` are down: each of the
    /// four flags must agree, so a modifier too many fails as one too few
    /// does.
    pub fn matches(&self, required: &ModifierState) -> (same: bool)
        ensures
            same == (*self == *required),
            same == (forall|m: Modifier| self.has(m) == required.has(m)),
    {
        proof {
            if forall|m: Modifier| self.has(m) == required.has(m) {
                assert(self.has(Modifier::Shift) == required.has(Modifier::Shift));
                assert(self.has(Modifier::Ctrl) == required.has(Modifier::Ctrl));
                assert(self.has(Modifier::Alt) == required.has(Modifier::Alt));
                assert(self.has(Modifier::Meta) == required.has(Modifier::Meta));
            }
        }
        self.shift == required.shift && self.ctrl == required.ctrl && self.alt == required.alt
            && self.meta == required.meta
    }
}

impl Default for ModifierState {
    fn default() -> (state: ModifierState)
        ensures
            state == ModifierState::none(),
    {
        ModifierState::new()
    }
}

} // verus!
