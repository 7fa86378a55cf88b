//! The hotkey matcher: follows the keyboard and says which commands fire.

use vstd::prelude::*;
use crate::bindings::{BindingText, Bindings};
use crate::held::HeldKeys;
use crate::hotkey::{check_hotkey, Combination};
use crate::key::Key;
use crate::modifiers::ModifierState;
use crate::text::string_texts;

verus! {

/// What the input source reports.
#[derive(Clone, Copy, Debug, PartialEq, Eq, Structural)]
pub enum KeyEvent {
    /// A key went down.
    Press(Key),
    /// A key went up.
    Release(Key),
    /// Anything else: the pointer, a button, the wheel.
    Other,
}

/// The command tokens of the bindings that are satisfied in a state of the
/// keyboard, in the order of the bindings. Each satisfied binding gives its
/// token, whatever the others do.
pub open spec fn fired(bindings: Seq<BindingText>, modifiers: ModifierState, held: Set<Key>) -> Seq<Seq<char>>
    decreases bindings.len(),
{
    if bindings.len() == 0 {
        Seq::empty()
    } else {
        let before = fired(bindings.drop_last(), modifiers, held);
        let last = bindings.last();
        if Combination::of_text(last.combination).satisfied(modifiers, held) {
            before.push(last.command)
        } else {
            before
        }
    }
}

/// A token is fired exactly if a binding of that command is satisfied, and
/// there are no more fired tokens than bindings.
pub proof fn lemma_fired_are_the_satisfied(
    bindings: Seq<BindingText>,
    modifiers: ModifierState,
    held: Set<Key>,
    command: Seq<char>,
)
    ensures
        fired(bindings, modifiers, held).len() <= bindings.len(),
        fired(bindings, modifiers, held).contains(command) <==> exists|i: int|
            0 <= i < bindings.len() && (#[trigger] bindings[i]).command == command && Combination::of_text(
                bindings[i].combination,
            ).satisfied(modifiers, held),
    decreases bindings.len(),
{
    if bindings.len() > 0 {
        let front = bindings.drop_last();
        let before = fired(front, modifiers, held);
        lemma_fired_are_the_satisfied(front, modifiers, held, command);
        let holds = |b: BindingText|
            b.command == command && Combination::of_text(b.combination).satisfied(modifiers, held);
        if exists|i: int| 0 <= i < bindings.len() && holds(#[trigger] bindings[i]) {
            let i = choose|i: int| 0 <= i < bindings.len() && holds(#[trigger] bindings[i]);
            if i < front.len() {
                assert(holds(front[i]));
                let k = choose|k: int| 0 <= k < before.len() && before[k] == command;
                assert(fired(bindings, modifiers, held)[k] == command);
            } else {
                assert(fired(bindings, modifiers, held)[before.len() as int] == command);
            }
        }
    }
}

/// The keys that are down after an event.
pub open spec fn held_after(held: Set<Key>, event: KeyEvent) -> Set<Key> {
    match event {
        KeyEvent::Press(key) => held.insert(key),
        KeyEvent::Release(key) => held.remove(key),
        KeyEvent::Other => held,
    }
}

/// The modifier flags after an event.
pub open spec fn modifiers_after(modifiers: ModifierState, event: KeyEvent) -> ModifierState {
    match event {
        KeyEvent::Press(key) => modifiers.after(key, true),
        KeyEvent::Release(key) => modifiers.after(key, false),
        KeyEvent::Other => modifiers,
    }
}

/// The command tokens that an event fires, given the state it leads to.
/// Only a press fires anything.
pub open spec fn fired_by(
    bindings: Seq<BindingText>,
    modifiers: ModifierState,
    held: Set<Key>,
    event: KeyEvent,
) -> Seq<Seq<char>> {
    match event {
        KeyEvent::Press(_) => fired(bindings, modifiers, held),
        _ => Seq::empty(),
    }
}

/// The matcher's state: the hotkeys it was made with, the keys that are
/// down, and the modifier flags.
pub struct HotkeyMatcher {
    pub bindings: Bindings,
    pub held: HeldKeys,
    pub modifiers: ModifierState,
}

impl HotkeyMatcher {
    /// A matcher for `bindings`, with no key down.
    pub fn new(bindings: Bindings) -> (matcher: HotkeyMatcher)
        ensures
            matcher.bindings@ == bindings@,
            matcher.held@ == Set::<Key>::empty(),
            matcher.modifiers == ModifierState::none(),
    {
        HotkeyMatcher { bindings, held: HeldKeys::new(), modifiers: ModifierState::new() }
    }

    /// The command tokens of the bindings that are satisfied right now.
    pub fn fired_commands(&self) -> (commands: Vec<String>)
        ensures
            string_texts(commands@) == fired(self.bindings@, self.modifiers, self.held@),
    {
        let mut commands: Vec<String> = Vec::new();
        let n = self.bindings.len();
        let mut i: usize = 0;
        while i < n
            invariant
                n == self.bindings@.len(),
                i <= n,
                string_texts(commands@) == fired(self.bindings@.take(i as int), self.modifiers, self.held@),
            decreases n - i,
        {
            assert(self.bindings@.take(i + 1).drop_last() =~= self.bindings@.take(i as int));
            match self.bindings.get(i) {
                Some(binding) => {
                    if check_hotkey(&self.held, &self.modifiers, binding.combination.as_str()) {
                        let token = binding.command.clone();
                        assert(string_texts(commands@.push(token)) =~= string_texts(commands@).push(
                            token@,
                        ));
                        commands.push(token);
                    }
                },
                None => {},
            }
            i += 1;
        }
        assert(self.bindings@.take(i as int) =~= self.bindings@);
        commands
    }

    /// Records that `key` went down, and says which commands that fires.
    pub fn press(&mut self, key: Key) -> (commands: Vec<String>)
        ensures
            final(self).bindings@ == old(self).bindings@,
            final(self).held@ == old(self).held@.insert(key),
            final(self).modifiers == old(self).modifiers.after(key, true),
            string_texts(commands@) == fired(
                final(self).bindings@,
                final(self).modifiers,
                final(self).held@,
            ),
    {
        self.held.insert(key);
        self.modifiers.update(&key, true);
        self.fired_commands()
    }

    /// Records that `key` went up. A release fires nothing.
    pub fn release(&mut self, key: Key)
        ensures
            final(self).bindings@ == old(self).bindings@,
            final(self).held@ == old(self).held@.remove(key),
            final(self).modifiers == old(self).modifiers.after(key, false),
    {
        self.held.remove(&key);
        self.modifiers.update(&key, false);
    }

    /// Takes one event from the input source: updates the keys that are
    /// down and the modifier flags, and returns the command tokens that the
    /// event fires.
    pub fn handle_event(&mut self, event: KeyEvent) -> (commands: Vec<String>)
        ensures
            final(self).bindings@ == old(self).bindings@,
            final(self).held@ == held_after(old(self).held@, event),
            final(self).modifiers == modifiers_after(old(self).modifiers, event),
            string_texts(commands@) == fired_by(
                final(self).bindings@,
                final(self).modifiers,
                final(self).held@,
                event,
            ),
    {
        match event {
            KeyEvent::Press(key) => self.press(key),
            KeyEvent::Release(key) => {
                self.release(key);
                Vec::new()
            },
            KeyEvent::Other => Vec::new(),
        }
    }
}

} // verus!
