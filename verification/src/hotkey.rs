//! Key combinations: how a binding's text is read, and when it is satisfied.

use vstd::prelude::*;
use crate::held::HeldKeys;
use crate::key::{key_for_name, modifier_from_name, modifier_for_name, str_to_key, Key, Modifier};
use crate::modifiers::ModifierState;
use crate::text::{lowercased, split, split_on, texts, to_lowercase};

verus! {

/// The character that joins the tokens of a combination.
pub const TOKEN_SEPARATOR: char = '+';

/// What a binding asks for: a set of modifiers, and one key beside them.
///
/// A combination without a key is never satisfied. That is how a binding
/// whose key name is unknown, or that names modifiers only, is kept from
/// firing.
#[derive(Clone, Copy, Debug, PartialEq, Eq, Structural)]
pub struct Combination {
    pub modifiers: ModifierState,
    pub key: Option<Key>,
}

impl Combination {
    /// The combination that asks for nothing: no modifier and no key.
    pub open spec fn blank() -> Combination {
        Combination { modifiers: ModifierState::none(), key: None }
    }

    /// This combination with one more token read.
    ///
    /// The token is lower-cased. If that is the name of a modifier, the
    /// modifier joins the set. Otherwise the token names the key, replacing
    /// any key named before it; a name that is not in the table of key names
    /// leaves the combination without a key.
    pub open spec fn extended(self, token: Seq<char>) -> Combination {
        let name = lowercased(token);
        match modifier_for_name(name) {
            Some(modifier) => Combination {
                modifiers: self.modifiers.with(modifier, true),
                key: self.key,
            },
            None => Combination { modifiers: self.modifiers, key: key_for_name(lowercased(name)) },
        }
    }

    /// The combination that a list of tokens spells, read from left to
    /// right.
    pub open spec fn of_tokens(tokens: Seq<Seq<char>>) -> Combination
        decreases tokens.len(),
    {
        if tokens.len() == 0 {
            Combination::blank()
        } else {
            Combination::of_tokens(tokens.drop_last()).extended(tokens.last())
        }
    }

    /// The combination that a binding's text spells: its tokens are the
    /// pieces between the `+` signs.
    pub open spec fn of_text(text: Seq<char>) -> Combination {
        Combination::of_tokens(split_on(text, TOKEN_SEPARATOR))
    }

    /// Whether the combination holds in a state of the keyboard: the
    /// modifiers that are down are exactly those asked for, and the key
    /// asked for is down.
    pub open spec fn satisfied(self, modifiers: ModifierState, held: Set<Key>) -> bool {
        &&& modifiers == self.modifiers
        &&& self.key matches Some(key) && held.contains(key)
    }

    /// The combination that asks for nothing.
    pub fn new() -> (combination: Combination)
        ensures
            combination == Combination::blank(),
    {
        Combination { modifiers: ModifierState::new(), key: None }
    }

    /// This combination with `modifier` added to the modifiers it asks for.
    pub fn with_modifier(self, modifier: Modifier) -> (combination: Combination)
        ensures
            combination.modifiers == self.modifiers.with(modifier, true),
            combination.key == self.key,
    {
        let mut modifiers = self.modifiers;
        modifiers.set(modifier, true);
        Combination { modifiers, key: self.key }
    }

    /// This combination with its key replaced by `key`.
    pub fn with_key(self, key: Option<Key>) -> (combination: Combination)
        ensures
            combination.modifiers == self.modifiers,
            combination.key == key,
    {
        Combination { modifiers: self.modifiers, key }
    }

    /// Reads one more token into the combination.
    pub fn with_token(self, token: &str) -> (combination: Combination)
        ensures
            combination == self.extended(token@),
    {
        let name = to_lowercase(token);
        match modifier_from_name(name.as_str()) {
            Some(modifier) => self.with_modifier(modifier),
            None => self.with_key(str_to_key(name.as_str())),
        }
    }

    /// Reads the text of a binding.
    pub fn parse(text: &str) -> (combination: Combination)
        ensures
            combination == Combination::of_text(text@),
    {
        let tokens = split(text, TOKEN_SEPARATOR);
        let mut combination = Combination::new();
        let mut i: usize = 0;
        while i < tokens.len()
            invariant
                i <= tokens@.len(),
                combination == Combination::of_tokens(texts(tokens@).take(i as int)),
            decreases tokens@.len() - i,
        {
            assert(texts(tokens@).take(i + 1).drop_last() =~= texts(tokens@).take(i as int));
            combination = combination.with_token(tokens[i]);
            i += 1;
        }
        assert(texts(tokens@).take(i as int) =~= texts(tokens@));
        combination
    }

    /// Whether the combination holds, given the modifiers and the keys that
    /// are down.
    pub fn matches(&self, modifiers: &ModifierState, held: &HeldKeys) -> (holds: bool)
        ensures
            holds == self.satisfied(*modifiers, held@),
    {
        modifiers.matches(&self.modifiers) && match self.key {
            Some(key) => held.contains(&key),
            None => false,
        }
    }
}

/// Whether the binding text `hotkey_str` fires in the given state of the
/// keyboard.
///
/// The modifier test is one of equality, not of inclusion: a modifier held
/// beside those that the binding names keeps it from firing.
pub fn check_hotkey(pressed_keys: &HeldKeys, modifiers: &ModifierState, hotkey_str: &str) -> (fires: bool)
    ensures
        fires == Combination::of_text(hotkey_str@).satisfied(*modifiers, pressed_keys@),
{
    Combination::parse(hotkey_str).matches(modifiers, pressed_keys)
}

/// The modifier test is exact: a combination that holds with one set of
/// modifiers down holds with no other set, be it larger or smaller.
pub proof fn lemma_modifiers_must_match_exactly(
    combination: Combination,
    down: ModifierState,
    other: ModifierState,
    held: Set<Key>,
)
    requires
        combination.satisfied(down, held),
        other != down,
    ensures
        !combination.satisfied(other, held),
{
}

/// A combination holds only while its key is down: it has a key, the key
/// is held, and it fails as soon as the key is taken out of the held keys.
pub proof fn lemma_key_must_be_held(combination: Combination, down: ModifierState, held: Set<Key>)
    requires
        combination.satisfied(down, held),
    ensures
        combination.key is Some,
        held.contains(combination.key->0),
        !combination.satisfied(down, held.remove(combination.key->0)),
{
}

/// A combination without a key holds in no state of the keyboard.
pub proof fn lemma_keyless_never_holds(combination: Combination, down: ModifierState, held: Set<Key>)
    requires
        combination.key is None,
    ensures
        !combination.satisfied(down, held),
{
}

/// Releasing a modifier that a combination asks for makes it fail, whatever
/// else is down.
pub proof fn lemma_released_modifier_breaks_match(
    combination: Combination,
    down: ModifierState,
    released: Key,
    held: Set<Key>,
)
    requires
        released.modifier_of() matches Some(modifier) && combination.modifiers.has(modifier),
    ensures
        !combination.satisfied(down.after(released, false), held),
{
}

/// A modifier token may stand before or behind its neighbour: two tokens of
/// which at least one names a modifier can change places, and the
/// combination is the same.
pub proof fn lemma_modifier_tokens_commute(combination: Combination, a: Seq<char>, b: Seq<char>)
    ensures
        modifier_for_name(lowercased(a)) is Some || modifier_for_name(lowercased(b)) is Some
            ==> combination.extended(a).extended(b) == combination.extended(b).extended(a),
{
}

/// Whether a token names a modifier, once it is in lower case.
pub open spec fn names_modifier(token: Seq<char>) -> bool {
    modifier_for_name(lowercased(token)) is Some
}

/// The modifiers of a combination are those that any of its tokens names,
/// wherever the token stands.
pub proof fn lemma_modifiers_of_tokens(tokens: Seq<Seq<char>>, modifier: Modifier)
    ensures
        Combination::of_tokens(tokens).modifiers.has(modifier) <==> exists|i: int|
            0 <= i < tokens.len() && modifier_for_name(lowercased(#[trigger] tokens[i])) == Some(modifier),
    decreases tokens.len(),
{
    if tokens.len() > 0 {
        let front = tokens.drop_last();
        lemma_modifiers_of_tokens(front, modifier);
        let named = |t: Seq<char>| modifier_for_name(lowercased(t)) == Some(modifier);
        if exists|i: int| 0 <= i < front.len() && named(#[trigger] front[i]) {
            let i = choose|i: int| 0 <= i < front.len() && named(#[trigger] front[i]);
            assert(named(tokens[i]));
        }
        if exists|i: int| 0 <= i < tokens.len() && named(#[trigger] tokens[i]) {
            let i = choose|i: int| 0 <= i < tokens.len() && named(#[trigger] tokens[i]);
            if i < front.len() {
                assert(named(front[i]));
            }
        }
    }
}

/// Where one token of a combination names no modifier and all the others
/// do, that token names the key, wherever it stands among the others.
pub proof fn lemma_key_of_tokens(tokens: Seq<Seq<char>>, at: int)
    ensures
        (0 <= at < tokens.len() && !names_modifier(tokens[at]) && forall|i: int|
            0 <= i < tokens.len() && i != at ==> names_modifier(#[trigger] tokens[i]))
            ==> Combination::of_tokens(tokens).key == key_for_name(lowercased(lowercased(tokens[at]))),
    decreases tokens.len(),
{
    if 0 <= at < tokens.len() && !names_modifier(tokens[at]) && forall|i: int|
        0 <= i < tokens.len() && i != at ==> names_modifier(#[trigger] tokens[i]) {
        let front = tokens.drop_last();
        if at < front.len() {
            assert(names_modifier(tokens[tokens.len() - 1]));
            assert forall|i: int| 0 <= i < front.len() && i != at implies names_modifier(
                #[trigger] front[i],
            ) by {
                assert(front[i] == tokens[i]);
            }
            assert(front[at] == tokens[at]);
            lemma_key_of_tokens(front, at);
        }
    }
}

} // verus!
