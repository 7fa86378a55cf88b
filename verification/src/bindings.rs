//! The configured hotkeys: which combination calls for which command.

use vstd::prelude::*;
use crate::text::str_eq;

verus! {

/// One hotkey: the token of a command, and the text of the combination that
/// calls for it.
#[derive(Debug, PartialEq, Eq)]
pub struct Binding {
    pub command: String,
    pub combination: String,
}

impl Clone for Binding {
    fn clone(&self) -> (copy: Binding)
        ensures
            copy@ == self@,
    {
        Binding { command: self.command.clone(), combination: self.combination.clone() }
    }
}

/// A binding as two texts.
pub struct BindingText {
    pub command: Seq<char>,
    pub combination: Seq<char>,
}

impl View for Binding {
    type V = BindingText;

    open spec fn view(&self) -> BindingText {
        BindingText { command: self.command@, combination: self.combination@ }
    }
}

/// The texts of a list of bindings.
pub open spec fn binding_texts(bindings: Seq<Binding>) -> Seq<BindingText> {
    bindings.map_values(|b: Binding| b@)
}

/// Where the binding of `command` stands in `entries`: the first entry with
/// that command, if there is one.
pub open spec fn index_of_command(entries: Seq<BindingText>, command: Seq<char>) -> Option<int>
    decreases entries.len(),
{
    if entries.len() == 0 {
        None
    } else {
        match index_of_command(entries.drop_last(), command) {
            Some(i) => Some(i),
            None => if entries.last().command == command {
                Some(entries.len() - 1)
            } else {
                None
            },
        }
    }
}

/// No two entries bind the same command.
pub open spec fn distinct_commands(entries: Seq<BindingText>) -> bool {
    forall|i: int, j: int|
        0 <= i < j < entries.len() ==> (#[trigger] entries[i]).command != (#[trigger] entries[j]).command
}

/// The entries after `binding` was put in: it takes the place of the entry
/// that bound its command, or comes last if no entry did.
pub open spec fn inserted(entries: Seq<BindingText>, binding: BindingText) -> Seq<BindingText> {
    match index_of_command(entries, binding.command) {
        Some(i) => entries.update(i, binding),
        None => entries.push(binding),
    }
}

/// The entries as a map from command to combination.
pub open spec fn as_map(entries: Seq<BindingText>) -> Map<Seq<char>, Seq<char>> {
    Map::new(
        |command: Seq<char>| index_of_command(entries, command) is Some,
        |command: Seq<char>| entries[index_of_command(entries, command)->0].combination,
    )
}

/// `index_of_command` finds the first entry of a command, and finds none
/// only if there is none.
pub proof fn lemma_index_of_command(entries: Seq<BindingText>, command: Seq<char>)
    ensures
        match index_of_command(entries, command) {
            Some(i) => {
                &&& 0 <= i < entries.len()
                &&& entries[i].command == command
                &&& forall|j: int| 0 <= j < i ==> (#[trigger] entries[j]).command != command
            },
            None => forall|j: int| 0 <= j < entries.len() ==> (#[trigger] entries[j]).command != command,
        },
    decreases entries.len(),
{
    if entries.len() > 0 {
        let front = entries.drop_last();
        lemma_index_of_command(front, command);
        assert forall|j: int| 0 <= j < front.len() implies front[j] == entries[j] by {}
    }
}

/// Putting a binding in keeps the commands distinct.
pub proof fn lemma_inserted_stays_distinct(entries: Seq<BindingText>, binding: BindingText)
    requires
        distinct_commands(entries),
    ensures
        distinct_commands(inserted(entries, binding)),
{
    lemma_index_of_command(entries, binding.command);
}

/// Putting a binding in is an insertion into the map from command to
/// combination: the command is bound to the new combination, and every other
/// command is bound as before.
pub proof fn lemma_inserted_as_map(entries: Seq<BindingText>, binding: BindingText)
    requires
        distinct_commands(entries),
    ensures
        as_map(inserted(entries, binding)) == as_map(entries).insert(
            binding.command,
            binding.combination,
        ),
{
    let after = inserted(entries, binding);
    let target = as_map(entries).insert(binding.command, binding.combination);
    lemma_index_of_command(entries, binding.command);
    assert forall|command: Seq<char>| #[trigger]
        as_map(after).dom().contains(command) == target.dom().contains(command) && (target.dom().contains(
            command,
        ) ==> as_map(after)[command] == target[command]) by {
        lemma_index_of_command(entries, command);
        lemma_index_of_command(after, command);
        if index_of_command(entries, command) is Some {
            let e = index_of_command(entries, command)->0;
            assert(after[e].command == command);
        }
    }
}

/// The hotkeys of a configuration, at most one for each command, in the
/// order in which their commands were first bound.
#[derive(Debug)]
pub struct Bindings {
    entries: Vec<Binding>,
}

impl Clone for Bindings {
    fn clone(&self) -> (copy: Bindings)
        ensures
            copy@ == self@,
    {
        proof {
            use_type_invariant(self);
        }
        let mut entries: Vec<Binding> = Vec::new();
        let mut i: usize = 0;
        while i < self.entries.len()
            invariant
                i <= self.entries@.len(),
                entries@.len() == i,
                forall|j: int| 0 <= j < i ==> (#[trigger] entries@[j])@ == self.entries@[j]@,
            decreases self.entries@.len() - i,
        {
            entries.push(self.entries[i].clone());
            i += 1;
        }
        assert(binding_texts(entries@) =~= binding_texts(self.entries@));
        Bindings { entries }
    }
}

impl View for Bindings {
    type V = Seq<BindingText>;

    closed spec fn view(&self) -> Seq<BindingText> {
        binding_texts(self.entries@)
    }
}

impl Bindings {
    #[verifier::type_invariant]
    spec fn one_per_command(&self) -> bool {
        distinct_commands(binding_texts(self.entries@))
    }

    /// No hotkeys.
    pub fn new() -> (bindings: Bindings)
        ensures
            bindings@ == Seq::<BindingText>::empty(),
    {
        let bindings = Bindings { entries: Vec::new() };
        bindings
    }

    /// How many hotkeys there are.
    pub fn len(&self) -> (n: usize)
        ensures
            n == self@.len(),
            distinct_commands(self@),
    {
        proof {
            use_type_invariant(self);
        }
        self.entries.len()
    }

    /// The hotkey at position `i`.
    pub fn get(&self, i: usize) -> (binding: Option<&Binding>)
        ensures
            i < self@.len() ==> binding is Some && binding->0@ == self@[i as int],
            i >= self@.len() ==> binding is None,
    {
        if i < self.entries.len() {
            Some(&self.entries[i])
        } else {
            None
        }
    }

    /// Where the hotkey of `command` stands.
    fn position(&self, command: &str) -> (at: Option<usize>)
        ensures
            match at {
                Some(i) => index_of_command(self@, command@) == Some(i as int) && i < self@.len(),
                None => index_of_command(self@, command@) is None,
            },
    {
        let mut i: usize = 0;
        while i < self.entries.len()
            invariant
                i <= self.entries@.len(),
                forall|j: int| 0 <= j < i ==> (#[trigger] self@[j]).command != command@,
            decreases self.entries@.len() - i,
        {
            if str_eq(self.entries[i].command.as_str(), command) {
                proof {
                    lemma_index_of_command(self@, command@);
                    assert(self@[i as int].command == command@);
                }
                return Some(i);
            }
            i += 1;
        }
        proof {
            lemma_index_of_command(self@, command@);
        }
        None
    }

    /// The combination bound to `command`, if one is.
    pub fn combination_of(&self, command: &str) -> (combination: Option<&String>)
        ensures
            match combination {
                Some(text) => as_map(self@).dom().contains(command@) && text@ == as_map(self@)[command@],
                None => !as_map(self@).dom().contains(command@),
            },
    {
        match self.position(command) {
            Some(i) => Some(&self.entries[i].combination),
            None => None,
        }
    }

    /// Binds `command` to `combination`. A command that was bound already
    /// keeps its place and gets the new combination; the old one is handed
    /// back.
    pub fn insert(&mut self, command: String, combination: String) -> (replaced: Option<String>)
        ensures
            final(self)@ == inserted(
                old(self)@,
                (BindingText { command: command@, combination: combination@ }),
            ),
            match index_of_command(old(self)@, command@) {
                Some(i) => replaced is Some && replaced->0@ == old(self)@[i].combination,
                None => replaced is None,
            },
            as_map(final(self)@) == as_map(old(self)@).insert(command@, combination@),
    {
        proof {
            use_type_invariant(&*self);
        }
        let at = self.position(command.as_str());
        let binding = Binding { command, combination };
        let ghost text = binding@;
        let ghost before = self@;
        proof {
            lemma_inserted_stays_distinct(before, text);
            lemma_inserted_as_map(before, text);
        }
        let mut entries: Vec<Binding> = Vec::new();
        std::mem::swap(&mut entries, &mut self.entries);
        let replaced = match at {
            Some(i) => {
                let old_entry = entries.remove(i);
                entries.insert(i, binding);
                assert(binding_texts(entries@) =~= before.update(i as int, text));
                Some(old_entry.combination)
            },
            None => {
                entries.push(binding);
                assert(binding_texts(entries@) =~= before.push(text));
                None
            },
        };
        self.entries = entries;
        replaced
    }
}

} // verus!
