//! The edits that can be made at the selected token, and their keys.

use vstd::prelude::*;

verus! {

/// How a key hint is shown.
#[derive(Debug, Clone, Copy, PartialEq, Eq, Structural)]
pub enum KeyBindingType {
    Exit,
    Modifier,
    Informative,
}

/// Something that a key triggers.
pub trait KeyBinding {
    /// Where its hint stands among the others: lower first.
    fn rank(&self) -> usize;

    /// The key, and how its hint is shown.
    fn keybinding(&self) -> (char, KeyBindingType);

    /// The message key of its hint's text.
    fn hint_key(&self) -> &'static str;
}

/// An edit at the selected token. The variants are declared in the order of
/// their rank, so the derived order sorts hints by rank.
#[derive(Debug, Clone, Copy, PartialEq, Eq, Structural, PartialOrd, Ord)]
pub enum Action {
    ReplaceToken,
    InsertCommand,
    InsertArgument,
    InsertOptionBelow,
    LookupArguments,
    RemoveToken,
}

impl Action {
    pub open spec fn spec_rank(self) -> usize {
        match self {
            Action::ReplaceToken => 10,
            Action::InsertOptionBelow => 29,
            Action::InsertArgument => 28,
            Action::InsertCommand => 27,
            Action::LookupArguments => 30,
            Action::RemoveToken => 40,
        }
    }

    pub open spec fn spec_key(self) -> char {
        match self {
            Action::ReplaceToken => 'e',
            Action::InsertOptionBelow => 'o',
            Action::InsertArgument => 'a',
            Action::InsertCommand => 'c',
            Action::LookupArguments => 'l',
            Action::RemoveToken => 'r',
        }
    }

    /// The first action of `actions` whose key is `keybinding`, if any.
    pub fn keybinding_to_action(keybinding: char, actions: Vec<Action>) -> (r: Option<Action>)
        ensures
            match r {
                Some(a) => exists|i: int|
                    0 <= i < actions@.len() && actions@[i] == a && a.spec_key() == keybinding
                        && forall|j: int| 0 <= j < i ==> (#[trigger] actions@[j]).spec_key() != keybinding,
                None => forall|j: int|
                    0 <= j < actions@.len() ==> (#[trigger] actions@[j]).spec_key() != keybinding,
            },
    {
        let mut i: usize = 0;
        while i < actions.len()
            invariant
                i <= actions@.len(),
                forall|j: int| 0 <= j < i ==> (#[trigger] actions@[j]).spec_key() != keybinding,
            decreases actions@.len() - i,
        {
            if actions[i].keybinding().0 == keybinding {
                return Some(actions[i]);
            }
            i = i + 1;
        }
        None
    }
}

impl KeyBinding for Action {
    fn rank(&self) -> (r: usize)
        ensures
            r == self.spec_rank(),
    {
        match self {
            Action::ReplaceToken => 10,
            Action::InsertOptionBelow => 29,
            Action::InsertArgument => 28,
            Action::InsertCommand => 27,
            Action::LookupArguments => 30,
            Action::RemoveToken => 40,
        }
    }

    fn keybinding(&self) -> (r: (char, KeyBindingType))
        ensures
            r.0 == self.spec_key(),
            r.1 == KeyBindingType::Modifier,
    {
        match self {
            Action::ReplaceToken => ('e', KeyBindingType::Modifier),
            Action::InsertOptionBelow => ('o', KeyBindingType::Modifier),
            Action::InsertArgument => ('a', KeyBindingType::Modifier),
            Action::InsertCommand => ('c', KeyBindingType::Modifier),
            Action::LookupArguments => ('l', KeyBindingType::Modifier),
            Action::RemoveToken => ('r', KeyBindingType::Modifier),
        }
    }

    fn hint_key(&self) -> &'static str {
        match self {
            Action::ReplaceToken => "action_hints.edit",
            Action::InsertOptionBelow => "action_hints.insert_option",
            Action::InsertArgument => "action_hints.insert_argument",
            Action::InsertCommand => "action_hints.insert_command",
            Action::LookupArguments => "action_hints.lookup_arguments",
            Action::RemoveToken => "action_hints.remove",
        }
    }
}

} // verus!
