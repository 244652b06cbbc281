//! The command line under construction: a list of tokens, one of them
//! selected, that always ends in a placeholder once it has been conditioned.

use vstd::prelude::*;
use crate::action::Action;
use crate::opencli::V0_1;
use crate::token::{CommandContext, Token};

verus! {

/// An edit aimed outside the token list.
#[derive(Debug, Clone, Copy, PartialEq, Eq, Structural)]
pub enum BuilderError {
    IndexOutOfBounds { index: usize, len: usize },
}

/// The tokens followed by a placeholder, unless the last token already is one.
pub open spec fn conditioned(tokens: Seq<Token>) -> Seq<Token> {
    if tokens.len() > 0 && tokens.last() is PlaceholderToken {
        tokens
    } else {
        tokens.push(Token::PlaceholderToken)
    }
}

/// The actions offered for a selected token.
pub open spec fn actions_for(token: Option<Token>) -> Seq<Action> {
    match token {
        Some(Token::CommandToken { .. }) => seq![Action::InsertOptionBelow],
        Some(Token::OptionToken { spec, .. }) => if spec.arguments is Some {
            seq![Action::InsertArgument]
        } else {
            Seq::empty()
        },
        Some(Token::SubCommandToken { .. }) => seq![Action::InsertOptionBelow],
        _ => Seq::empty(),
    }
}

/// The context of a sub command token.
pub open spec fn sub_command_context(token: Token) -> Option<CommandContext> {
    match token {
        Token::SubCommandToken { ctx, .. } => Some(ctx),
        _ => None,
    }
}

/// Inserts `value` at `index`, or fails when `index` lies beyond the end.
pub fn try_insert<T>(vec: &mut Vec<T>, index: usize, value: T) -> (r: Result<(), BuilderError>)
    ensures
        index <= old(vec)@.len() ==> r is Ok && final(vec)@ == old(vec)@.insert(index as int, value),
        index > old(vec)@.len() ==> r == Err::<(), BuilderError>(
            BuilderError::IndexOutOfBounds { index, len: old(vec)@.len() as usize },
        ) && final(vec)@ == old(vec)@,
{
    if index <= vec.len() {
        vec.insert(index, value);
        Ok(())
    } else {
        Err(BuilderError::IndexOutOfBounds { index, len: vec.len() })
    }
}

pub struct Builder {
    pub command_spec: V0_1,
    command_tokens: Vec<Token>,
    command_selected_pos: usize,
}

impl Builder {
    pub closed spec fn spec_command(&self) -> V0_1 {
        self.command_spec
    }

    pub closed spec fn spec_tokens(&self) -> Seq<Token> {
        self.command_tokens@
    }

    /// The selected position; it may lie beyond the last token.
    pub closed spec fn spec_pos(&self) -> usize {
        self.command_selected_pos
    }

    /// The selected token, if the position holds one.
    pub open spec fn spec_selected(&self) -> Option<Token> {
        if self.spec_pos() < self.spec_tokens().len() {
            Some(self.spec_tokens()[self.spec_pos() as int])
        } else {
            None
        }
    }

    /// A builder holding a placeholder alone, selected.
    pub fn new(command_spec: V0_1) -> (r: Self)
        ensures
            r.spec_command() == command_spec,
            r.spec_tokens() == seq![Token::PlaceholderToken],
            r.spec_pos() == 0,
    {
        Builder { command_spec, command_tokens: vec![Token::PlaceholderToken], command_selected_pos: 0 }
    }

    /// A builder holding `command_tokens` and a placeholder after them, the
    /// first token selected.
    pub fn new_demo(command_spec: V0_1, command_tokens: Vec<Token>) -> (r: Self)
        ensures
            r.spec_command() == command_spec,
            r.spec_tokens() == conditioned(command_tokens@),
            r.spec_pos() == 0,
    {
        let mut rtn = Builder { command_spec, command_tokens, command_selected_pos: 0 };
        rtn.condition_tokens();
        rtn
    }

    pub fn cmd_title(&self) -> (r: &String)
        ensures
            *r == self.spec_command().info.title,
    {
        &self.command_spec.info.title
    }

    pub fn tokens(&self) -> (r: &[Token])
        ensures
            r@ == self.spec_tokens(),
    {
        self.command_tokens.as_slice()
    }

    fn condition_tokens(&mut self)
        ensures
            final(self).spec_tokens() == conditioned(old(self).spec_tokens()),
            final(self).spec_pos() == old(self).spec_pos(),
            final(self).spec_command() == old(self).spec_command(),
    {
        let n = self.command_tokens.len();
        if n > 0 {
            if let Token::PlaceholderToken = self.command_tokens[n - 1] {
                return;
            }
        }
        self.command_tokens.push(Token::PlaceholderToken);
    }

    /// The actions offered for the selected token.
    pub fn available_actions(&self) -> (r: Vec<Action>)
        ensures
            r@ == actions_for(self.spec_selected()),
    {
        match self.token_at_selected() {
            Some(Token::CommandToken { .. }) => vec![Action::InsertOptionBelow],
            Some(Token::OptionToken { spec, .. }) => {
                if spec.arguments.is_some() {
                    vec![Action::InsertArgument]
                } else {
                    Vec::new()
                }
            },
            Some(Token::SubCommandToken { .. }) => vec![Action::InsertOptionBelow],
            _ => {
                let r: Vec<Action> = Vec::new();
                assert(r@ =~= actions_for(self.spec_selected()));
                r
            },
        }
    }

    /// The context of the nearest sub command at or before the selected
    /// position (within the tokens), if there is one.
    pub fn command_context_at_selected(&self) -> (r: Option<&CommandContext>)
        ensures
            match r {
                Some(c) => exists|i: int|
                    0 <= i <= self.spec_pos() && i < self.spec_tokens().len() && sub_command_context(
                        #[trigger] self.spec_tokens()[i],
                    ) == Some(*c) && forall|j: int|
                        i < j <= self.spec_pos() && j < self.spec_tokens().len() ==> !(
                        #[trigger] self.spec_tokens()[j] is SubCommandToken),
                None => forall|j: int|
                    0 <= j <= self.spec_pos() && j < self.spec_tokens().len() ==> !(
                    #[trigger] self.spec_tokens()[j] is SubCommandToken),
            },
    {
        let n = self.command_tokens.len();
        if n == 0 {
            return None;
        }
        let mut i: usize = if self.command_selected_pos < n {
            self.command_selected_pos + 1
        } else {
            n
        };
        while i > 0
            invariant
                i <= n,
                n == self.spec_tokens().len(),
                i <= self.spec_pos() + 1,
                forall|j: int|
                    i <= j <= self.spec_pos() && j < n ==> !(
                    #[trigger] self.spec_tokens()[j] is SubCommandToken),
            decreases i,
        {
            i = i - 1;
            if let Token::SubCommandToken { ctx, .. } = &self.command_tokens[i] {
                return Some(ctx);
            }
        }
        None
    }

    pub fn pos_at_selected(&self) -> (r: usize)
        ensures
            r == self.spec_pos(),
    {
        self.command_selected_pos
    }

    /// Selects the token at `pos`, which may lie beyond the last one.
    pub fn select(&mut self, pos: usize)
        ensures
            final(self).spec_pos() == pos,
            final(self).spec_tokens() == old(self).spec_tokens(),
            final(self).spec_command() == old(self).spec_command(),
    {
        self.command_selected_pos = pos;
    }

    pub fn token_at_selected(&self) -> (r: Option<&Token>)
        ensures
            match r {
                Some(t) => self.spec_selected() == Some(*t),
                None => self.spec_selected() is None,
            },
    {
        if self.command_selected_pos < self.command_tokens.len() {
            Some(&self.command_tokens[self.command_selected_pos])
        } else {
            None
        }
    }

    /// Puts `token` in place of the selected token, then conditions the list.
    pub fn replace_at_selected(&mut self, token: Token) -> (r: Result<(), BuilderError>)
        ensures
            final(self).spec_pos() == old(self).spec_pos(),
            final(self).spec_command() == old(self).spec_command(),
            old(self).spec_pos() < old(self).spec_tokens().len() ==> r is Ok && final(self).spec_tokens()
                == conditioned(old(self).spec_tokens().update(old(self).spec_pos() as int, token)),
            old(self).spec_pos() >= old(self).spec_tokens().len() ==> r == Err::<(), BuilderError>(
                BuilderError::IndexOutOfBounds {
                    index: old(self).spec_pos(),
                    len: old(self).spec_tokens().len() as usize,
                },
            ) && final(self).spec_tokens() == old(self).spec_tokens(),
    {
        let i = self.command_selected_pos;
        if i < self.command_tokens.len() {
            self.command_tokens.set(i, token);
            self.condition_tokens();
            Ok(())
        } else {
            Err(BuilderError::IndexOutOfBounds { index: i, len: self.command_tokens.len() })
        }
    }

    /// Puts `token` below the selected token; a selected placeholder is
    /// replaced instead.
    pub fn insert_below_selected(&mut self, token: Token) -> (r: Result<(), BuilderError>)
        ensures
            final(self).spec_pos() == old(self).spec_pos(),
            final(self).spec_command() == old(self).spec_command(),
            match old(self).spec_selected() {
                None => r == Err::<(), BuilderError>(
                    BuilderError::IndexOutOfBounds {
                        index: old(self).spec_pos(),
                        len: old(self).spec_tokens().len() as usize,
                    },
                ) && final(self).spec_tokens() == old(self).spec_tokens(),
                Some(Token::PlaceholderToken) => r is Ok && final(self).spec_tokens() == conditioned(
                    old(self).spec_tokens().update(old(self).spec_pos() as int, token),
                ),
                Some(_) => r is Ok && final(self).spec_tokens() == old(self).spec_tokens().insert(
                    old(self).spec_pos() + 1,
                    token,
                ),
            },
    {
        let pos = self.command_selected_pos;
        if pos < self.command_tokens.len() {
            if let Token::PlaceholderToken = self.command_tokens[pos] {
                self.replace_at_selected(token)
            } else {
                try_insert(&mut self.command_tokens, pos + 1, token)
            }
        } else {
            Err(BuilderError::IndexOutOfBounds { index: pos, len: self.command_tokens.len() })
        }
    }

    /// Moves the selection one up, stopping at the first token.
    pub fn selected_up(&mut self)
        ensures
            final(self).spec_pos() == if old(self).spec_pos() == 0 {
                0
            } else {
                old(self).spec_pos() - 1
            },
            final(self).spec_tokens() == old(self).spec_tokens(),
            final(self).spec_command() == old(self).spec_command(),
    {
        if self.command_selected_pos > 0 {
            self.command_selected_pos = self.command_selected_pos - 1;
        }
    }

    /// Moves the selection one down, stopping at the last token.
    pub fn selected_down(&mut self)
        ensures
            old(self).spec_tokens().len() == 0 ==> final(self).spec_pos() == old(self).spec_pos(),
            old(self).spec_tokens().len() > 0 ==> final(self).spec_pos() == vstd::math::min(
                old(self).spec_pos() + 1,
                old(self).spec_tokens().len() - 1,
            ),
            final(self).spec_tokens() == old(self).spec_tokens(),
            final(self).spec_command() == old(self).spec_command(),
    {
        let n = self.command_tokens.len();
        if n == 0 {
            return;
        }
        if self.command_selected_pos < n - 1 {
            self.command_selected_pos = self.command_selected_pos + 1;
        } else {
            self.command_selected_pos = n - 1;
        }
    }

    /// Applies what a child screen returned: an option goes below the
    /// selected token, an argument value replaces it; other actions change nothing.
    pub fn do_token_action(&mut self, token: Token, action: Action) -> (r: Result<(), BuilderError>)
        ensures
            final(self).spec_pos() == old(self).spec_pos(),
            final(self).spec_command() == old(self).spec_command(),
            action == Action::InsertOptionBelow ==> match old(self).spec_selected() {
                None => r is Err && final(self).spec_tokens() == old(self).spec_tokens(),
                Some(Token::PlaceholderToken) => r is Ok && final(self).spec_tokens() == conditioned(
                    old(self).spec_tokens().update(old(self).spec_pos() as int, token),
                ),
                Some(_) => r is Ok && final(self).spec_tokens() == old(self).spec_tokens().insert(
                    old(self).spec_pos() + 1,
                    token,
                ),
            },
            action == Action::InsertArgument ==> match old(self).spec_selected() {
                None => r is Err && final(self).spec_tokens() == old(self).spec_tokens(),
                Some(_) => r is Ok && final(self).spec_tokens() == conditioned(
                    old(self).spec_tokens().update(old(self).spec_pos() as int, token),
                ),
            },
            action != Action::InsertOptionBelow && action != Action::InsertArgument ==> r is Ok
                && final(self).spec_tokens() == old(self).spec_tokens(),
    {
        match action {
            Action::InsertOptionBelow => self.insert_below_selected(token),
            Action::InsertArgument => self.replace_at_selected(token),
            _ => Ok(()),
        }
    }
}

} // verus!
