//! The tokens of a command line under construction.

use vstd::prelude::*;
use crate::opencli::{ArgumentElement, CommandElement, OptionElement, V0_1};
use crate::text::{join_with, joined, repeat_text, repeated};

verus! {

/// One element of a command line being built.
#[derive(Debug, Clone)]
pub enum Token {
    /// The slot where the next token goes.
    PlaceholderToken,
    /// The program itself.
    CommandToken { ctx: V0_1 },
    /// An option, with the values given to it.
    OptionToken {
        ctx: Option<CommandContext>,
        spec: OptionElement,
        arg: Vec<String>,
        details: Vec<Detail>,
    },
    /// A sub command.
    SubCommandToken { ctx: CommandContext, details: Vec<Detail> },
    /// A positional argument, with its value.
    ArgumentToken {
        ctx: Option<CommandContext>,
        spec: ArgumentElement,
        arg: String,
        details: Vec<Detail>,
    },
}

/// Extra facts attached to a token; none are defined yet.
#[derive(Clone, Debug)]
pub struct Detail {}

/// The command that a token belongs to, and its depth in the command tree.
#[derive(Clone, Debug)]
pub struct CommandContext {
    pub level: usize,
    pub spec: CommandElement,
}

impl CommandContext {
    pub fn new(level: usize, spec: CommandElement) -> (r: Self)
        ensures
            r.level == level,
            r.spec == spec,
    {
        Self { level, spec }
    }
}

/// The depth of a token whose command may be unknown: the top level when it is.
pub open spec fn spec_opt_level(ctx: Option<CommandContext>) -> nat {
    match ctx {
        Some(c) => c.level as nat,
        None => 1,
    }
}

impl Token {
    /// The depth at which the token is shown.
    pub open spec fn spec_level(self) -> nat {
        match self {
            Token::CommandToken { .. } => 0,
            Token::SubCommandToken { ctx, .. } => ctx.level as nat,
            Token::ArgumentToken { ctx, .. } => spec_opt_level(ctx),
            Token::PlaceholderToken => 0,
            Token::OptionToken { ctx, .. } => spec_opt_level(ctx),
        }
    }

    /// The values that the token carries.
    pub open spec fn spec_args(self) -> Seq<Seq<char>> {
        match self {
            Token::OptionToken { arg, .. } => arg@.map_values(|s: String| s@),
            Token::ArgumentToken { arg, .. } => seq![arg@],
            _ => Seq::empty(),
        }
    }

    pub fn args(&self) -> (r: Vec<String>)
        ensures
            r@.map_values(|s: String| s@) == self.spec_args(),
    {
        match self {
            Token::OptionToken { arg, .. } => arg.clone(),
            Token::ArgumentToken { arg, .. } => {
                let r = vec![arg.clone()];
                assert(r@.map_values(|s: String| s@) =~= seq![arg@]);
                r
            },
            _ => {
                let r: Vec<String> = Vec::new();
                assert(r@.map_values(|s: String| s@) =~= Seq::<Seq<char>>::empty());
                r
            },
        }
    }

    pub fn level(&self) -> (r: usize)
        ensures
            r as nat == self.spec_level(),
    {
        match self {
            Token::CommandToken { .. } => 0,
            Token::SubCommandToken { ctx, .. } => ctx.level,
            Token::ArgumentToken { ctx, .. } => Self::opt_to_level(ctx),
            Token::PlaceholderToken => 0,
            Token::OptionToken { ctx, .. } => Self::opt_to_level(ctx),
        }
    }

    fn opt_to_level(ctx: &Option<CommandContext>) -> (r: usize)
        ensures
            r as nat == spec_opt_level(*ctx),
    {
        match ctx {
            Some(c) => c.level,
            None => 1,
        }
    }

    /// The name of the token's kind.
    pub fn kind_name(&self) -> (r: &'static str)
        ensures
            self is PlaceholderToken ==> r@ == "PlaceholderToken"@,
            self is CommandToken ==> r@ == "CommandToken"@,
            self is OptionToken ==> r@ == "OptionToken"@,
            self is SubCommandToken ==> r@ == "SubCommandToken"@,
            self is ArgumentToken ==> r@ == "ArgumentToken"@,
    {
        proof {
            reveal_strlit("PlaceholderToken");
            reveal_strlit("CommandToken");
            reveal_strlit("OptionToken");
            reveal_strlit("SubCommandToken");
            reveal_strlit("ArgumentToken");
        }
        match self {
            Token::PlaceholderToken => "PlaceholderToken",
            Token::CommandToken { .. } => "CommandToken",
            Token::OptionToken { .. } => "OptionToken",
            Token::SubCommandToken { .. } => "SubCommandToken",
            Token::ArgumentToken { .. } => "ArgumentToken",
        }
    }

    /// The text of the token in the command line: an option's name and its
    /// values joined by commas, a sub command's name, an argument's value,
    /// the program's title, or nothing for the placeholder.
    pub open spec fn spec_label(self) -> Seq<char> {
        match self {
            Token::OptionToken { spec, arg, .. } => spec.name@ + " "@ + joined(
                arg@.map_values(|s: String| s@),
                ","@,
            ),
            Token::SubCommandToken { ctx, .. } => ctx.spec.name@,
            Token::ArgumentToken { arg, .. } => arg@,
            Token::PlaceholderToken => Seq::empty(),
            Token::CommandToken { ctx } => ctx.info.title@,
        }
    }

    /// The token's line in the command line view: two spaces per level,
    /// then its text.
    pub fn display_line(&self) -> (r: String)
        ensures
            r@ == repeated("  "@, self.spec_level()) + self.spec_label(),
    {
        proof {
            reveal_strlit("  ");
            reveal_strlit(" ");
            reveal_strlit(",");
        }
        let mut out = repeat_text("  ", self.level());
        match self {
            Token::OptionToken { spec, arg, .. } => {
                out.append(spec.name.as_str());
                out.append(" ");
                out.append(join_with(arg, ",").as_str());
            },
            Token::SubCommandToken { ctx, .. } => out.append(ctx.spec.name.as_str()),
            Token::ArgumentToken { arg, .. } => out.append(arg.as_str()),
            Token::PlaceholderToken => {},
            Token::CommandToken { ctx } => out.append(ctx.info.title.as_str()),
        }
        proof {
            assert(out@ =~= repeated("  "@, self.spec_level()) + self.spec_label());
        }
        out
    }
}

} // verus!
