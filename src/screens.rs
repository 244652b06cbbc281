//! The screens of the application: the builder, the option picker and its
//! fuzzy list, the argument prompt and its text input, and a screen that
//! completes at once.

use vstd::prelude::*;
use crate::action::Action;
use crate::builder::{BuilderError, Builder};
use crate::event::{Event, KeyCode};
use crate::opencli::{OptionElement, V0_1};
use crate::screen::{DeligationInfo, Return, Screen, ScreenError, Transition};
use crate::text::{join_with, joined};
use crate::token::{CommandContext, Token};
use tui_input::backend::crossterm::EventHandler;

verus! {

#[verifier::external_type_specification]
#[verifier::external_body]
pub struct ExInput(tui_input::Input);

/// The text that a text input holds.
pub uninterp spec fn input_text(input: tui_input::Input) -> Seq<char>;

/// Relies on tui_input's `Input::new`: the input holds the given text.
#[verifier::external_body]
fn input_new(value: String) -> (r: tui_input::Input)
    ensures
        input_text(r) == value@,
{
    tui_input::Input::new(value)
}

/// Relies on tui_input's `Input::value`: the text the input holds.
#[verifier::external_body]
fn input_value(input: &tui_input::Input) -> (r: String)
    ensures
        r@ == input_text(*input),
{
    input.value().to_string()
}

/// Relies on tui_input's `EventHandler::handle_event`, which edits the text
/// for editing keys and ignores the rest.
#[verifier::external_body]
fn input_handle_event(input: &mut tui_input::Input, record: &ratatui::crossterm::event::Event) {
    input.handle_event(record);
}

/// Every screen of the application.
pub enum AppScreen {
    Builder(BuilderScreen),
    SelectOption(SelectOptionScreen),
    AddArguments(AddArgumentsScreen),
    Input(InputScreen),
    FzfSelect(FzfSelectScreen),
    Noop(NoopScreen),
}

/// The reason a helper screen gives when it is asked to stop.
pub open spec fn exit_event_reason() -> Seq<char> {
    "Exit Event"@
}

fn exit_event() -> (r: Transition<AppScreen>)
    ensures
        r matches Transition::Exit(m) && m@ == exit_event_reason(),
{
    proof {
        reveal_strlit("Exit Event");
    }
    Transition::Exit(String::from_str("Exit Event"))
}

/// What `update` does to a screen of the application: what that kind of
/// screen's own `update` does.
pub open spec fn app_update_post(
    old: AppScreen,
    event: Event,
    new: AppScreen,
    r: Result<Transition<AppScreen>, ScreenError>,
) -> bool {
    match (old, new) {
        (AppScreen::Builder(a), AppScreen::Builder(b)) => BuilderScreen::update_post(a, event, b, r),
        (AppScreen::SelectOption(a), AppScreen::SelectOption(b)) => SelectOptionScreen::update_post(a, event, b, r),
        (AppScreen::AddArguments(a), AppScreen::AddArguments(b)) => AddArgumentsScreen::update_post(a, event, b, r),
        (AppScreen::Input(a), AppScreen::Input(b)) => InputScreen::update_post(a, event, b, r),
        (AppScreen::FzfSelect(a), AppScreen::FzfSelect(b)) => FzfSelectScreen::update_post(a, event, b, r),
        (AppScreen::Noop(a), AppScreen::Noop(b)) => NoopScreen::update_post(a, event, b, r),
        _ => false,
    }
}

/// What `process` does to a screen of the application: what that kind of
/// screen's own `process` does.
pub open spec fn app_process_post(
    old: AppScreen,
    return_value: Return,
    new: AppScreen,
    r: Result<(), ScreenError>,
) -> bool {
    match (old, new) {
        (AppScreen::Builder(a), AppScreen::Builder(b)) => BuilderScreen::process_post(a, return_value, b, r),
        (AppScreen::SelectOption(a), AppScreen::SelectOption(b)) => SelectOptionScreen::process_post(
            a,
            return_value,
            b,
            r,
        ),
        (AppScreen::AddArguments(a), AppScreen::AddArguments(b)) => AddArgumentsScreen::process_post(
            a,
            return_value,
            b,
            r,
        ),
        (AppScreen::Input(a), AppScreen::Input(b)) => InputScreen::process_post(a, return_value, b, r),
        (AppScreen::FzfSelect(a), AppScreen::FzfSelect(b)) => FzfSelectScreen::process_post(a, return_value, b, r),
        (AppScreen::Noop(a), AppScreen::Noop(b)) => NoopScreen::process_post(a, return_value, b, r),
        _ => false,
    }
}

impl Screen for AppScreen {
    open spec fn update_post(
        old: AppScreen,
        event: Event,
        new: AppScreen,
        r: Result<Transition<AppScreen>, ScreenError>,
    ) -> bool {
        app_update_post(old, event, new, r)
    }

    open spec fn process_post(old: AppScreen, return_value: Return, new: AppScreen, r: Result<(), ScreenError>) -> bool {
        app_process_post(old, return_value, new, r)
    }

    /// Only the fuzzy list asks for the terminal, until it has received an event.
    open spec fn spec_delegation(&self) -> Option<DeligationInfo> {
        match *self {
            AppScreen::FzfSelect(s) => if s.spec_ran() {
                None
            } else {
                Some(picker_cursor())
            },
            _ => None,
        }
    }

    fn update(&mut self, event: Event) -> (r: Result<Transition<AppScreen>, ScreenError>) {
        match self {
            AppScreen::Builder(s) => s.update(event),
            AppScreen::SelectOption(s) => s.update(event),
            AppScreen::AddArguments(s) => s.update(event),
            AppScreen::Input(s) => s.update(event),
            AppScreen::FzfSelect(s) => s.update(event),
            AppScreen::Noop(s) => s.update(event),
        }
    }

    fn process(&mut self, return_value: Return) -> (r: Result<(), ScreenError>) {
        match self {
            AppScreen::Builder(s) => s.process(return_value),
            AppScreen::SelectOption(s) => s.process(return_value),
            AppScreen::AddArguments(s) => s.process(return_value),
            AppScreen::Input(s) => s.process(return_value),
            AppScreen::FzfSelect(s) => s.process(return_value),
            AppScreen::Noop(s) => s.process(return_value),
        }
    }

    fn delegation(&self) -> (r: Option<DeligationInfo>) {
        match self {
            AppScreen::FzfSelect(s) => s.delegation(),
            _ => None,
        }
    }
}

// ---------------------------------------------------------------------------
// A screen that completes at once.

pub struct NoopScreen;

impl NoopScreen {
    pub fn new() -> (r: AppScreen)
        ensures
            r is Noop,
    {
        AppScreen::Noop(NoopScreen)
    }

    /// What `update` does, from the screen before and after.
    pub open spec fn update_post(
        old: Self,
        event: Event,
        new: Self,
        r: Result<Transition<AppScreen>, ScreenError>,
    ) -> bool {
        &&& (r matches Ok(Transition::Complete(Return::Noop)))
    }

    /// Completes with nothing, whatever the event.
    pub fn update(&mut self, event: Event) -> (r: Result<Transition<AppScreen>, ScreenError>)
        ensures
            Self::update_post(*old(self), event, *final(self), r),
    {
        Ok(Transition::Complete(Return::Noop))
    }

    /// What `process` does, from the screen before and after.
    pub open spec fn process_post(
        old: Self,
        return_value: Return,
        new: Self,
        r: Result<(), ScreenError>,
    ) -> bool {
        &&& (r is Ok)
    }

    pub fn process(&mut self, return_value: Return) -> (r: Result<(), ScreenError>)
        ensures
            Self::process_post(*old(self), return_value, *final(self), r),
    {
        Ok(())
    }
}

// ---------------------------------------------------------------------------
// A fuzzy list that an outside picker shows while it owns the terminal.

/// An entry of the fuzzy list.
#[derive(Debug, Clone)]
pub enum Item {
    Plain(String),
    CmdOption(OptionElement),
}

pub struct FzfSelectScreen {
    options: Vec<Item>,
    ran: bool,
}

/// Where the cursor goes before the picker takes the terminal.
pub open spec fn picker_cursor() -> DeligationInfo {
    DeligationInfo { x: 0, y: 1 }
}

/// The transition for what the picker reported: the picked indices, or
/// nothing when none were picked; other events keep the screen.
pub open spec fn picker_transition(event: Event) -> Option<Seq<usize>> {
    match event {
        Event::Selection(picked) => Some(picked@),
        _ => None,
    }
}

impl FzfSelectScreen {
    pub closed spec fn spec_items(&self) -> Seq<Item> {
        self.options@
    }

    /// Whether the screen has received an event since the picker was shown.
    pub closed spec fn spec_ran(&self) -> bool {
        self.ran
    }

    /// A list of plain strings.
    pub fn new_with_strings(options: &Vec<String>) -> (r: AppScreen)
        ensures
            r matches AppScreen::FzfSelect(s) && !s.spec_ran() && s.spec_items().len() == options@.len()
                && forall|i: int|
                0 <= i < options@.len() ==> (#[trigger] s.spec_items()[i]) == Item::Plain(options@[i]),
    {
        let mut items: Vec<Item> = Vec::new();
        let mut i: usize = 0;
        while i < options.len()
            invariant
                i <= options@.len(),
                items@.len() == i,
                forall|j: int| 0 <= j < i ==> (#[trigger] items@[j]) == Item::Plain(options@[j]),
            decreases options@.len() - i,
        {
            items.push(Item::Plain(options[i].clone()));
            i = i + 1;
        }
        AppScreen::FzfSelect(FzfSelectScreen { options: items, ran: false })
    }

    /// A list of options.
    pub fn new_with_options(options: &Vec<OptionElement>) -> (r: AppScreen)
        ensures
            r matches AppScreen::FzfSelect(s) && !s.spec_ran() && s.spec_items().len() == options@.len()
                && forall|i: int|
                0 <= i < options@.len() ==> ((#[trigger] s.spec_items()[i]) matches Item::CmdOption(o)
                    && cloned(options@[i], o)),
    {
        let mut items: Vec<Item> = Vec::new();
        let mut i: usize = 0;
        while i < options.len()
            invariant
                i <= options@.len(),
                items@.len() == i,
                forall|j: int|
                    0 <= j < i ==> ((#[trigger] items@[j]) matches Item::CmdOption(o) && cloned(options@[j], o)),
            decreases options@.len() - i,
        {
            items.push(Item::CmdOption(options[i].clone()));
            i = i + 1;
        }
        AppScreen::FzfSelect(FzfSelectScreen { options: items, ran: false })
    }

    /// The entries, in the order they are listed.
    pub fn items(&self) -> (r: &[Item])
        ensures
            r@ == self.spec_items(),
    {
        self.options.as_slice()
    }

    /// What `update` does, from the screen before and after.
    pub open spec fn update_post(
        old: Self,
        event: Event,
        new: Self,
        r: Result<Transition<AppScreen>, ScreenError>,
    ) -> bool {
        &&& (new.spec_ran())
        &&& (new.spec_items() == old.spec_items())
        &&& (match picker_transition(event) {
            None => r matches Ok(Transition::Continue),
            Some(picked) => if picked.len() == 0 {
                r matches Ok(Transition::Complete(Return::Noop))
            } else {
                r matches Ok(Transition::Complete(Return::Selection(v))) && v@ == picked
            }
        })
    }

    /// Completes with the picked indices, or with nothing when none were
    /// picked; keeps the screen for any other event.
    pub fn update(&mut self, event: Event) -> (r: Result<Transition<AppScreen>, ScreenError>)
        ensures
            Self::update_post(*old(self), event, *final(self), r),
    {
        self.ran = true;
        match event {
            Event::Selection(selections) => {
                if selections.len() == 0 {
                    Ok(Transition::Complete(Return::Noop))
                } else {
                    Ok(Transition::Complete(Return::Selection(selections)))
                }
            },
            _ => Ok(Transition::Continue),
        }
    }

    /// What `process` does, from the screen before and after.
    pub open spec fn process_post(
        old: Self,
        return_value: Return,
        new: Self,
        r: Result<(), ScreenError>,
    ) -> bool {
        &&& (r is Ok)
        &&& (new == old)
    }

    pub fn process(&mut self, return_value: Return) -> (r: Result<(), ScreenError>)
        ensures
            Self::process_post(*old(self), return_value, *final(self), r),
    {
        Ok(())
    }

    /// Asks for the terminal until the screen has received an event.
    pub fn delegation(&self) -> (r: Option<DeligationInfo>)
        ensures
            !self.spec_ran() ==> r == Some(picker_cursor()),
            self.spec_ran() ==> r is None,
    {
        if !self.ran {
            Some(DeligationInfo { x: 0, y: 1 })
        } else {
            None
        }
    }
}

// ---------------------------------------------------------------------------
// Picking an option to insert into the command line.

pub struct SelectOptionScreen {
    options: Vec<OptionElement>,
    ctx: Option<CommandContext>,
    action: Action,
    complete: bool,
    selection: Option<OptionElement>,
}

impl SelectOptionScreen {
    pub closed spec fn spec_options(&self) -> Seq<OptionElement> {
        self.options@
    }

    pub closed spec fn spec_ctx(&self) -> Option<CommandContext> {
        self.ctx
    }

    pub closed spec fn spec_action(&self) -> Action {
        self.action
    }

    /// Whether the picker has reported back.
    pub closed spec fn spec_complete(&self) -> bool {
        self.complete
    }

    pub closed spec fn spec_selection(&self) -> Option<OptionElement> {
        self.selection
    }

    fn build_token(&self) -> (r: Token)
        requires
            self.spec_selection() is Some,
        ensures
            r matches Token::OptionToken { ctx, spec, arg, details } && cloned(self.spec_ctx(), ctx)
                && cloned(self.spec_selection()->0, spec) && arg@.len() == 0 && details@.len() == 0,
    {
        let spec = match &self.selection {
            Some(o) => o.clone(),
            None => {
                proof {
                    assert(false);
                }
                self.options[0].clone()
            },
        };
        Token::OptionToken { ctx: self.ctx.clone(), spec, arg: Vec::new(), details: Vec::new() }
    }

    /// A screen that picks one of `options` for the command `ctx`, to be
    /// applied with `action`.
    pub fn new(options: &Vec<OptionElement>, ctx: Option<&CommandContext>, action: &Action) -> (r: AppScreen)
        ensures
            r matches AppScreen::SelectOption(s) && s.spec_options().len() == options@.len() && (forall|i: int|
                0 <= i < options@.len() ==> cloned(options@[i], #[trigger] s.spec_options()[i])) && (match ctx {
                None => s.spec_ctx() is None,
                Some(c) => s.spec_ctx() matches Some(c2) && cloned(*c, c2),
            }) && s.spec_action() == *action && !s.spec_complete() && s.spec_selection() is None,
    {
        let ctx_copy = match ctx {
            None => None,
            Some(c) => Some(c.clone()),
        };
        AppScreen::SelectOption(
            SelectOptionScreen {
                options: options.clone(),
                ctx: ctx_copy,
                action: *action,
                complete: false,
                selection: None,
            },
        )
    }

    /// What `update` does, from the screen before and after.
    pub open spec fn update_post(
        old: Self,
        event: Event,
        new: Self,
        r: Result<Transition<AppScreen>, ScreenError>,
    ) -> bool {
        &&& (new == old)
        &&& (event is Exit ==> (r matches Ok(Transition::Exit(m)) && m@ == exit_event_reason()))
        &&& (!(event is Exit) && !old.spec_complete() ==> (r matches Ok(
            Transition::Push(AppScreen::FzfSelect(f))
        ) && !f.spec_ran() && f.spec_items().len() == old.spec_options().len() && forall|i: int|
            0 <= i < old.spec_options().len() ==> ((#[trigger] f.spec_items()[i]) matches Item::CmdOption(o)
                && cloned(old.spec_options()[i], o))))
        &&& (!(event is Exit) && old.spec_complete() && old.spec_selection() is None ==> r matches Ok(
            Transition::Complete(Return::Noop)
        ))
        &&& (!(event is Exit) && old.spec_complete() && old.spec_selection() is Some ==> (r matches Ok(
            Transition::Complete(Return::TokenAction(Token::OptionToken { spec, arg, .. }, a))
        ) && a == old.spec_action() && cloned(old.spec_selection()->0, spec) && arg@.len()
            == 0))
    }

    /// Stops on `Exit`; shows the picker until it has reported; then
    /// completes with the option token, or with nothing when none was picked.
    pub fn update(&mut self, event: Event) -> (r: Result<Transition<AppScreen>, ScreenError>)
        ensures
            Self::update_post(*old(self), event, *final(self), r),
    {
        if let Event::Exit = event {
            return Ok(exit_event());
        }
        if !self.complete {
            Ok(Transition::Push(FzfSelectScreen::new_with_options(&self.options)))
        } else if self.selection.is_none() {
            Ok(Transition::Complete(Return::Noop))
        } else {
            Ok(Transition::Complete(Return::TokenAction(self.build_token(), self.action)))
        }
    }

    /// What `process` does, from the screen before and after.
    pub open spec fn process_post(
        old: Self,
        return_value: Return,
        new: Self,
        r: Result<(), ScreenError>,
    ) -> bool {
        &&& (r is Ok)
        &&& (new.spec_options() == old.spec_options())
        &&& (new.spec_ctx() == old.spec_ctx())
        &&& (new.spec_action() == old.spec_action())
        &&& (match return_value {
            Return::Noop => new.spec_complete() && new.spec_selection() == old.spec_selection(),
            Return::Selection(picked) => new.spec_complete() && if picked@.len() > 0
                && picked@[0] < old.spec_options().len() {
                new.spec_selection() matches Some(o) && cloned(
                    old.spec_options()[picked@[0] as int],
                    o,
                )
            } else {
                new.spec_selection() is None
            },
            _ => new == old
        })
    }

    /// Takes what the picker reported: the first picked index selects that
    /// option, if it is one; nothing picked leaves no selection.
    pub fn process(&mut self, return_value: Return) -> (r: Result<(), ScreenError>)
        ensures
            Self::process_post(*old(self), return_value, *final(self), r),
    {
        match return_value {
            Return::Noop => {
                self.complete = true;
                Ok(())
            },
            Return::Selection(selections) => {
                self.complete = true;
                if selections.len() > 0 && selections[0] < self.options.len() {
                    self.selection = Some(self.options[selections[0]].clone());
                } else {
                    self.selection = None;
                }
                Ok(())
            },
            _ => Ok(()),
        }
    }
}

// ---------------------------------------------------------------------------
// Entering the value of an option.

pub struct AddArgumentsScreen {
    token: Token,
    action: Action,
    complete: bool,
}

impl AddArgumentsScreen {
    pub closed spec fn spec_token(&self) -> Token {
        self.token
    }

    pub closed spec fn spec_action(&self) -> Action {
        self.action
    }

    /// Whether the prompt has been shown.
    pub closed spec fn spec_complete(&self) -> bool {
        self.complete
    }

    /// A screen that asks for the value of an option token; any other token
    /// gets a screen that completes at once.
    pub fn new(token: &Token, action: &Action) -> (r: AppScreen)
        ensures
            token is OptionToken ==> (r matches AppScreen::AddArguments(s) && cloned(*token, s.spec_token())
                && s.spec_action() == *action && !s.spec_complete()),
            !(token is OptionToken) ==> r is Noop,
    {
        match token {
            Token::OptionToken { .. } => AppScreen::AddArguments(
                AddArgumentsScreen { token: token.clone(), action: *action, complete: false },
            ),
            _ => NoopScreen::new(),
        }
    }

    /// What `update` does, from the screen before and after.
    pub open spec fn update_post(
        old: Self,
        event: Event,
        new: Self,
        r: Result<Transition<AppScreen>, ScreenError>,
    ) -> bool {
        &&& (new.spec_token() == old.spec_token())
        &&& (new.spec_action() == old.spec_action())
        &&& (event is Exit ==> (r matches Ok(Transition::Exit(m)) && m@ == exit_event_reason()
            && new == old))
        &&& (!(event is Exit) && !old.spec_complete() ==> new.spec_complete() && (r matches Ok(
            Transition::Push(AppScreen::Input(i))
        ) && i.spec_text() == joined(old.spec_token().spec_args(), ""@)))
        &&& (!(event is Exit) && old.spec_complete() ==> new.spec_complete() && (r matches Ok(
            Transition::Complete(Return::TokenAction(t, a))
        ) && cloned(old.spec_token(), t) && a == old.spec_action()))
    }

    /// Stops on `Exit`; first shows a prompt holding the token's current
    /// values; then completes with the token and the action.
    pub fn update(&mut self, event: Event) -> (r: Result<Transition<AppScreen>, ScreenError>)
        ensures
            Self::update_post(*old(self), event, *final(self), r),
    {
        if let Event::Exit = event {
            return Ok(exit_event());
        }
        if !self.complete {
            self.complete = true;
            let args = self.token.args();
            proof {
                reveal_strlit("");
            }
            let initial = join_with(&args, "");
            Ok(Transition::Push(InputScreen::new(&initial)))
        } else {
            Ok(Transition::Complete(Return::TokenAction(self.token.clone(), self.action)))
        }
    }

    /// What `process` does, from the screen before and after.
    pub open spec fn process_post(
        old: Self,
        return_value: Return,
        new: Self,
        r: Result<(), ScreenError>,
    ) -> bool {
        &&& (r is Ok)
        &&& (new.spec_action() == old.spec_action())
        &&& (new.spec_complete() == old.spec_complete())
        &&& (match (return_value, old.spec_token()) {
            (Return::InputString(text), Token::OptionToken { ctx, spec, details, .. }) => {
                &&& new.spec_token() matches Token::OptionToken { ctx: c2, spec: s2, arg: a2, details: d2 }
                &&& c2 == ctx && s2 == spec && d2 == details && a2@ == seq![text]
            },
            _ => new == old
        })
    }

    /// Takes the entered text as the option's only value; anything else, or
    /// a token that is no option, changes nothing.
    pub fn process(&mut self, return_value: Return) -> (r: Result<(), ScreenError>)
        ensures
            Self::process_post(*old(self), return_value, *final(self), r),
    {
        match return_value {
            Return::InputString(input) => {
                if let Token::OptionToken { arg, .. } = &mut self.token {
                    arg.clear();
                    arg.push(input);
                }
                Ok(())
            },
            _ => Ok(()),
        }
    }
}

// ---------------------------------------------------------------------------
// A line of text input.

pub struct InputScreen {
    input: tui_input::Input,
}

impl InputScreen {
    /// The text entered so far.
    pub closed spec fn spec_text(&self) -> Seq<char> {
        input_text(self.input)
    }

    /// A prompt that starts with `initial_val`.
    pub fn new(initial_val: &String) -> (r: AppScreen)
        ensures
            r matches AppScreen::Input(s) && s.spec_text() == initial_val@,
    {
        AppScreen::Input(InputScreen { input: input_new(initial_val.clone()) })
    }

    /// The text input, to draw it.
    pub fn input(&self) -> (r: &tui_input::Input)
        ensures
            input_text(*r) == self.spec_text(),
    {
        &self.input
    }

    /// What `update` does, from the screen before and after.
    pub open spec fn update_post(
        old: Self,
        event: Event,
        new: Self,
        r: Result<Transition<AppScreen>, ScreenError>,
    ) -> bool {
        &&& (match event {
            Event::Input(raw) => match raw.key {
                Some(k) => if k.code == KeyCode::Esc {
                    r matches Ok(Transition::Complete(Return::Noop)) && new == old
                } else if k.code == KeyCode::Enter {
                    r matches Ok(Transition::Complete(Return::InputString(s))) && s@ == old.spec_text() && new == old
                } else {
                    r matches Ok(Transition::Continue)
                },
                None => r matches Ok(Transition::Continue) && new == old,
            },
            _ => r matches Ok(Transition::Continue) && new == old
        })
    }

    /// Escape completes with nothing, Enter with the text; other keys edit
    /// the text; anything else is ignored.
    pub fn update(&mut self, event: Event) -> (r: Result<Transition<AppScreen>, ScreenError>)
        ensures
            Self::update_post(*old(self), event, *final(self), r),
    {
        match event {
            Event::Input(raw) => match raw.key {
                Some(k) => match k.code {
                    KeyCode::Esc => Ok(Transition::Complete(Return::Noop)),
                    KeyCode::Enter => Ok(Transition::Complete(Return::InputString(input_value(&self.input)))),
                    _ => {
                        input_handle_event(&mut self.input, &raw.record);
                        Ok(Transition::Continue)
                    },
                },
                None => Ok(Transition::Continue),
            },
            _ => Ok(Transition::Continue),
        }
    }

    /// What `process` does, from the screen before and after.
    pub open spec fn process_post(
        old: Self,
        return_value: Return,
        new: Self,
        r: Result<(), ScreenError>,
    ) -> bool {
        &&& (r is Ok)
        &&& (new == old)
    }

    /// A prompt has no use for returned values.
    pub fn process(&mut self, return_value: Return) -> (r: Result<(), ScreenError>)
        ensures
            Self::process_post(*old(self), return_value, *final(self), r),
    {
        Ok(())
    }
}

// ---------------------------------------------------------------------------
// The builder: the command line under construction.

pub struct BuilderScreen {
    builder: Builder,
}

/// The option picker offers clones of `options`, in order.
pub open spec fn picks_from(s: SelectOptionScreen, options: Seq<OptionElement>) -> bool {
    &&& s.spec_options().len() == options.len()
    &&& forall|i: int| 0 <= i < options.len() ==> cloned(options[i], #[trigger] s.spec_options()[i])
}

/// What the builder screen does with `action` on `token`: a command or sub
/// command with options opens the option picker for inserting below; an
/// option opens the prompt for its value; anything else keeps the screen.
pub open spec fn delegated(action: Action, token: Token, t: Transition<AppScreen>) -> bool {
    match token {
        Token::CommandToken { ctx } => if action == Action::InsertOptionBelow && ctx.options is Some {
            t matches Transition::Push(AppScreen::SelectOption(s)) && picks_from(s, ctx.options->0@)
                && s.spec_ctx() is None && s.spec_action() == action && !s.spec_complete()
        } else {
            t is Continue
        },
        Token::SubCommandToken { ctx, .. } => if action == Action::InsertOptionBelow && ctx.spec.options is Some {
            t matches Transition::Push(AppScreen::SelectOption(s)) && picks_from(s, ctx.spec.options->0@)
                && (s.spec_ctx() matches Some(c) && cloned(ctx, c)) && s.spec_action() == action
                && !s.spec_complete()
        } else {
            t is Continue
        },
        Token::OptionToken { .. } => if action == Action::InsertArgument {
            t matches Transition::Push(AppScreen::AddArguments(s)) && cloned(token, s.spec_token())
                && s.spec_action() == action && !s.spec_complete()
        } else {
            t is Continue
        },
        _ => t is Continue,
    }
}

/// What a key does on the builder screen, from the screen before and after.
pub open spec fn builder_key_post(
    old: BuilderScreen,
    code: KeyCode,
    new: BuilderScreen,
    r: Result<Transition<AppScreen>, ScreenError>,
) -> bool {
    let b0 = old.spec_builder();
    let b1 = new.spec_builder();
    let kept = b1.spec_tokens() == b0.spec_tokens() && b1.spec_command() == b0.spec_command();
    match code {
        KeyCode::Esc | KeyCode::Char('q') => r matches Ok(Transition::Complete(Return::Noop)) && new == old,
        KeyCode::Up | KeyCode::Char('k') | KeyCode::Char('K') => r matches Ok(Transition::Continue) && kept
            && b1.spec_pos() == (if b0.spec_pos() == 0 {
            0
        } else {
            b0.spec_pos() - 1
        }),
        KeyCode::Down | KeyCode::Char('j') | KeyCode::Char('J') => r matches Ok(Transition::Continue) && kept
            && b1.spec_pos() == (if b0.spec_tokens().len() == 0 {
            b0.spec_pos() as int
        } else {
            vstd::math::min(b0.spec_pos() + 1, b0.spec_tokens().len() - 1)
        }),
        KeyCode::Char('h') => r matches Ok(Transition::Continue) && new == old,
        KeyCode::Char(c) => new == old && match b0.spec_selected() {
            None => r matches Ok(Transition::Continue),
            Some(tok) => {
                let acts = crate::builder::actions_for(Some(tok));
                if acts.len() > 0 && acts[0].spec_key() == c {
                    r matches Ok(t) && delegated(acts[0], tok, t)
                } else {
                    r matches Ok(Transition::Continue)
                }
            },
        },
        _ => r matches Ok(Transition::Continue) && new == old,
    }
}

impl BuilderScreen {
    pub closed spec fn spec_builder(&self) -> Builder {
        self.builder
    }

    /// A builder screen over `builder`.
    pub fn new(builder: Builder) -> (r: AppScreen)
        ensures
            r matches AppScreen::Builder(s) && s.spec_builder() == builder,
    {
        AppScreen::Builder(BuilderScreen { builder })
    }

    /// The command line, to draw it.
    pub fn builder(&self) -> (r: &Builder)
        ensures
            *r == self.spec_builder(),
    {
        &self.builder
    }

    /// A builder screen for `command_spec` that starts with the program, its
    /// first sub command, and that command's first argument set to `event`.
    pub fn demo(command_spec: V0_1) -> (r: AppScreen)
        requires
            command_spec.commands matches Some(cmds) && cmds@.len() > 0 && (cmds@[0].arguments matches Some(
                args,
            ) && args@.len() > 0),
        ensures
            r matches AppScreen::Builder(s) && {
                let toks = s.spec_builder().spec_tokens();
                &&& s.spec_builder().spec_pos() == 0
                &&& s.spec_builder().spec_command() == command_spec
                &&& toks.len() == 4
                &&& toks[0] is CommandToken
                &&& toks[1] matches Token::SubCommandToken { ctx, .. } && ctx.level == 1
                &&& toks[2] matches Token::ArgumentToken { ctx: Some(c), arg, .. } && c.level == 1 && arg@
                    == "event"@
                &&& toks[3] is PlaceholderToken
            },
    {
        let cmds = match &command_spec.commands {
            Some(cmds) => cmds,
            None => {
                proof {
                    assert(false);
                }
                return NoopScreen::new();
            },
        };
        let first_command = &cmds[0];
        let first_argument = match &first_command.arguments {
            Some(args) => args[0].clone(),
            None => {
                proof {
                    assert(false);
                }
                return NoopScreen::new();
            },
        };
        let get_command_element = first_command.clone();
        proof {
            reveal_strlit("event");
        }
        let tokens = vec![
            Token::CommandToken { ctx: command_spec.clone() },
            Token::SubCommandToken {
                ctx: CommandContext::new(1, get_command_element.clone()),
                details: Vec::new(),
            },
            Token::ArgumentToken {
                ctx: Some(CommandContext::new(1, get_command_element)),
                spec: first_argument,
                arg: String::from_str("event"),
                details: Vec::new(),
            },
        ];
        AppScreen::Builder(BuilderScreen { builder: Builder::new_demo(command_spec, tokens) })
    }

    fn delegate_action(&self, action: &Action, token: &Token) -> (r: Transition<AppScreen>)
        ensures
            delegated(*action, *token, r),
    {
        match token {
            Token::CommandToken { ctx } => match action {
                Action::InsertOptionBelow => match &ctx.options {
                    None => Transition::Continue,
                    Some(options) => Transition::Push(SelectOptionScreen::new(options, None, action)),
                },
                _ => Transition::Continue,
            },
            Token::SubCommandToken { ctx, .. } => match action {
                Action::InsertOptionBelow => match &ctx.spec.options {
                    None => Transition::Continue,
                    Some(options) => Transition::Push(SelectOptionScreen::new(options, Some(ctx), action)),
                },
                _ => Transition::Continue,
            },
            Token::OptionToken { .. } => match action {
                Action::InsertArgument => Transition::Push(AddArgumentsScreen::new(token, action)),
                _ => Transition::Continue,
            },
            _ => Transition::Continue,
        }
    }

    /// What `update` does, from the screen before and after.
    pub open spec fn update_post(
        old: Self,
        event: Event,
        new: Self,
        r: Result<Transition<AppScreen>, ScreenError>,
    ) -> bool {
        &&& (match event {
            Event::Input(raw) => match raw.key {
                Some(k) => builder_key_post(old, k.code, new, r),
                None => r matches Ok(Transition::Continue) && new == old,
            },
            _ => r matches Ok(Transition::Continue) && new == old
        })
    }

    /// Keys move the selection, finish, or start the action bound to them
    /// for the selected token; other events are ignored.
    pub fn update(&mut self, event: Event) -> (r: Result<Transition<AppScreen>, ScreenError>)
        ensures
            Self::update_post(*old(self), event, *final(self), r),
    {
        let key = match &event {
            Event::Input(raw) => match raw.key {
                Some(k) => k,
                None => {
                    return Ok(Transition::Continue);
                },
            },
            _ => {
                return Ok(Transition::Continue);
            },
        };
        match key.code {
            KeyCode::Esc | KeyCode::Char('q') => Ok(Transition::Complete(Return::Noop)),
            KeyCode::Up | KeyCode::Char('k') | KeyCode::Char('K') => {
                self.builder.selected_up();
                Ok(Transition::Continue)
            },
            KeyCode::Down | KeyCode::Char('j') | KeyCode::Char('J') => {
                self.builder.selected_down();
                Ok(Transition::Continue)
            },
            KeyCode::Char('h') => Ok(Transition::Continue),
            KeyCode::Char(key_char) => match self.builder.token_at_selected() {
                None => Ok(Transition::Continue),
                Some(token) => {
                    let actions = self.builder.available_actions();
                    match Action::keybinding_to_action(key_char, actions) {
                        Some(action) => Ok(self.delegate_action(&action, token)),
                        None => Ok(Transition::Continue),
                    }
                },
            },
            _ => Ok(Transition::Continue),
        }
    }

    /// What `process` does, from the screen before and after.
    pub open spec fn process_post(
        old: Self,
        return_value: Return,
        new: Self,
        r: Result<(), ScreenError>,
    ) -> bool {
        &&& (match return_value {
            Return::TokenAction(token, action) => {
                let b0 = old.spec_builder();
                let b1 = new.spec_builder();
                &&& b1.spec_pos() == b0.spec_pos()
                &&& b1.spec_command() == b0.spec_command()
                &&& (action == Action::InsertOptionBelow ==> match b0.spec_selected() {
                    None => r matches Err(ScreenError::Builder(_)) && b1.spec_tokens() == b0.spec_tokens(),
                    Some(Token::PlaceholderToken) => r is Ok && b1.spec_tokens() == crate::builder::conditioned(
                        b0.spec_tokens().update(b0.spec_pos() as int, token),
                    ),
                    Some(_) => r is Ok && b1.spec_tokens() == b0.spec_tokens().insert(b0.spec_pos() + 1, token),
                })
                &&& (action == Action::InsertArgument ==> match b0.spec_selected() {
                    None => r matches Err(ScreenError::Builder(_)) && b1.spec_tokens() == b0.spec_tokens(),
                    Some(_) => r is Ok && b1.spec_tokens() == crate::builder::conditioned(
                        b0.spec_tokens().update(b0.spec_pos() as int, token),
                    ),
                })
                &&& (action != Action::InsertOptionBelow && action != Action::InsertArgument ==> r is Ok
                    && b1.spec_tokens() == b0.spec_tokens())
            },
            _ => r is Ok && new == old
        })
    }

    /// Applies a token and action handed back by a child screen to the
    /// command line; other values are ignored.
    pub fn process(&mut self, return_value: Return) -> (r: Result<(), ScreenError>)
        ensures
            Self::process_post(*old(self), return_value, *final(self), r),
    {
        match return_value {
            Return::TokenAction(token, action) => match self.builder.do_token_action(token, action) {
                Ok(()) => Ok(()),
                Err(e) => Err(ScreenError::Builder(e)),
            },
            _ => Ok(()),
        }
    }
}

} // verus!
