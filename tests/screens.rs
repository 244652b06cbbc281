use cmdi::action::{Action, KeyBinding, KeyBindingType};
use cmdi::builder::{Builder, BuilderError};
use cmdi::config::Settings;
use cmdi::event::{Event, KeyCode, KeyInput, KeyKind, RawInput};
use cmdi::opencli::{ArgumentElement, CommandElement, Info, OptionElement, V0_1};
use cmdi::screen::{Return, Screen, ScreenError, Transition};
use cmdi::screens::{AddArgumentsScreen, AppScreen, BuilderScreen, FzfSelectScreen, InputScreen, Item, NoopScreen};
use cmdi::token::{CommandContext, Token};
use ratatui::crossterm::event::{Event as TerminalEvent, KeyCode as TermKey, KeyEvent, KeyModifiers};

fn key_event(code: KeyCode, term: TermKey) -> Event {
    Event::Input(RawInput {
        key: Some(KeyInput { code, modifiers: 0, kind: KeyKind::Press }),
        record: TerminalEvent::Key(KeyEvent::new(term, KeyModifiers::NONE)),
    })
}

fn char_key(c: char) -> Event {
    key_event(KeyCode::Char(c), TermKey::Char(c))
}

fn option(name: &str, with_argument: bool) -> OptionElement {
    OptionElement {
        aliases: None,
        arguments: if with_argument { Some(vec![argument("value")]) } else { None },
        description: None,
        group: None,
        hidden: false,
        metadata: None,
        name: name.to_string(),
        recursive: false,
        required: false,
    }
}

fn argument(name: &str) -> ArgumentElement {
    ArgumentElement {
        accepted_values: None,
        arity: None,
        description: None,
        group: None,
        hidden: false,
        metadata: None,
        name: name.to_string(),
        required: true,
    }
}

fn spec() -> V0_1 {
    V0_1 {
        arguments: None,
        commands: Some(vec![CommandElement {
            aliases: None,
            arguments: Some(vec![argument("resource")]),
            commands: None,
            description: None,
            examples: None,
            exit_codes: None,
            hidden: false,
            interactive: false,
            metadata: None,
            name: "get".to_string(),
            options: Some(vec![option("-o", true)]),
        }]),
        conventions: None,
        examples: None,
        exit_codes: None,
        info: Info {
            contact: None,
            description: None,
            license: None,
            summary: None,
            title: "kubectl".to_string(),
            version: "1".to_string(),
        },
        interactive: false,
        metadata: None,
        opencli: "0.1".to_string(),
        options: Some(vec![option("--context", false), option("--kubeconfig", true)]),
    }
}

fn builder_of(screen: &AppScreen) -> &Builder {
    match screen {
        AppScreen::Builder(b) => b.builder(),
        _ => panic!("not a builder screen"),
    }
}

#[test]
fn demo_screen_starts_with_three_tokens_and_placeholder() {
    let screen = BuilderScreen::demo(spec());
    let b = builder_of(&screen);
    assert_eq!(b.tokens().len(), 4);
    assert!(matches!(b.tokens()[0], Token::CommandToken { .. }));
    assert!(matches!(&b.tokens()[1], Token::SubCommandToken { ctx, .. } if ctx.level == 1));
    assert!(matches!(&b.tokens()[2], Token::ArgumentToken { arg, .. } if arg == "event"));
    assert!(matches!(b.tokens()[3], Token::PlaceholderToken));
    assert_eq!(b.cmd_title(), "kubectl");
    assert_eq!(b.tokens()[2].display_line(), "  event");
    assert_eq!(b.tokens()[1].display_line(), "  get");
    assert_eq!(b.tokens()[0].display_line(), "kubectl");
    assert_eq!(b.tokens()[3].display_line(), "");
}

#[test]
fn builder_keys_move_selection_and_quit() {
    let mut screen = BuilderScreen::demo(spec());
    assert!(matches!(screen.update(char_key('j')), Ok(Transition::Continue)));
    assert_eq!(builder_of(&screen).pos_at_selected(), 1);
    assert!(matches!(screen.update(key_event(KeyCode::Down, TermKey::Down)), Ok(Transition::Continue)));
    assert!(matches!(screen.update(char_key('J')), Ok(Transition::Continue)));
    assert!(matches!(screen.update(char_key('j')), Ok(Transition::Continue)));
    assert_eq!(builder_of(&screen).pos_at_selected(), 3);
    assert!(matches!(screen.update(char_key('k')), Ok(Transition::Continue)));
    assert!(matches!(screen.update(key_event(KeyCode::Up, TermKey::Up)), Ok(Transition::Continue)));
    assert_eq!(builder_of(&screen).pos_at_selected(), 1);
    assert!(matches!(screen.update(char_key('h')), Ok(Transition::Continue)));
    assert!(matches!(screen.update(Event::Tick), Ok(Transition::Continue)));
    assert!(matches!(screen.update(char_key('q')), Ok(Transition::Complete(Return::Noop))));
    assert!(matches!(
        screen.update(key_event(KeyCode::Esc, TermKey::Esc)),
        Ok(Transition::Complete(Return::Noop))
    ));
}

#[test]
fn option_key_on_command_opens_picker() {
    let mut screen = BuilderScreen::demo(spec());
    // The program's token offers to insert an option below.
    assert_eq!(builder_of(&screen).available_actions(), vec![Action::InsertOptionBelow]);
    // A key bound to no offered action does nothing.
    assert!(matches!(screen.update(char_key('a')), Ok(Transition::Continue)));
    match screen.update(char_key('o')) {
        Ok(Transition::Push(AppScreen::SelectOption(_))) => {}
        _ => panic!("expected the option picker"),
    }
}

#[test]
fn returned_option_is_inserted_below() {
    let mut screen = BuilderScreen::demo(spec());
    let token = Token::OptionToken { ctx: None, spec: option("-o", true), arg: vec![], details: vec![] };
    screen.process(Return::TokenAction(token, Action::InsertOptionBelow)).unwrap();
    let b = builder_of(&screen);
    assert_eq!(b.tokens().len(), 5);
    assert!(matches!(&b.tokens()[1], Token::OptionToken { spec, .. } if spec.name == "-o"));
    assert_eq!(b.available_actions(), vec![Action::InsertOptionBelow]);
    // Other returned values are ignored.
    screen.process(Return::Noop).unwrap();
    assert_eq!(builder_of(&screen).tokens().len(), 5);
}

#[test]
fn failed_edit_is_screen_error() {
    let mut b = Builder::new(spec());
    b.select(9);
    let mut screen = BuilderScreen::new(b);
    let token = Token::PlaceholderToken;
    match screen.process(Return::TokenAction(token, Action::InsertArgument)) {
        Err(ScreenError::Builder(BuilderError::IndexOutOfBounds { index, len })) => {
            assert_eq!(index, 9);
            assert_eq!(len, 1);
        }
        _ => panic!("expected an error"),
    }
}

#[test]
fn add_arguments_prompts_then_completes() {
    let token = Token::OptionToken {
        ctx: None,
        spec: option("-o", true),
        arg: vec!["js".to_string(), "on".to_string()],
        details: vec![],
    };
    let mut screen = AddArgumentsScreen::new(&token, &Action::InsertArgument);
    match screen.update(Event::Tick) {
        Ok(Transition::Push(AppScreen::Input(input))) => assert_eq!(input.input().value(), "json"),
        _ => panic!("expected the prompt"),
    }
    screen.process(Return::InputString("yaml".to_string())).unwrap();
    match screen.update(Event::Tick) {
        Ok(Transition::Complete(Return::TokenAction(Token::OptionToken { arg, .. }, action))) => {
            assert_eq!(arg, vec!["yaml".to_string()]);
            assert_eq!(action, Action::InsertArgument);
        }
        _ => panic!("expected the token"),
    }
    assert!(matches!(screen.update(Event::Exit), Ok(Transition::Exit(reason)) if reason == "Exit Event"));
}

#[test]
fn add_arguments_for_other_tokens_is_noop() {
    let screen = AddArgumentsScreen::new(&Token::PlaceholderToken, &Action::InsertArgument);
    assert!(matches!(screen, AppScreen::Noop(_)));
    let mut noop = NoopScreen::new();
    assert!(matches!(noop.update(Event::Tick), Ok(Transition::Complete(Return::Noop))));
    assert!(noop.delegation().is_none());
}

#[test]
fn input_screen_edits_and_returns_text() {
    let mut screen = InputScreen::new(&"ab".to_string());
    assert!(matches!(screen.update(char_key('c')), Ok(Transition::Continue)));
    assert!(matches!(
        screen.update(key_event(KeyCode::Backspace, TermKey::Backspace)),
        Ok(Transition::Continue)
    ));
    assert!(matches!(screen.update(char_key('d')), Ok(Transition::Continue)));
    match screen.update(key_event(KeyCode::Enter, TermKey::Enter)) {
        Ok(Transition::Complete(Return::InputString(s))) => assert_eq!(s, "abd"),
        _ => panic!("expected the text"),
    }
    assert!(matches!(
        screen.update(key_event(KeyCode::Esc, TermKey::Esc)),
        Ok(Transition::Complete(Return::Noop))
    ));
}

#[test]
fn fzf_screen_lists_entries_and_asks_once() {
    let mut screen = FzfSelectScreen::new_with_strings(&vec!["one".to_string(), "two".to_string()]);
    match &screen {
        AppScreen::FzfSelect(f) => {
            assert_eq!(f.items().len(), 2);
            assert!(matches!(&f.items()[1], Item::Plain(s) if s == "two"));
        }
        _ => panic!(),
    }
    assert!(screen.delegation().is_some());
    assert!(matches!(screen.update(Event::Tick), Ok(Transition::Continue)));
    assert!(screen.delegation().is_none());
    assert!(matches!(screen.update(Event::NoSelection), Ok(Transition::Continue)));
}

#[test]
fn action_keys_and_ranks() {
    assert_eq!(Action::ReplaceToken.keybinding(), ('e', KeyBindingType::Modifier));
    assert_eq!(Action::InsertOptionBelow.keybinding().0, 'o');
    assert_eq!(Action::InsertArgument.rank(), 28);
    assert_eq!(Action::RemoveToken.rank(), 40);
    let all = vec![
        Action::RemoveToken,
        Action::InsertOptionBelow,
        Action::ReplaceToken,
        Action::LookupArguments,
        Action::InsertCommand,
        Action::InsertArgument,
    ];
    let mut sorted = all.clone();
    sorted.sort();
    let ranks: Vec<usize> = sorted.iter().map(|a| a.rank()).collect();
    assert_eq!(ranks, vec![10, 27, 28, 29, 30, 40]);
    assert_eq!(Action::keybinding_to_action('l', all.clone()), Some(Action::LookupArguments));
    assert_eq!(Action::keybinding_to_action('z', all), None);
    assert_eq!(Action::InsertCommand.hint_key(), "action_hints.insert_command");
}

#[test]
fn token_levels_and_args() {
    let cmd = spec().commands.unwrap()[0].clone();
    let arg_token = Token::ArgumentToken {
        ctx: None,
        spec: argument("resource"),
        arg: "pods".to_string(),
        details: vec![],
    };
    assert_eq!(arg_token.level(), 1);
    assert_eq!(arg_token.args(), vec!["pods".to_string()]);
    let sub = Token::SubCommandToken { ctx: CommandContext::new(3, cmd), details: vec![] };
    assert_eq!(sub.level(), 3);
    assert!(sub.args().is_empty());
    assert_eq!(sub.kind_name(), "SubCommandToken");
    let opt = Token::OptionToken {
        ctx: None,
        spec: option("-o", true),
        arg: vec!["a".to_string(), "b".to_string()],
        details: vec![],
    };
    assert_eq!(opt.display_line(), "  -o a,b");
    assert_eq!(Token::PlaceholderToken.level(), 0);
    assert_eq!(Settings::default(), Settings {});
}
