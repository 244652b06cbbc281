use std::cell::RefCell;
use std::rc::Rc;
use std::sync::mpsc;

use cmdi::app::{App, AppError, Flow};
use cmdi::event::Event;
use cmdi::opencli::OptionElement;
use cmdi::screen::{DeligationInfo, Return, Screen, ScreenError, ScreenStack, Transition};
use cmdi::screens::{AppScreen, SelectOptionScreen};
use cmdi::action::Action;
use cmdi::token::Token;

/// A screen that follows a script and records every call made into it.
struct Probe {
    name: &'static str,
    log: Rc<RefCell<Vec<String>>>,
    script: Vec<Transition<Probe>>,
}

impl Probe {
    fn new(name: &'static str, log: &Rc<RefCell<Vec<String>>>, script: Vec<Transition<Probe>>) -> Probe {
        Probe { name, log: log.clone(), script }
    }
}

fn describe(r: &Return) -> String {
    match r {
        Return::Noop => "Noop".to_string(),
        Return::Selection(v) => format!("Selection({:?})", v),
        Return::InputString(s) => format!("InputString({})", s),
        Return::TokenAction(_, a) => format!("TokenAction({:?})", a),
    }
}

impl Screen for Probe {
    fn update(&mut self, event: Event) -> Result<Transition<Probe>, ScreenError> {
        self.log.borrow_mut().push(format!("{}.update({:?})", self.name, event));
        if self.script.is_empty() {
            Ok(Transition::Continue)
        } else {
            Ok(self.script.remove(0))
        }
    }

    fn process(&mut self, return_value: Return) -> Result<(), ScreenError> {
        self.log.borrow_mut().push(format!("{}.process({})", self.name, describe(&return_value)));
        Ok(())
    }

    fn delegation(&self) -> Option<DeligationInfo> {
        None
    }
}

fn names(app: &App<Probe>) -> Vec<&'static str> {
    let (front, behind) = app.screens().background_foreground_split().unwrap();
    behind.iter().map(|s| s.name).chain(std::iter::once(front.name)).collect()
}

#[test]
fn push_then_complete_hands_value_to_parent() {
    let log = Rc::new(RefCell::new(Vec::new()));
    let child = Probe::new("childA", &log, vec![Transition::Complete(Return::Noop)]);
    let root = Probe::new("root", &log, vec![Transition::Push(child)]);
    let mut app = App::new(root);

    let t = app.handle_event(Event::Tick).unwrap();
    assert!(matches!(app.handle_transition(t), Ok(Flow::Continue)));
    assert_eq!(names(&app), vec!["root", "childA"]);

    let t = app.handle_event(Event::Tick).unwrap();
    assert!(matches!(app.handle_transition(t), Ok(Flow::Continue)));
    assert_eq!(names(&app), vec!["root"]);

    let calls = log.borrow().clone();
    assert_eq!(calls, vec!["root.update(Tick)", "childA.update(Tick)", "root.process(Noop)"]);
}

#[test]
fn exit_event_stops_without_update() {
    let log = Rc::new(RefCell::new(Vec::new()));
    let root = Probe::new("root", &log, vec![]);
    let mut app = App::new(root);

    let t = app.handle_event(Event::Exit).unwrap();
    match app.handle_transition(t) {
        Err(AppError::Exit(reason)) => assert_eq!(reason, "Keyboard requested exit"),
        _ => panic!("the run should stop"),
    }
    assert!(log.borrow().is_empty());
    assert_eq!(app.screens().depth(), 1);
}

#[test]
fn exit_event_at_depth_pops_nothing() {
    let log = Rc::new(RefCell::new(Vec::new()));
    let child = Probe::new("child", &log, vec![]);
    let root = Probe::new("root", &log, vec![Transition::Push(child)]);
    let mut app = App::new(root);
    let t = app.handle_event(Event::Tick).unwrap();
    app.handle_transition(t).unwrap();
    log.borrow_mut().clear();

    let t = app.handle_event(Event::Exit).unwrap();
    assert!(matches!(app.handle_transition(t), Err(AppError::Exit(_))));
    assert!(log.borrow().is_empty());
    assert_eq!(names(&app), vec!["root", "child"]);
}

#[test]
fn completing_last_screen_finishes_run() {
    let log = Rc::new(RefCell::new(Vec::new()));
    let root = Probe::new("root", &log, vec![Transition::Complete(Return::Selection(vec![1]))]);
    let mut app = App::new(root);

    let t = app.handle_event(Event::Tick).unwrap();
    assert!(matches!(app.handle_transition(t), Ok(Flow::Done(None))));
    assert!(app.screens().is_empty());
    assert_eq!(log.borrow().clone(), vec!["root.update(Tick)"]);
    // With no screen left, an event finds none.
    assert!(matches!(app.handle_event(Event::Tick), Err(AppError::NoScreens)));
}

#[test]
fn screen_exit_transition_carries_reason() {
    let log = Rc::new(RefCell::new(Vec::new()));
    let root = Probe::new("root", &log, vec![Transition::Exit("done here".to_string())]);
    let mut app = App::new(root);
    let t = app.handle_event(Event::NoSelection).unwrap();
    match app.handle_transition(t) {
        Err(AppError::Exit(reason)) => assert_eq!(reason, "done here"),
        _ => panic!("the run should stop"),
    }
    assert_eq!(app.screens().depth(), 1);
}

#[test]
fn pushes_deepen_one_each_and_only_front_updates() {
    let log = Rc::new(RefCell::new(Vec::new()));
    let c = Probe::new("c", &log, vec![]);
    let b = Probe::new("b", &log, vec![Transition::Push(c)]);
    let a = Probe::new("a", &log, vec![Transition::Push(b)]);
    let mut app = App::new(a);
    for depth in 2..=3 {
        let t = app.handle_event(Event::Tick).unwrap();
        app.handle_transition(t).unwrap();
        assert_eq!(app.screens().depth(), depth);
    }
    let t = app.handle_event(Event::NoSelection).unwrap();
    app.handle_transition(t).unwrap();
    assert_eq!(
        log.borrow().clone(),
        vec!["a.update(Tick)", "b.update(Tick)", "c.update(NoSelection)"]
    );
}

#[test]
fn modified_flag_follows_push_pop_and_render() {
    let log = Rc::new(RefCell::new(Vec::new()));
    let mut stack = ScreenStack::new(Probe::new("root", &log, vec![]));
    assert!(stack.modified());
    stack.rendered();
    assert!(!stack.modified());
    stack.push_screen(Probe::new("child", &log, vec![]));
    assert!(stack.modified());
    stack.rendered();
    assert!(!stack.modified());
    assert!(stack.pop_screen().is_some());
    assert!(stack.modified());
    stack.rendered();
    assert!(!stack.modified());
}

#[test]
fn split_gives_background_in_order_and_front_last() {
    let log = Rc::new(RefCell::new(Vec::new()));
    let mut stack = ScreenStack::new(Probe::new("s0", &log, vec![]));
    stack.push_screen(Probe::new("s1", &log, vec![]));
    stack.push_screen(Probe::new("s2", &log, vec![]));
    let (front, behind) = stack.background_foreground_split().unwrap();
    assert_eq!(front.name, "s2");
    assert_eq!(behind.len(), 2);
    assert_eq!(behind[0].name, "s0");
    assert_eq!(behind[1].name, "s1");
}

#[test]
fn pop_on_empty_stack_gives_none() {
    let log = Rc::new(RefCell::new(Vec::new()));
    let mut stack = ScreenStack::new(Probe::new("s0", &log, vec![]));
    assert!(stack.pop_screen().is_some());
    assert!(stack.pop_screen().is_none());
    assert!(stack.is_empty());
    assert!(stack.background_foreground_split().is_none());
    assert!(stack.active_screen().is_none());
}

fn named_option(name: &str) -> OptionElement {
    OptionElement {
        aliases: None,
        arguments: None,
        description: None,
        group: None,
        hidden: false,
        metadata: None,
        name: name.to_string(),
        recursive: false,
        required: false,
    }
}

#[test]
fn delegated_picker_reports_through_event_channel() {
    let options = vec![named_option("-a"), named_option("-b"), named_option("-c")];
    let mut app = App::new(SelectOptionScreen::new(&options, None, &Action::InsertOptionBelow));

    // The picker is pushed, and asks for the terminal.
    let t = app.handle_event(Event::Tick).unwrap();
    app.handle_transition(t).unwrap();
    assert_eq!(app.screens().depth(), 2);
    assert_eq!(app.delegation(), Some(DeligationInfo { x: 0, y: 1 }));

    // The delegate reports its outcome through the event channel.
    let (sender, receiver) = mpsc::channel();
    sender.send(Event::Selection(vec![2])).unwrap();
    let event = receiver.recv().unwrap();
    assert!(matches!(event, Event::Selection(ref v) if v == &vec![2]));

    // The same front screen receives it, and completes with it.
    let t = app.handle_event(event).unwrap();
    assert!(matches!(t, Transition::Complete(Return::Selection(ref v)) if v == &vec![2]));
    app.handle_transition(t).unwrap();
    assert_eq!(app.screens().depth(), 1);
    assert_eq!(app.delegation(), None);

    // The picker's parent now completes with the third option.
    let t = app.handle_event(Event::Tick).unwrap();
    match t {
        Transition::Complete(Return::TokenAction(Token::OptionToken { spec, arg, .. }, action)) => {
            assert_eq!(spec.name, "-c");
            assert!(arg.is_empty());
            assert_eq!(action, Action::InsertOptionBelow);
        }
        _ => panic!("expected the option token"),
    }
}

#[test]
fn picker_completes_with_noop_on_empty_selection() {
    let options = vec![named_option("-a")];
    let mut app: App<AppScreen> = App::new(SelectOptionScreen::new(&options, None, &Action::InsertOptionBelow));
    let t = app.handle_event(Event::Tick).unwrap();
    app.handle_transition(t).unwrap();
    let t = app.handle_event(Event::Selection(vec![])).unwrap();
    assert!(matches!(t, Transition::Complete(Return::Noop)));
    app.handle_transition(t).unwrap();
    let t = app.handle_event(Event::Tick).unwrap();
    assert!(matches!(t, Transition::Complete(Return::Noop)));
}
