//! The decisions of the control loop: which screen an event goes to, and what
//! each transition does to the stack. The loop that draws, hands the terminal
//! over and waits for events runs around these.

use vstd::prelude::*;
use crate::event::Event;
use crate::screen::{DeligationInfo, Return, Screen, ScreenError, ScreenStack, Transition};

verus! {

/// Why a run stopped other than by completing.
#[derive(Debug, Clone)]
pub enum AppError {
    /// The stack was empty where a screen was needed.
    NoScreens,
    /// A screen or the keyboard asked to stop, for this reason.
    Exit(String),
    /// A screen failed.
    Screen(ScreenError),
}

/// Whether the run goes on after a transition.
#[derive(Debug, Clone)]
pub enum Flow {
    Continue,
    /// The last screen completed: the run is over, with an optional result.
    Done(Option<String>),
}

/// The reason given when the keyboard asks to stop.
pub open spec fn keyboard_exit_reason() -> Seq<char> {
    "Keyboard requested exit"@
}

/// The application: its stack of screens.
pub struct App<S> {
    screens: ScreenStack<S>,
}

impl<S: Screen> App<S> {
    pub closed spec fn spec_screens(&self) -> Seq<S> {
        self.screens.spec_screens()
    }

    pub closed spec fn spec_modified(&self) -> bool {
        self.screens.spec_modified()
    }

    /// What `handle_event` does: `Exit` becomes an exit transition and
    /// touches nothing; any other event goes to the front screen's `update`,
    /// whose result is returned (a failure as `AppError::Screen`) and which
    /// leaves the front screen as it says; the screens behind are untouched.
    pub open spec fn event_post(
        old: App<S>,
        event: Event,
        new: App<S>,
        r: Result<Transition<S>, AppError>,
    ) -> bool {
        if event is Exit {
            &&& r matches Ok(Transition::Exit(m)) && m@ == keyboard_exit_reason()
            &&& new == old
        } else if old.spec_screens().len() == 0 {
            &&& r matches Err(AppError::NoScreens)
            &&& new == old
        } else {
            let front = old.spec_screens().last();
            let after = new.spec_screens().last();
            &&& new.spec_screens().len() == old.spec_screens().len()
            &&& new.spec_screens().drop_last() == old.spec_screens().drop_last()
            &&& new.spec_modified() == old.spec_modified()
            &&& match r {
                Ok(t) => S::update_post(front, event, after, Ok(t)),
                Err(AppError::Screen(e)) => S::update_post(front, event, after, Err(e)),
                _ => false,
            }
        }
    }

    /// What `handle_transition` does to the stack and the run. When a screen
    /// completes over another, the one beneath gets the value through its
    /// `process`, which leaves it as it says; its failure is passed on.
    pub open spec fn transition_post(
        old: App<S>,
        t: Transition<S>,
        new: App<S>,
        r: Result<Flow, AppError>,
    ) -> bool {
        match t {
            Transition::Continue => {
                &&& r matches Ok(Flow::Continue)
                &&& new == old
            },
            Transition::Exit(m) => {
                &&& r == Err::<Flow, AppError>(AppError::Exit(m))
                &&& new == old
            },
            Transition::Push(s) => {
                &&& r matches Ok(Flow::Continue)
                &&& new.spec_screens() == old.spec_screens().push(s)
                &&& new.spec_modified()
            },
            Transition::Complete(v) => {
                let n = old.spec_screens().len();
                &&& new.spec_modified()
                &&& if n <= 1 {
                    &&& r matches Ok(Flow::Done(None))
                    &&& new.spec_screens().len() == 0
                } else {
                    let parent = old.spec_screens()[n - 2];
                    let after = new.spec_screens().last();
                    &&& new.spec_screens().len() == n - 1
                    &&& new.spec_screens().drop_last() == old.spec_screens().subrange(0, n - 2)
                    &&& match r {
                        Ok(Flow::Continue) => S::process_post(parent, v, after, Ok(())),
                        Err(AppError::Screen(e)) => S::process_post(parent, v, after, Err(e)),
                        _ => false,
                    }
                }
            },
        }
    }

    /// An application whose stack holds `initial_screen` alone.
    pub fn new(initial_screen: S) -> (r: Self)
        ensures
            r.spec_screens() == seq![initial_screen],
            r.spec_modified(),
    {
        App { screens: ScreenStack::new(initial_screen) }
    }

    /// The stack, to draw it.
    pub fn screens(&self) -> (r: &ScreenStack<S>)
        ensures
            r.spec_screens() == self.spec_screens(),
            r.spec_modified() == self.spec_modified(),
    {
        &self.screens
    }

    /// Records that the screens were drawn.
    pub fn rendered(&mut self)
        ensures
            final(self).spec_screens() == old(self).spec_screens(),
            !final(self).spec_modified(),
    {
        self.screens.rendered();
    }

    /// Whether the front screen needs the terminal to itself: what its own
    /// `delegation` says; none when the stack is empty.
    pub fn delegation(&self) -> (r: Option<DeligationInfo>)
        ensures
            self.spec_screens().len() == 0 ==> r is None,
            self.spec_screens().len() > 0 ==> r == self.spec_screens().last().spec_delegation(),
    {
        match self.screens.background_foreground_split() {
            Some((front, _)) => front.delegation(),
            None => None,
        }
    }

    /// Turns an event into a transition: `Exit` directly, anything else
    /// through the front screen's `update`.
    pub fn handle_event(&mut self, event: Event) -> (r: Result<Transition<S>, AppError>)
        ensures
            Self::event_post(*old(self), event, *final(self), r),
    {
        if let Event::Exit = event {
            proof {
                reveal_strlit("Keyboard requested exit");
            }
            return Ok(Transition::Exit(String::from_str("Keyboard requested exit")));
        }
        let ghost old_screens = self.screens.spec_screens();
        match self.screens.active_screen() {
            None => Err(AppError::NoScreens),
            Some(screen) => {
                let r = screen.update(event);
                assert(self.screens.spec_screens().drop_last() =~= old_screens.drop_last());
                match r {
                    Ok(t) => Ok(t),
                    Err(err) => Err(AppError::Screen(err)),
                }
            },
        }
    }

    /// Applies a transition to the stack. When a screen completes and
    /// another is left, that one's `process` gets the value at once.
    pub fn handle_transition(&mut self, transition: Transition<S>) -> (r: Result<Flow, AppError>)
        ensures
            Self::transition_post(*old(self), transition, *final(self), r),
    {
        match transition {
            Transition::Exit(msg) => Err(AppError::Exit(msg)),
            Transition::Continue => Ok(Flow::Continue),
            Transition::Push(screen) => {
                self.screens.push_screen(screen);
                Ok(Flow::Continue)
            },
            Transition::Complete(return_value) => {
                let ghost old_screens = self.screens.spec_screens();
                let _finished = self.screens.pop_screen();
                if self.screens.is_empty() {
                    Ok(Flow::Done(None))
                } else {
                    let ghost parent = old_screens[old_screens.len() - 2];
                    let ghost v = return_value;
                    assert(self.screens.spec_screens().last() == parent);
                    match self.screens.active_screen() {
                        None => Err(AppError::NoScreens),
                        Some(screen) => {
                            let r = screen.process(return_value);
                            assert(S::process_post(parent, v, *screen, r));
                            assert(self.screens.spec_screens().drop_last() =~= old_screens.subrange(
                                0,
                                old_screens.len() - 2,
                            ));
                            assert(self.screens.spec_screens().last() == *screen);
                            match r {
                                Ok(u) => {
                                    assert(u == ());
                                    Ok(Flow::Continue)
                                },
                                Err(err) => Err(AppError::Screen(err)),
                            }
                        },
                    }
                }
            },
        }
    }
}

/// A run of pushes: each push adds exactly one screen in front and the
/// screens already there keep their places. So the screen that was in front
/// stays at its place, below the new front screen, which is the one the next
/// event goes to.
pub proof fn lemma_pushes_deepen<S: Screen>(
    apps: Seq<App<S>>,
    pushed: Seq<S>,
    results: Seq<Result<Flow, AppError>>,
)
    requires
        apps.len() == pushed.len() + 1,
        results.len() == pushed.len(),
        forall|k: int|
            0 <= k < pushed.len() ==> #[trigger] App::<S>::transition_post(
                apps[k],
                Transition::Push(pushed[k]),
                apps[k + 1],
                results[k],
            ),
    ensures
        forall|k: int|
            0 <= k < apps.len() ==> (#[trigger] apps[k]).spec_screens() == apps[0].spec_screens()
                + pushed.subrange(0, k),
        forall|k: int|
            0 <= k < apps.len() ==> (#[trigger] apps[k]).spec_screens().len() == apps[0].spec_screens().len()
                + k,
        apps[0].spec_screens().len() > 0 ==> forall|k: int|
            0 < k < apps.len() ==> {
                &&& (#[trigger] apps[k]).spec_screens()[apps[0].spec_screens().len() - 1]
                    == apps[0].spec_screens().last()
                &&& apps[0].spec_screens().len() - 1 < apps[k].spec_screens().len() - 1
            },
{
    assert forall|k: int| 0 <= k < apps.len() implies (#[trigger] apps[k]).spec_screens()
        == apps[0].spec_screens() + pushed.subrange(0, k) by {
        lemma_pushes_prefix(apps, pushed, results, k);
    }
    assert forall|k: int| 0 <= k < apps.len() implies (#[trigger] apps[k]).spec_screens().len()
        == apps[0].spec_screens().len() + k by {
        lemma_pushes_prefix(apps, pushed, results, k);
    }
    if apps[0].spec_screens().len() > 0 {
        assert forall|k: int| 0 < k < apps.len() implies {
            &&& (#[trigger] apps[k]).spec_screens()[apps[0].spec_screens().len() - 1]
                == apps[0].spec_screens().last()
            &&& apps[0].spec_screens().len() - 1 < apps[k].spec_screens().len() - 1
        } by {
            lemma_pushes_prefix(apps, pushed, results, k);
        }
    }
}

proof fn lemma_pushes_prefix<S: Screen>(
    apps: Seq<App<S>>,
    pushed: Seq<S>,
    results: Seq<Result<Flow, AppError>>,
    k: int,
)
    requires
        apps.len() == pushed.len() + 1,
        results.len() == pushed.len(),
        forall|k: int|
            0 <= k < pushed.len() ==> #[trigger] App::<S>::transition_post(
                apps[k],
                Transition::Push(pushed[k]),
                apps[k + 1],
                results[k],
            ),
        0 <= k < apps.len(),
    ensures
        apps[k].spec_screens() == apps[0].spec_screens() + pushed.subrange(0, k),
    decreases k,
{
    if k == 0 {
        assert(apps[0].spec_screens() =~= apps[0].spec_screens() + pushed.subrange(0, 0));
    } else {
        lemma_pushes_prefix(apps, pushed, results, k - 1);
        let j = k - 1;
        assert(App::<S>::transition_post(apps[j], Transition::Push(pushed[j]), apps[j + 1], results[j]));
        assert(apps[k].spec_screens() =~= apps[0].spec_screens() + pushed.subrange(0, k));
    }
}

/// Once a screen has been covered by another, an event leaves it untouched:
/// only the front screen's `update` acts, and the result is what it returned.
pub proof fn lemma_covered_screen_untouched<S: Screen>(
    a0: App<S>,
    a1: App<S>,
    event: Event,
    r: Result<Transition<S>, AppError>,
    covered: int,
)
    requires
        App::<S>::event_post(a0, event, a1, r),
        0 <= covered < a0.spec_screens().len() - 1,
    ensures
        a1.spec_screens().len() == a0.spec_screens().len(),
        a1.spec_screens()[covered] == a0.spec_screens()[covered],
        !(event is Exit) ==> match r {
            Ok(t) => S::update_post(a0.spec_screens().last(), event, a1.spec_screens().last(), Ok(t)),
            Err(AppError::Screen(e)) => S::update_post(
                a0.spec_screens().last(),
                event,
                a1.spec_screens().last(),
                Err(e),
            ),
            _ => false,
        },
{
    if !(event is Exit) {
        assert(a1.spec_screens().drop_last()[covered] == a0.spec_screens().drop_last()[covered]);
    }
}

/// When a screen completes and another is left, the completed one is gone
/// and the screen now in front is the one beneath it after its `process`
/// got the value; the result is `Continue` exactly when `process` succeeded,
/// and its failure otherwise.
pub proof fn lemma_complete_processes_parent<S: Screen>(
    a0: App<S>,
    v: Return,
    a1: App<S>,
    r: Result<Flow, AppError>,
)
    requires
        App::<S>::transition_post(a0, Transition::Complete(v), a1, r),
        a0.spec_screens().len() > 1,
    ensures
        a1.spec_screens().len() == a0.spec_screens().len() - 1,
        a1.spec_screens().drop_last() == a0.spec_screens().subrange(0, a0.spec_screens().len() - 2),
        match r {
            Ok(Flow::Continue) => S::process_post(
                a0.spec_screens()[a0.spec_screens().len() - 2],
                v,
                a1.spec_screens().last(),
                Ok(()),
            ),
            Err(AppError::Screen(e)) => S::process_post(
                a0.spec_screens()[a0.spec_screens().len() - 2],
                v,
                a1.spec_screens().last(),
                Err(e),
            ),
            _ => false,
        },
{
}

/// When the last screen completes, the run ends successfully and no screen
/// is left to get the value.
pub proof fn lemma_complete_last_finishes<S: Screen>(
    a0: App<S>,
    v: Return,
    a1: App<S>,
    r: Result<Flow, AppError>,
)
    requires
        App::<S>::transition_post(a0, Transition::Complete(v), a1, r),
        a0.spec_screens().len() == 1,
    ensures
        r matches Ok(Flow::Done(None)),
        a1.spec_screens().len() == 0,
{
}

/// An `Exit` event, at any depth, ends the run with the keyboard's reason,
/// without calling the front screen and without popping anything.
pub proof fn lemma_exit_event_stops<S: Screen>(
    a0: App<S>,
    a1: App<S>,
    r1: Result<Transition<S>, AppError>,
    a2: App<S>,
    r2: Result<Flow, AppError>,
)
    requires
        App::<S>::event_post(a0, Event::Exit, a1, r1),
        r1 matches Ok(t) && App::<S>::transition_post(a1, t, a2, r2),
    ensures
        r2 matches Err(AppError::Exit(m)) && m@ == keyboard_exit_reason(),
        a2 == a0,
{
}

} // verus!
