//! Screens, the transitions they ask for, and the stack that holds them.

use vstd::prelude::*;
use crate::action::Action;
use crate::builder::BuilderError;
use crate::event::Event;
use crate::token::Token;

verus! {

/// What a screen asks of the control loop after an event.
pub enum Transition<S> {
    /// Keep the current screen in front.
    Continue,
    /// Put a new screen in front of the current one.
    Push(S),
    /// The current screen is done, and hands this value to the one beneath.
    Complete(Return),
    /// Stop the application, for the given reason.
    Exit(String),
}

/// The value that a finished screen hands to the screen beneath it.
#[derive(Debug, Clone)]
pub enum Return {
    /// Apply this action with this token.
    TokenAction(Token, Action),
    /// Nothing to hand over.
    Noop,
    /// The indices that were picked.
    Selection(Vec<usize>),
    /// A line of text that was entered.
    InputString(String),
}

/// Whether a screen is drawn in front or dimmed behind the front screen.
#[derive(Debug, Clone, Copy, PartialEq, Eq, Structural)]
pub enum RenderLayer {
    Foreground,
    Background,
}

/// How drawing a screen went.
#[derive(Debug, Clone)]
pub enum Rendering {
    Complete,
    Error(String),
}

/// Asked for by a front screen that needs the raw terminal to itself before
/// the next input is read: the cursor position to restore first.
#[derive(Debug, Clone, Copy, PartialEq, Eq, Structural)]
pub struct DeligationInfo {
    pub x: u16,
    pub y: u16,
}

/// A failure inside a screen, which ends the run.
#[derive(Debug, Clone)]
pub enum ScreenError {
    /// An edit of the command line was aimed outside its tokens.
    Builder(BuilderError),
    /// Any other failure, described.
    Message(String),
}

/// A unit of interactive behaviour. Only the front screen of the stack
/// receives events; a screen changes the stack only through the transition
/// it returns. Each kind of screen says, through the spec functions below,
/// what its methods do.
pub trait Screen: Sized {
    /// What `update` does: from the screen before, the event, the screen
    /// after, and the result. A kind of screen that does not say promises
    /// nothing.
    open spec fn update_post(
        old: Self,
        event: Event,
        new: Self,
        r: Result<Transition<Self>, ScreenError>,
    ) -> bool {
        true
    }

    /// What `process` does: from the screen before, the value handed back,
    /// the screen after, and the result. A kind of screen that does not say
    /// promises nothing.
    open spec fn process_post(old: Self, return_value: Return, new: Self, r: Result<(), ScreenError>) -> bool {
        true
    }

    /// Whether this screen needs the terminal to itself, and where the
    /// cursor goes. A kind of screen that does not say never asks.
    open spec fn spec_delegation(&self) -> Option<DeligationInfo> {
        None
    }

    /// Handles one event while this screen is in front.
    fn update(&mut self, event: Event) -> (r: Result<Transition<Self>, ScreenError>)
        ensures
            Self::update_post(*old(self), event, *final(self), r),
    ;

    /// Receives the value of the screen that was in front of this one and has
    /// completed. A value this screen cannot use is ignored.
    fn process(&mut self, return_value: Return) -> (r: Result<(), ScreenError>)
        ensures
            Self::process_post(*old(self), return_value, *final(self), r),
    ;

    /// Whether this screen needs the terminal to itself before the next input.
    fn delegation(&self) -> (r: Option<DeligationInfo>)
        ensures
            r == self.spec_delegation(),
    ;
}

/// The active screens, bottom first; the last one is in front. A flag
/// records whether a push or pop happened since the last drawing.
pub struct ScreenStack<S> {
    screens: Vec<S>,
    screens_stack_modified: bool,
}

impl<S> ScreenStack<S> {
    /// The screens, bottom first.
    pub closed spec fn spec_screens(&self) -> Seq<S> {
        self.screens@
    }

    /// Whether a push or pop happened since the last drawing.
    pub closed spec fn spec_modified(&self) -> bool {
        self.screens_stack_modified
    }

    /// A stack that holds `initial_screen` alone.
    pub fn new(initial_screen: S) -> (r: Self)
        ensures
            r.spec_screens() == seq![initial_screen],
            r.spec_modified(),
    {
        ScreenStack { screens: vec![initial_screen], screens_stack_modified: true }
    }

    /// The front screen and the screens behind it, bottom first; none when
    /// the stack is empty.
    pub fn background_foreground_split(&self) -> (r: Option<(&S, &[S])>)
        ensures
            self.spec_screens().len() == 0 <==> r is None,
            r matches Some((front, behind)) ==> {
                &&& *front == self.spec_screens().last()
                &&& behind@ == self.spec_screens().drop_last()
            },
    {
        let n = self.screens.len();
        if n == 0 {
            None
        } else {
            let (behind, rest) = self.screens.as_slice().split_at(n - 1);
            let front = &rest[0];
            assert(behind@ =~= self.screens@.drop_last());
            Some((front, behind))
        }
    }

    /// The front screen, to be changed; none when the stack is empty.
    pub fn active_screen(&mut self) -> (r: Option<&mut S>)
        ensures
            old(self).spec_screens().len() == 0 <==> r is None,
            r is None ==> *final(self) == *old(self),
            r matches Some(front) ==> {
                &&& *front == old(self).spec_screens().last()
                &&& final(self).spec_screens() == old(self).spec_screens().update(
                    old(self).spec_screens().len() - 1,
                    *final(front),
                )
                &&& final(self).spec_modified() == old(self).spec_modified()
            },
    {
        let n = self.screens.len();
        if n == 0 {
            None
        } else {
            Some(&mut self.screens[n - 1])
        }
    }

    /// Puts `screen` in front.
    pub fn push_screen(&mut self, screen: S)
        ensures
            final(self).spec_screens() == old(self).spec_screens().push(screen),
            final(self).spec_modified(),
    {
        self.screens.push(screen);
        self.screens_stack_modified = true;
    }

    /// Takes the front screen away and returns it; none when the stack is empty.
    pub fn pop_screen(&mut self) -> (r: Option<S>)
        ensures
            old(self).spec_screens().len() == 0 ==> r is None && final(self).spec_screens() == old(
                self,
            ).spec_screens(),
            old(self).spec_screens().len() > 0 ==> r == Some(old(self).spec_screens().last())
                && final(self).spec_screens() == old(self).spec_screens().drop_last(),
            final(self).spec_modified(),
    {
        self.screens_stack_modified = true;
        self.screens.pop()
    }

    pub fn is_empty(&self) -> (r: bool)
        ensures
            r == (self.spec_screens().len() == 0),
    {
        self.screens.len() == 0
    }

    /// The number of screens.
    pub fn depth(&self) -> (r: usize)
        ensures
            r == self.spec_screens().len(),
    {
        self.screens.len()
    }

    pub fn modified(&self) -> (r: bool)
        ensures
            r == self.spec_modified(),
    {
        self.screens_stack_modified
    }

    /// Records that the screens were drawn.
    pub fn rendered(&mut self)
        ensures
            final(self).spec_screens() == old(self).spec_screens(),
            !final(self).spec_modified(),
    {
        self.screens_stack_modified = false;
    }
}

/// A change of the stack: a push, a pop, or a drawing.
pub ghost enum StackOp {
    Push,
    Pop,
    Render,
}

/// What an operation does to the flag: `push_screen` and `pop_screen` set
/// it, `rendered` clears it.
pub open spec fn flag_step<S>(op: StackOp, new: ScreenStack<S>) -> bool {
    match op {
        StackOp::Push => new.spec_modified(),
        StackOp::Pop => new.spec_modified(),
        StackOp::Render => !new.spec_modified(),
    }
}

/// For any interleaving of pushes, pops and drawings after `new`, the flag
/// is set exactly when no drawing has happened yet or a push or pop came
/// after the last drawing.
pub proof fn lemma_modified_flag<S>(stacks: Seq<ScreenStack<S>>, ops: Seq<StackOp>)
    requires
        stacks.len() == ops.len() + 1,
        stacks[0].spec_modified(),
        forall|k: int| 0 <= k < ops.len() ==> #[trigger] flag_step(ops[k], stacks[k + 1]),
    ensures
        stacks.last().spec_modified() <==> forall|i: int|
            0 <= i < ops.len() && ops[i] is Render ==> exists|j: int| i < j < ops.len() && !(ops[j] is Render),
{
    let n = ops.len() as int;
    if n > 0 {
        assert(flag_step(ops[n - 1], stacks[n - 1 + 1]));
        assert(stacks.last() == stacks[n - 1 + 1]);
        if ops[n - 1] is Render {
            assert(!(exists|j: int| n - 1 < j < n && !(ops[j] is Render)));
        } else {
            assert forall|i: int| 0 <= i < n && ops[i] is Render implies exists|j: int|
                i < j < n && !(ops[j] is Render) by {
                assert(i < n - 1);
                assert(!(ops[n - 1] is Render));
            }
        }
    }
}

} // verus!
