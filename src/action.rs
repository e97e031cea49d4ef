//! The messages that travel over the action bus.

use vstd::prelude::*;

verus! {

/// An intent or event to be processed by the orchestrator and the components.
#[derive(Debug)]
pub enum Action {
    Tick,
    Render,
    Resize(u16, u16),
    Suspend,
    Resume,
    Quit,
    NextTab,
    PreviousTab,
    ToggleShowHelp,
    Error(String),
    Increment,
    Decrement,
}

impl PartialEq for Action {
    fn eq(&self, o: &Action) -> (r: bool) {
        match (self, o) {
            (Action::Tick, Action::Tick) => true,
            (Action::Render, Action::Render) => true,
            (Action::Resize(w1, h1), Action::Resize(w2, h2)) => *w1 == *w2 && *h1 == *h2,
            (Action::Suspend, Action::Suspend) => true,
            (Action::Resume, Action::Resume) => true,
            (Action::Quit, Action::Quit) => true,
            (Action::NextTab, Action::NextTab) => true,
            (Action::PreviousTab, Action::PreviousTab) => true,
            (Action::ToggleShowHelp, Action::ToggleShowHelp) => true,
            (Action::Error(a), Action::Error(b)) => String::eq(a, b),
            (Action::Increment, Action::Increment) => true,
            (Action::Decrement, Action::Decrement) => true,
            _ => false,
        }
    }
}

impl vstd::std_specs::cmp::PartialEqSpecImpl for Action {
    open spec fn obeys_eq_spec() -> bool {
        true
    }

    open spec fn eq_spec(&self, o: &Action) -> bool {
        match (*self, *o) {
            (Action::Resize(w1, h1), Action::Resize(w2, h2)) => w1 == w2 && h1 == h2,
            (Action::Error(a), Action::Error(b)) => a@ == b@,
            (Action::Error(_), _) => false,
            (_, Action::Error(_)) => false,
            (Action::Resize(_, _), _) => false,
            (_, Action::Resize(_, _)) => false,
            _ => *self == *o,
        }
    }
}

impl Eq for Action {
}

impl Action {
    /// Whether the action is one of the frequent timer actions (`Tick`,
    /// `Render`).
    pub open spec fn is_timer(self) -> bool {
        self is Tick || self is Render
    }

    /// Whether the action belongs in the debug log: every action but the
    /// frequent timer actions does.
    pub fn is_logged(&self) -> (r: bool)
        ensures
            r == !self.is_timer(),
    {
        match self {
            Action::Tick | Action::Render => false,
            _ => true,
        }
    }

    /// An equal copy of the action.
    pub fn duplicate(&self) -> (r: Action)
        ensures
            r == *self,
    {
        match self {
            Action::Tick => Action::Tick,
            Action::Render => Action::Render,
            Action::Resize(w, h) => Action::Resize(*w, *h),
            Action::Suspend => Action::Suspend,
            Action::Resume => Action::Resume,
            Action::Quit => Action::Quit,
            Action::NextTab => Action::NextTab,
            Action::PreviousTab => Action::PreviousTab,
            Action::ToggleShowHelp => Action::ToggleShowHelp,
            Action::Error(m) => Action::Error(m.clone()),
            Action::Increment => Action::Increment,
            Action::Decrement => Action::Decrement,
        }
    }
}

} // verus!
