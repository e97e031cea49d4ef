//! The dashboard's tabs: a finite, cyclic enumeration with `Home` as default.

use vstd::prelude::*;

verus! {

/// A named, cyclic selection of which components are visible.
#[derive(Debug, Clone, Copy, PartialEq, Eq, Structural, Hash)]
pub enum Tab {
    Home,
    Projects,
    Deployments,
}

/// Number of tabs in the enumeration.
pub const TAB_COUNT: usize = 3;

/// Position of a tab in the enumeration order.
pub open spec fn tab_index(t: Tab) -> nat {
    match t {
        Tab::Home => 0,
        Tab::Projects => 1,
        Tab::Deployments => 2,
    }
}

/// The tab at a position of the enumeration order (taken modulo its length).
pub open spec fn tab_at(i: nat) -> Tab {
    let k = i % (TAB_COUNT as nat);
    if k == 0 {
        Tab::Home
    } else if k == 1 {
        Tab::Projects
    } else {
        Tab::Deployments
    }
}

/// The tab after `t`, wrapping from the last back to the first.
pub open spec fn next_tab(t: Tab) -> Tab {
    tab_at(tab_index(t) + 1)
}

/// The tab before `t`, wrapping from the first to the last.
pub open spec fn previous_tab(t: Tab) -> Tab {
    tab_at((tab_index(t) + (TAB_COUNT as nat) - 1) as nat)
}

/// The display name of a tab.
pub open spec fn tab_name(t: Tab) -> Seq<char> {
    match t {
        Tab::Home => "Home"@,
        Tab::Projects => "Projects"@,
        Tab::Deployments => "Deployments"@,
    }
}

/// Every tab, in enumeration order.
pub open spec fn all_tabs() -> Seq<Tab> {
    seq![Tab::Home, Tab::Projects, Tab::Deployments]
}

impl Default for Tab {
    fn default() -> (r: Tab)
        ensures
            r == Tab::Home,
    {
        Tab::Home
    }
}

impl Tab {
    /// The position of this tab in the enumeration order.
    pub fn index(&self) -> (r: usize)
        ensures
            r as nat == tab_index(*self),
            r < TAB_COUNT,
            all_tabs()[r as int] == *self,
    {
        match self {
            Tab::Home => 0,
            Tab::Projects => 1,
            Tab::Deployments => 2,
        }
    }

    /// The tab at position `i` of the enumeration order.
    pub fn from_index(i: usize) -> (r: Tab)
        requires
            i < TAB_COUNT,
        ensures
            r == tab_at(i as nat),
            r == all_tabs()[i as int],
            tab_index(r) == i,
    {
        if i == 0 {
            Tab::Home
        } else if i == 1 {
            Tab::Projects
        } else {
            Tab::Deployments
        }
    }

    /// Every tab, in enumeration order.
    pub fn all() -> (r: Vec<Tab>)
        ensures
            r@ == all_tabs(),
    {
        vec![Tab::Home, Tab::Projects, Tab::Deployments]
    }

    /// The next tab, wrapping from the last back to the first.
    pub fn next(&self) -> (r: Tab)
        ensures
            r == next_tab(*self),
    {
        let i = self.index();
        Tab::from_index((i + 1) % TAB_COUNT)
    }

    /// The previous tab, wrapping from the first to the last.
    pub fn previous(&self) -> (r: Tab)
        ensures
            r == previous_tab(*self),
    {
        let i = self.index();
        Tab::from_index((i + TAB_COUNT - 1) % TAB_COUNT)
    }

    /// The display name of the tab.
    pub fn as_str(&self) -> (r: &'static str)
        ensures
            r@ == tab_name(*self),
    {
        match self {
            Tab::Home => "Home",
            Tab::Projects => "Projects",
            Tab::Deployments => "Deployments",
        }
    }

    /// The width in terminal columns of the tab's name.
    pub fn title_width(&self) -> (r: usize)
        ensures
            r == tab_name(*self).len(),
    {
        proof {
            reveal_strlit("Home");
            reveal_strlit("Projects");
            reveal_strlit("Deployments");
        }
        match self {
            Tab::Home => 4,
            Tab::Projects => 8,
            Tab::Deployments => 11,
        }
    }
}

/// Advancing to the next tab and then going back to the previous one, or the
/// other way round, lands on the tab one started from, for every tab.
pub proof fn lemma_next_previous_inverse(t: Tab)
    ensures
        previous_tab(next_tab(t)) == t,
        next_tab(previous_tab(t)) == t,
{
}

} // verus!
