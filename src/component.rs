//! The UI components and the rule that decides which of them are visible
//! under the active tab.

use vstd::prelude::*;
use tui_input::Input;
use crate::action::Action;
use crate::app::Config;
use crate::event::Event;
use crate::tab::{Tab, next_tab, previous_tab, tab_name};

verus! {

#[verifier::external_type_specification]
#[verifier::external_body]
pub struct ExInput(Input);

/// Relies on `tui_input::Input::new`, which builds an input field holding the
/// given text.
pub assume_specification[ tui_input::Input::new ](value: String) -> Input;

/// Whether a component assigned to `assigned` is visible while `active` is
/// the active tab: components with no tab are always visible.
pub open spec fn visible(assigned: Option<Tab>, active: Tab) -> bool {
    assigned is None || assigned == Some(active)
}

/// The visibility rule, executable.
pub fn is_visible(assigned: Option<Tab>, active: Tab) -> (r: bool)
    ensures
        r == visible(assigned, active),
{
    match assigned {
        None => true,
        Some(t) => t == active,
    }
}

/// Width of the terminal area from which the home screen shows its wide logo.
pub const WIDE_LOGO_MIN_WIDTH: u16 = 80;

/// Columns kept free around the tab titles in the tab bar.
pub const TAB_BAR_PADDING: u16 = 10;

/// The home screen: a banner, quick access and an optional help overlay.
pub struct Home {
    pub show_help: bool,
    pub input: Input,
    pub text: Vec<String>,
    pub config: Config,
}

/// The tab bar, which follows the active tab.
pub struct Tabs {
    pub tab: Tab,
    pub config: Config,
}

/// The projects screen.
pub struct Projects {
    pub config: Config,
}

/// The deployments screen.
pub struct Deployments {
    pub config: Config,
}

/// Sum of the widths of all tab titles.
pub open spec fn titles_width() -> int {
    (tab_name(Tab::Home).len() + tab_name(Tab::Projects).len() + tab_name(Tab::Deployments).len()) as int
}

/// Left offset of the tab titles inside a tab bar of the given width.
pub open spec fn title_offset_spec(width: u16) -> int {
    if width as int >= titles_width() + TAB_BAR_PADDING {
        (width - titles_width() - TAB_BAR_PADDING) / 2
    } else {
        (width as int / 2) / 2
    }
}

impl Home {
    /// Whether the help overlay is shown.
    pub open spec fn help_shown(self) -> bool {
        self.show_help
    }

    /// The lines of text the home screen holds.
    pub open spec fn lines(self) -> Seq<String> {
        self.text@
    }

    /// A home screen with the help overlay hidden and no text.
    pub fn new() -> (r: Home)
        ensures
            !r.help_shown(),
            r.lines().len() == 0,
    {
        Home {
            show_help: false,
            input: Input::new(String::new()),
            text: Vec::new(),
            config: Config::new(),
        }
    }

    /// Whether the help overlay is shown.
    pub fn show_help(&self) -> (r: bool)
        ensures
            r == self.help_shown(),
    {
        self.show_help
    }

    /// Whether an area of the given width shows the wide logo (the logo with
    /// the product name) rather than the logo alone.
    pub fn uses_wide_logo(width: u16) -> (r: bool)
        ensures
            r == (width >= WIDE_LOGO_MIN_WIDTH),
    {
        width >= WIDE_LOGO_MIN_WIDTH
    }
}

impl Tabs {
    /// The tab that the bar shows as selected.
    pub open spec fn selected_tab(self) -> Tab {
        self.tab
    }

    /// A tab bar on the default tab.
    pub fn new() -> (r: Tabs)
        ensures
            r.selected_tab() == Tab::Home,
    {
        Tabs { tab: Tab::Home, config: Config::new() }
    }

    /// The tab that the bar shows as selected.
    pub fn tab(&self) -> (r: Tab)
        ensures
            r == self.selected_tab(),
    {
        self.tab
    }

    /// The titles shown in the bar, one per tab in enumeration order.
    pub fn titles() -> (r: Vec<&'static str>)
        ensures
            r@.len() == 3,
            r@[0]@ == tab_name(Tab::Home),
            r@[1]@ == tab_name(Tab::Projects),
            r@[2]@ == tab_name(Tab::Deployments),
    {
        let mut r: Vec<&'static str> = Vec::new();
        r.push(Tab::Home.as_str());
        r.push(Tab::Projects.as_str());
        r.push(Tab::Deployments.as_str());
        r
    }

    /// The position of the selected tab among the titles.
    pub fn selected_index(&self) -> (r: usize)
        ensures
            r as nat == crate::tab::tab_index(self.selected_tab()),
    {
        self.tab.index()
    }

    /// Left offset of the titles inside a bar of the given width: half of the
    /// room left beside the titles and their padding, or a quarter of the
    /// width when the titles do not fit.
    pub fn title_offset(width: u16) -> (r: u16)
        ensures
            r as int == title_offset_spec(width),
    {
        proof {
            reveal_strlit("Home");
            reveal_strlit("Projects");
            reveal_strlit("Deployments");
        }
        let titles = (Tab::Home.title_width() + Tab::Projects.title_width()
            + Tab::Deployments.title_width()) as u16;
        let needed = titles + TAB_BAR_PADDING;
        if width >= needed {
            (width - needed) / 2
        } else {
            (width / 2) / 2
        }
    }
}

impl Projects {
    /// A projects screen.
    pub fn new() -> (r: Projects) {
        Projects { config: Config::new() }
    }
}

impl Deployments {
    /// A deployments screen.
    pub fn new() -> (r: Deployments) {
        Deployments { config: Config::new() }
    }
}

/// A UI component: one of the screens or the tab bar.
pub enum Component {
    Tabs(Tabs),
    Home(Home),
    Projects(Projects),
    Deployments(Deployments),
}

impl Component {
    /// The tab a component belongs to; `None` for one that is always visible.
    pub open spec fn assigned(self) -> Option<Tab> {
        match self {
            Component::Tabs(_) => None,
            Component::Home(_) => Some(Tab::Home),
            Component::Projects(_) => Some(Tab::Projects),
            Component::Deployments(_) => Some(Tab::Deployments),
        }
    }

    /// What `update` makes of the component, and the follow-up action it
    /// returns.
    pub open spec fn updated(self, action: Action) -> (Component, Option<Action>) {
        match self {
            Component::Tabs(t) => match action {
                Action::NextTab => (Component::Tabs(Tabs { tab: next_tab(t.tab), ..t }), None),
                Action::PreviousTab => (
                    Component::Tabs(Tabs { tab: previous_tab(t.tab), ..t }),
                    None,
                ),
                _ => (self, None),
            },
            Component::Home(h) => match action {
                Action::ToggleShowHelp => (
                    Component::Home(Home { show_help: !h.show_help, ..h }),
                    None,
                ),
                _ => (self, None),
            },
            Component::Projects(_) => (self, None),
            Component::Deployments(_) => (self, None),
        }
    }

    /// The configuration snapshot the component holds.
    pub open spec fn config_of(self) -> Config {
        match self {
            Component::Tabs(t) => t.config,
            Component::Home(h) => h.config,
            Component::Projects(p) => p.config,
            Component::Deployments(d) => d.config,
        }
    }

    /// The component holding `config` as its snapshot, all else kept.
    pub open spec fn with_config(self, config: Config) -> Component {
        match self {
            Component::Tabs(t) => Component::Tabs(Tabs { config, ..t }),
            Component::Home(h) => Component::Home(Home { config, ..h }),
            Component::Projects(p) => Component::Projects(Projects { config, ..p }),
            Component::Deployments(d) => Component::Deployments(Deployments { config, ..d }),
        }
    }

    /// Stores an immutable configuration snapshot in the component.
    pub fn register_config_handler(&mut self, config: Config)
        ensures
            *final(self) == old(self).with_config(config),
    {
        match self {
            Component::Tabs(t) => {
                t.config = config;
            },
            Component::Home(h) => {
                h.config = config;
            },
            Component::Projects(p) => {
                p.config = config;
            },
            Component::Deployments(d) => {
                d.config = config;
            },
        }
    }

    /// The tab this component belongs to; `None` if it is always visible.
    pub fn assigned_tab(&self) -> (r: Option<Tab>)
        ensures
            r == self.assigned(),
    {
        match self {
            Component::Tabs(_) => None,
            Component::Home(_) => Some(Tab::Home),
            Component::Projects(_) => Some(Tab::Projects),
            Component::Deployments(_) => Some(Tab::Deployments),
        }
    }

    /// Turns a raw terminal event into at most one action. Neither the
    /// tab bar nor the home screen reacts to raw events.
    pub fn handle_events(&mut self, event: &Event) -> (r: Option<Action>)
        ensures
            r is None,
            *final(self) == *old(self),
    {
        None
    }

    /// Reacts to a drained action: the tab bar follows `NextTab` and
    /// `PreviousTab`, the home screen toggles its help overlay on
    /// `ToggleShowHelp`; the projects and deployments screens keep their
    /// state. No component answers with a follow-up action.
    pub fn update(&mut self, action: &Action) -> (r: Option<Action>)
        ensures
            (*final(self), r) == old(self).updated(*action),
            r is None,
    {
        match self {
            Component::Tabs(t) => {
                match action {
                    Action::NextTab => {
                        t.tab = t.tab.next();
                    },
                    Action::PreviousTab => {
                        t.tab = t.tab.previous();
                    },
                    _ => {},
                }
            },
            Component::Home(h) => {
                match action {
                    Action::ToggleShowHelp => {
                        h.show_help = !h.show_help;
                    },
                    _ => {},
                }
            },
            Component::Projects(_) => {},
            Component::Deployments(_) => {},
        }
        None
    }
}

/// Each component changes only in response to its own actions: the tab bar to
/// `NextTab` and `PreviousTab`, the home screen to `ToggleShowHelp`. Every
/// other action (among them `Suspend` and `Resume`) leaves it as it was.
pub proof fn lemma_other_actions_keep_component(c: Component, action: Action)
    requires
        !(action is NextTab || action is PreviousTab || action is ToggleShowHelp),
    ensures
        c.updated(action) == (c, None::<Action>),
{
}

/// The components that are visible under `active`: their positions in
/// `components`, in increasing order.
pub fn visible_components(components: &Vec<Component>, active: Tab) -> (r: Vec<usize>)
    ensures
        forall|k: int| 0 <= k < r@.len() ==> #[trigger] r@[k] < components@.len(),
        forall|k: int, l: int| 0 <= k < l < r@.len() ==> r@[k] < r@[l],
        forall|i: int|
            0 <= i < components@.len() ==> (r@.contains(i as usize) <==> visible(
                #[trigger] components@[i].assigned(),
                active,
            )),
{
    let mut r: Vec<usize> = Vec::new();
    let mut i: usize = 0;
    while i < components.len()
        invariant
            i <= components@.len(),
            forall|k: int| 0 <= k < r@.len() ==> #[trigger] r@[k] < i,
            forall|k: int, l: int| 0 <= k < l < r@.len() ==> r@[k] < r@[l],
            forall|j: int|
                0 <= j < i ==> (r@.contains(j as usize) <==> visible(
                    #[trigger] components@[j].assigned(),
                    active,
                )),
        decreases components.len() - i,
    {
        let ghost before = r@;
        if is_visible(components[i].assigned_tab(), active) {
            r.push(i);
            assert(r@[r@.len() - 1] == i);
        }
        assert forall|j: int| 0 <= j < i + 1 implies (r@.contains(j as usize) <==> visible(
            #[trigger] components@[j].assigned(),
            active,
        )) by {
            if r@.contains(j as usize) && j < i {
                let k = choose|k: int| 0 <= k < r@.len() && r@[k] == j as usize;
                if k < before.len() {
                    assert(before[k] == j as usize);
                }
            }
            if before.contains(j as usize) {
                let k = choose|k: int| 0 <= k < before.len() && before[k] == j as usize;
                assert(r@[k] == j as usize);
            }
            if j == i && r@.contains(j as usize) {
                let k = choose|k: int| 0 <= k < r@.len() && r@[k] == j as usize;
                if k < before.len() {
                    assert(before[k] < i);
                }
            }
        }
        i = i + 1;
    }
    r
}

} // verus!
