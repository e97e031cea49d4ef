//! The orchestrator: turns terminal events into actions, drains the action
//! bus, applies each action's orchestrator-level effect, feeds it to the
//! visible components and decides when to suspend or quit.
//!
//! The terminal work itself (waiting for events, drawing, suspending the
//! terminal) is done by the caller, one step at a time:
//! `handle_event` for each event, then `next_action` / `forward` until the
//! bus is empty (performing each returned `Effect` in between), then
//! `after_drain`.

use vstd::prelude::*;
use crate::action::Action;
use crate::bus::ActionBus;
use crate::chord::{KeymapModel, chord_step, match_key};
use crate::component::{
    Component,
    Deployments,
    Home,
    Projects,
    Tabs,
    is_visible,
    lemma_other_actions_keep_component,
    visible,
    visible_components,
};
use crate::event::Event;
use crate::key::Key;
use crate::keymap::Keymap;
use crate::tab::{Tab, lemma_next_previous_inverse, next_tab, previous_tab};

verus! {

/// The configuration the orchestrator reads: the key bindings of each tab.
pub struct Config {
    pub keybindings: Keymap,
}

impl Config {
    /// A configuration with no key bindings.
    pub fn new() -> (r: Config)
        ensures
            r.keybindings.wf(),
            r.keybindings@ == Map::<Tab, Map<Seq<Key>, Action>>::empty(),
    {
        Config { keybindings: Keymap::new() }
    }

    /// An independent snapshot with the same key bindings.
    pub fn duplicate(&self) -> (r: Config)
        ensures
            r.keybindings@ == self.keybindings@,
            r.keybindings.wf() == self.keybindings.wf(),
    {
        Config { keybindings: self.keybindings.duplicate() }
    }
}

/// An orchestrator-level failure.
#[derive(Debug, Clone, Copy, PartialEq, Eq, Structural)]
pub enum AppError {
    /// The action bus's channel is closed: its consumer is gone.
    ChannelClosed,
}

/// Terminal work that an action calls for before it reaches the components.
pub enum Effect {
    /// Nothing to do.
    Nothing,
    /// Draw the components at these positions, in this order.
    Draw(Vec<usize>),
    /// Resize the drawing surface to width × height, then draw the components
    /// at these positions, in this order.
    ResizeAndDraw(u16, u16, Vec<usize>),
}

/// What the caller does once the bus is empty.
#[derive(Debug, Clone, Copy, PartialEq, Eq, Structural)]
pub enum Control {
    /// Wait for the next terminal event.
    Continue,
    /// Suspend the terminal, then enter a fresh one and continue.
    Suspend,
    /// Stop the terminal and leave the loop.
    Quit,
}

/// The orchestrator's state.
pub struct App {
    pub config: Config,
    pub components: Vec<Component>,
    pub should_quit: bool,
    pub should_suspend: bool,
    pub tab: Tab,
    pub last_tick_key_events: Vec<Key>,
    pub bus: ActionBus,
}

/// `v` lists, in increasing order, exactly the positions of the components
/// of `cs` that are visible under `active`.
pub open spec fn is_visible_set(v: Seq<usize>, cs: Seq<Component>, active: Tab) -> bool {
    &&& forall|k: int| 0 <= k < v.len() ==> #[trigger] v[k] < cs.len()
    &&& forall|k: int, l: int| 0 <= k < l < v.len() ==> v[k] < v[l]
    &&& forall|i: int|
        0 <= i < cs.len() ==> (v.contains(i as usize) <==> visible(
            #[trigger] cs[i].assigned(),
            active,
        ))
}

/// The action a terminal event stands for, for the events that stand for one
/// directly (key presses go through the chord matcher instead).
pub open spec fn event_action(e: Event) -> Option<Action> {
    match e {
        Event::Quit => Some(Action::Quit),
        Event::Tick => Some(Action::Tick),
        Event::Render => Some(Action::Render),
        Event::Resize(w, h) => Some(Action::Resize(w, h)),
        _ => None,
    }
}

/// The actions an optional action amounts to.
pub open spec fn opt_seq(o: Option<Action>) -> Seq<Action> {
    match o {
        Some(a) => seq![a],
        None => Seq::empty(),
    }
}

/// The active tab after a drained action.
pub open spec fn tab_after(tab: Tab, a: Action) -> Tab {
    match a {
        Action::NextTab => next_tab(tab),
        Action::PreviousTab => previous_tab(tab),
        _ => tab,
    }
}

/// The quit flag after a drained action.
pub open spec fn quit_after(q: bool, a: Action) -> bool {
    if a is Quit {
        true
    } else {
        q
    }
}

/// The suspend flag after a drained action.
pub open spec fn suspend_after(s: bool, a: Action) -> bool {
    match a {
        Action::Suspend => true,
        Action::Resume => false,
        _ => s,
    }
}

/// The chord buffer after a drained action: a tick empties it.
pub open spec fn chord_after(buffer: Seq<Key>, a: Action) -> Seq<Key> {
    if a is Tick {
        Seq::empty()
    } else {
        buffer
    }
}

/// Every component visible under `tab` updated with `a`, in order, and the
/// follow-up actions they return, in order.
pub open spec fn update_visible(cs: Seq<Component>, tab: Tab, a: Action) -> (
    Seq<Component>,
    Seq<Action>,
)
    decreases cs.len(),
{
    if cs.len() == 0 {
        (Seq::empty(), Seq::empty())
    } else {
        let (front, out) = update_visible(cs.drop_last(), tab, a);
        let c = cs.last();
        if visible(c.assigned(), tab) {
            let (c2, follow) = c.updated(a);
            (front.push(c2), out + opt_seq(follow))
        } else {
            (front.push(c), out)
        }
    }
}

/// An action that no component reacts to passes through the visible
/// components without changing any of them or producing a follow-up.
pub proof fn lemma_inert_action_keeps_components(cs: Seq<Component>, tab: Tab, a: Action)
    requires
        !(a is NextTab || a is PreviousTab || a is ToggleShowHelp),
    ensures
        update_visible(cs, tab, a) == (cs, Seq::<Action>::empty()),
    decreases cs.len(),
{
    if cs.len() > 0 {
        lemma_inert_action_keeps_components(cs.drop_last(), tab, a);
        lemma_other_actions_keep_component(cs.last(), a);
        assert(cs.drop_last().push(cs.last()) =~= cs);
        assert(Seq::<Action>::empty() + Seq::<Action>::empty() =~= Seq::<Action>::empty());
    }
}

/// Draining `Suspend` and then `Resume` keeps the active tab and every
/// component exactly as they were (no component is rebuilt or changed), and
/// produces no follow-up action; the suspend flag is cleared again.
pub proof fn lemma_suspend_resume_keeps_state(tab: Tab, cs: Seq<Component>, suspend: bool)
    ensures
        tab_after(tab_after(tab, Action::Suspend), Action::Resume) == tab,
        ({
            let (cs1, out1) = update_visible(cs, tab_after(tab, Action::Suspend), Action::Suspend);
            let (cs2, out2) = update_visible(
                cs1,
                tab_after(tab_after(tab, Action::Suspend), Action::Resume),
                Action::Resume,
            );
            cs2 == cs && out1.len() == 0 && out2.len() == 0
        }),
        !suspend_after(suspend_after(suspend, Action::Suspend), Action::Resume),
{
    lemma_inert_action_keeps_components(cs, tab, Action::Suspend);
    lemma_inert_action_keeps_components(cs, tab, Action::Resume);
}

/// A tick between the two presses of a two-key chord (whose key is not
/// bound on its own) empties the chord buffer, so neither press fires
/// anything, whatever the buffer held before.
pub proof fn lemma_tick_breaks_chord(
    km: KeymapModel,
    tab: Tab,
    buffer: Seq<Key>,
    g: Key,
    x: Action,
)
    requires
        km.contains_key(tab),
        km[tab].contains_key(seq![g, g]),
        km[tab][seq![g, g]] == x,
        !km[tab].contains_key(seq![g]),
    ensures
        ({
            let (b1, r1) = chord_step(km, tab, buffer, g);
            let (b2, r2) = chord_step(km, tab, chord_after(b1, Action::Tick), g);
            r2 is None && (buffer.len() == 0 ==> r1 is None)
        }),
{
    assert(Seq::<Key>::empty().push(g) =~= seq![g]);
    if buffer.len() == 0 {
        assert(buffer.push(g) =~= seq![g]);
    }
}

/// Draining `NextTab` then `PreviousTab`, or the other way round, returns
/// the active tab to where it was, from every tab.
pub proof fn lemma_tab_actions_inverse(tab: Tab)
    ensures
        tab_after(tab_after(tab, Action::NextTab), Action::PreviousTab) == tab,
        tab_after(tab_after(tab, Action::PreviousTab), Action::NextTab) == tab,
{
    lemma_next_previous_inverse(tab);
}

/// The active tab after draining `acts` in order.
pub open spec fn tab_after_all(tab: Tab, acts: Seq<Action>) -> Tab
    decreases acts.len(),
{
    if acts.len() == 0 {
        tab
    } else {
        tab_after_all(tab_after(tab, acts[0]), acts.drop_first())
    }
}

proof fn lemma_tab_after_concat(tab: Tab, a: Seq<Action>, b: Seq<Action>)
    ensures
        tab_after_all(tab, a + b) == tab_after_all(tab_after_all(tab, a), b),
    decreases a.len(),
{
    if a.len() > 0 {
        assert((a + b).drop_first() =~= a.drop_first() + b);
        lemma_tab_after_concat(tab_after(tab, a[0]), a.drop_first(), b);
    } else {
        assert(a + b =~= b);
    }
}

proof fn lemma_other_actions_keep_tab(tab: Tab, acts: Seq<Action>)
    requires
        forall|i: int| 0 <= i < acts.len() ==> !(#[trigger] acts[i] is NextTab || acts[i] is PreviousTab),
    ensures
        tab_after_all(tab, acts) == tab,
    decreases acts.len(),
{
    if acts.len() > 0 {
        assert forall|i: int| 0 <= i < acts.drop_first().len() implies !(
        #[trigger] acts.drop_first()[i] is NextTab || acts.drop_first()[i] is PreviousTab) by {
            assert(acts.drop_first()[i] == acts[i + 1]);
        }
        lemma_other_actions_keep_tab(tab, acts.drop_first());
    }
}

/// `NextTab` and `PreviousTab` undo each other even with any number of other
/// actions (none of them a tab change) drained between the two.
pub proof fn lemma_tab_actions_inverse_with_others(tab: Tab, between: Seq<Action>)
    requires
        forall|i: int|
            0 <= i < between.len() ==> !(#[trigger] between[i] is NextTab || between[i] is PreviousTab),
    ensures
        tab_after_all(tab, seq![Action::NextTab] + between + seq![Action::PreviousTab]) == tab,
        tab_after_all(tab, seq![Action::PreviousTab] + between + seq![Action::NextTab]) == tab,
{
    lemma_next_previous_inverse(tab);
    let fwd = seq![Action::NextTab];
    let back = seq![Action::PreviousTab];
    lemma_tab_after_concat(tab, fwd + between, back);
    lemma_tab_after_concat(tab, fwd, between);
    lemma_other_actions_keep_tab(next_tab(tab), between);
    assert(tab_after_all(tab, fwd) == next_tab(tab)) by {
        assert(fwd.drop_first() =~= Seq::<Action>::empty());
        assert(tab_after_all(next_tab(tab), Seq::<Action>::empty()) == next_tab(tab));
    }
    assert(tab_after_all(next_tab(tab), back) == tab) by {
        assert(back.drop_first() =~= Seq::<Action>::empty());
        assert(tab_after_all(tab, Seq::<Action>::empty()) == tab);
    }
    lemma_tab_after_concat(tab, back + between, fwd);
    lemma_tab_after_concat(tab, back, between);
    lemma_other_actions_keep_tab(previous_tab(tab), between);
    assert(tab_after_all(tab, back) == previous_tab(tab)) by {
        assert(back.drop_first() =~= Seq::<Action>::empty());
        assert(tab_after_all(previous_tab(tab), Seq::<Action>::empty()) == previous_tab(tab));
    }
    assert(tab_after_all(previous_tab(tab), fwd) == tab) by {
        assert(fwd.drop_first() =~= Seq::<Action>::empty());
        assert(tab_after_all(tab, Seq::<Action>::empty()) == tab);
    }
}

impl App {
    /// The actions waiting on the bus, oldest first.
    pub open spec fn pending(self) -> Seq<Action> {
        self.bus@
    }

    /// A fresh orchestrator on the `Home` tab, with the tab bar, the home,
    /// projects and deployments screens registered (in that draw order),
    /// each holding its own snapshot of the configuration, no flag set, an empty chord buffer
    /// and an empty bus.
    pub fn new(config: Config) -> (r: App)
        ensures
            r.config == config,
            r.components@.len() == 4,
            r.components@[0] matches Component::Tabs(t) && t.tab == Tab::Home,
            r.components@[1] matches Component::Home(h) && !h.show_help,
            r.components@[2] is Projects,
            r.components@[3] is Deployments,
            forall|i: int|
                0 <= i < 4 ==> (#[trigger] r.components@[i]).config_of().keybindings@
                    == config.keybindings@,
            !r.should_quit,
            !r.should_suspend,
            r.tab == Tab::Home,
            r.last_tick_key_events@.len() == 0,
            r.pending().len() == 0,
    {
        let mut bar = Component::Tabs(Tabs::new());
        bar.register_config_handler(config.duplicate());
        let mut home = Component::Home(Home::new());
        home.register_config_handler(config.duplicate());
        let mut projects = Component::Projects(Projects::new());
        projects.register_config_handler(config.duplicate());
        let mut deployments = Component::Deployments(Deployments::new());
        deployments.register_config_handler(config.duplicate());
        let mut components: Vec<Component> = Vec::new();
        components.push(bar);
        components.push(home);
        components.push(projects);
        components.push(deployments);
        App {
            config,
            components,
            should_quit: false,
            should_suspend: false,
            tab: Tab::Home,
            last_tick_key_events: Vec::new(),
            bus: ActionBus::new(),
        }
    }

    fn enqueue(&mut self, action: Action) -> (r: Result<(), AppError>)
        ensures
            r is Ok,
            final(self).pending() == old(self).pending().push(action),
            final(self).config == old(self).config,
            final(self).components == old(self).components,
            final(self).should_quit == old(self).should_quit,
            final(self).should_suspend == old(self).should_suspend,
            final(self).tab == old(self).tab,
            final(self).last_tick_key_events == old(self).last_tick_key_events,
    {
        if self.bus.send(action) {
            Ok(())
        } else {
            Err(AppError::ChannelClosed)
        }
    }

    /// The positions of the components visible under the active tab.
    pub fn visible(&self) -> (r: Vec<usize>)
        ensures
            is_visible_set(r@, self.components@, self.tab),
    {
        visible_components(&self.components, self.tab)
    }

    /// Handles one terminal event: enqueues the action it stands for (for a
    /// key press, the action the chord matcher fires under the active tab's
    /// keymap, if any), then hands the event to every visible component and
    /// enqueues what they return.
    pub fn handle_event(&mut self, event: Event) -> (r: Result<(), AppError>)
        ensures
            final(self).config == old(self).config,
            final(self).components@ == old(self).components@,
            final(self).should_quit == old(self).should_quit,
            final(self).should_suspend == old(self).should_suspend,
            final(self).tab == old(self).tab,
            r is Ok,
            match event {
                Event::Key(k) => {
                    let (buffer, fired) = chord_step(
                        old(self).config.keybindings@,
                        old(self).tab,
                        old(self).last_tick_key_events@,
                        k,
                    );
                    &&& final(self).last_tick_key_events@ == buffer
                    &&& final(self).pending() == old(self).pending() + opt_seq(fired)
                },
                _ => {
                    &&& final(self).last_tick_key_events == old(self).last_tick_key_events
                    &&& final(self).pending() == old(self).pending() + opt_seq(
                        event_action(event),
                    )
                },
            },
    {
        let ghost pending0 = self.pending();
        let from_event: Option<Action> = match &event {
            Event::Quit => Some(Action::Quit),
            Event::Tick => Some(Action::Tick),
            Event::Render => Some(Action::Render),
            Event::Resize(w, h) => Some(Action::Resize(*w, *h)),
            Event::Key(k) => match_key(
                &self.config.keybindings,
                self.tab,
                &mut self.last_tick_key_events,
                *k,
            ),
            _ => None,
        };
        match from_event {
            Some(a) => {
                self.enqueue(a)?;
                assert(self.pending() == pending0 + opt_seq(from_event));
            },
            None => {
                assert(self.pending() =~= pending0 + opt_seq(from_event));
            },
        }
        let ghost pending1 = self.pending();
        let ghost buffer1 = self.last_tick_key_events;
        let ghost comps = self.components@;
        let mut i: usize = 0;
        while i < self.components.len()
            invariant
                i <= self.components@.len(),
                self.components@ == comps,
                comps == old(self).components@,
                self.pending() == pending1,
                self.config == old(self).config,
                self.should_quit == old(self).should_quit,
                self.should_suspend == old(self).should_suspend,
                self.tab == old(self).tab,
                self.last_tick_key_events == buffer1,
            decreases self.components.len() - i,
        {
            if is_visible(self.components[i].assigned_tab(), self.tab) {
                let c = &mut self.components[i];
                let out = c.handle_events(&event);
                if let Some(a) = out {
                    self.enqueue(a)?;
                }
            }
            assert(self.components@ =~= comps);
            i = i + 1;
        }
        Ok(())
    }

    /// Takes the oldest action off the bus and applies its orchestrator-level
    /// effect: `Tick` empties the chord buffer, `Quit`, `Suspend` and
    /// `Resume` set the flags, `NextTab` and `PreviousTab` move the active tab
    /// cyclically. `Render` asks for one draw pass and `Resize(w, h)` for a
    /// resize to w × h followed by one draw pass, each over the components
    /// visible under the (unchanged) active tab. Returns the action and the
    /// effect, or `None` when the bus is empty. The action still has to be
    /// handed to `forward`.
    pub fn next_action(&mut self) -> (r: Option<(Action, Effect)>)
        ensures
            final(self).config == old(self).config,
            final(self).components == old(self).components,
            old(self).pending().len() == 0 ==> {
                &&& r is None
                &&& final(self).pending() == old(self).pending()
                &&& final(self).tab == old(self).tab
                &&& final(self).should_quit == old(self).should_quit
                &&& final(self).should_suspend == old(self).should_suspend
                &&& final(self).last_tick_key_events == old(self).last_tick_key_events
            },
            old(self).pending().len() > 0 ==> {
                let a = old(self).pending()[0];
                &&& r matches Some((b, e)) && b == a && match a {
                    Action::Render => e matches Effect::Draw(v) && is_visible_set(
                        v@,
                        final(self).components@,
                        final(self).tab,
                    ),
                    Action::Resize(w, h) => e matches Effect::ResizeAndDraw(
                        w2,
                        h2,
                        v,
                    ) && w2 == w && h2 == h && is_visible_set(
                        v@,
                        final(self).components@,
                        final(self).tab,
                    ),
                    _ => e is Nothing,
                }
                &&& final(self).pending() == old(self).pending().drop_first()
                &&& final(self).tab == tab_after(old(self).tab, a)
                &&& final(self).should_quit == quit_after(old(self).should_quit, a)
                &&& final(self).should_suspend == suspend_after(old(self).should_suspend, a)
                &&& final(self).last_tick_key_events@ == chord_after(
                    old(self).last_tick_key_events@,
                    a,
                )
            },
    {
        let action = match self.bus.try_recv() {
            Some(a) => a,
            None => return None,
        };
        let effect = match &action {
            Action::Tick => {
                self.last_tick_key_events = Vec::new();
                Effect::Nothing
            },
            Action::Quit => {
                self.should_quit = true;
                Effect::Nothing
            },
            Action::Suspend => {
                self.should_suspend = true;
                Effect::Nothing
            },
            Action::Resume => {
                self.should_suspend = false;
                Effect::Nothing
            },
            Action::Resize(w, h) => Effect::ResizeAndDraw(*w, *h, self.visible()),
            Action::Render => Effect::Draw(self.visible()),
            Action::NextTab => {
                self.tab = self.tab.next();
                Effect::Nothing
            },
            Action::PreviousTab => {
                self.tab = self.tab.previous();
                Effect::Nothing
            },
            _ => Effect::Nothing,
        };
        Some((action, effect))
    }

    /// Hands a drained action to every component visible under the active
    /// tab, in order, and enqueues each follow-up action as it comes.
    pub fn forward(&mut self, action: &Action) -> (r: Result<(), AppError>)
        ensures
            final(self).config == old(self).config,
            final(self).should_quit == old(self).should_quit,
            final(self).should_suspend == old(self).should_suspend,
            final(self).tab == old(self).tab,
            final(self).last_tick_key_events == old(self).last_tick_key_events,
            r is Ok,
            ({
                let (cs, out) = update_visible(old(self).components@, old(self).tab, *action);
                &&& final(self).components@ == cs
                &&& final(self).pending() == old(self).pending() + out
            }),
    {
        let ghost cs0 = self.components@;
        let ghost pending0 = self.pending();
        let mut i: usize = 0;
        while i < self.components.len()
            invariant
                self.components@.len() == cs0.len(),
                i <= cs0.len(),
                self.config == old(self).config,
                self.should_quit == old(self).should_quit,
                self.should_suspend == old(self).should_suspend,
                self.tab == old(self).tab,
                self.last_tick_key_events == old(self).last_tick_key_events,
                cs0 == old(self).components@,
                pending0 == old(self).pending(),
                update_visible(cs0.subrange(0, i as int), self.tab, *action) == (
                    self.components@.subrange(0, i as int),
                    self.pending().subrange(pending0.len() as int, self.pending().len() as int),
                ),
                self.pending().len() >= pending0.len(),
                self.pending().subrange(0, pending0.len() as int) == pending0,
                forall|j: int| i <= j < cs0.len() ==> self.components@[j] == cs0[j],
            decreases cs0.len() - i,
        {
            let ghost comps_before = self.components@;
            let ghost pending_before = self.pending();
            proof {
                assert(cs0.subrange(0, i + 1).drop_last() =~= cs0.subrange(0, i as int));
                assert(cs0.subrange(0, i + 1).last() == cs0[i as int]);
            }
            if is_visible(self.components[i].assigned_tab(), self.tab) {
                let c = &mut self.components[i];
                let out = c.update(action);
                assert(self.components@ =~= comps_before.update(
                    i as int,
                    cs0[i as int].updated(*action).0,
                ));
                match out {
                    Some(a) => {
                        self.enqueue(a)?;
                    },
                    None => {},
                }
            }
            proof {
                assert(self.components@.subrange(0, i + 1) =~= comps_before.subrange(
                    0,
                    i as int,
                ).push(self.components@[i as int]));
                assert(self.pending().subrange(pending0.len() as int, self.pending().len() as int)
                    =~= pending_before.subrange(
                    pending0.len() as int,
                    pending_before.len() as int,
                ) + self.pending().subrange(
                    pending_before.len() as int,
                    self.pending().len() as int,
                ));
                assert(self.pending().subrange(0, pending0.len() as int) =~= pending0);
            }
            i = i + 1;
        }
        proof {
            assert(cs0.subrange(0, cs0.len() as int) =~= cs0);
            assert(self.components@.subrange(0, cs0.len() as int) =~= self.components@);
            assert(self.pending() =~= pending0 + self.pending().subrange(
                pending0.len() as int,
                self.pending().len() as int,
            ));
        }
        Ok(())
    }

    /// Enqueues the `Error` action that reports a component's failed draw.
    pub fn report_draw_error(&mut self, message: String) -> (r: Result<(), AppError>)
        ensures
            r is Ok,
            final(self).pending() == old(self).pending().push(Action::Error(message)),
            final(self).config == old(self).config,
            final(self).components == old(self).components,
            final(self).should_quit == old(self).should_quit,
            final(self).should_suspend == old(self).should_suspend,
            final(self).tab == old(self).tab,
            final(self).last_tick_key_events == old(self).last_tick_key_events,
    {
        self.enqueue(Action::Error(message))
    }

    /// Decides what happens once the bus is drained. A pending suspend comes
    /// first: `Resume` is enqueued and the terminal is to be suspended and
    /// re-entered. Otherwise a pending quit ends the loop. Otherwise the loop
    /// waits for the next event.
    pub fn after_drain(&mut self) -> (r: Result<Control, AppError>)
        ensures
            final(self).config == old(self).config,
            final(self).components == old(self).components,
            final(self).should_quit == old(self).should_quit,
            final(self).should_suspend == old(self).should_suspend,
            final(self).tab == old(self).tab,
            final(self).last_tick_key_events == old(self).last_tick_key_events,
            old(self).should_suspend ==> r == Ok::<Control, AppError>(Control::Suspend)
                && final(self).pending() == old(self).pending().push(Action::Resume),
            !old(self).should_suspend ==> final(self).pending() == old(self).pending() && r == Ok::<
                Control,
                AppError,
            >(if old(self).should_quit {
                Control::Quit
            } else {
                Control::Continue
            }),
    {
        if self.should_suspend {
            self.enqueue(Action::Resume)?;
            Ok(Control::Suspend)
        } else if self.should_quit {
            Ok(Control::Quit)
        } else {
            Ok(Control::Continue)
        }
    }
}

} // verus!
