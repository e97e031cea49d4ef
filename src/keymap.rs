//! Key bindings: for each tab, a mapping from chords (non-empty sequences of
//! key presses) to actions.

use vstd::prelude::*;
use crate::action::Action;
use crate::key::{Key, same_chord};
use crate::tab::Tab;

verus! {

/// One chord bound to an action under one tab.
pub struct Binding {
    pub tab: Tab,
    pub chord: Vec<Key>,
    pub action: Action,
}

/// Per-tab key bindings. A tab that is listed but has no binding has an
/// empty keymap, which differs from a tab that is not listed at all.
pub struct Keymap {
    tabs: Vec<Tab>,
    bindings: Vec<Binding>,
}

/// The action that the first binding of `bs` for tab `t` and chord `c`
/// names, if any.
pub open spec fn binding_lookup(bs: Seq<Binding>, t: Tab, c: Seq<Key>) -> Option<Action>
    decreases bs.len(),
{
    if bs.len() == 0 {
        None
    } else if bs[0].tab == t && bs[0].chord@ == c {
        Some(bs[0].action)
    } else {
        binding_lookup(bs.drop_first(), t, c)
    }
}

proof fn lemma_lookup_front(b: Binding, bs: Seq<Binding>, t: Tab, c: Seq<Key>)
    ensures
        binding_lookup(seq![b] + bs, t, c) == if b.tab == t && b.chord@ == c {
            Some(b.action)
        } else {
            binding_lookup(bs, t, c)
        },
{
    assert((seq![b] + bs).drop_first() =~= bs);
}

proof fn lemma_lookup_step(bs: Seq<Binding>, i: int, t: Tab, c: Seq<Key>)
    requires
        0 <= i < bs.len(),
    ensures
        binding_lookup(bs.subrange(i, bs.len() as int), t, c) == if bs[i].tab == t
            && bs[i].chord@ == c {
            Some(bs[i].action)
        } else {
            binding_lookup(bs.subrange(i + 1, bs.len() as int), t, c)
        },
{
    assert(bs.subrange(i, bs.len() as int).drop_first() =~= bs.subrange(i + 1, bs.len() as int));
}

proof fn lemma_lookup_other_tabs(bs: Seq<Binding>, t: Tab, c: Seq<Key>)
    requires
        forall|i: int| 0 <= i < bs.len() ==> #[trigger] bs[i].tab != t,
    ensures
        binding_lookup(bs, t, c) is None,
    decreases bs.len(),
{
    if bs.len() > 0 {
        assert forall|i: int| 0 <= i < bs.drop_first().len() implies #[trigger] bs.drop_first()[i].tab
            != t by {
            assert(bs.drop_first()[i] == bs[i + 1]);
        }
        lemma_lookup_other_tabs(bs.drop_first(), t, c);
    }
}

/// Two binding lists that agree, position by position, on tab, chord and
/// action bind the same chords.
proof fn lemma_lookup_same_bindings(bs1: Seq<Binding>, bs2: Seq<Binding>, t: Tab, c: Seq<Key>)
    requires
        bs1.len() == bs2.len(),
        forall|i: int|
            0 <= i < bs1.len() ==> (#[trigger] bs1[i]).tab == bs2[i].tab && bs1[i].chord@
                == bs2[i].chord@ && bs1[i].action == bs2[i].action,
    ensures
        binding_lookup(bs1, t, c) == binding_lookup(bs2, t, c),
    decreases bs1.len(),
{
    if bs1.len() > 0 {
        assert(bs1[0].tab == bs2[0].tab);
        assert forall|i: int| 0 <= i < bs1.drop_first().len() implies (
        #[trigger] bs1.drop_first()[i]).tab == bs2.drop_first()[i].tab
            && bs1.drop_first()[i].chord@ == bs2.drop_first()[i].chord@
            && bs1.drop_first()[i].action == bs2.drop_first()[i].action by {
            assert(bs1.drop_first()[i] == bs1[i + 1]);
            assert(bs2.drop_first()[i] == bs2[i + 1]);
        }
        lemma_lookup_same_bindings(bs1.drop_first(), bs2.drop_first(), t, c);
    }
}

/// A copy of a chord.
fn copy_chord(c: &Vec<Key>) -> (r: Vec<Key>)
    ensures
        r@ == c@,
{
    let mut r: Vec<Key> = Vec::new();
    let mut i: usize = 0;
    while i < c.len()
        invariant
            i <= c@.len(),
            r@ == c@.subrange(0, i as int),
        decreases c.len() - i,
    {
        r.push(c[i]);
        assert(r@ =~= c@.subrange(0, i + 1));
        i = i + 1;
    }
    assert(c@.subrange(0, c@.len() as int) =~= c@);
    r
}

impl View for Keymap {
    type V = Map<Tab, Map<Seq<Key>, Action>>;

    closed spec fn view(&self) -> Map<Tab, Map<Seq<Key>, Action>> {
        Map::new(
            |t: Tab| self.tabs@.contains(t),
            |t: Tab|
                Map::new(
                    |c: Seq<Key>| binding_lookup(self.bindings@, t, c) is Some,
                    |c: Seq<Key>| binding_lookup(self.bindings@, t, c)->0,
                ),
        )
    }
}

impl Keymap {
    /// Every bound chord is non-empty and its tab is listed.
    pub closed spec fn wf(&self) -> bool {
        forall|i: int|
            0 <= i < self.bindings@.len() ==> {
                &&& #[trigger] self.bindings@[i].chord@.len() >= 1
                &&& self.tabs@.contains(self.bindings@[i].tab)
            }
    }

    /// A keymap that lists no tab.
    pub fn new() -> (r: Keymap)
        ensures
            r.wf(),
            r@ == Map::<Tab, Map<Seq<Key>, Action>>::empty(),
    {
        let r = Keymap { tabs: Vec::new(), bindings: Vec::new() };
        assert(r@ =~= Map::<Tab, Map<Seq<Key>, Action>>::empty());
        r
    }

    /// An independent copy with the same bindings.
    pub fn duplicate(&self) -> (r: Keymap)
        ensures
            r@ == self@,
            r.wf() == self.wf(),
    {
        let mut tabs: Vec<Tab> = Vec::new();
        let mut i: usize = 0;
        while i < self.tabs.len()
            invariant
                i <= self.tabs@.len(),
                tabs@ == self.tabs@.subrange(0, i as int),
            decreases self.tabs.len() - i,
        {
            tabs.push(self.tabs[i]);
            assert(tabs@ =~= self.tabs@.subrange(0, i + 1));
            i = i + 1;
        }
        assert(self.tabs@.subrange(0, self.tabs@.len() as int) =~= self.tabs@);
        let mut bindings: Vec<Binding> = Vec::new();
        let mut j: usize = 0;
        while j < self.bindings.len()
            invariant
                j <= self.bindings@.len(),
                bindings@.len() == j,
                forall|k: int|
                    0 <= k < j ==> (#[trigger] bindings@[k]).tab == self.bindings@[k].tab
                        && bindings@[k].chord@ == self.bindings@[k].chord@
                        && bindings@[k].action == self.bindings@[k].action,
            decreases self.bindings.len() - j,
        {
            let b = &self.bindings[j];
            bindings.push(
                Binding { tab: b.tab, chord: copy_chord(&b.chord), action: b.action.duplicate() },
            );
            j = j + 1;
        }
        let r = Keymap { tabs, bindings };
        proof {
            assert forall|t: Tab, c: Seq<Key>|
                binding_lookup(r.bindings@, t, c) == binding_lookup(self.bindings@, t, c) by {
                lemma_lookup_same_bindings(r.bindings@, self.bindings@, t, c);
            }
            assert forall|t: Tab| #[trigger] r@.contains_key(t) implies r@[t] == self@[t] by {
                assert(r@[t] =~= self@[t]);
            }
            assert(r@ =~= self@);
            if self.wf() {
                assert forall|i: int| 0 <= i < r.bindings@.len() implies {
                    &&& #[trigger] r.bindings@[i].chord@.len() >= 1
                    &&& r.tabs@.contains(r.bindings@[i].tab)
                } by {
                    assert(self.bindings@[i].chord@.len() >= 1);
                }
            }
            if r.wf() {
                assert forall|i: int| 0 <= i < self.bindings@.len() implies {
                    &&& #[trigger] self.bindings@[i].chord@.len() >= 1
                    &&& self.tabs@.contains(self.bindings@[i].tab)
                } by {
                    assert(r.bindings@[i].chord@.len() >= 1);
                }
            }
        }
        r
    }

    /// Whether the tab is listed.
    pub fn has_tab(&self, tab: Tab) -> (r: bool)
        ensures
            r == self@.contains_key(tab),
    {
        let mut i: usize = 0;
        while i < self.tabs.len()
            invariant
                i <= self.tabs@.len(),
                forall|j: int| 0 <= j < i ==> self.tabs@[j] != tab,
            decreases self.tabs.len() - i,
        {
            if self.tabs[i] == tab {
                return true;
            }
            i = i + 1;
        }
        false
    }

    /// Lists the tab, with an empty keymap if it was not listed before.
    pub fn add_tab(&mut self, tab: Tab)
        requires
            old(self).wf(),
        ensures
            final(self).wf(),
            final(self)@ == if old(self)@.contains_key(tab) {
                old(self)@
            } else {
                old(self)@.insert(tab, Map::empty())
            },
    {
        if !self.has_tab(tab) {
            proof {
                assert forall|c: Seq<Key>| binding_lookup(self.bindings@, tab, c) is None by {
                    self.lemma_unlisted_tab_unbound(tab, c);
                }
            }
            let ghost before = *self;
            self.tabs.push(tab);
            proof {
                assert(self.tabs@[self.tabs@.len() - 1] == tab);
                assert forall|t: Tab| #[trigger] self.tabs@.contains(t) <==> (before.tabs@.contains(t)
                    || t == tab) by {
                    if self.tabs@.contains(t) && t != tab {
                        let j = choose|j: int| 0 <= j < self.tabs@.len() && self.tabs@[j] == t;
                        assert(before.tabs@[j] == t);
                    }
                    if before.tabs@.contains(t) {
                        let j = choose|j: int| 0 <= j < before.tabs@.len() && before.tabs@[j] == t;
                        assert(self.tabs@[j] == t);
                    }
                }
                assert(self@.contains_key(tab));
                assert(self@[tab] =~= Map::<Seq<Key>, Action>::empty());
                assert forall|t: Tab| #[trigger] self@.contains_key(t) && t != tab implies self@[t]
                    == old(self)@[t] by {
                    assert(self@[t] =~= old(self)@[t]);
                }
                assert(self@ =~= old(self)@.insert(tab, Map::empty()));
            }
        }
    }

    proof fn lemma_unlisted_tab_unbound(&self, tab: Tab, c: Seq<Key>)
        requires
            self.wf(),
            !self.tabs@.contains(tab),
        ensures
            binding_lookup(self.bindings@, tab, c) is None,
    {
        assert forall|i: int| 0 <= i < self.bindings@.len() implies #[trigger] self.bindings@[i].tab
            != tab by {
            assert(self.bindings@[i].chord@.len() >= 1);
        }
        lemma_lookup_other_tabs(self.bindings@, tab, c);
    }

    /// Binds `chord` to `action` under `tab`, listing the tab if needed and
    /// replacing an earlier binding of the same chord under that tab.
    pub fn bind(&mut self, tab: Tab, chord: Vec<Key>, action: Action)
        requires
            old(self).wf(),
            chord@.len() >= 1,
        ensures
            final(self).wf(),
            final(self)@ == old(self)@.insert(
                tab,
                if old(self)@.contains_key(tab) {
                    old(self)@[tab]
                } else {
                    Map::empty()
                }.insert(chord@, action),
            ),
    {
        self.add_tab(tab);
        let ghost mid = *self;
        let ghost b = Binding { tab, chord, action };
        self.bindings.insert(0, Binding { tab, chord, action });
        proof {
            assert(self.bindings@ =~= seq![b] + mid.bindings@);
            assert forall|t: Tab, c: Seq<Key>|
                binding_lookup(self.bindings@, t, c) == if t == tab && c == b.chord@ {
                    Some(action)
                } else {
                    binding_lookup(mid.bindings@, t, c)
                } by {
                lemma_lookup_front(b, mid.bindings@, t, c);
            }
            assert(mid@.contains_key(tab));
            assert(mid.tabs@.contains(tab));
            assert forall|i: int| 0 <= i < self.bindings@.len() implies {
                &&& #[trigger] self.bindings@[i].chord@.len() >= 1
                &&& self.tabs@.contains(self.bindings@[i].tab)
            } by {
                if i > 0 {
                    assert(self.bindings@[i] == mid.bindings@[i - 1]);
                    assert(mid.bindings@[i - 1].chord@.len() >= 1);
                }
            }
            assert(self@.contains_key(tab));
            assert(self@[tab] =~= mid@[tab].insert(b.chord@, action));
            assert forall|t: Tab| #[trigger] self@.contains_key(t) && t != tab implies self@[t]
                == mid@[t] by {
                assert(self@[t] =~= mid@[t]);
            }
        }
        assert(self@ =~= old(self)@.insert(
            tab,
            if old(self)@.contains_key(tab) {
                old(self)@[tab]
            } else {
                Map::empty()
            }.insert(b.chord@, action),
        ));
    }

    /// The action bound to `chord` under `tab`, if the tab is listed and the
    /// chord bound there.
    pub fn lookup(&self, tab: Tab, chord: &Vec<Key>) -> (r: Option<Action>)
        ensures
            r == (if self@.contains_key(tab) && self@[tab].contains_key(chord@) {
                Some(self@[tab][chord@])
            } else {
                None
            }),
    {
        if !self.has_tab(tab) {
            return None;
        }
        let ghost bs = self.bindings@;
        let ghost n = bs.len() as int;
        let mut i: usize = 0;
        assert(bs.subrange(0, n) =~= bs);
        while i < self.bindings.len()
            invariant
                i <= n,
                n == self.bindings@.len(),
                bs == self.bindings@,
                self.tabs@.contains(tab),
                binding_lookup(bs, tab, chord@) == binding_lookup(
                    bs.subrange(i as int, n),
                    tab,
                    chord@,
                ),
            decreases self.bindings.len() - i,
        {
            proof {
                lemma_lookup_step(bs, i as int, tab, chord@);
            }
            let b = &self.bindings[i];
            if b.tab == tab && same_chord(&b.chord, chord) {
                assert(self@[tab].contains_key(chord@));
                return Some(b.action.duplicate());
            }
            i = i + 1;
        }
        assert(bs.subrange(n, n) =~= Seq::<Binding>::empty());
        None
    }
}

} // verus!
