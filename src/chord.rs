//! The key-chord matcher: resolves key presses against the active tab's
//! keymap, with single-key bindings taking priority over multi-key chords.

use vstd::prelude::*;
use crate::action::Action;
use crate::key::Key;
use crate::keymap::Keymap;
use crate::tab::Tab;

verus! {

/// The keymap model: for each listed tab, its chords and their actions.
pub type KeymapModel = Map<Tab, Map<Seq<Key>, Action>>;

/// One key press under the active tab: the chord buffer afterwards and the
/// action that fires, if any.
///
/// With no keymap for the tab nothing happens. A key that is bound on its own
/// fires at once and leaves the buffer alone. Any other key is appended to the
/// buffer, and fires the action that the whole buffer is bound to, if any.
pub open spec fn chord_step(km: KeymapModel, tab: Tab, buffer: Seq<Key>, key: Key) -> (
    Seq<Key>,
    Option<Action>,
) {
    if !km.contains_key(tab) {
        (buffer, None)
    } else if km[tab].contains_key(seq![key]) {
        (buffer, Some(km[tab][seq![key]]))
    } else {
        let grown = buffer.push(key);
        (grown, if km[tab].contains_key(grown) {
            Some(km[tab][grown])
        } else {
            None
        })
    }
}

/// Resolves one key press under `tab`, updating the chord buffer.
pub fn match_key(keymap: &Keymap, tab: Tab, buffer: &mut Vec<Key>, key: Key) -> (r: Option<
    Action,
>)
    ensures
        (final(buffer)@, r) == chord_step(keymap@, tab, old(buffer)@, key),
{
    if !keymap.has_tab(tab) {
        return None;
    }
    let single = vec![key];
    assert(single@ =~= seq![key]);
    match keymap.lookup(tab, &single) {
        Some(action) => Some(action),
        None => {
            buffer.push(key);
            keymap.lookup(tab, buffer)
        },
    }
}

/// A two-key chord whose key is not bound on its own fires on the second
/// press and not on the first, when typed from an empty buffer (as it is
/// after a tick).
pub proof fn lemma_two_key_chord(km: KeymapModel, tab: Tab, g: Key, x: Action)
    requires
        km.contains_key(tab),
        km[tab].contains_key(seq![g, g]),
        km[tab][seq![g, g]] == x,
        !km[tab].contains_key(seq![g]),
    ensures
        ({
            let (b1, r1) = chord_step(km, tab, Seq::empty(), g);
            let (b2, r2) = chord_step(km, tab, b1, g);
            r1 is None && r2 == Some(x)
        }),
{
    assert(Seq::<Key>::empty().push(g) =~= seq![g]);
    assert(seq![g].push(g) =~= seq![g, g]);
}

/// A key bound on its own fires its action at once, whatever the chord
/// buffer holds, and is never added to the buffer.
pub proof fn lemma_single_key_fires_at_once(km: KeymapModel, tab: Tab, buffer: Seq<Key>, q: Key)
    requires
        km.contains_key(tab),
        km[tab].contains_key(seq![q]),
    ensures
        chord_step(km, tab, buffer, q) == (buffer, Some(km[tab][seq![q]])),
{
}

} // verus!
