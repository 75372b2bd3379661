//! The modifier tracker: the set of currently held keys, fed by key
//! transitions from the input source.

use vstd::prelude::*;
use std::collections::HashSet;
use crate::keys::{KeyState, KEY_LEFTALT, KEY_LEFTCTRL, KEY_RIGHTALT, KEY_RIGHTCTRL};

verus! {

broadcast use vstd::std_specs::hash::group_hash_axioms;

/// A key transition: which key, and whether it went down or up.
#[derive(Clone, Copy, Debug, PartialEq, Eq, Structural)]
pub struct KeyEvent {
    pub key: u32,
    pub state: KeyState,
}

/// What one transition does to a held-key set.
pub open spec fn apply_event(held: Set<u32>, e: KeyEvent) -> Set<u32> {
    if e.state is Pressed {
        held.insert(e.key)
    } else {
        held.remove(e.key)
    }
}

/// The held-key set that a sequence of transitions leaves behind, starting
/// from `held`.
pub open spec fn held_from(held: Set<u32>, events: Seq<KeyEvent>) -> Set<u32>
    decreases events.len(),
{
    if events.len() == 0 {
        held
    } else {
        apply_event(held_from(held, events.drop_last()), events.last())
    }
}

/// The held-key set that a sequence of transitions leaves behind, starting
/// from no key held.
pub open spec fn held_after(events: Seq<KeyEvent>) -> Set<u32> {
    held_from(Set::empty(), events)
}

/// The event presses `key`.
pub open spec fn is_press_of(e: KeyEvent, key: u32) -> bool {
    e.key == key && e.state is Pressed
}

/// The event releases `key`.
pub open spec fn is_release_of(e: KeyEvent, key: u32) -> bool {
    e.key == key && e.state is Released
}

/// No event after position `i` releases `key`.
pub open spec fn no_release_after(events: Seq<KeyEvent>, key: u32, i: int) -> bool {
    forall|j: int| i < j < events.len() ==> !is_release_of(#[trigger] events[j], key)
}

/// `key` was pressed and not yet released: some press of it is followed by
/// no release of it.
pub open spec fn pressed_not_released(events: Seq<KeyEvent>, key: u32) -> bool {
    exists|i: int|
        0 <= i < events.len() && is_press_of(#[trigger] events[i], key) && no_release_after(
            events,
            key,
            i,
        )
}

/// After any interleaving of presses and releases, starting from no key
/// held, the held-key set is exactly the set of keys pressed but not yet
/// released.
pub proof fn lemma_held_set_is_unreleased_presses(events: Seq<KeyEvent>, key: u32)
    ensures
        held_after(events).contains(key) <==> pressed_not_released(events, key),
    decreases events.len(),
{
    if events.len() == 0 {
        assert(!held_after(events).contains(key));
    } else {
        let prior = events.drop_last();
        let last = events.last();
        let n = events.len() - 1;
        lemma_held_set_is_unreleased_presses(prior, key);
        assert(prior.len() == n);
        assert(forall|j: int| 0 <= j < n ==> prior[j] == events[j]);
        assert(events[n] == last);
        if last.key == key && last.state is Pressed {
            assert(held_after(events).contains(key));
            assert(is_press_of(events[n], key));
            assert(no_release_after(events, key, n));
            assert(pressed_not_released(events, key));
        } else if last.key == key && last.state is Released {
            assert(!held_after(events).contains(key));
            if pressed_not_released(events, key) {
                let i = choose|i: int|
                    0 <= i < events.len() && is_press_of(events[i], key) && no_release_after(
                        events,
                        key,
                        i,
                    );
                assert(is_release_of(events[n], key));
                assert(i < n);
                assert(!is_release_of(events[n], key));
                assert(false);
            }
        } else {
            assert(held_after(events).contains(key) == held_after(prior).contains(key));
            if pressed_not_released(prior, key) {
                let i = choose|i: int|
                    0 <= i < prior.len() && is_press_of(prior[i], key) && no_release_after(
                        prior,
                        key,
                        i,
                    );
                assert(is_press_of(events[i], key));
                assert(no_release_after(events, key, i)) by {
                    assert forall|j: int| i < j < events.len() implies !is_release_of(
                        #[trigger] events[j],
                        key,
                    ) by {
                        if j < n {
                            assert(events[j] == prior[j]);
                        } else {
                            assert(events[j] == last);
                        }
                    }
                };
                assert(pressed_not_released(events, key));
            }
            if pressed_not_released(events, key) {
                let i = choose|i: int|
                    0 <= i < events.len() && is_press_of(events[i], key) && no_release_after(
                        events,
                        key,
                        i,
                    );
                assert(i != n);
                assert(is_press_of(prior[i], key));
                assert(no_release_after(prior, key, i)) by {
                    assert forall|j: int| i < j < prior.len() implies !is_release_of(
                        #[trigger] prior[j],
                        key,
                    ) by {
                        assert(prior[j] == events[j]);
                    }
                };
                assert(pressed_not_released(prior, key));
            }
        }
    }
}

/// A control key (left or right) is in the held set.
pub open spec fn ctrl_held(held: Set<u32>) -> bool {
    held.contains(KEY_LEFTCTRL) || held.contains(KEY_RIGHTCTRL)
}

/// An alt key (left or right) is in the held set.
pub open spec fn alt_held(held: Set<u32>) -> bool {
    held.contains(KEY_LEFTALT) || held.contains(KEY_RIGHTALT)
}

/// Tracks the set of currently-pressed keys from a stream of key
/// transitions.
pub struct ModifierState {
    pressed_keys: HashSet<u32>,
}

impl View for ModifierState {
    type V = Set<u32>;

    closed spec fn view(&self) -> Set<u32> {
        self.pressed_keys@
    }
}

impl ModifierState {
    /// Starts with no key held.
    pub fn new() -> (r: Self)
        ensures
            r@ == Set::<u32>::empty(),
    {
        ModifierState { pressed_keys: HashSet::new() }
    }

    /// Records one key transition: a press inserts the key into the held
    /// set, a release removes it.
    pub fn update(&mut self, key: u32, state: KeyState)
        ensures
            final(self)@ == apply_event(old(self)@, KeyEvent { key, state }),
    {
        match state {
            KeyState::Pressed => {
                self.pressed_keys.insert(key);
            },
            KeyState::Released => {
                self.pressed_keys.remove(&key);
            },
        }
    }

    /// Replays a whole sequence of transitions in order.
    pub fn apply_events(&mut self, events: &Vec<KeyEvent>)
        ensures
            final(self)@ == held_from(old(self)@, events@),
    {
        let ghost start = self@;
        let mut i: usize = 0;
        while i < events.len()
            invariant
                i <= events.len(),
                self@ == held_from(start, events@.take(i as int)),
            decreases events.len() - i,
        {
            let e = events[i];
            self.update(e.key, e.state);
            proof {
                assert(events@.take(i + 1).drop_last() =~= events@.take(i as int));
                assert(events@.take(i + 1).last() == events@[i as int]);
            }
            i = i + 1;
        }
        proof {
            assert(events@.take(events@.len() as int) =~= events@);
        }
    }

    /// Clears every held key. Invoked once per inactive-to-active session
    /// transition, so that releases missed while input was suspended cannot
    /// leave ghost modifiers behind.
    pub fn reset(&mut self)
        ensures
            final(self)@ == Set::<u32>::empty(),
    {
        self.pressed_keys.clear();
    }

    /// Whether the key is currently held.
    pub fn is_pressed(&self, key: u32) -> (r: bool)
        ensures
            r == self@.contains(key),
    {
        self.pressed_keys.contains(&key)
    }

    /// Either control key is held.
    pub fn is_ctrl_pressed(&self) -> (r: bool)
        ensures
            r == ctrl_held(self@),
    {
        self.pressed_keys.contains(&KEY_LEFTCTRL) || self.pressed_keys.contains(&KEY_RIGHTCTRL)
    }

    /// Either alt key is held.
    pub fn is_alt_pressed(&self) -> (r: bool)
        ensures
            r == alt_held(self@),
    {
        self.pressed_keys.contains(&KEY_LEFTALT) || self.pressed_keys.contains(&KEY_RIGHTALT)
    }

    /// Both a control key and an alt key are held.
    pub fn is_ctrl_alt_pressed(&self) -> (r: bool)
        ensures
            r == (ctrl_held(self@) && alt_held(self@)),
    {
        self.is_ctrl_pressed() && self.is_alt_pressed()
    }
}

} // verus!
