//! The key-state tracker: turns a raw stream of (scancode, is-down)
//! observations, which may contain hardware auto-repeat duplicates, into a
//! clean stream of discrete press/release transition events.

use vstd::prelude::*;
use crate::note::Note;
use crate::note::spec_note_of_scancode;

verus! {

/// One discrete transition: a note starts or stops sounding.
#[derive(Clone, Copy, Debug, PartialEq, Eq, Structural)]
pub struct KeyEvent {
    pub note: Note,
    pub pressed: bool,
}

/// The event that a transition on `code` emits: a press or release of the
/// mapped note, or nothing when the code has no musical assignment.
pub open spec fn spec_event_of(code: u32, pressed: bool) -> Option<KeyEvent> {
    match spec_note_of_scancode(code) {
        Some(n) => Some(KeyEvent { note: n, pressed }),
        None => None,
    }
}

/// What one raw observation does: the new set of held keys, and the event
/// emitted, if any. A down observation of a key already held is a repeat
/// and does nothing; a fresh down marks the key held and emits a press; an
/// up unconditionally clears the key and emits a release.
pub open spec fn spec_track(held: Set<u32>, code: u32, is_down: bool) -> (
    Set<u32>,
    Option<KeyEvent>,
) {
    if is_down {
        if held.contains(code) {
            (held, None)
        } else {
            (held.insert(code), spec_event_of(code, true))
        }
    } else {
        (held.remove(code), spec_event_of(code, false))
    }
}

/// What the tracker asks of the surrounding event loop after one raw
/// observation has been dispatched.
#[derive(Clone, Copy, Debug, PartialEq, Eq, Structural)]
pub enum UiReaction {
    /// The escape key was observed: shut the application down.
    Shutdown,
    /// A discrete press/release transition: forward this event.
    Emit(KeyEvent),
    /// A repeat or an unmapped code: nothing to do.
    Silent,
}

/// Tracks which physical keys are currently held down.
pub struct KeyTracker {
    active: Vec<u32>,
}

impl KeyTracker {
    /// The set of scancodes currently considered held down.
    pub closed spec fn active_set(self) -> Set<u32> {
        Set::new(|c: u32| self.active@.contains(c))
    }

    /// The backing list holds each held code exactly once.
    pub closed spec fn wf(self) -> bool {
        self.active@.no_duplicates()
    }

    /// A fresh tracker: no key is held.
    pub fn new() -> (t: KeyTracker)
        ensures
            t.wf(),
            t.active_set() == Set::<u32>::empty(),
    {
        let t = KeyTracker { active: Vec::new() };
        proof {
            assert(t.active_set() =~= Set::<u32>::empty());
        }
        t
    }

    /// Where `code` sits in the backing list, if it is held.
    fn index_of(&self, code: u32) -> (r: Option<usize>)
        ensures
            match r {
                Some(i) => i < self.active.len() && self.active@[i as int] == code,
                None => !self.active@.contains(code),
            },
    {
        let mut i: usize = 0;
        while i < self.active.len()
            invariant
                i <= self.active.len(),
                forall|j: int| 0 <= j < i ==> self.active@[j] != code,
            decreases self.active.len() - i,
        {
            if self.active[i] == code {
                return Some(i);
            }
            i = i + 1;
        }
        None
    }

    /// Whether `code` is currently held down.
    pub fn is_held(&self, code: u32) -> (r: bool)
        ensures
            r == self.active_set().contains(code),
    {
        self.index_of(code).is_some()
    }

    /// Dispatches one raw observation: maintains the held-key set and
    /// returns the transition event to forward, if the observation was a
    /// genuine transition of a mapped key.
    pub fn on_raw_event(&mut self, code: u32, is_down: bool) -> (r: Option<KeyEvent>)
        requires
            old(self).wf(),
        ensures
            final(self).wf(),
            final(self).active_set() == spec_track(old(self).active_set(), code, is_down).0,
            r == spec_track(old(self).active_set(), code, is_down).1,
    {
        if is_down {
            match self.index_of(code) {
                Some(_) => {
                    // A key we already hold: hardware auto-repeat; suppress.
                    None
                },
                None => {
                    self.active.push(code);
                    proof {
                        broadcast use vstd::seq_lib::lemma_seq_contains_after_push;

                        assert(self.active_set() =~= old(self).active_set().insert(code));
                        let s0 = old(self).active@;
                        let s1 = self.active@;
                        assert forall|i: int, j: int|
                            (0 <= i < s1.len() && 0 <= j < s1.len() && i != j) implies s1[i]
                            != s1[j] by {
                            if i < s0.len() && j < s0.len() {
                                assert(s1[i] == s0[i] && s1[j] == s0[j]);
                            } else if j == s0.len() && s1[i] == code {
                                assert(s0.contains(code));
                            } else if i == s0.len() && s1[j] == code {
                                assert(s0.contains(code));
                            }
                        }
                    }
                    match Note::from_scancode(code) {
                        Some(n) => Some(KeyEvent { note: n, pressed: true }),
                        None => None,
                    }
                },
            }
        } else {
            match self.index_of(code) {
                Some(i) => {
                    self.active.remove(i);
                    proof {
                        let s0 = old(self).active@;
                        let s1 = self.active@;
                        s0.remove_ensures(i as int);
                        assert forall|c: u32| s1.contains(c) implies (s0.contains(c) && c
                            != code) by {
                            let k = choose|k: int| 0 <= k < s1.len() && s1[k] == c;
                            if k < i {
                                assert(s0[k] == c);
                            } else {
                                assert(s0[k + 1] == c);
                            }
                        }
                        assert forall|c: u32| s0.contains(c) && c != code implies s1.contains(
                            c,
                        ) by {
                            let k = choose|k: int| 0 <= k < s0.len() && s0[k] == c;
                            if k < i {
                                assert(s1[k] == c);
                            } else {
                                assert(k != i);
                                assert(s1[k - 1] == c);
                            }
                        }
                        assert(self.active_set() =~= old(self).active_set().remove(code));
                        assert forall|a: int, b: int|
                            (0 <= a < s1.len() && 0 <= b < s1.len() && a != b) implies s1[a]
                            != s1[b] by {
                            let a0: int = if a < i {
                                a
                            } else {
                                a + 1
                            };
                            let b0: int = if b < i {
                                b
                            } else {
                                b + 1
                            };
                            assert(s1[a] == s0[a0] && s1[b] == s0[b0]);
                        }
                    }
                },
                None => {
                    proof {
                        assert(self.active_set() =~= old(self).active_set().remove(code));
                    }
                },
            }
            match Note::from_scancode(code) {
                Some(n) => Some(KeyEvent { note: n, pressed: false }),
                None => None,
            }
        }
    }

    /// Dispatches one raw observation together with the escape policy: the
    /// escape key, pressed or released, asks for shutdown before any note
    /// logic runs; otherwise the observation goes through `on_raw_event`.
    pub fn handle_input(&mut self, code: u32, is_down: bool, is_escape: bool) -> (r: UiReaction)
        requires
            old(self).wf(),
        ensures
            final(self).wf(),
            is_escape ==> r == UiReaction::Shutdown && *final(self) == *old(self),
            !is_escape ==> final(self).active_set() == spec_track(
                old(self).active_set(),
                code,
                is_down,
            ).0,
            !is_escape ==> (match spec_track(old(self).active_set(), code, is_down).1 {
                Some(e) => r == UiReaction::Emit(e),
                None => r == UiReaction::Silent,
            }),
    {
        if is_escape {
            return UiReaction::Shutdown;
        }
        match self.on_raw_event(code, is_down) {
            Some(e) => UiReaction::Emit(e),
            None => UiReaction::Silent,
        }
    }
}

/// Repeat suppression is idempotent: once a down observation of `code` has
/// been dispatched, the key is held, and every further down observation of
/// the same code — however many the hardware fires — leaves the held-key
/// set unchanged and emits no event. So each press emits at most one
/// press event per contiguous held interval.
pub proof fn lemma_repeat_press_suppressed(held: Set<u32>, code: u32)
    ensures
        spec_track(held, code, true).0.contains(code),
        spec_track(spec_track(held, code, true).0, code, true) == (
            spec_track(held, code, true).0,
            Option::<KeyEvent>::None,
        ),
{
}

/// A release is processed unconditionally: whatever the held-key set says,
/// an up observation of `code` emits exactly one release event if and only
/// if the code has a note mapping, and afterwards the key is not held.
pub proof fn lemma_release_always_emits(held: Set<u32>, code: u32)
    ensures
        spec_track(held, code, false).1 is Some <==> spec_note_of_scancode(code) is Some,
        spec_note_of_scancode(code) matches Some(n) ==> spec_track(held, code, false).1 == Some(
            KeyEvent { note: n, pressed: false },
        ),
        !spec_track(held, code, false).0.contains(code),
{
}

/// An unmapped code never emits an event, down or up; only the held-key
/// bookkeeping happens.
pub proof fn lemma_unmapped_is_silent(held: Set<u32>, code: u32, is_down: bool)
    requires
        spec_note_of_scancode(code) is None,
    ensures
        spec_track(held, code, is_down).1 is None,
{
}

} // verus!
