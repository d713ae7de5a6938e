//! Deduplication of the raw keyboard event stream.
//!
//! The tracker remembers which keys are currently held down. A key-down
//! event is counted as one distinct physical press only when it is not an
//! OS auto-repeat and its key is not already held; the matching key-up
//! releases the key for the next cycle. A window blur clears all held keys,
//! so a key whose key-up was lost while focus was away can be counted again.

use vstd::prelude::*;

verus! {

/// Signal that one distinct physical press-release cycle has begun.
#[derive(Clone, Copy, Debug, PartialEq, Eq)]
pub struct DistinctPress;

/// A raw keyboard/focus event, as the tracker sees it.
///
/// Values of this type are folded over by the specification functions
/// below, which describe the tracker's behaviour on whole event sequences.
pub enum KeyEvent {
    Down { key: String, repeat: bool },
    Up { key: String },
    Blur,
}

/// What one event does to the set of held keys.
pub open spec fn tracker_step(held: Set<Seq<char>>, event: KeyEvent) -> Set<Seq<char>> {
    match event {
        KeyEvent::Down { key, repeat } => if repeat {
            held
        } else {
            held.insert(key@)
        },
        KeyEvent::Up { key } => held.remove(key@),
        KeyEvent::Blur => Set::empty(),
    }
}

/// Whether one event produces a distinct-press signal: exactly the
/// non-repeat key-down events whose key is not already held.
pub open spec fn event_emits(held: Set<Seq<char>>, event: KeyEvent) -> bool {
    match event {
        KeyEvent::Down { key, repeat } => !repeat && !held.contains(key@),
        KeyEvent::Up { .. } => false,
        KeyEvent::Blur => false,
    }
}

/// The set of held keys after a whole event sequence.
pub open spec fn run_events(held: Set<Seq<char>>, events: Seq<KeyEvent>) -> Set<Seq<char>>
    decreases events.len(),
{
    if events.len() == 0 {
        held
    } else {
        run_events(tracker_step(held, events[0]), events.drop_first())
    }
}

/// How many distinct-press signals a whole event sequence produces.
pub open spec fn emitted_count(held: Set<Seq<char>>, events: Seq<KeyEvent>) -> nat
    decreases events.len(),
{
    if events.len() == 0 {
        0
    } else {
        (if event_emits(held, events[0]) {
            1nat
        } else {
            0nat
        }) + emitted_count(tracker_step(held, events[0]), events.drop_first())
    }
}

/// Whether an event is an auto-repeat key-down.
pub open spec fn is_repeat_down(event: KeyEvent) -> bool {
    match event {
        KeyEvent::Down { repeat, .. } => repeat,
        _ => false,
    }
}

/// The same event sequence with every auto-repeat key-down taken out.
pub open spec fn strip_repeats(events: Seq<KeyEvent>) -> Seq<KeyEvent>
    decreases events.len(),
{
    if events.len() == 0 {
        events
    } else if is_repeat_down(events[0]) {
        strip_repeats(events.drop_first())
    } else {
        seq![events[0]] + strip_repeats(events.drop_first())
    }
}

/// Auto-repeat key-down events are invisible: however they are interleaved
/// with the rest of the stream, they change neither the number of distinct
/// presses emitted nor the final set of held keys.
pub proof fn lemma_repeats_invisible(held: Set<Seq<char>>, events: Seq<KeyEvent>)
    ensures
        emitted_count(held, strip_repeats(events)) == emitted_count(held, events),
        run_events(held, strip_repeats(events)) == run_events(held, events),
    decreases events.len(),
{
    if events.len() == 0 {
    } else {
        let head = events[0];
        let rest = events.drop_first();
        if is_repeat_down(head) {
            assert(tracker_step(held, head) == held);
            assert(!event_emits(held, head));
            lemma_repeats_invisible(held, rest);
        } else {
            assert((seq![head] + strip_repeats(rest))[0] == head);
            assert((seq![head] + strip_repeats(rest)).drop_first() =~= strip_repeats(rest));
            lemma_repeats_invisible(tracker_step(held, head), rest);
        }
    }
}

/// After a blur, the very next non-repeat key-down always emits a distinct
/// press, whatever was held before — even when no key-up for that key ever
/// arrived.
pub proof fn lemma_blur_unblocks(held: Set<Seq<char>>, key: String)
    ensures
        event_emits(tracker_step(held, KeyEvent::Blur), KeyEvent::Down { key, repeat: false }),
{
    assert(!Set::<Seq<char>>::empty().contains(key@));
}

/// Whether `k` is the view of one of the first `upto` strings of `s`.
pub(crate) open spec fn appears(s: Seq<String>, upto: int, k: Seq<char>) -> bool {
    exists|m: int| 0 <= m < upto && s[m]@ == k
}

/// Tracks which keys are currently down and already counted for their
/// press-release cycle.
pub struct KeyTracker {
    pressed: Vec<String>,
}

impl KeyTracker {
    /// The set of currently held key identifiers.
    pub closed spec fn pressed_set(self) -> Set<Seq<char>> {
        Set::new(|k: Seq<char>| appears(self.pressed@, self.pressed@.len() as int, k))
    }

    pub fn new() -> (tracker: KeyTracker)
        ensures
            tracker.pressed_set() == Set::<Seq<char>>::empty(),
    {
        let tracker = KeyTracker { pressed: Vec::new() };
        proof {
            assert(tracker.pressed_set() =~= Set::<Seq<char>>::empty());
        }
        tracker
    }

    /// Whether `key` is currently held.
    pub fn is_held(&self, key: &String) -> (r: bool)
        ensures
            r == self.pressed_set().contains(key@),
    {
        let mut i: usize = 0;
        while i < self.pressed.len()
            invariant
                i <= self.pressed@.len(),
                forall|j: int| 0 <= j < i ==> self.pressed@[j]@ != key@,
            decreases self.pressed@.len() - i,
        {
            if self.pressed[i] == *key {
                proof {
                    assert(self.pressed@[i as int]@ == key@);
                }
                return true;
            }
            i = i + 1;
        }
        false
    }

    /// Feeds one raw key-down event. Emits a `DistinctPress` exactly when
    /// the event is not an auto-repeat and the key is not already held; in
    /// that case the key becomes held. Otherwise the tracker is unchanged.
    pub fn on_key_down(&mut self, key: String, repeat: bool) -> (r: Option<DistinctPress>)
        ensures
            r is Some <==> event_emits(old(self).pressed_set(), KeyEvent::Down { key, repeat }),
            final(self).pressed_set() == tracker_step(
                old(self).pressed_set(),
                KeyEvent::Down { key, repeat },
            ),
            r is None ==> *final(self) == *old(self),
    {
        if repeat {
            return None;
        }
        if self.is_held(&key) {
            proof {
                assert(old(self).pressed_set().insert(key@) =~= old(self).pressed_set());
            }
            return None;
        }
        let ghost old_set = self.pressed_set();
        self.pressed.push(key);
        proof {
            let n = old(self).pressed@.len() as int;
            assert forall|k: Seq<char>|
                self.pressed_set().contains(k) <==> old_set.insert(key@).contains(k) by {
                if appears(self.pressed@, n + 1, k) {
                    let m = choose|m: int| 0 <= m < n + 1 && self.pressed@[m]@ == k;
                    if m < n {
                        assert(old(self).pressed@[m]@ == k);
                        assert(appears(old(self).pressed@, n, k));
                    } else {
                        assert(k == key@);
                    }
                }
                if appears(old(self).pressed@, n, k) {
                    let m = choose|m: int| 0 <= m < n && old(self).pressed@[m]@ == k;
                    assert(self.pressed@[m]@ == k);
                    assert(appears(self.pressed@, n + 1, k));
                }
                if k == key@ {
                    assert(self.pressed@[n]@ == k);
                    assert(appears(self.pressed@, n + 1, k));
                }
            }
            assert(self.pressed_set() =~= old_set.insert(key@));
        }
        Some(DistinctPress)
    }

    /// Feeds one raw key-up event: releases `key` so that its next
    /// non-repeat key-down counts again. A no-op when the key is not held.
    pub fn on_key_up(&mut self, key: &String)
        ensures
            final(self).pressed_set() == old(self).pressed_set().remove(key@),
            final(self).pressed_set() == tracker_step(old(self).pressed_set(), KeyEvent::Up { key: *key }),
    {
        let mut kept: Vec<String> = Vec::new();
        let mut i: usize = 0;
        while i < self.pressed.len()
            invariant
                i <= self.pressed@.len(),
                self.pressed@ == old(self).pressed@,
                forall|j: int| 0 <= j < kept@.len() ==> (#[trigger] kept@[j])@ != key@,
                forall|j: int| 0 <= j < kept@.len() ==> appears(
                    self.pressed@,
                    i as int,
                    (#[trigger] kept@[j])@,
                ),
                forall|m: int| 0 <= m < i && (#[trigger] self.pressed@[m])@ != key@ ==> appears(
                    kept@,
                    kept@.len() as int,
                    self.pressed@[m]@,
                ),
            decreases self.pressed@.len() - i,
        {
            if !(self.pressed[i] == *key) {
                let ghost kept_before = kept@;
                kept.push(self.pressed[i].clone());
                proof {
                    assert(kept@[kept_before.len() as int]@ == self.pressed@[i as int]@);
                    assert forall|m: int|
                        0 <= m < i + 1 && (#[trigger] self.pressed@[m])@ != key@ implies appears(
                        kept@,
                        kept@.len() as int,
                        self.pressed@[m]@,
                    ) by {
                        if m < i {
                            let j = choose|j: int| 0 <= j < kept_before.len()
                                && kept_before[j]@ == self.pressed@[m]@;
                            assert(kept@[j]@ == self.pressed@[m]@);
                        } else {
                            assert(kept@[kept_before.len() as int]@ == self.pressed@[m]@);
                        }
                    }
                }
            }
            i = i + 1;
        }
        self.pressed = kept;
        proof {
            let n = old(self).pressed@.len() as int;
            assert forall|k: Seq<char>|
                self.pressed_set().contains(k) <==> old(self).pressed_set().remove(key@).contains(
                    k,
                ) by {
                if appears(self.pressed@, self.pressed@.len() as int, k) {
                    let j = choose|j: int| 0 <= j < self.pressed@.len() && self.pressed@[j]@ == k;
                    assert(self.pressed@[j]@ != key@);
                    assert(appears(old(self).pressed@, n, k));
                }
                if old(self).pressed_set().remove(key@).contains(k) {
                    let m = choose|m: int| 0 <= m < n && old(self).pressed@[m]@ == k;
                    assert(old(self).pressed@[m]@ != key@);
                    assert(appears(self.pressed@, self.pressed@.len() as int, k));
                }
            }
            assert(self.pressed_set() =~= old(self).pressed_set().remove(key@));
        }
    }

    /// Clears all held keys. Called on window blur: a key whose key-up was
    /// lost while focus was away would otherwise stay blocked forever.
    pub fn on_blur(&mut self)
        ensures
            final(self).pressed_set() == Set::<Seq<char>>::empty(),
            final(self).pressed_set() == tracker_step(old(self).pressed_set(), KeyEvent::Blur),
    {
        self.pressed.clear();
        proof {
            assert(self.pressed_set() =~= Set::<Seq<char>>::empty());
        }
    }

    /// Explicit external reset, called when a race starts or resets;
    /// equivalent to `on_blur`.
    pub fn clear(&mut self)
        ensures
            final(self).pressed_set() == Set::<Seq<char>>::empty(),
    {
        self.on_blur();
    }
}

} // verus!
