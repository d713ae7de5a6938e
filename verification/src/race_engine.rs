//! The race engine: lifecycle state machine, timing and statistics.
//!
//! The engine owns a [`KeyTracker`] and the race state. Raw keyboard events
//! are fed in together with a reading of the caller's monotonic clock in
//! integer milliseconds; the engine answers with the render event the
//! presenter should act on. All statistics are integer-scaled so that the
//! presenter alone deals in fractional display formats.

use vstd::prelude::*;

use crate::key_tracker::KeyTracker;

verus! {

/// Lifecycle of one race.
#[derive(Clone, Copy, Debug, PartialEq, Eq, Structural)]
pub enum RaceState {
    Idle,
    Running,
    Finished,
}

/// What the engine asks its presenter to do after a mutating call.
#[derive(Clone, Copy, Debug, PartialEq, Eq, Structural)]
pub enum RenderEvent {
    /// Redraw progress and live statistics.
    Progress,
    /// The race just finished after `total_ms` milliseconds; show the
    /// final duration.
    Finished { total_ms: u64 },
}

/// A pure statistics snapshot. Quantities are integer-scaled:
/// `percent_hundredths` is hundredths of a percent (10000 means 100%) and
/// `rate_millis` is thousandths of a distinct press per second.
#[derive(Clone, Copy, Debug, PartialEq, Eq, Structural)]
pub struct StatsSnapshot {
    pub count: u32,
    pub target: u32,
    pub percent_hundredths: u32,
    pub elapsed_ms: u64,
    pub rate_millis: u64,
    pub finished: bool,
}

/// A pure description of what the controls should look like, for the
/// presenter to apply to whatever toolkit it uses.
#[derive(Debug, PartialEq, Eq)]
pub struct UiState {
    pub start_label: String,
    pub start_disabled: bool,
    pub reset_disabled: bool,
    pub overlay_visible: bool,
    pub percent_hundredths: u32,
}

/// The number of distinct presses a race requires by default.
pub const DEFAULT_TARGET: u32 = 1000;

/// Milliseconds between `start` and `now`, clamped at zero as a defence
/// against a clock that is not quite monotonic.
pub open spec fn elapsed_ms_from(start: u64, now: u64) -> u64 {
    if now >= start {
        (now - start) as u64
    } else {
        0
    }
}

/// The start instant a press at `now` races against: the recorded one if
/// any, else `now` itself (the first counted press starts the clock).
pub open spec fn effective_start(start: Option<u64>, now: u64) -> u64 {
    match start {
        Some(s) => s,
        None => now,
    }
}

/// Owns the race lifecycle and derives all numeric output.
pub struct RaceEngine {
    target: u32,
    count: u32,
    start_ms: Option<u64>,
    last_total_ms: u64,
    state: RaceState,
    tracker: KeyTracker,
}

impl RaceEngine {
    /// The fixed number of distinct presses required to finish.
    pub closed spec fn target(self) -> u32 {
        self.target
    }

    /// Distinct presses counted in the current race.
    pub closed spec fn count(self) -> u32 {
        self.count
    }

    /// Clock reading of the first counted press, `None` until one arrives.
    pub closed spec fn start_ms(self) -> Option<u64> {
        self.start_ms
    }

    /// Duration of the last finished race, in milliseconds.
    pub closed spec fn last_total_ms(self) -> u64 {
        self.last_total_ms
    }

    /// Current lifecycle state.
    pub closed spec fn state(self) -> RaceState {
        self.state
    }

    /// The keys currently held down.
    pub closed spec fn pressed_set(self) -> Set<Seq<char>> {
        self.tracker.pressed_set()
    }

    /// Well-formedness: the count never exceeds the target, a running race
    /// is strictly below it, a finished race holds exactly the target, an
    /// idle race holds zero, and the clock has started exactly when at
    /// least one press was counted.
    pub open spec fn wf(self) -> bool {
        &&& self.target() >= 1
        &&& self.count() <= self.target()
        &&& (self.state() is Running ==> self.count() < self.target())
        &&& (self.state() is Finished ==> self.count() == self.target())
        &&& (self.state() is Idle ==> self.count() == 0)
        &&& (self.start_ms() is Some <==> self.count() > 0)
    }

    /// Whether a key-down event with these properties is counted: the race
    /// must be running, the event must not be an auto-repeat, and the key
    /// must not already be held.
    pub open spec fn counts_press(self, key: Seq<char>, repeat: bool) -> bool {
        self.state() is Running && !repeat && !self.pressed_set().contains(key)
    }

    pub fn new(target: u32) -> (engine: RaceEngine)
        requires
            target >= 1,
        ensures
            engine.wf(),
            engine.state() is Idle,
            engine.count() == 0,
            engine.target() == target,
            engine.start_ms() is None,
            engine.last_total_ms() == 0,
            engine.pressed_set() == Set::<Seq<char>>::empty(),
    {
        RaceEngine {
            target,
            count: 0,
            start_ms: None,
            last_total_ms: 0,
            state: RaceState::Idle,
            tracker: KeyTracker::new(),
        }
    }

    /// An engine with the default target.
    pub fn new_default() -> (engine: RaceEngine)
        ensures
            engine.wf(),
            engine.state() is Idle,
            engine.count() == 0,
            engine.target() == DEFAULT_TARGET,
            engine.start_ms() is None,
            engine.last_total_ms() == 0,
            engine.pressed_set() == Set::<Seq<char>>::empty(),
    {
        RaceEngine::new(DEFAULT_TARGET)
    }

    /// Arms a race from `Idle` or `Finished`; a second call while already
    /// `Running` is a no-op, so starting is idempotent. The count and the
    /// start instant are cleared, the held keys forgotten, and the last
    /// finish duration kept.
    pub fn start(&mut self)
        requires
            old(self).wf(),
        ensures
            final(self).wf(),
            final(self).state() is Running,
            final(self).target() == old(self).target(),
            final(self).last_total_ms() == old(self).last_total_ms(),
            old(self).state() is Running ==> *final(self) == *old(self),
            !(old(self).state() is Running) ==> final(self).count() == 0,
            !(old(self).state() is Running) ==> final(self).start_ms() is None,
            !(old(self).state() is Running) ==> final(self).pressed_set() == Set::<
                Seq<char>,
            >::empty(),
    {
        match self.state {
            RaceState::Running => {
                return;
            },
            _ => {},
        }
        self.count = 0;
        self.start_ms = None;
        self.state = RaceState::Running;
        self.tracker.clear();
    }

    /// Returns to `Idle` from any state, clearing the count, the start
    /// instant and the held keys. The last finish duration is kept: it is
    /// overwritten only when a race finishes.
    pub fn reset(&mut self)
        requires
            old(self).wf(),
        ensures
            final(self).wf(),
            final(self).state() is Idle,
            final(self).count() == 0,
            final(self).start_ms() is None,
            final(self).pressed_set() == Set::<Seq<char>>::empty(),
            final(self).target() == old(self).target(),
            final(self).last_total_ms() == old(self).last_total_ms(),
    {
        self.count = 0;
        self.start_ms = None;
        self.state = RaceState::Idle;
        self.tracker.clear();
    }

    /// Counts one distinct press at clock reading `now_ms`. A no-op unless
    /// the race is `Running`: a press arriving after the finish and before
    /// a reset is silently dropped. The first counted press starts the
    /// clock; the press that reaches the target finishes the race, records
    /// its duration and reports it.
    pub fn record_distinct_press(&mut self, now_ms: u64) -> (r: Option<RenderEvent>)
        requires
            old(self).wf(),
        ensures
            final(self).wf(),
            final(self).target() == old(self).target(),
            final(self).pressed_set() == old(self).pressed_set(),
            !(old(self).state() is Running) ==> *final(self) == *old(self) && r is None,
            old(self).state() is Running ==> final(self).count() == old(self).count() + 1,
            old(self).state() is Running ==> final(self).start_ms() == Some(
                effective_start(old(self).start_ms(), now_ms),
            ),
            old(self).state() is Running && old(self).count() + 1 < old(self).target() ==> (
            final(self).state() is Running && final(self).last_total_ms() == old(
                self,
            ).last_total_ms() && r == Some(RenderEvent::Progress)),
            old(self).state() is Running && old(self).count() + 1 == old(self).target() ==> (
            final(self).state() is Finished && final(self).last_total_ms() == elapsed_ms_from(
                effective_start(old(self).start_ms(), now_ms),
                now_ms,
            ) && r == Some(
                RenderEvent::Finished { total_ms: final(self).last_total_ms() },
            )),
    {
        match self.state {
            RaceState::Running => {},
            _ => {
                return None;
            },
        }
        if self.start_ms.is_none() {
            self.start_ms = Some(now_ms);
        }
        self.count = self.count.saturating_add(1);
        if self.count >= self.target {
            self.state = RaceState::Finished;
            let started: u64 = match self.start_ms {
                Some(s) => s,
                None => now_ms,
            };
            let total: u64 = if now_ms >= started {
                now_ms - started
            } else {
                0
            };
            self.last_total_ms = total;
            Some(RenderEvent::Finished { total_ms: total })
        } else {
            Some(RenderEvent::Progress)
        }
    }

    /// Feeds one raw key-down event. The event is dropped — with nothing
    /// changed — unless the race is running, the event is not an
    /// auto-repeat, and the key is not already held; otherwise the key
    /// becomes held and the press is counted as by
    /// [`Self::record_distinct_press`].
    pub fn on_key_down(&mut self, key: String, repeat: bool, now_ms: u64) -> (r: Option<
        RenderEvent,
    >)
        requires
            old(self).wf(),
        ensures
            final(self).wf(),
            final(self).target() == old(self).target(),
            r is Some <==> old(self).counts_press(key@, repeat),
            !old(self).counts_press(key@, repeat) ==> *final(self) == *old(self),
            old(self).counts_press(key@, repeat) ==> final(self).pressed_set() == old(
                self,
            ).pressed_set().insert(key@),
            old(self).counts_press(key@, repeat) ==> final(self).count() == old(self).count() + 1,
            old(self).counts_press(key@, repeat) ==> final(self).start_ms() == Some(
                effective_start(old(self).start_ms(), now_ms),
            ),
            old(self).counts_press(key@, repeat) && old(self).count() + 1 < old(self).target()
                ==> (final(self).state() is Running && final(self).last_total_ms() == old(
                self,
            ).last_total_ms() && r == Some(RenderEvent::Progress)),
            old(self).counts_press(key@, repeat) && old(self).count() + 1 == old(self).target()
                ==> (final(self).state() is Finished && final(self).last_total_ms()
                == elapsed_ms_from(effective_start(old(self).start_ms(), now_ms), now_ms) && r
                == Some(RenderEvent::Finished { total_ms: final(self).last_total_ms() })),
    {
        match self.state {
            RaceState::Running => {},
            _ => {
                return None;
            },
        }
        let pressed = self.tracker.on_key_down(key, repeat);
        match pressed {
            None => None,
            Some(_) => self.record_distinct_press(now_ms),
        }
    }

    /// Feeds one raw key-up event: releases the key in the tracker so that
    /// its next non-repeat key-down counts again. Race state, count and
    /// timing are untouched.
    pub fn on_key_up(&mut self, key: &String)
        requires
            old(self).wf(),
        ensures
            final(self).wf(),
            final(self).pressed_set() == old(self).pressed_set().remove(key@),
            final(self).target() == old(self).target(),
            final(self).count() == old(self).count(),
            final(self).start_ms() == old(self).start_ms(),
            final(self).last_total_ms() == old(self).last_total_ms(),
            final(self).state() == old(self).state(),
    {
        self.tracker.on_key_up(key);
    }

    /// The window lost focus: forget every held key, so that keys whose
    /// key-up events were lost are not blocked forever. Race state, count
    /// and timing are untouched.
    pub fn on_blur(&mut self)
        requires
            old(self).wf(),
        ensures
            final(self).wf(),
            final(self).pressed_set() == Set::<Seq<char>>::empty(),
            final(self).target() == old(self).target(),
            final(self).count() == old(self).count(),
            final(self).start_ms() == old(self).start_ms(),
            final(self).last_total_ms() == old(self).last_total_ms(),
            final(self).state() == old(self).state(),
    {
        self.tracker.on_blur();
    }

    /// Live elapsed time at clock reading `now_ms`: zero until the first
    /// counted press, afterwards the time since it, clamped at zero.
    pub open spec fn spec_elapsed_ms(self, now: u64) -> u64 {
        match self.start_ms() {
            None => 0u64,
            Some(s) => elapsed_ms_from(s, now),
        }
    }

    /// Milliseconds elapsed since the first counted press; zero before it.
    pub fn elapsed_ms(&self, now_ms: u64) -> (r: u64)
        ensures
            r == self.spec_elapsed_ms(now_ms),
    {
        match self.start_ms {
            None => 0,
            Some(s) => if now_ms >= s {
                now_ms - s
            } else {
                0
            },
        }
    }

    /// The current lifecycle state.
    pub fn current_state(&self) -> (s: RaceState)
        ensures
            s == self.state(),
    {
        self.state
    }

    /// The duration of the last finished race in milliseconds; zero when
    /// no race has finished yet.
    pub fn last_finish_ms(&self) -> (r: u64)
        ensures
            r == self.last_total_ms(),
    {
        self.last_total_ms
    }

    /// A statistics snapshot at clock reading `now_ms`. While finished it
    /// reports the frozen final duration and the final rate with a floor
    /// of one millisecond against division by zero; otherwise the live
    /// elapsed time and the live rate, zero until the clock has started.
    pub fn stats_snapshot(&self, now_ms: u64) -> (snap: StatsSnapshot)
        requires
            self.wf(),
        ensures
            snap.count == self.count(),
            snap.target == self.target(),
            snap.finished == (self.state() is Finished),
            snap.percent_hundredths == self.count() as int * 10000 / (self.target() as int),
            !(self.state() is Finished) ==> snap.elapsed_ms == self.spec_elapsed_ms(now_ms),
            !(self.state() is Finished) && snap.elapsed_ms > 0 ==> snap.rate_millis
                == self.count() as int * 1000000 / (snap.elapsed_ms as int),
            !(self.state() is Finished) && snap.elapsed_ms == 0 ==> snap.rate_millis == 0,
            self.state() is Finished ==> snap.elapsed_ms == self.last_total_ms(),
            self.state() is Finished ==> snap.rate_millis == self.target() as int * 1000000 / (
            if self.last_total_ms() >= 1 {
                self.last_total_ms() as int
            } else {
                1
            }),
    {
        let percent_wide: u64 = (self.count as u64) * 10000 / (self.target as u64);
        proof {
            assert((self.count as int) * 10000 / (self.target as int) <= 10000)
                by (nonlinear_arith)
                requires
                    1 <= self.target as int,
                    self.count as int <= self.target as int,
            ;
        }
        let percent: u32 = percent_wide as u32;
        let finished: bool = match self.state {
            RaceState::Finished => true,
            _ => false,
        };
        if finished {
            let floor_ms: u64 = if self.last_total_ms >= 1 {
                self.last_total_ms
            } else {
                1
            };
            StatsSnapshot {
                count: self.count,
                target: self.target,
                percent_hundredths: percent,
                elapsed_ms: self.last_total_ms,
                rate_millis: (self.target as u64) * 1000000 / floor_ms,
                finished: true,
            }
        } else {
            let elapsed: u64 = self.elapsed_ms(now_ms);
            let rate: u64 = if elapsed > 0 {
                (self.count as u64) * 1000000 / elapsed
            } else {
                0
            };
            StatsSnapshot {
                count: self.count,
                target: self.target,
                percent_hundredths: percent,
                elapsed_ms: elapsed,
                rate_millis: rate,
                finished: false,
            }
        }
    }

    /// A pure description of the controls: the start button reads
    /// "Racing..." and both buttons are disabled exactly while running, and
    /// the finish overlay is visible exactly while finished.
    pub fn ui_state(&self) -> (ui: UiState)
        requires
            self.wf(),
        ensures
            self.state() is Running ==> ui.start_label@ == "Racing..."@,
            !(self.state() is Running) ==> ui.start_label@ == "Start"@,
            ui.start_disabled == (self.state() is Running),
            ui.reset_disabled == (self.state() is Running),
            ui.overlay_visible == (self.state() is Finished),
            ui.percent_hundredths == self.count() as int * 10000 / (self.target() as int),
    {
        let running: bool = match self.state {
            RaceState::Running => true,
            _ => false,
        };
        let finished: bool = match self.state {
            RaceState::Finished => true,
            _ => false,
        };
        let label: String = if running {
            "Racing...".to_owned()
        } else {
            "Start".to_owned()
        };
        let percent_wide: u64 = (self.count as u64) * 10000 / (self.target as u64);
        proof {
            assert((self.count as int) * 10000 / (self.target as int) <= 10000)
                by (nonlinear_arith)
                requires
                    1 <= self.target as int,
                    self.count as int <= self.target as int,
            ;
        }
        UiState {
            start_label: label,
            start_disabled: running,
            reset_disabled: running,
            overlay_visible: finished,
            percent_hundredths: percent_wide as u32,
        }
    }
}

/// In a well-formed engine the press count never exceeds the target, and a
/// finished race holds exactly the target count.
pub proof fn lemma_count_bounded(engine: RaceEngine)
    requires
        engine.wf(),
    ensures
        engine.count() <= engine.target(),
        engine.state() is Finished ==> engine.count() == engine.target(),
{
}

} // verus!
