//! How long an agent has actually spent working, shown beside its state word.
//!
//! The clock runs only while an agent is `working`, pauses while it is
//! `waiting` on a person, and stops for good when the turn ends. Time enters
//! through arguments, so every transition is a function of its inputs.

use std::collections::HashMap;
use vstd::prelude::*;
use vstd::std_specs::iter::IteratorSpec;

use crate::agent::{AgentState, PaneId};
use crate::app::App;
use crate::time::{clock_reading, Duration, Instant, MAX_NANOS, NANOS_PER_SEC};

verus! {

broadcast use vstd::std_specs::hash::group_hash_axioms;

/// What a [`WorkTimer`] holds: time banked by earlier stretches of this turn,
/// and when the current stretch began, if the clock is running.
pub struct WorkTimerView {
    pub banked: nat,
    pub running_since: Option<nat>,
}

impl WorkTimerView {
    /// Working time as of `now`, counting a stretch that began after `now`
    /// as nothing rather than as negative time.
    pub open spec fn elapsed_at(self, now: nat) -> nat {
        match self.running_since {
            Some(since) => self.banked + if now >= since { (now - since) as nat } else { 0 },
            None => self.banked,
        }
    }

    pub open spec fn is_running(self) -> bool {
        self.running_since is Some
    }

    /// When the displayed whole-second figure next changes, for a running clock.
    pub open spec fn next_change(self, now: nat) -> nat {
        (now + (NANOS_PER_SEC - self.elapsed_at(now) % (NANOS_PER_SEC as nat))) as nat
    }

    /// Reading the clock at `now` stays within the representable range.
    pub open spec fn fits_at(self, now: nat) -> bool {
        self.elapsed_at(now) <= MAX_NANOS
    }

    /// The clock stopped at `now`, its running stretch banked.
    pub open spec fn paused(self, now: nat) -> WorkTimerView {
        WorkTimerView { banked: self.elapsed_at(now), running_since: None }
    }

    /// A fresh turn whose clock started at `now`.
    pub open spec fn started(now: nat) -> WorkTimerView {
        WorkTimerView { banked: 0, running_since: Some(now) }
    }

    /// The clock picked back up at `now` where it left off.
    pub open spec fn resumed(self, now: nat) -> WorkTimerView {
        if self.running_since is Some {
            self
        } else {
            WorkTimerView { banked: self.banked, running_since: Some(now) }
        }
    }
}

/// One pane's working time.
#[derive(Debug, Clone, Copy, PartialEq, Eq)]
pub struct WorkTimer {
    /// Working time banked by earlier stretches of this turn.
    accumulated: Duration,
    /// When the current stretch began, or `None` while the clock is stopped.
    running_since: Option<Instant>,
}

impl View for WorkTimer {
    type V = WorkTimerView;

    closed spec fn view(&self) -> WorkTimerView {
        WorkTimerView {
            banked: self.accumulated@,
            running_since: match self.running_since {
                Some(t) => Some(t@),
                None => None,
            },
        }
    }
}

impl Default for WorkTimer {
    fn default() -> (t: WorkTimer)
        ensures
            t@ == (WorkTimerView { banked: 0, running_since: None }),
    {
        WorkTimer { accumulated: Duration::zero(), running_since: None }
    }
}

impl WorkTimer {
    /// Working time as of `now`, including any stretch still running.
    ///
    /// A reading taken before the stretch began counts that stretch as zero,
    /// so a clock that steps backwards never shows a negative figure.
    pub fn elapsed(&self, now: Instant) -> (d: Duration)
        requires
            self@.fits_at(now@),
        ensures
            d@ == self@.elapsed_at(now@),
    {
        match self.running_since {
            Some(since) => now.saturating_duration_since(since).plus(self.accumulated),
            None => self.accumulated,
        }
    }

    pub fn is_running(&self) -> (b: bool)
        ensures
            b == self@.is_running(),
    {
        self.running_since.is_some()
    }

    /// Banks the running stretch and stops the clock.
    pub fn pause(&mut self, now: Instant)
        requires
            old(self)@.fits_at(now@),
        ensures
            final(self)@ == old(self)@.paused(now@),
    {
        if let Some(since) = self.running_since {
            self.accumulated = now.saturating_duration_since(since).plus(self.accumulated);
            self.running_since = None;
        }
    }

    /// Starts a new turn from zero.
    pub fn restart(&mut self, now: Instant)
        ensures
            final(self)@ == WorkTimerView::started(now@),
    {
        self.accumulated = Duration::zero();
        self.running_since = Some(now);
    }

    /// Picks the clock back up where it left off.
    pub fn resume(&mut self, now: Instant)
        ensures
            final(self)@ == old(self)@.resumed(now@),
    {
        if self.running_since.is_none() {
            self.running_since = Some(now);
        }
    }
}


/// Whether a transition from `previous` to `state` stops a running clock.
pub open spec fn transition_pauses(previous: AgentState, state: AgentState) -> bool {
    match state {
        AgentState::Working => false,
        AgentState::Blocked => previous == AgentState::Working,
        AgentState::Idle | AgentState::Unknown => true,
    }
}

/// Every pane's working time after one state transition, per the rules of
/// [`WorkTimers::on_state_change`].
pub open spec fn timers_after_transition(
    timers: Map<u32, WorkTimerView>,
    pane: u32,
    previous: AgentState,
    state: AgentState,
    now: nat,
) -> Map<u32, WorkTimerView> {
    match state {
        AgentState::Working => if previous == AgentState::Blocked && timers.contains_key(pane) {
            timers.insert(pane, timers[pane].resumed(now))
        } else {
            timers.insert(pane, WorkTimerView::started(now))
        },
        AgentState::Blocked => match previous {
            AgentState::Working => if timers.contains_key(pane) {
                timers.insert(pane, timers[pane].paused(now))
            } else {
                timers
            },
            AgentState::Idle | AgentState::Unknown => timers.remove(pane),
            AgentState::Blocked => timers,
        },
        AgentState::Idle | AgentState::Unknown => if timers.contains_key(pane) {
            timers.insert(pane, timers[pane].paused(now))
        } else {
            timers
        },
    }
}

/// Every pane's working time, keyed by the pane's raw id.
#[derive(Debug, Clone)]
pub struct WorkTimers {
    timers: HashMap<u32, WorkTimer>,
}

impl View for WorkTimers {
    type V = Map<u32, WorkTimerView>;

    closed spec fn view(&self) -> Map<u32, WorkTimerView> {
        Map::new(|k: u32| self.timers@.contains_key(k), |k: u32| self.timers@[k]@)
    }
}

impl Default for WorkTimers {
    fn default() -> (timers: WorkTimers)
        ensures
            timers@ == Map::<u32, WorkTimerView>::empty(),
    {
        let timers = WorkTimers { timers: HashMap::new() };
        assert(timers@ =~= Map::<u32, WorkTimerView>::empty());
        timers
    }
}

impl WorkTimers {
    /// Reading every running clock at `now` stays within range, including the
    /// deadline at which its displayed figure next changes.
    pub open spec fn deadlines_fit(self, now: nat) -> bool {
        forall|k: u32|
            #[trigger] self@.contains_key(k) && self@[k].is_running() ==> {
                &&& self@[k].fits_at(now)
                &&& self@[k].next_change(now) <= MAX_NANOS
            }
    }

    /// Some running clock's figure changes at `at`.
    pub open spec fn some_change_at(self, now: nat, at: nat) -> bool {
        exists|k: u32|
            #[trigger] self@.contains_key(k) && self@[k].is_running() && self@[k].next_change(now)
                == at
    }

    /// No running clock's figure changes before `at`.
    pub open spec fn no_change_before(self, now: nat, at: nat) -> bool {
        forall|k: u32|
            #[trigger] self@.contains_key(k) && self@[k].is_running() ==> at <= self@[k].next_change(
                now,
            )
    }

    pub open spec fn any_running(self) -> bool {
        exists|k: u32| #[trigger] self@.contains_key(k) && self@[k].is_running()
    }

    pub fn get(&self, pane_id: PaneId) -> (timer: Option<&WorkTimer>)
        ensures
            match timer {
                Some(t) => self@.contains_key(pane_id@) && t@ == self@[pane_id@],
                None => !self@.contains_key(pane_id@),
            },
    {
        self.timers.get(&pane_id.raw())
    }

    pub fn is_empty(&self) -> (b: bool)
        ensures
            b == (self@.dom() =~= Set::<u32>::empty()),
    {
        let b = self.timers.is_empty();
        proof {
            if !b {
                let k = self.timers@.dom().choose();
                assert(self@.dom().contains(k));
            }
        }
        b
    }

    /// Applies one state transition.
    ///
    /// Meant for genuine transitions only, but a repeated report of the state
    /// a pane is already in cannot restart or rewind anything. `Unknown`
    /// behaves exactly as `Idle`.
    pub fn on_state_change(
        &mut self,
        pane_id: PaneId,
        previous: AgentState,
        state: AgentState,
        now: Instant,
    )
        requires
            transition_pauses(previous, state) && old(self)@.contains_key(pane_id@) ==> old(
                self,
            )@[pane_id@].fits_at(now@),
        ensures
            final(self)@ == timers_after_transition(old(self)@, pane_id@, previous, state, now@),
    {
        let raw = pane_id.raw();
        match state {
            AgentState::Working => {
                let mut timer = match self.timers.get(&raw) {
                    Some(t) => *t,
                    None => WorkTimer::default(),
                };
                if previous == AgentState::Blocked {
                    // Coming back from a question resumes the same turn.
                    timer.resume(now);
                } else {
                    // Anything else is a new piece of work and starts from zero.
                    timer.restart(now);
                }
                self.timers.insert(raw, timer);
            },
            AgentState::Blocked => match previous {
                // Waiting on a person is not working, but the turn is not
                // over either: bank the time and keep showing it.
                AgentState::Working => {
                    self.pause_if_present(raw, now);
                },
                // Waiting reached without working first: no work has been
                // measured, and a finished turn's total would be a wrong
                // figure to print beside `waiting`.
                AgentState::Idle | AgentState::Unknown => {
                    self.timers.remove(&raw);
                },
                AgentState::Blocked => {},
            },
            // The turn ended. The total stays put until the next turn starts.
            AgentState::Idle | AgentState::Unknown => {
                self.pause_if_present(raw, now);
            },
        }
        assert(self@ =~= timers_after_transition(old(self)@, pane_id@, previous, state, now@));
    }

    fn pause_if_present(&mut self, raw: u32, now: Instant)
        requires
            old(self)@.contains_key(raw) ==> old(self)@[raw].fits_at(now@),
        ensures
            final(self)@ == if old(self)@.contains_key(raw) {
                old(self)@.insert(raw, old(self)@[raw].paused(now@))
            } else {
                old(self)@
            },
    {
        let current = self.timers.get(&raw);
        match current {
            Some(t) => {
                let mut timer = *t;
                timer.pause(now);
                self.timers.insert(raw, timer);
                assert(self@ =~= old(self)@.insert(raw, old(self)@[raw].paused(now@)));
            },
            None => {},
        }
    }

    /// Whether [`WorkTimers::deadlines_fit`] holds at `now`.
    pub fn deadlines_fit_at(&self, now: Instant) -> (fit: bool)
        ensures
            fit == self.deadlines_fit(now@),
    {
        let all = self.values();
        let mut i: usize = 0;
        while i < all.len()
            invariant
                i <= all@.len(),
                all@.len() == self@.dom().len(),
                forall|j: int| 0 <= j < all@.len() ==> self@.values().contains(#[trigger] all@[j]@),
                forall|k: u32|
                    #[trigger] self@.contains_key(k) ==> exists|j: int|
                        0 <= j < all@.len() && all@[j]@ == self@[k],
                forall|j: int|
                    0 <= j < i && (#[trigger] all@[j]@).is_running() ==> all@[j]@.fits_at(now@)
                        && all@[j]@.next_change(now@) <= MAX_NANOS,
            decreases all@.len() - i,
        {
            let timer = all[i];
            if let Some(since) = timer.running_since {
                let stretch_span = now.saturating_duration_since(since);
                proof {
                    use_type_invariant(&stretch_span);
                    use_type_invariant(&timer.accumulated);
                    use_type_invariant(&now);
                }
                let stretch = stretch_span.as_nanos();
                let elapsed = stretch + timer.accumulated.as_nanos();
                let fits = elapsed <= MAX_NANOS && now.as_nanos() + (NANOS_PER_SEC - elapsed
                    % NANOS_PER_SEC) <= MAX_NANOS;
                if !fits {
                    proof {
                        assert(self@.values().contains(all@[i as int]@));
                        let k = choose|k: u32| self@.contains_key(k) && self@[k] == all@[i as int]@;
                        assert(self@.contains_key(k) && self@[k].is_running());
                    }
                    return false;
                }
            }
            i = i + 1;
        }
        proof {
            assert forall|k: u32|
                #[trigger] self@.contains_key(k) && self@[k].is_running() implies {
                &&& self@[k].fits_at(now@)
                &&& self@[k].next_change(now@) <= MAX_NANOS
            } by {
                let j = choose|j: int| 0 <= j < all@.len() && all@[j]@ == self@[k];
                assert(all@[j]@.is_running());
            }
        }
        true
    }

    /// `timers` lists, position by position, the timers of `panes`: every
    /// pane that has a timer appears exactly once.
    pub open spec fn lists_each_pane_once(self, panes: Seq<u32>, timers: Seq<WorkTimer>) -> bool {
        &&& panes.len() == timers.len()
        &&& panes.no_duplicates()
        &&& panes.to_set() == self@.dom()
        &&& forall|i: int| 0 <= i < timers.len() ==> #[trigger] timers[i]@ == self@[panes[i]]
    }

    /// Every pane's timer, each exactly once, in no particular order.
    pub fn values(&self) -> (v: Vec<WorkTimer>)
        ensures
            exists|panes: Seq<u32>| #[trigger] self.lists_each_pane_once(panes, v@),
            v@.len() == self@.dom().len(),
            forall|i: int| 0 <= i < v@.len() ==> self@.values().contains(#[trigger] v@[i]@),
            forall|k: u32|
                #[trigger] self@.contains_key(k) ==> exists|i: int|
                    0 <= i < v@.len() && v@[i]@ == self@[k],
    {
        let mut v: Vec<WorkTimer> = Vec::new();
        let ghost panes = self.timers.keys().remaining().unref();
        assert(panes.to_set() == self.timers@.dom());
        assert(panes.no_duplicates());
        for k in it: self.timers.keys()
            invariant
                it.seq().unref() == panes,
                panes.to_set() == self.timers@.dom(),
                v@.len() == it.index(),
                forall|i: int| 0 <= i < it.index() ==> #[trigger] v@[i]@ == self@[panes[i]],
        {
            proof {
                assert(panes.to_set().contains(panes[v@.len() as int]));
            }
            match self.timers.get(k) {
                Some(t) => {
                    v.push(*t);
                },
                None => {},
            }
        }
        proof {
            assert(self@.dom() =~= self.timers@.dom());
            panes.unique_seq_to_set();
            assert(self.lists_each_pane_once(panes, v@));
            assert forall|i: int| 0 <= i < v@.len() implies self@.values().contains(
                #[trigger] v@[i]@,
            ) by {
                assert(panes.to_set().contains(panes[i]));
                assert(self@.contains_key(panes[i]));
            }
            assert forall|k: u32| #[trigger] self@.contains_key(k) implies exists|i: int|
                0 <= i < v@.len() && v@[i]@ == self@[k] by {
                assert(panes.to_set().contains(k));
                let i = choose|i: int| 0 <= i < panes.len() && panes[i] == k;
                assert(v@[i]@ == self@[k]);
            }
        }
        v
    }

    /// When a displayed figure will next change, or `None` while no clock runs.
    ///
    /// Only a running clock moves, so a sidebar full of finished agents costs
    /// no wake-ups. The deadline is the next whole second of the displayed
    /// value rather than a fixed tick, so the redraw lands on the change.
    pub fn next_deadline(&self, now: Instant) -> (deadline: Option<Instant>)
        requires
            self.deadlines_fit(now@),
        ensures
            match deadline {
                None => !self.any_running(),
                Some(at) => self.some_change_at(now@, at@) && self.no_change_before(now@, at@),
            },
    {
        let all = self.values();
        let mut best: Option<Instant> = None;
        for i in 0..all.len()
            invariant
                all@.len() == self@.dom().len(),
                forall|j: int| 0 <= j < all@.len() ==> self@.values().contains(#[trigger] all@[j]@),
                self.deadlines_fit(now@),
                match best {
                    None => forall|j: int| 0 <= j < i ==> !(#[trigger] all@[j]@).is_running(),
                    Some(b) => {
                        &&& exists|j: int|
                            0 <= j < i && (#[trigger] all@[j]@).is_running() && all@[j]@.next_change(
                                now@,
                            ) == b@
                        &&& forall|j: int|
                            0 <= j < i && (#[trigger] all@[j]@).is_running() ==> b@
                                <= all@[j]@.next_change(now@)
                    },
                },
        {
            let timer = all[i];
            if timer.is_running() {
                proof {
                    assert(self@.values().contains(all@[i as int]@));
                    let k = choose|k: u32| self@.contains_key(k) && self@[k] == all@[i as int]@;
                    assert(self@.contains_key(k) && self@[k].is_running());
                }
                let elapsed = timer.elapsed(now);
                let remainder = Duration::from_nanos(elapsed.subsec_nanos() as u64);
                let candidate = now.plus(Duration::from_secs(1).saturating_sub(remainder));
                best = match best {
                    None => Some(candidate),
                    Some(b) => if candidate.is_before(&b) {
                        Some(candidate)
                    } else {
                        Some(b)
                    },
                };
            }
        }
        proof {
            match best {
                None => {
                    assert forall|k: u32| #[trigger] self@.contains_key(k) implies !self@[k].is_running() by {
                        let j = choose|j: int| 0 <= j < all@.len() && all@[j]@ == self@[k];
                        assert(!all@[j]@.is_running());
                    }
                },
                Some(b) => {
                    let j = choose|j: int|
                        0 <= j < all@.len() && (#[trigger] all@[j]@).is_running()
                            && all@[j]@.next_change(now@) == b@;
                    assert(self@.values().contains(all@[j]@));
                    let k = choose|k: u32| self@.contains_key(k) && self@[k] == all@[j]@;
                    assert(self@.contains_key(k) && self@[k].is_running() && self@[k].next_change(now@) == b@);
                    assert forall|k2: u32| #[trigger] self@.contains_key(k2) && self@[k2].is_running() implies b@ <= self@[k2].next_change(now@) by {
                        let j2 = choose|j2: int| 0 <= j2 < all@.len() && all@[j2]@ == self@[k2];
                        assert(all@[j2]@.is_running());
                    }
                },
            }
        }
        best
    }

    /// Forgets a pane's time entirely.
    ///
    /// Used when a pane closes and when its agent is replaced, so a new agent
    /// never inherits the last one's total.
    pub fn clear(&mut self, pane_id: PaneId)
        ensures
            final(self)@ == old(self)@.remove(pane_id@),
    {
        self.timers.remove(&pane_id.raw());
        assert(self@ =~= old(self)@.remove(pane_id@));
    }
}


/// The deadline a sidebar wake-up is owed when the working-time figures are
/// read at `now`: none while no clock runs, else the soonest moment at which
/// a displayed figure changes.
pub open spec fn deadline_for(timers: WorkTimers, now: nat, deadline: Option<Instant>) -> bool {
    match deadline {
        None => !timers.any_running(),
        Some(at) => timers.some_change_at(now, at@) && timers.no_change_before(now, at@),
    }
}

/// Some running clock shows a different whole-second figure at `later` than
/// at `earlier`.
pub open spec fn figure_moves(timers: Map<u32, WorkTimerView>, earlier: nat, later: nat) -> bool {
    exists|k: u32|
        #[trigger] timers.contains_key(k) && timers[k].is_running() && timers[k].elapsed_at(earlier)
            / (NANOS_PER_SEC as nat) != timers[k].elapsed_at(later) / (NANOS_PER_SEC as nat)
}

impl App {
    /// Advances the clock the sidebar reads working time against.
    ///
    /// Returns whether a drawn figure actually changed, so a sidebar of
    /// finished agents never marks the frame dirty.
    #[verifier::loop_isolation(false)]
    pub fn handle_work_timer_tick(&mut self, now: Instant) -> (changed: bool)
        requires
            forall|k: u32|
                #[trigger] old(self).state.work_timers@.contains_key(k)
                    && old(self).state.work_timers@[k].is_running() ==> {
                    &&& old(self).state.work_timers@[k].fits_at(now@)
                    &&& (old(self).state.work_clock matches Some(p) ==> old(
                        self,
                    ).state.work_timers@[k].fits_at(p@))
                },
        ensures
            old(self).state.work_timers@.dom().is_empty() ==> {
                &&& !changed
                &&& final(self).state.work_clock == old(self).state.work_clock
            },
            !old(self).state.work_timers@.dom().is_empty() ==> {
                &&& final(self).state.work_clock == Some(now)
                &&& changed == match old(self).state.work_clock {
                    None => true,
                    Some(previous) => figure_moves(old(self).state.work_timers@, previous@, now@),
                }
            },
            final(self).state.work_timers@ == old(self).state.work_timers@,
            final(self).state.system_resources == old(self).state.system_resources,
            final(self).state.sidebar_resources == old(self).state.sidebar_resources,
            final(self).state.sidebar_collapsed == old(self).state.sidebar_collapsed,
            final(self).state.view == old(self).state.view,
            final(self).state.agent_states@ == old(self).state.agent_states@,
            final(self).system_resource_schedule == old(self).system_resource_schedule,
            final(self).clock_origin == old(self).clock_origin,
    {
        if self.state.work_timers.is_empty() {
            return false;
        }
        let previous = self.state.work_clock;
        self.state.work_clock = Some(now);
        let previous = match previous {
            None => {
                return true;
            },
            Some(p) => p,
        };
        let timers = &self.state.work_timers;
        let all = timers.values();
        let mut i: usize = 0;
        while i < all.len()
            invariant
                i <= all@.len(),
                all@.len() == timers@.dom().len(),
                forall|j: int| 0 <= j < all@.len() ==> timers@.values().contains(#[trigger] all@[j]@),
                forall|k: u32|
                    #[trigger] timers@.contains_key(k) ==> exists|j: int|
                        0 <= j < all@.len() && all@[j]@ == timers@[k],
                forall|k: u32|
                    #[trigger] timers@.contains_key(k) && timers@[k].is_running() ==> {
                        &&& timers@[k].fits_at(now@)
                        &&& timers@[k].fits_at(previous@)
                    },
                forall|j: int|
                    0 <= j < i && (#[trigger] all@[j]@).is_running() ==> all@[j]@.elapsed_at(
                        previous@,
                    ) / (NANOS_PER_SEC as nat) == all@[j]@.elapsed_at(now@) / (NANOS_PER_SEC as nat),
            decreases all@.len() - i,
        {
            let timer = all[i];
            if timer.is_running() {
                proof {
                    assert(timers@.values().contains(all@[i as int]@));
                    let k = choose|k: u32| timers@.contains_key(k) && timers@[k] == all@[i as int]@;
                    assert(timers@.contains_key(k) && timers@[k].is_running());
                }
                if timer.elapsed(previous).as_secs() != timer.elapsed(now).as_secs() {
                    proof {
                        let k = choose|k: u32| timers@.contains_key(k) && timers@[k] == all@[i as int]@;
                        assert(timers@.contains_key(k) && timers@[k].is_running());
                    }
                    return true;
                }
            }
            i = i + 1;
        }
        proof {
            assert forall|k: u32|
                #[trigger] timers@.contains_key(k) && timers@[k].is_running() implies timers@[k].elapsed_at(
                previous@,
            ) / (NANOS_PER_SEC as nat) == timers@[k].elapsed_at(now@) / (NANOS_PER_SEC as nat) by {
                let j = choose|j: int| 0 <= j < all@.len() && all@[j]@ == timers@[k];
                assert(all@[j]@.is_running());
            }
        }
        false
    }

    /// When a drawn working-time figure will next change, or `None` while no
    /// clock runs.
    ///
    /// Figures are read against the last tick's moment, or against the clock
    /// when there has been no tick. Where the wake-up would fall past the end
    /// of the clock's range, there is none.
    pub fn next_work_timer_deadline(&self) -> (deadline: Option<Instant>)
        ensures
            !self.state.work_timers.any_running() ==> deadline is None,
            exists|now: nat|
                {
                    &&& (self.state.work_clock matches Some(c) ==> now == c@)
                    &&& if self.state.work_timers.deadlines_fit(now) {
                        deadline_for(self.state.work_timers, now, deadline)
                    } else {
                        deadline is None
                    }
                },
    {
        let now = match self.state.work_clock {
            Some(c) => c,
            None => clock_reading(&self.clock_origin),
        };
        if self.state.work_timers.deadlines_fit_at(now) {
            self.state.work_timers.next_deadline(now)
        } else {
            None
        }
    }
}

/// A stopped clock shows the same figure whenever it is read.
pub proof fn lemma_stopped_clock_is_frozen(timer: WorkTimerView, earlier: nat, later: nat)
    requires
        !timer.is_running(),
    ensures
        timer.elapsed_at(earlier) == timer.elapsed_at(later),
{
}

/// A running clock gains exactly the time that passes while it runs.
pub proof fn lemma_running_clock_counts_time(timer: WorkTimerView, earlier: nat, later: nat)
    requires
        timer.running_since matches Some(since) && since <= earlier <= later,
    ensures
        timer.elapsed_at(later) == timer.elapsed_at(earlier) + (later - earlier),
{
}

/// Read at a moment before its stretch began, a clock shows only what it had
/// banked: a clock that steps backwards never shows a negative figure.
pub proof fn lemma_backwards_clock_shows_banked_time(timer: WorkTimerView, now: nat)
    requires
        timer.running_since matches Some(since) && now < since,
    ensures
        timer.elapsed_at(now) == timer.banked,
{
}

/// Pausing at `paused_at` and resuming at `resumed_at` leaves out exactly the
/// time spent waiting: afterwards the figure is the total banked at the
/// pause plus the time since resuming.
pub proof fn lemma_wait_is_not_counted(
    timer: WorkTimerView,
    paused_at: nat,
    resumed_at: nat,
    now: nat,
)
    requires
        paused_at <= resumed_at <= now,
    ensures
        timer.paused(paused_at).resumed(resumed_at).elapsed_at(now) == timer.elapsed_at(paused_at)
            + (now - resumed_at),
{
}

/// `state`, with `Unknown` read as `Idle`.
pub open spec fn as_idle(state: AgentState) -> AgentState {
    if state == AgentState::Unknown {
        AgentState::Idle
    } else {
        state
    }
}

/// `Unknown` behaves exactly as `Idle`, whether it is the state left or the
/// state entered, so a plain shell never puts time on a row.
pub proof fn lemma_unknown_behaves_as_idle(
    timers: Map<u32, WorkTimerView>,
    pane: u32,
    previous: AgentState,
    state: AgentState,
    now: nat,
)
    ensures
        timers_after_transition(timers, pane, previous, state, now) == timers_after_transition(
            timers,
            pane,
            as_idle(previous),
            as_idle(state),
            now,
        ),
{
}

/// A state change touches only the pane it is about.
pub proof fn lemma_other_panes_untouched(
    timers: Map<u32, WorkTimerView>,
    pane: u32,
    other: u32,
    previous: AgentState,
    state: AgentState,
    now: nat,
)
    requires
        other != pane,
    ensures
        timers_after_transition(timers, pane, previous, state, now).contains_key(other)
            == timers.contains_key(other),
        timers.contains_key(other) ==> timers_after_transition(
            timers,
            pane,
            previous,
            state,
            now,
        )[other] == timers[other],
{
}

/// Starting work from anything but a wait begins a new turn at zero, and the
/// clock runs from that moment.
pub proof fn lemma_new_turn_starts_from_zero(
    timers: Map<u32, WorkTimerView>,
    pane: u32,
    previous: AgentState,
    now: nat,
    later: nat,
)
    requires
        previous != AgentState::Blocked,
        now <= later,
    ensures
        ({
            let after = timers_after_transition(timers, pane, previous, AgentState::Working, now);
            &&& after.contains_key(pane)
            &&& after[pane].elapsed_at(later) == later - now
        }),
{
}

/// Reporting again the stopped state a pane is already in changes nothing,
/// so a repeated `waiting` or finish never banks time spent not working.
pub proof fn lemma_repeated_stop_banks_nothing(
    timers: Map<u32, WorkTimerView>,
    pane: u32,
    state: AgentState,
    now: nat,
)
    requires
        state != AgentState::Working,
        timers.contains_key(pane) ==> !timers[pane].is_running(),
    ensures
        timers_after_transition(timers, pane, state, state, now) == timers,
{
    if timers.contains_key(pane) {
        assert(timers.insert(pane, timers[pane].paused(now)) =~= timers);
    }
}

/// Finishing a turn freezes its total: read at any later moment, the pane
/// shows what it had worked when the turn ended.
pub proof fn lemma_finished_total_is_frozen(
    timers: Map<u32, WorkTimerView>,
    pane: u32,
    previous: AgentState,
    state: AgentState,
    now: nat,
    later: nat,
)
    requires
        state == AgentState::Idle || state == AgentState::Unknown,
        timers.contains_key(pane),
    ensures
        ({
            let after = timers_after_transition(timers, pane, previous, state, now);
            &&& after.contains_key(pane)
            &&& !after[pane].is_running()
            &&& after[pane].elapsed_at(later) == timers[pane].elapsed_at(now)
        }),
{
}

/// The wake-up a running clock asks for falls within the next second, and
/// lands exactly on the moment its whole-second figure goes up by one; until
/// then the figure does not move.
pub proof fn lemma_deadline_is_the_next_figure_change(timer: WorkTimerView, now: nat, t: nat)
    requires
        timer.running_since matches Some(since) && since <= now,
    ensures
        now < timer.next_change(now) <= now + NANOS_PER_SEC,
        timer.elapsed_at(timer.next_change(now)) / (NANOS_PER_SEC as nat) == timer.elapsed_at(now)
            / (NANOS_PER_SEC as nat) + 1,
        now <= t < timer.next_change(now) ==> timer.elapsed_at(t) / (NANOS_PER_SEC as nat)
            == timer.elapsed_at(now) / (NANOS_PER_SEC as nat),
{
    let e = timer.elapsed_at(now);
    let r = e % (NANOS_PER_SEC as nat);
    let q = e / (NANOS_PER_SEC as nat);
    assert(e == q * 1_000_000_000 + r && r < 1_000_000_000) by (nonlinear_arith)
        requires
            q == e / 1_000_000_000,
            r == e % 1_000_000_000,
    ;
    lemma_running_clock_counts_time(timer, now, timer.next_change(now));
    let e2 = timer.elapsed_at(timer.next_change(now));
    assert(e2 == (q + 1) * 1_000_000_000);
    assert(e2 / 1_000_000_000 == q + 1) by (nonlinear_arith)
        requires
            e2 == (q + 1) * 1_000_000_000,
    ;
    if now <= t && t < timer.next_change(now) {
        lemma_running_clock_counts_time(timer, now, t);
        let e3 = timer.elapsed_at(t);
        assert(e3 / 1_000_000_000 == q) by (nonlinear_arith)
            requires
                e3 == q * 1_000_000_000 + r + (t - now),
                r + (t - now) < 1_000_000_000,
                0 <= r,
                t >= now,
        ;
    }
}

/// The character for a decimal digit.
pub open spec fn digit_char(d: nat) -> char {
    if d == 0 { '0' }
    else if d == 1 { '1' }
    else if d == 2 { '2' }
    else if d == 3 { '3' }
    else if d == 4 { '4' }
    else if d == 5 { '5' }
    else if d == 6 { '6' }
    else if d == 7 { '7' }
    else if d == 8 { '8' }
    else { '9' }
}

/// `n` in decimal, without leading zeros.
pub open spec fn decimal(n: nat) -> Seq<char>
    decreases n,
{
    if n < 10 {
        seq![digit_char(n)]
    } else {
        decimal(n / 10).push(digit_char(n % 10))
    }
}

/// `n` as exactly two decimal digits, zero-padded; meant for `n < 100`.
pub open spec fn two_digits(n: nat) -> Seq<char> {
    seq![digit_char(n / 10), digit_char(n % 10)]
}

/// How the sidebar prints a working time of `total` whole seconds: `MM:SS`
/// under an hour, `H:MM:SS` at or over one, hours never wrapped.
pub open spec fn work_duration_text(total: nat) -> Seq<char> {
    let hours = total / 3600;
    let minutes = total % 3600 / 60;
    let seconds = total % 60;
    if hours == 0 {
        two_digits(minutes) + seq![':'] + two_digits(seconds)
    } else {
        decimal(hours) + seq![':'] + two_digits(minutes) + seq![':'] + two_digits(seconds)
    }
}

fn push_digit(text: &mut String, d: u64)
    requires
        d < 10,
    ensures
        final(text)@ == old(text)@.push(digit_char(d as nat)),
{
    proof {
        reveal_strlit("0");
        reveal_strlit("1");
        reveal_strlit("2");
        reveal_strlit("3");
        reveal_strlit("4");
        reveal_strlit("5");
        reveal_strlit("6");
        reveal_strlit("7");
        reveal_strlit("8");
        reveal_strlit("9");
    }
    let digit = if d == 0 {
        "0"
    } else if d == 1 {
        "1"
    } else if d == 2 {
        "2"
    } else if d == 3 {
        "3"
    } else if d == 4 {
        "4"
    } else if d == 5 {
        "5"
    } else if d == 6 {
        "6"
    } else if d == 7 {
        "7"
    } else if d == 8 {
        "8"
    } else {
        "9"
    };
    text.append(digit);
    assert(text@ =~= old(text)@.push(digit_char(d as nat)));
}

fn push_decimal(text: &mut String, n: u64)
    ensures
        final(text)@ == old(text)@ + decimal(n as nat),
    decreases n,
{
    if n >= 10 {
        push_decimal(text, n / 10);
    }
    push_digit(text, n % 10);
    assert(text@ =~= old(text)@ + decimal(n as nat));
}

fn push_two_digits(text: &mut String, n: u64)
    requires
        n < 100,
    ensures
        final(text)@ == old(text)@ + two_digits(n as nat),
{
    push_digit(text, n / 10);
    push_digit(text, n % 10);
    assert(text@ =~= old(text)@ + two_digits(n as nat));
}

fn push_colon(text: &mut String)
    ensures
        final(text)@ == old(text)@.push(':'),
{
    proof {
        reveal_strlit(":");
    }
    text.append(":");
    assert(text@ =~= old(text)@.push(':'));
}

/// Formats working time the way the sidebar prints it.
///
/// Seconds are truncated rather than rounded, so a figure never reads ahead
/// of the work.
pub fn format_work_duration(elapsed: Duration) -> (text: String)
    ensures
        text@ == work_duration_text(elapsed@ / (NANOS_PER_SEC as nat)),
{
    let total = elapsed.as_secs();
    let hours = total / 3_600;
    let minutes = total % 3_600 / 60;
    let seconds = total % 60;
    let mut text = String::new();
    if hours != 0 {
        push_decimal(&mut text, hours);
        push_colon(&mut text);
    }
    push_two_digits(&mut text, minutes);
    push_colon(&mut text);
    push_two_digits(&mut text, seconds);
    proof {
        let t = total as nat;
        if hours == 0 {
            assert(text@ =~= work_duration_text(t));
        } else {
            assert(text@ =~= work_duration_text(t));
        }
    }
    text
}

} // verus!
