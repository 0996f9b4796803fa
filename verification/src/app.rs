//! The application state that the sidebar's readouts live in.

use std::collections::HashMap;
use vstd::prelude::*;

use crate::agent::{AgentState, PaneId};
use crate::geometry::Rect;
use crate::system_resources::{
    DiskRefreshMarker, ScheduleView, SystemResourceSchedule, SystemResources,
};
use crate::time::{clock_origin, clock_reading, Instant};
use crate::work_timer::{timers_after_transition, transition_pauses, WorkTimers};

verus! {

broadcast use vstd::std_specs::hash::group_hash_axioms;

/// Settings for the sidebar's resource footer.
#[derive(Debug, Clone, Copy, PartialEq, Eq, Structural)]
pub struct SidebarResourcesConfig {
    /// Whether the footer is shown at all.
    pub enabled: bool,
}

/// The parts of the configuration the sidebar readouts depend on.
#[derive(Debug, Clone, Copy, PartialEq, Eq, Structural)]
pub struct Config {
    pub sidebar_resources: SidebarResourcesConfig,
}

impl Default for Config {
    /// The footer is on unless the configuration turns it off.
    fn default() -> (c: Config)
        ensures
            c.sidebar_resources.enabled,
    {
        Config { sidebar_resources: SidebarResourcesConfig { enabled: true } }
    }
}

/// Laid-out geometry of the current frame.
#[derive(Debug, Clone, Copy, PartialEq, Eq, Structural)]
pub struct ViewState {
    /// Where the sidebar is drawn; zero-width in the mobile layout and while
    /// the sidebar is hidden.
    pub sidebar_rect: Rect,
}

/// Everything the sidebar readouts read and write.
#[derive(Debug)]
pub struct AppState {
    pub system_resources: SystemResources,
    pub sidebar_resources: SidebarResourcesConfig,
    pub sidebar_collapsed: bool,
    pub view: ViewState,
    pub work_timers: WorkTimers,
    /// The moment the working-time figures were last drawn against.
    pub work_clock: Option<Instant>,
    /// The state the detector last reported for each pane, by raw pane id.
    pub agent_states: HashMap<u32, AgentState>,
}

/// The application: its state, the sampling schedule of the resource
/// footer, and the origin of its monotonic clock.
#[derive(Debug)]
pub struct App {
    pub state: AppState,
    pub system_resource_schedule: SystemResourceSchedule,
    /// The moment this application's clock counts from.
    pub clock_origin: std::time::Instant,
}

/// The state a pane is in before the detector has said anything about it.
pub open spec fn detected_or_unknown(states: Map<u32, AgentState>, pane: u32) -> AgentState {
    if states.contains_key(pane) {
        states[pane]
    } else {
        AgentState::Unknown
    }
}

impl AppState {
    /// The state last detected for each pane, by raw pane id.
    pub open spec fn agent_states(&self) -> Map<u32, AgentState> {
        self.agent_states@
    }

    /// The state last detected for `pane_id`; `Unknown` before any report.
    pub fn detected_state(&self, pane_id: PaneId) -> (state: AgentState)
        ensures
            state == detected_or_unknown(self.agent_states(), pane_id@),
    {
        match self.agent_states.get(&pane_id.raw()) {
            Some(s) => *s,
            None => AgentState::Unknown,
        }
    }

    /// Records what the detector reports for a pane at `now`.
    ///
    /// Only a report that differs from the pane's last state is a transition,
    /// so repeating a report cannot restart or rewind the pane's clock.
    pub fn set_detected_state(&mut self, pane_id: PaneId, state: AgentState, now: Instant)
        requires
            ({
                let previous = detected_or_unknown(old(self).agent_states(), pane_id@);
                transition_pauses(previous, state) && old(self).work_timers@.contains_key(pane_id@)
                    ==> old(self).work_timers@[pane_id@].fits_at(now@)
            }),
        ensures
            ({
                let previous = detected_or_unknown(old(self).agent_states(), pane_id@);
                &&& final(self).agent_states() == old(self).agent_states().insert(pane_id@, state)
                &&& final(self).work_timers@ == if previous == state {
                    old(self).work_timers@
                } else {
                    timers_after_transition(old(self).work_timers@, pane_id@, previous, state, now@)
                }
            }),
            final(self).system_resources == old(self).system_resources,
            final(self).sidebar_resources == old(self).sidebar_resources,
            final(self).sidebar_collapsed == old(self).sidebar_collapsed,
            final(self).view == old(self).view,
            final(self).work_clock == old(self).work_clock,
    {
        let previous = self.detected_state(pane_id);
        self.agent_states.insert(pane_id.raw(), state);
        if previous != state {
            self.work_timers.on_state_change(pane_id, previous, state, now);
        }
    }

    /// Forgets everything recorded about panes that have closed.
    pub fn remove_plugin_pane_records(&mut self, pane_ids: &[PaneId])
        ensures
            forall|k: u32|
                #[trigger] final(self).work_timers@.contains_key(k) <==> old(
                    self,
                ).work_timers@.contains_key(k) && !(exists|i: int|
                    0 <= i < pane_ids@.len() && pane_ids@[i]@ == k),
            forall|k: u32|
                #[trigger] final(self).work_timers@.contains_key(k) ==> final(self).work_timers@[k]
                    == old(self).work_timers@[k],
            forall|k: u32|
                #[trigger] final(self).agent_states().contains_key(k) <==> old(
                    self,
                ).agent_states().contains_key(k) && !(exists|i: int|
                    0 <= i < pane_ids@.len() && pane_ids@[i]@ == k),
            forall|k: u32|
                #[trigger] final(self).agent_states().contains_key(k)
                    ==> final(self).agent_states()[k] == old(self).agent_states()[k],
            final(self).system_resources == old(self).system_resources,
            final(self).sidebar_resources == old(self).sidebar_resources,
            final(self).sidebar_collapsed == old(self).sidebar_collapsed,
            final(self).view == old(self).view,
            final(self).work_clock == old(self).work_clock,
    {
        let mut i: usize = 0;
        while i < pane_ids.len()
            invariant
                i <= pane_ids@.len(),
                forall|k: u32|
                    #[trigger] self.work_timers@.contains_key(k) <==> old(
                        self,
                    ).work_timers@.contains_key(k) && !(exists|j: int|
                        0 <= j < i && pane_ids@[j]@ == k),
                forall|k: u32|
                    #[trigger] self.work_timers@.contains_key(k) ==> self.work_timers@[k] == old(
                        self,
                    ).work_timers@[k],
                forall|k: u32|
                    #[trigger] self.agent_states@.contains_key(k) <==> old(
                        self,
                    ).agent_states@.contains_key(k) && !(exists|j: int|
                        0 <= j < i && pane_ids@[j]@ == k),
                forall|k: u32|
                    #[trigger] self.agent_states@.contains_key(k) ==> self.agent_states@[k] == old(
                        self,
                    ).agent_states@[k],
                self.system_resources == old(self).system_resources,
                self.sidebar_resources == old(self).sidebar_resources,
                self.sidebar_collapsed == old(self).sidebar_collapsed,
                self.view == old(self).view,
                self.work_clock == old(self).work_clock,
            decreases pane_ids@.len() - i,
        {
            let pane_id = pane_ids[i];
            self.work_timers.clear(pane_id);
            let ghost before = self.agent_states@;
            let raw = pane_id.raw();
            self.agent_states.remove(&raw);
            assert(self.agent_states@ == before.remove(raw));
            proof {
                assert forall|k: u32|
                    #[trigger] self.work_timers@.contains_key(k) <==> old(
                        self,
                    ).work_timers@.contains_key(k) && !(exists|j: int|
                        0 <= j < i + 1 && pane_ids@[j]@ == k) by {
                    if k == pane_id@ {
                        assert(pane_ids@[i as int]@ == k);
                    } else {
                        if exists|j: int| 0 <= j < i + 1 && pane_ids@[j]@ == k {
                            let j = choose|j: int| 0 <= j < i + 1 && pane_ids@[j]@ == k;
                            assert(j < i);
                        }
                    }
                }
                assert forall|k: u32|
                    #[trigger] self.agent_states@.contains_key(k) <==> old(
                        self,
                    ).agent_states@.contains_key(k) && !(exists|j: int|
                        0 <= j < i + 1 && pane_ids@[j]@ == k) by {
                    if k == pane_id@ {
                        assert(pane_ids@[i as int]@ == k);
                    } else {
                        if exists|j: int| 0 <= j < i + 1 && pane_ids@[j]@ == k {
                            let j = choose|j: int| 0 <= j < i + 1 && pane_ids@[j]@ == k;
                            assert(j < i);
                        }
                    }
                }
            }
            i = i + 1;
        }
    }
}

impl App {
    /// A freshly started application: no readings, no measured work, and a
    /// sidebar that has not been laid out yet.
    pub fn new(config: &Config) -> (app: App)
        ensures
            app.state.system_resources == (SystemResources {
                disk_available: None,
                swap_used: None,
                disk_marker: DiskRefreshMarker::Unmarked,
            }),
            app.state.sidebar_resources == config.sidebar_resources,
            !app.state.sidebar_collapsed,
            app.state.view.sidebar_rect == (Rect { x: 0, y: 0, width: 0, height: 0 }),
            app.state.work_timers@ == Map::<u32, crate::work_timer::WorkTimerView>::empty(),
            app.state.work_clock is None,
            app.state.agent_states() == Map::<u32, AgentState>::empty(),
            app.system_resource_schedule@ == (ScheduleView {
                last_swap_sample: None,
                last_disk_sample: None,
                marker_expires_at: None,
                disk_failure_logged: false,
            }),
    {
        let state = AppState {
            system_resources: SystemResources::default(),
            sidebar_resources: config.sidebar_resources,
            sidebar_collapsed: false,
            view: ViewState { sidebar_rect: Rect::zero() },
            work_timers: WorkTimers::default(),
            work_clock: None,
            agent_states: HashMap::new(),
        };
        App {
            state,
            system_resource_schedule: SystemResourceSchedule::default(),
            clock_origin: clock_origin(),
        }
    }

    /// The current reading of this application's monotonic clock.
    pub fn clock_now(&self) -> (now: Instant) {
        clock_reading(&self.clock_origin)
    }

    /// Applies a reloaded configuration. Measured work, readings and the
    /// sampling schedule are left exactly as they were.
    pub fn apply_config(&mut self, config: &Config)
        ensures
            final(self).state.sidebar_resources == config.sidebar_resources,
            final(self).state.system_resources == old(self).state.system_resources,
            final(self).state.sidebar_collapsed == old(self).state.sidebar_collapsed,
            final(self).state.view == old(self).state.view,
            final(self).state.work_timers@ == old(self).state.work_timers@,
            final(self).state.work_clock == old(self).state.work_clock,
            final(self).state.agent_states() == old(self).state.agent_states(),
            final(self).system_resource_schedule@ == old(self).system_resource_schedule@,
    {
        self.state.sidebar_resources = config.sidebar_resources;
    }
}

} // verus!
