//! Host disk and swap readings for the sidebar footer.
//!
//! The two readings keep separate cadences: swap moves continuously and is
//! sampled often, while free disk space moves in jumps and is re-read on a
//! slower beat that announces itself with a short-lived marker. One platform
//! sample answers both, so the slower beat costs no extra read.

use vstd::prelude::*;

use crate::app::{App, AppState};
use crate::time::{clock_reading, Duration, Instant, MAX_NANOS, NANOS_PER_SEC};

verus! {

/// Swap sampling cadence, in seconds.
pub const SWAP_REFRESH_SECS: u64 = 4;

/// Free-space sampling cadence, in seconds.
pub const DISK_REFRESH_SECS: u64 = 30;

/// How long a successful free-space refresh keeps its marker up, in seconds.
pub const DISK_MARKER_VISIBLE_SECS: u64 = 5;

/// Decimal gigabyte, matching how storage vendors report sizes.
pub const GB: u64 = 1_000_000_000;

/// Free-space bands. Below 20 GB a build or install is likely to fail outright.
pub const DISK_CRITICAL_GB: u64 = 20;
pub const DISK_HIGH_WARNING_GB: u64 = 30;
pub const DISK_WARNING_GB: u64 = 50;

/// Swap bands. Sustained swap means memory pressure is already hurting.
pub const SWAP_WARNING_GB: u64 = 5;
pub const SWAP_HIGH_WARNING_GB: u64 = 10;

/// Swap sampling cadence, in nanoseconds.
pub open spec fn swap_interval_nanos() -> nat {
    (SWAP_REFRESH_SECS * NANOS_PER_SEC) as nat
}

/// Free-space sampling cadence, in nanoseconds.
pub open spec fn disk_interval_nanos() -> nat {
    (DISK_REFRESH_SECS * NANOS_PER_SEC) as nat
}

/// Lifetime of a `Refreshed` marker, in nanoseconds.
pub open spec fn marker_lifetime_nanos() -> nat {
    (DISK_MARKER_VISIBLE_SECS * NANOS_PER_SEC) as nat
}

/// Swap sampling cadence.
pub fn swap_refresh_interval() -> (d: Duration)
    ensures
        d@ == SWAP_REFRESH_SECS * NANOS_PER_SEC,
{
    Duration::from_secs(SWAP_REFRESH_SECS)
}

/// Free-space sampling cadence.
pub fn disk_refresh_interval() -> (d: Duration)
    ensures
        d@ == DISK_REFRESH_SECS * NANOS_PER_SEC,
{
    Duration::from_secs(DISK_REFRESH_SECS)
}

/// How long a successful free-space refresh keeps its marker up.
pub fn disk_marker_visible() -> (d: Duration)
    ensures
        d@ == DISK_MARKER_VISIBLE_SECS * NANOS_PER_SEC,
{
    Duration::from_secs(DISK_MARKER_VISIBLE_SECS)
}

/// Pressure band for a host resource reading. Only `Critical` demands attention.
#[derive(Debug, Clone, Copy, PartialEq, Eq, Structural, Default)]
pub enum ResourcePressure {
    #[default]
    Normal,
    Warning,
    HighWarning,
    Critical,
}

/// How loud a band is: `Normal` is quietest, `Critical` loudest.
pub open spec fn pressure_rank(p: ResourcePressure) -> nat {
    match p {
        ResourcePressure::Normal => 0,
        ResourcePressure::Warning => 1,
        ResourcePressure::HighWarning => 2,
        ResourcePressure::Critical => 3,
    }
}

/// One cached host resource reading and the band it falls in.
#[derive(Debug, Clone, Copy, PartialEq, Eq, Structural)]
pub struct ResourceReading {
    pub bytes: u64,
    pub pressure: ResourcePressure,
}

/// What the disk row shows beside its reading.
#[derive(Debug, Clone, Copy, PartialEq, Eq, Structural, Default)]
pub enum DiskRefreshMarker {
    /// Steady state: the reading speaks for itself.
    #[default]
    Unmarked,
    /// The last refresh succeeded and its marker has not timed out yet.
    Refreshed,
    /// The last refresh failed, so the reading beside it is the last good one.
    Stale,
}

/// Cached host disk and swap readings shown in the sidebar footer.
///
/// A reading stays `None` when the platform cannot report it, which hides
/// that line instead of showing a fabricated zero.
#[derive(Debug, Clone, Copy, PartialEq, Eq, Structural)]
pub struct SystemResources {
    pub disk_available: Option<ResourceReading>,
    pub swap_used: Option<ResourceReading>,
    pub disk_marker: DiskRefreshMarker,
}

/// One answer from the platform: free disk space and swap in use, each
/// absent when the platform could not report it.
#[derive(Debug, Clone, Copy, PartialEq, Eq, Structural)]
pub struct SystemResourceSample {
    pub disk_available_bytes: Option<u64>,
    pub swap_used_bytes: Option<u64>,
}

/// The band for `bytes` of free disk space, where less space is worse.
pub open spec fn disk_band(bytes: u64) -> ResourcePressure {
    let gb = bytes / GB;
    if gb < DISK_CRITICAL_GB {
        ResourcePressure::Critical
    } else if gb < DISK_HIGH_WARNING_GB {
        ResourcePressure::HighWarning
    } else if gb < DISK_WARNING_GB {
        ResourcePressure::Warning
    } else {
        ResourcePressure::Normal
    }
}

/// The band for `bytes` of swap in use, where more swap is worse.
pub open spec fn swap_band(bytes: u64) -> ResourcePressure {
    let gb = bytes / GB;
    if gb >= SWAP_HIGH_WARNING_GB {
        ResourcePressure::HighWarning
    } else if gb >= SWAP_WARNING_GB {
        ResourcePressure::Warning
    } else {
        ResourcePressure::Normal
    }
}

/// Bands free disk space, where *less* space is worse.
pub fn disk_pressure(bytes: u64) -> (p: ResourcePressure)
    ensures
        p == disk_band(bytes),
{
    let gb = bytes / GB;
    if gb < DISK_CRITICAL_GB {
        ResourcePressure::Critical
    } else if gb < DISK_HIGH_WARNING_GB {
        ResourcePressure::HighWarning
    } else if gb < DISK_WARNING_GB {
        ResourcePressure::Warning
    } else {
        ResourcePressure::Normal
    }
}

/// Bands swap in use, where *more* swap is worse.
pub fn swap_pressure(bytes: u64) -> (p: ResourcePressure)
    ensures
        p == swap_band(bytes),
{
    let gb = bytes / GB;
    if gb >= SWAP_HIGH_WARNING_GB {
        ResourcePressure::HighWarning
    } else if gb >= SWAP_WARNING_GB {
        ResourcePressure::Warning
    } else {
        ResourcePressure::Normal
    }
}

/// Free disk space is banded on whole decimal gigabytes: under 20 GB is
/// critical, under 30 GB a high warning, under 50 GB a warning, and 50 GB or
/// more is normal.
pub proof fn lemma_disk_band_thresholds(bytes: u64)
    ensures
        disk_band(bytes) == ResourcePressure::Critical <==> bytes < 20_000_000_000,
        disk_band(bytes) == ResourcePressure::HighWarning <==> 20_000_000_000 <= bytes
            < 30_000_000_000,
        disk_band(bytes) == ResourcePressure::Warning <==> 30_000_000_000 <= bytes
            < 50_000_000_000,
        disk_band(bytes) == ResourcePressure::Normal <==> 50_000_000_000 <= bytes,
{
    assert(bytes / GB < 20 <==> bytes < 20_000_000_000) by (nonlinear_arith);
    assert(bytes / GB < 30 <==> bytes < 30_000_000_000) by (nonlinear_arith);
    assert(bytes / GB < 50 <==> bytes < 50_000_000_000) by (nonlinear_arith);
}

/// Swap in use is banded on whole decimal gigabytes: under 5 GB is normal,
/// under 10 GB a warning, and 10 GB or more a high warning; swap is never
/// critical.
pub proof fn lemma_swap_band_thresholds(bytes: u64)
    ensures
        swap_band(bytes) == ResourcePressure::Normal <==> bytes < 5_000_000_000,
        swap_band(bytes) == ResourcePressure::Warning <==> 5_000_000_000 <= bytes
            < 10_000_000_000,
        swap_band(bytes) == ResourcePressure::HighWarning <==> 10_000_000_000 <= bytes,
        swap_band(bytes) != ResourcePressure::Critical,
{
    assert(bytes / GB < 5 <==> bytes < 5_000_000_000) by (nonlinear_arith);
    assert(bytes / GB < 10 <==> bytes < 10_000_000_000) by (nonlinear_arith);
}

/// A successful free-space sample of `bytes` shows exactly that many bytes,
/// banded on the free-space thresholds (20, 30 and 50 GB), and raises the
/// refreshed marker; the swap row is left as it was.
pub proof fn lemma_disk_sample_is_banded_by_free_space(r: SystemResources, bytes: u64)
    ensures
        with_disk(r, Some(bytes)).disk_available matches Some(reading) && reading.bytes == bytes
            && (reading.pressure == ResourcePressure::Critical <==> bytes < 20_000_000_000) && (
        reading.pressure == ResourcePressure::HighWarning <==> 20_000_000_000 <= bytes
            < 30_000_000_000) && (reading.pressure == ResourcePressure::Warning <==> 30_000_000_000
            <= bytes < 50_000_000_000) && (reading.pressure == ResourcePressure::Normal
            <==> 50_000_000_000 <= bytes),
        with_disk(r, Some(bytes)).disk_marker == DiskRefreshMarker::Refreshed,
        with_disk(r, Some(bytes)).swap_used == r.swap_used,
{
    lemma_disk_band_thresholds(bytes);
}

/// A swap sample of `bytes` shows exactly that many bytes, banded on the swap
/// thresholds (5 and 10 GB); the disk row and its marker are left as they were.
pub proof fn lemma_swap_sample_is_banded_by_swap_in_use(r: SystemResources, bytes: u64)
    ensures
        with_swap(r, Some(bytes)).swap_used matches Some(reading) && reading.bytes == bytes && (
        reading.pressure == ResourcePressure::Normal <==> bytes < 5_000_000_000) && (
        reading.pressure == ResourcePressure::Warning <==> 5_000_000_000 <= bytes
            < 10_000_000_000) && (reading.pressure == ResourcePressure::HighWarning
            <==> 10_000_000_000 <= bytes),
        with_swap(r, Some(bytes)).disk_available == r.disk_available,
        with_swap(r, Some(bytes)).disk_marker == r.disk_marker,
        with_swap(r, None).swap_used is None,
{
    lemma_swap_band_thresholds(bytes);
}

/// A refresh that finds disk due and gets `bytes` free from the platform
/// shows that reading banded on the free-space thresholds, whatever swap
/// reported.
pub proof fn lemma_refresh_bands_the_disk_sample(
    r: SystemResources,
    s: ScheduleView,
    now: nat,
    sample: SystemResourceSample,
    bytes: u64,
)
    requires
        disk_is_due(s, now),
        sample.disk_available_bytes == Some(bytes),
    ensures
        refreshed_resources(r, s, now, sample).disk_available matches Some(reading)
            && reading.bytes == bytes && (reading.pressure == ResourcePressure::Critical
            <==> bytes < 20_000_000_000) && (reading.pressure == ResourcePressure::HighWarning
            <==> 20_000_000_000 <= bytes < 30_000_000_000) && (reading.pressure
            == ResourcePressure::Warning <==> 30_000_000_000 <= bytes < 50_000_000_000) && (
        reading.pressure == ResourcePressure::Normal <==> 50_000_000_000 <= bytes),
        refreshed_resources(r, s, now, sample).disk_marker == DiskRefreshMarker::Refreshed,
{
    lemma_disk_band_thresholds(bytes);
}

/// Less free disk space never lands in a quieter band.
pub proof fn lemma_disk_band_monotone(less: u64, more: u64)
    requires
        less <= more,
    ensures
        pressure_rank(disk_band(less)) >= pressure_rank(disk_band(more)),
{
    assert(less / GB <= more / GB) by (nonlinear_arith)
        requires
            less <= more,
    ;
}

/// More swap in use never lands in a quieter band.
pub proof fn lemma_swap_band_monotone(less: u64, more: u64)
    requires
        less <= more,
    ensures
        pressure_rank(swap_band(less)) <= pressure_rank(swap_band(more)),
{
    assert(less / GB <= more / GB) by (nonlinear_arith)
        requires
            less <= more,
    ;
}

/// The reading a swap sample of `bytes` folds into.
pub open spec fn swap_reading(bytes: Option<u64>) -> Option<ResourceReading> {
    match bytes {
        Some(b) => Some(ResourceReading { bytes: b, pressure: swap_band(b) }),
        None => None,
    }
}

/// The readings after a swap sample of `bytes`; the disk side is untouched.
pub open spec fn with_swap(r: SystemResources, bytes: Option<u64>) -> SystemResources {
    SystemResources { swap_used: swap_reading(bytes), ..r }
}

/// The readings after a free-space sample of `bytes`.
///
/// A failed sample keeps the last good reading and flags it `Stale`; a volume
/// that has never answered keeps no reading and gains no marker.
pub open spec fn with_disk(r: SystemResources, bytes: Option<u64>) -> SystemResources {
    match bytes {
        Some(b) => SystemResources {
            disk_available: Some(ResourceReading { bytes: b, pressure: disk_band(b) }),
            disk_marker: DiskRefreshMarker::Refreshed,
            ..r
        },
        None => if r.disk_available is Some {
            SystemResources { disk_marker: DiskRefreshMarker::Stale, ..r }
        } else {
            r
        },
    }
}

impl Default for SystemResources {
    fn default() -> (r: SystemResources)
        ensures
            r == (SystemResources {
                disk_available: None,
                swap_used: None,
                disk_marker: DiskRefreshMarker::Unmarked,
            }),
    {
        SystemResources { disk_available: None, swap_used: None, disk_marker: DiskRefreshMarker::Unmarked }
    }
}

impl SystemResources {
    /// Folds a swap sample in, leaving the disk side untouched.
    pub fn set_swap(&mut self, bytes: Option<u64>)
        ensures
            *final(self) == with_swap(*old(self), bytes),
    {
        self.swap_used = match bytes {
            Some(bytes) => Some(ResourceReading { bytes, pressure: swap_pressure(bytes) }),
            None => None,
        };
    }

    /// Folds a free-space sample in, reporting whether it succeeded.
    ///
    /// A failed sample keeps the last good reading rather than blanking the
    /// row; the marker is what says the number stopped being current.
    pub fn set_disk(&mut self, bytes: Option<u64>) -> (succeeded: bool)
        ensures
            *final(self) == with_disk(*old(self), bytes),
            succeeded == bytes is Some,
    {
        match bytes {
            None => {
                if self.disk_available.is_some() {
                    self.disk_marker = DiskRefreshMarker::Stale;
                }
                false
            },
            Some(bytes) => {
                self.disk_available = Some(
                    ResourceReading { bytes, pressure: disk_pressure(bytes) },
                );
                self.disk_marker = DiskRefreshMarker::Refreshed;
                true
            },
        }
    }

    /// True when no reading is available, which hides the footer entirely.
    pub fn is_empty(&self) -> (b: bool)
        ensures
            b == (self.disk_available is None && self.swap_used is None),
    {
        self.disk_available.is_none() && self.swap_used.is_none()
    }
}

/// Whether `interval` has passed since `last`, a never-taken sample being due.
pub open spec fn is_due(last: Option<nat>, now: nat, interval: nat) -> bool {
    match last {
        None => true,
        Some(l) => (if now >= l { now - l } else { 0 }) >= interval,
    }
}

/// The view of an optional reading of the clock.
pub open spec fn opt_view(t: Option<Instant>) -> Option<nat> {
    match t {
        Some(t) => Some(t@),
        None => None,
    }
}

/// Whether `interval` has elapsed since `last`, treating "never sampled" as due.
pub fn sample_due(last: Option<Instant>, now: Instant, interval: Duration) -> (due: bool)
    ensures
        due == is_due(opt_view(last), now@, interval@),
{
    match last {
        None => true,
        Some(last) => now.saturating_duration_since(last).as_nanos() >= interval.as_nanos(),
    }
}


/// What a [`SystemResourceSchedule`] holds, as clock readings in nanoseconds.
pub struct ScheduleView {
    pub last_swap_sample: Option<nat>,
    pub last_disk_sample: Option<nat>,
    pub marker_expires_at: Option<nat>,
    pub disk_failure_logged: bool,
}

/// Sampling schedule and marker timing for the sidebar footer.
///
/// Every deadline is set from a reading handed in by the caller, so the
/// marker's lifetime is a function of its inputs.
#[derive(Debug, Clone, Copy, PartialEq, Eq)]
pub struct SystemResourceSchedule {
    pub last_swap_sample: Option<Instant>,
    pub last_disk_sample: Option<Instant>,
    /// When a `Refreshed` marker stops being drawn. A `Stale` marker has no
    /// expiry: it holds until a sample succeeds.
    pub marker_expires_at: Option<Instant>,
    /// Set once a failing volume has been reported, so a volume that stays
    /// broken is reported once rather than every refresh.
    pub disk_failure_logged: bool,
}

impl View for SystemResourceSchedule {
    type V = ScheduleView;

    open spec fn view(&self) -> ScheduleView {
        ScheduleView {
            last_swap_sample: opt_view(self.last_swap_sample),
            last_disk_sample: opt_view(self.last_disk_sample),
            marker_expires_at: opt_view(self.marker_expires_at),
            disk_failure_logged: self.disk_failure_logged,
        }
    }
}

impl Default for SystemResourceSchedule {
    fn default() -> (s: SystemResourceSchedule)
        ensures
            s@ == (ScheduleView {
                last_swap_sample: None,
                last_disk_sample: None,
                marker_expires_at: None,
                disk_failure_logged: false,
            }),
    {
        SystemResourceSchedule {
            last_swap_sample: None,
            last_disk_sample: None,
            marker_expires_at: None,
            disk_failure_logged: false,
        }
    }
}


/// Swap is due a fresh sample at `now`.
pub open spec fn swap_is_due(s: ScheduleView, now: nat) -> bool {
    is_due(s.last_swap_sample, now, swap_interval_nanos())
}

/// Free disk space is due a fresh sample at `now`.
pub open spec fn disk_is_due(s: ScheduleView, now: nat) -> bool {
    is_due(s.last_disk_sample, now, disk_interval_nanos())
}

/// A `Refreshed` marker has reached its expiry at `now`.
pub open spec fn marker_is_due(s: ScheduleView, now: nat) -> bool {
    match s.marker_expires_at {
        Some(at) => now >= at,
        None => false,
    }
}

/// Some reading is due, so the platform has to be asked.
pub open spec fn needs_sample(s: ScheduleView, now: nat) -> bool {
    swap_is_due(s, now) || disk_is_due(s, now)
}

/// A sample that reports nothing; what an unasked platform contributes.
pub open spec fn no_sample() -> SystemResourceSample {
    SystemResourceSample { disk_available_bytes: None, swap_used_bytes: None }
}

/// The readings after a refresh at `now` that got `sample` from the platform.
///
/// An expired marker is taken down first; a due swap reading is replaced; a
/// due disk reading is folded in as [`with_disk`] describes.
pub open spec fn refreshed_resources(
    r: SystemResources,
    s: ScheduleView,
    now: nat,
    sample: SystemResourceSample,
) -> SystemResources {
    let r1 = if marker_is_due(s, now) {
        SystemResources { disk_marker: DiskRefreshMarker::Unmarked, ..r }
    } else {
        r
    };
    let r2 = if swap_is_due(s, now) {
        with_swap(r1, sample.swap_used_bytes)
    } else {
        r1
    };
    if disk_is_due(s, now) {
        with_disk(r2, sample.disk_available_bytes)
    } else {
        r2
    }
}

/// The schedule after a disk sample at `now` that succeeded or failed.
///
/// Success puts the marker up for its full lifetime from `now`, even over a
/// marker already showing; failure leaves nothing to expire and marks the
/// failure as reported.
pub open spec fn noted_outcome(s: ScheduleView, succeeded: bool, now: nat) -> ScheduleView {
    if succeeded {
        ScheduleView {
            marker_expires_at: Some(now + marker_lifetime_nanos()),
            disk_failure_logged: false,
            ..s
        }
    } else {
        ScheduleView { marker_expires_at: None, disk_failure_logged: true, ..s }
    }
}

/// The schedule after a refresh at `now` that got `sample` from the platform.
pub open spec fn refreshed_schedule(
    s: ScheduleView,
    now: nat,
    sample: SystemResourceSample,
) -> ScheduleView {
    let s1 = if marker_is_due(s, now) {
        ScheduleView { marker_expires_at: None, ..s }
    } else {
        s
    };
    let s2 = if swap_is_due(s, now) {
        ScheduleView { last_swap_sample: Some(now), ..s1 }
    } else {
        s1
    };
    if disk_is_due(s, now) {
        noted_outcome(
            ScheduleView { last_disk_sample: Some(now), ..s2 },
            sample.disk_available_bytes is Some,
            now,
        )
    } else {
        s2
    }
}

/// The expanded desktop sidebar is showing the footer.
pub open spec fn readout_visible(state: AppState) -> bool {
    state.sidebar_resources.enabled && !state.sidebar_collapsed && state.view.sidebar_rect.width
        > 0
}

/// When a reading taken at `last` is next due; `clock` for one never taken.
pub open spec fn next_sample_at(last: Option<nat>, interval: nat, clock: nat) -> nat {
    match last {
        Some(l) => l + interval,
        None => clock,
    }
}

/// The earlier of two moments.
pub open spec fn earlier(a: nat, b: nat) -> nat {
    if a <= b { a } else { b }
}

/// The footer's next wake-up: the soonest of the swap beat, the disk beat and
/// the marker's expiry, a never-taken reading being due at `clock`.
pub open spec fn footer_deadline(s: ScheduleView, clock: nat) -> nat {
    let samples = earlier(
        next_sample_at(s.last_swap_sample, swap_interval_nanos(), clock),
        next_sample_at(s.last_disk_sample, disk_interval_nanos(), clock),
    );
    match s.marker_expires_at {
        Some(at) => earlier(samples, at),
        None => samples,
    }
}

/// The next sample deadlines stay within the clock's range.
pub open spec fn deadlines_in_range(s: ScheduleView) -> bool {
    &&& (s.last_swap_sample matches Some(l) ==> l + swap_interval_nanos() <= MAX_NANOS)
    &&& (s.last_disk_sample matches Some(l) ==> l + disk_interval_nanos() <= MAX_NANOS)
}

/// A swap sample never touches the disk row, and a disk sample never touches
/// the swap row.
pub proof fn lemma_readings_are_independent(r: SystemResources, bytes: Option<u64>)
    ensures
        with_swap(r, bytes).disk_available == r.disk_available,
        with_swap(r, bytes).disk_marker == r.disk_marker,
        with_disk(r, bytes).swap_used == r.swap_used,
{
}

/// A failed free-space sample keeps the last good reading rather than
/// blanking the row, and flags it `Stale` only when there is one to flag.
pub proof fn lemma_failed_disk_sample_keeps_last_reading(r: SystemResources)
    ensures
        with_disk(r, None).disk_available == r.disk_available,
        r.disk_available is Some ==> with_disk(r, None).disk_marker == DiskRefreshMarker::Stale,
        r.disk_available is None ==> with_disk(r, None) == r,
{
}

/// When nothing is due, a refresh changes neither the readings nor the schedule.
pub proof fn lemma_nothing_due_changes_nothing(
    r: SystemResources,
    s: ScheduleView,
    now: nat,
    sample: SystemResourceSample,
)
    requires
        !needs_sample(s, now),
        !marker_is_due(s, now),
    ensures
        refreshed_resources(r, s, now, sample) == r,
        refreshed_schedule(s, now, sample) == s,
{
}

/// A reading that has never been taken is due at once, whatever the clock says.
pub proof fn lemma_first_reading_is_due_immediately(s: ScheduleView, now: nat)
    requires
        s.last_swap_sample is None,
        s.last_disk_sample is None,
    ensures
        swap_is_due(s, now),
        disk_is_due(s, now),
{
}

/// Once swap has been sampled at `at`, it is not due again until its
/// interval has elapsed.
pub proof fn lemma_swap_waits_for_its_interval(s: ScheduleView, at: nat, now: nat)
    requires
        s.last_swap_sample == Some(at),
        at <= now < at + swap_interval_nanos(),
    ensures
        !swap_is_due(s, now),
{
}

/// Swap keeps its own faster beat: between two disk beats, a refresh that
/// only swap is due for re-reads swap and leaves the disk reading and its
/// schedule as they were.
pub proof fn lemma_swap_beat_leaves_disk_alone(
    r: SystemResources,
    s: ScheduleView,
    now: nat,
    sample: SystemResourceSample,
)
    requires
        !disk_is_due(s, now),
    ensures
        refreshed_resources(r, s, now, sample).disk_available == r.disk_available,
        refreshed_schedule(s, now, sample).last_disk_sample == s.last_disk_sample,
{
}

/// A successful disk sample puts the marker up for its full lifetime from the
/// moment of the sample, whether or not the number moved and whether or not
/// a marker was already showing.
pub proof fn lemma_success_marks_for_a_full_lifetime(
    r: SystemResources,
    s: ScheduleView,
    now: nat,
    sample: SystemResourceSample,
)
    requires
        disk_is_due(s, now),
        sample.disk_available_bytes is Some,
    ensures
        refreshed_resources(r, s, now, sample).disk_marker == DiskRefreshMarker::Refreshed,
        refreshed_schedule(s, now, sample).marker_expires_at == Some(now + marker_lifetime_nanos()),
        !refreshed_schedule(s, now, sample).disk_failure_logged,
{
}

/// On expiry only the marker goes: the readings stay where they were.
pub proof fn lemma_expiry_takes_down_only_the_marker(
    r: SystemResources,
    s: ScheduleView,
    now: nat,
    sample: SystemResourceSample,
)
    requires
        marker_is_due(s, now),
        !needs_sample(s, now),
    ensures
        refreshed_resources(r, s, now, sample) == (SystemResources {
            disk_marker: DiskRefreshMarker::Unmarked,
            ..r
        }),
        refreshed_schedule(s, now, sample).marker_expires_at is None,
{
}

/// A failed disk sample leaves no expiry behind, so a `Stale` marker holds
/// until a sample succeeds; the failure is noted once and stays noted while
/// the volume keeps failing.
pub proof fn lemma_failure_holds_the_stale_marker(
    r: SystemResources,
    s: ScheduleView,
    now: nat,
    sample: SystemResourceSample,
    later: nat,
)
    requires
        disk_is_due(s, now),
        sample.disk_available_bytes is None,
        r.disk_available is Some,
    ensures
        refreshed_resources(r, s, now, sample).disk_marker == DiskRefreshMarker::Stale,
        refreshed_resources(r, s, now, sample).disk_available == r.disk_available,
        refreshed_schedule(s, now, sample).marker_expires_at is None,
        refreshed_schedule(s, now, sample).disk_failure_logged,
        !marker_is_due(refreshed_schedule(s, now, sample), later),
{
}

/// The footer wakes the loop no later than any of its beats, and in
/// particular before a marker's expiry, which a sample beat could overshoot.
pub proof fn lemma_footer_deadline_is_the_soonest(s: ScheduleView, clock: nat)
    ensures
        footer_deadline(s, clock) <= next_sample_at(s.last_swap_sample, swap_interval_nanos(), clock),
        footer_deadline(s, clock) <= next_sample_at(s.last_disk_sample, disk_interval_nanos(), clock),
        s.marker_expires_at matches Some(at) ==> footer_deadline(s, clock) <= at,
{
}

impl App {
    /// Whether an expanded desktop sidebar is currently showing the footer.
    ///
    /// The mobile layout and a hidden collapsed sidebar both leave the
    /// sidebar zero-width, so neither pays for a reading it cannot draw.
    pub fn system_resource_readout_visible(&self) -> (visible: bool)
        ensures
            visible == readout_visible(self.state),
    {
        self.state.sidebar_resources.enabled && !self.state.sidebar_collapsed
            && self.state.view.sidebar_rect.width > 0
    }

    /// Times the marker a finished disk sample earns, and notes a failure once.
    pub fn note_disk_refresh_outcome(&mut self, succeeded: bool, now: Instant)
        requires
            succeeded ==> now@ + marker_lifetime_nanos() <= MAX_NANOS,
        ensures
            final(self).system_resource_schedule@ == noted_outcome(
                old(self).system_resource_schedule@,
                succeeded,
                now@,
            ),
            final(self).state == old(self).state,
            final(self).clock_origin == old(self).clock_origin,
    {
        if succeeded {
            // Re-reading the same number is still a successful refresh, so
            // the marker goes up whether or not the value moved.
            self.system_resource_schedule.marker_expires_at = Some(now.plus(disk_marker_visible()));
            self.system_resource_schedule.disk_failure_logged = false;
            return;
        }
        // A stale reading holds its marker until a sample succeeds.
        self.system_resource_schedule.marker_expires_at = None;
        if !self.system_resource_schedule.disk_failure_logged {
            self.system_resource_schedule.disk_failure_logged = true;
        }
    }

    /// Samples host resources when due, reporting whether the visible readout
    /// changed.
    ///
    /// `sample` is asked at most once, and only when a reading is due. An
    /// unchanged sample reports `false`, so an idle host does not mark the
    /// frame dirty every few seconds. A successful disk sample must leave the
    /// clock room for its marker's lifetime.
    pub fn refresh_system_resources<F: FnOnce() -> SystemResourceSample>(
        &mut self,
        now: Instant,
        sample: F,
    ) -> (changed: bool)
        requires
            readout_visible(old(self).state) && needs_sample(
                old(self).system_resource_schedule@,
                now@,
            ) ==> sample.requires(()),
            readout_visible(old(self).state) && disk_is_due(
                old(self).system_resource_schedule@,
                now@,
            ) && now@ + marker_lifetime_nanos() > MAX_NANOS ==> forall|got: SystemResourceSample|
                sample.ensures((), got) ==> got.disk_available_bytes is None,
        ensures
            !readout_visible(old(self).state) ==> {
                &&& final(self).state.system_resources == old(self).state.system_resources
                &&& final(self).system_resource_schedule@ == old(self).system_resource_schedule@
            },
            readout_visible(old(self).state) && !needs_sample(
                old(self).system_resource_schedule@,
                now@,
            ) ==> {
                &&& final(self).state.system_resources == refreshed_resources(
                    old(self).state.system_resources,
                    old(self).system_resource_schedule@,
                    now@,
                    no_sample(),
                )
                &&& final(self).system_resource_schedule@ == refreshed_schedule(
                    old(self).system_resource_schedule@,
                    now@,
                    no_sample(),
                )
            },
            readout_visible(old(self).state) && needs_sample(
                old(self).system_resource_schedule@,
                now@,
            ) ==> exists|got: SystemResourceSample|
                {
                    &&& sample.ensures((), got)
                    &&& final(self).state.system_resources == refreshed_resources(
                        old(self).state.system_resources,
                        old(self).system_resource_schedule@,
                        now@,
                        got,
                    )
                    &&& final(self).system_resource_schedule@ == refreshed_schedule(
                        old(self).system_resource_schedule@,
                        now@,
                        got,
                    )
                },
            changed == (final(self).state.system_resources != old(self).state.system_resources),
            final(self).state.sidebar_resources == old(self).state.sidebar_resources,
            final(self).state.sidebar_collapsed == old(self).state.sidebar_collapsed,
            final(self).state.view == old(self).state.view,
            final(self).state.work_timers@ == old(self).state.work_timers@,
            final(self).state.work_clock == old(self).state.work_clock,
            final(self).state.agent_states@ == old(self).state.agent_states@,
            final(self).clock_origin == old(self).clock_origin,
    {
        if !self.system_resource_readout_visible() {
            return false;
        }
        let swap_due = sample_due(
            self.system_resource_schedule.last_swap_sample,
            now,
            swap_refresh_interval(),
        );
        let disk_due = sample_due(
            self.system_resource_schedule.last_disk_sample,
            now,
            disk_refresh_interval(),
        );
        let marker_due = match self.system_resource_schedule.marker_expires_at {
            Some(at) => now.is_at_or_after(&at),
            None => false,
        };
        if !swap_due && !disk_due && !marker_due {
            return false;
        }
        let before = self.state.system_resources;
        let ghost schedule_before = self.system_resource_schedule@;

        if marker_due {
            self.state.system_resources.disk_marker = DiskRefreshMarker::Unmarked;
            self.system_resource_schedule.marker_expires_at = None;
        }
        if swap_due || disk_due {
            // One platform sample answers both readings.
            let got = sample();
            if swap_due {
                self.system_resource_schedule.last_swap_sample = Some(now);
                self.state.system_resources.set_swap(got.swap_used_bytes);
            }
            if disk_due {
                self.system_resource_schedule.last_disk_sample = Some(now);
                let succeeded = self.state.system_resources.set_disk(got.disk_available_bytes);
                self.note_disk_refresh_outcome(succeeded, now);
            }
            assert(self.system_resource_schedule@ == refreshed_schedule(schedule_before, now@, got));
        } else {
            assert(self.system_resource_schedule@ == refreshed_schedule(
                schedule_before,
                now@,
                no_sample(),
            ));
        }
        self.state.system_resources != before
    }

    /// When the next sample or marker change is due, with `clock` standing in
    /// for the present moment, or `None` while the footer cannot be seen.
    pub fn next_system_resource_deadline_from(&self, clock: Instant) -> (deadline: Option<
        Instant,
    >)
        requires
            deadlines_in_range(self.system_resource_schedule@),
        ensures
            match deadline {
                None => !readout_visible(self.state),
                Some(at) => readout_visible(self.state) && at@ == footer_deadline(
                    self.system_resource_schedule@,
                    clock@,
                ),
            },
    {
        if !self.system_resource_readout_visible() {
            return None;
        }
        let schedule = &self.system_resource_schedule;
        let swap_next = match schedule.last_swap_sample {
            Some(last) => last.plus(swap_refresh_interval()),
            None => clock,
        };
        let disk_next = match schedule.last_disk_sample {
            Some(last) => last.plus(disk_refresh_interval()),
            None => clock,
        };
        let mut next = if disk_next.is_before(&swap_next) {
            disk_next
        } else {
            swap_next
        };
        if let Some(at) = schedule.marker_expires_at {
            if at.is_before(&next) {
                next = at;
            }
        }
        Some(next)
    }

    /// When the next sample or marker change is due, or `None` while the
    /// footer cannot be seen.
    ///
    /// A reading that has never been taken is due at once: the clock is read
    /// so the footer is populated by the time the sidebar first draws.
    pub fn next_system_resource_deadline(&self) -> (deadline: Option<Instant>)
        requires
            deadlines_in_range(self.system_resource_schedule@),
        ensures
            match deadline {
                None => !readout_visible(self.state),
                Some(at) => readout_visible(self.state) && exists|clock: nat|
                    at@ == footer_deadline(self.system_resource_schedule@, clock),
            },
    {
        let schedule = &self.system_resource_schedule;
        let clock = match (schedule.last_swap_sample, schedule.last_disk_sample) {
            (Some(last), Some(_)) => last,
            _ => clock_reading(&self.clock_origin),
        };
        self.next_system_resource_deadline_from(clock)
    }
}

} // verus!
