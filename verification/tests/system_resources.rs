use herdr::app::{App, Config};
use herdr::geometry::Rect;
use herdr::system_resources::{
    disk_marker_visible, disk_pressure, disk_refresh_interval, swap_pressure,
    swap_refresh_interval, DiskRefreshMarker, ResourcePressure, ResourceReading,
    SystemResourceSample, SystemResources, GB, SWAP_REFRESH_SECS,
};
use herdr::time::{Duration, Instant};

fn test_app() -> App {
    App::new(&Config::default())
}

#[test]
fn disk_bands_follow_free_space_thresholds() {
    let cases = [
        (250 * GB, ResourcePressure::Normal),
        (100 * GB, ResourcePressure::Normal),
        (50 * GB, ResourcePressure::Normal),
        (49 * GB, ResourcePressure::Warning),
        (30 * GB, ResourcePressure::Warning),
        (29 * GB, ResourcePressure::HighWarning),
        (20 * GB, ResourcePressure::HighWarning),
        (19 * GB, ResourcePressure::Critical),
        (0, ResourcePressure::Critical),
    ];

    for (bytes, expected) in cases {
        assert_eq!(disk_pressure(bytes), expected, "{bytes} bytes free");
    }
}

#[test]
fn swap_bands_grow_with_usage() {
    let cases = [
        (0, ResourcePressure::Normal),
        (4 * GB, ResourcePressure::Normal),
        (5 * GB, ResourcePressure::Warning),
        (9 * GB, ResourcePressure::Warning),
        (10 * GB, ResourcePressure::HighWarning),
        (64 * GB, ResourcePressure::HighWarning),
    ];

    for (bytes, expected) in cases {
        assert_eq!(swap_pressure(bytes), expected, "{bytes} bytes swapped");
    }
}

/// A sample with both readings present.
fn sample(disk_bytes: Option<u64>) -> SystemResourceSample {
    SystemResourceSample {
        disk_available_bytes: disk_bytes,
        swap_used_bytes: Some(0),
    }
}

/// An app whose sidebar is wide enough to want the footer.
fn visible_app() -> App {
    let mut app = test_app();
    app.state.view.sidebar_rect = Rect::new(0, 0, 26, 40);
    app
}

#[test]
fn absent_platform_readings_leave_the_footer_empty() {
    let mut resources = SystemResources::default();
    resources.set_swap(None);
    assert!(!resources.set_disk(None));

    assert!(resources.is_empty());
    assert_eq!(resources.disk_available, None);
    assert_eq!(resources.swap_used, None);
    // Nothing was ever read, so there is no last good value to qualify.
    assert_eq!(resources.disk_marker, DiskRefreshMarker::Unmarked);
}

#[test]
fn zero_swap_is_a_reading_rather_than_a_missing_one() {
    let mut resources = SystemResources::default();
    resources.set_swap(Some(0));
    resources.set_disk(Some(199 * GB));

    assert!(!resources.is_empty());
    assert_eq!(
        resources.swap_used,
        Some(ResourceReading {
            bytes: 0,
            pressure: ResourcePressure::Normal,
        })
    );
}

#[test]
fn the_first_reading_is_due_immediately_rather_than_one_interval_late() {
    let mut app = visible_app();
    let now = app.clock_now();

    // The deadline is read from a later clock than the `now` the loop
    // hands in, so due-ness must not be decided by comparing the two.
    assert!(app
        .next_system_resource_deadline()
        .is_some_and(|deadline| deadline > now));
    assert!(app.refresh_system_resources(now, || sample(Some(199 * GB))));
    assert!(!app.state.system_resources.is_empty());
}

#[test]
fn swap_is_not_resampled_until_its_interval_elapses() {
    let mut app = visible_app();
    let now = app.clock_now();

    assert!(app.refresh_system_resources(now, || sample(Some(199 * GB))));
    assert!(!app.refresh_system_resources(
        now.plus(Duration::from_secs(SWAP_REFRESH_SECS / 2)),
        || panic!("sampled before the interval elapsed")
    ));
    assert_eq!(app.system_resource_schedule.last_swap_sample, Some(now));

    // An unchanged sample still counts as handled, just not as a redraw.
    let later = now.plus(swap_refresh_interval());
    app.refresh_system_resources(later, || sample(Some(199 * GB)));
    assert_eq!(app.system_resource_schedule.last_swap_sample, Some(later));
}

#[test]
fn free_space_is_read_at_startup_and_then_once_per_interval() {
    let mut app = visible_app();
    let start = app.clock_now();

    // Startup: read straight away rather than one interval late.
    assert!(app.refresh_system_resources(start, || sample(Some(199 * GB))));
    assert_eq!(
        app.state.system_resources.disk_available.map(|r| r.bytes),
        Some(199 * GB)
    );
    assert_eq!(app.system_resource_schedule.last_disk_sample, Some(start));

    // Swap keeps its own faster beat, and the disk reading rides along
    // without being re-read.
    let mid = start
        .plus(disk_refresh_interval())
        .minus(Duration::from_secs(1));
    app.refresh_system_resources(mid, || sample(Some(GB)));
    assert_eq!(app.system_resource_schedule.last_disk_sample, Some(start));
    assert_eq!(
        app.state.system_resources.disk_available.map(|r| r.bytes),
        Some(199 * GB)
    );

    let due = start.plus(disk_refresh_interval());
    app.refresh_system_resources(due, || sample(Some(150 * GB)));
    assert_eq!(app.system_resource_schedule.last_disk_sample, Some(due));
    assert_eq!(
        app.state.system_resources.disk_available.map(|r| r.bytes),
        Some(150 * GB)
    );
}

#[test]
fn a_successful_refresh_marks_itself_even_when_the_number_did_not_move() {
    let mut app = visible_app();
    let start = app.clock_now();

    app.refresh_system_resources(start, || sample(Some(199 * GB)));
    assert_eq!(
        app.state.system_resources.disk_marker,
        DiskRefreshMarker::Refreshed
    );

    // Just short of the marker's lifetime it is still up.
    let nearly = start
        .plus(disk_marker_visible())
        .minus(Duration::from_millis(1));
    app.refresh_system_resources(nearly, || sample(Some(199 * GB)));
    assert_eq!(
        app.state.system_resources.disk_marker,
        DiskRefreshMarker::Refreshed
    );

    // On expiry only the marker goes; the reading stays put.
    let expired = start.plus(disk_marker_visible());
    assert!(app.refresh_system_resources(expired, || panic!("no sample is due yet")));
    assert_eq!(
        app.state.system_resources.disk_marker,
        DiskRefreshMarker::Unmarked
    );
    assert_eq!(
        app.state.system_resources.disk_available.map(|r| r.bytes),
        Some(199 * GB)
    );

    // An identical reading one interval later is still a refresh.
    let again = start.plus(disk_refresh_interval());
    assert!(app.refresh_system_resources(again, || sample(Some(199 * GB))));
    assert_eq!(
        app.state.system_resources.disk_marker,
        DiskRefreshMarker::Refreshed
    );
    assert_eq!(
        app.system_resource_schedule.marker_expires_at,
        Some(again.plus(disk_marker_visible()))
    );
}

#[test]
fn a_refresh_during_the_marker_extends_it_from_that_moment() {
    let mut app = visible_app();
    let start = app.clock_now();

    app.refresh_system_resources(start, || sample(Some(199 * GB)));
    // Force a second successful disk read while the first marker is up.
    app.system_resource_schedule.last_disk_sample = None;
    let again = start.plus(Duration::from_secs(2));
    app.refresh_system_resources(again, || sample(Some(199 * GB)));

    assert_eq!(
        app.system_resource_schedule.marker_expires_at,
        Some(again.plus(disk_marker_visible()))
    );
    // The original deadline has passed, and the marker is still up. Swap
    // is due at this point, so the sampler still answers.
    app.refresh_system_resources(start.plus(disk_marker_visible()), || {
        sample(Some(199 * GB))
    });
    assert_eq!(
        app.state.system_resources.disk_marker,
        DiskRefreshMarker::Refreshed
    );
}

#[test]
fn a_failed_refresh_keeps_the_last_reading_and_flags_it_until_one_succeeds() {
    let mut app = visible_app();
    let start = app.clock_now();

    app.refresh_system_resources(start, || sample(Some(199 * GB)));

    let failed = start.plus(disk_refresh_interval());
    assert!(app.refresh_system_resources(failed, || sample(None)));
    assert_eq!(
        app.state.system_resources.disk_available.map(|r| r.bytes),
        Some(199 * GB),
        "the last good reading is kept rather than blanked"
    );
    assert_eq!(
        app.state.system_resources.disk_marker,
        DiskRefreshMarker::Stale
    );
    assert!(app.system_resource_schedule.disk_failure_logged);

    // A stale marker has no expiry, so it survives well past the tick's
    // lifetime and a further failure keeps it without logging again.
    assert_eq!(app.system_resource_schedule.marker_expires_at, None);
    let still_failing = failed.plus(disk_refresh_interval());
    assert!(!app.refresh_system_resources(still_failing, || sample(None)));
    assert_eq!(
        app.state.system_resources.disk_marker,
        DiskRefreshMarker::Stale
    );

    // Recovery swaps the flag for a fresh tick.
    let recovered = still_failing.plus(disk_refresh_interval());
    assert!(app.refresh_system_resources(recovered, || sample(Some(150 * GB))));
    assert_eq!(
        app.state.system_resources.disk_marker,
        DiskRefreshMarker::Refreshed
    );
    assert_eq!(
        app.state.system_resources.disk_available.map(|r| r.bytes),
        Some(150 * GB)
    );
    assert!(!app.system_resource_schedule.disk_failure_logged);
}

#[test]
fn a_volume_that_never_answered_shows_nothing_rather_than_a_lone_marker() {
    let mut app = visible_app();
    let start = app.clock_now();

    app.refresh_system_resources(start, || SystemResourceSample {
        disk_available_bytes: None,
        swap_used_bytes: Some(0),
    });

    assert_eq!(app.state.system_resources.disk_available, None);
    assert_eq!(
        app.state.system_resources.disk_marker,
        DiskRefreshMarker::Unmarked
    );
}

#[test]
fn the_marker_deadline_wakes_the_loop_before_the_next_sample_would() {
    let mut app = visible_app();
    let start = app.clock_now();

    app.refresh_system_resources(start, || sample(Some(199 * GB)));

    // Swap is due first here, but the marker must still be reachable: it
    // expires long before the disk beat comes round again.
    let deadline = app
        .next_system_resource_deadline()
        .expect("a visible footer always has a deadline");
    assert!(deadline <= start.plus(disk_marker_visible()));
    assert!(app.system_resource_schedule.marker_expires_at.is_some());
}

#[test]
fn disabling_or_collapsing_the_sidebar_stops_sampling() {
    let mut app = test_app();
    app.state.view.sidebar_rect = Rect::new(0, 0, 26, 40);
    app.state.sidebar_resources.enabled = false;
    assert_eq!(app.next_system_resource_deadline(), None);
    let now = app.clock_now();
    assert!(!app.refresh_system_resources(now, || sample(Some(199 * GB))));

    app.state.sidebar_resources.enabled = true;
    app.state.sidebar_collapsed = true;
    assert_eq!(app.next_system_resource_deadline(), None);
    let now = app.clock_now();
    assert!(!app.refresh_system_resources(now, || sample(Some(199 * GB))));

    app.state.sidebar_collapsed = false;
    let now = app.clock_now();
    assert!(app.refresh_system_resources(now, || sample(Some(199 * GB))));

    // The mobile layout leaves no sidebar to draw into.
    let mut mobile = test_app();
    assert_eq!(mobile.state.view.sidebar_rect.width, 0);
    assert_eq!(mobile.next_system_resource_deadline(), None);
    let now = mobile.clock_now();
    assert!(!mobile.refresh_system_resources(now, || sample(Some(199 * GB))));
}

// Checks of the crate's own beyond the scenarios above.

#[test]
fn band_edges_sit_on_whole_gigabytes() {
    assert_eq!(disk_pressure(20 * GB - 1), ResourcePressure::Critical);
    assert_eq!(disk_pressure(50 * GB - 1), ResourcePressure::Warning);
    assert_eq!(swap_pressure(5 * GB - 1), ResourcePressure::Normal);
    assert_eq!(swap_pressure(u64::MAX), ResourcePressure::HighWarning);
    assert_eq!(disk_pressure(u64::MAX), ResourcePressure::Normal);
}

#[test]
fn less_space_is_never_quieter_and_more_swap_never_quieter() {
    fn rank(p: ResourcePressure) -> u8 {
        match p {
            ResourcePressure::Normal => 0,
            ResourcePressure::Warning => 1,
            ResourcePressure::HighWarning => 2,
            ResourcePressure::Critical => 3,
        }
    }
    let mut last_disk = rank(disk_pressure(0));
    let mut last_swap = rank(swap_pressure(0));
    for gb in 0..70u64 {
        let d = rank(disk_pressure(gb * GB));
        let s = rank(swap_pressure(gb * GB));
        assert!(d <= last_disk);
        assert!(s >= last_swap);
        last_disk = d;
        last_swap = s;
    }
}

#[test]
fn a_swap_sample_leaves_the_disk_row_alone() {
    let mut resources = SystemResources::default();
    resources.set_disk(Some(40 * GB));
    let disk = resources.disk_available;
    resources.set_swap(Some(12 * GB));
    assert_eq!(resources.disk_available, disk);
    assert_eq!(
        resources.swap_used,
        Some(ResourceReading {
            bytes: 12 * GB,
            pressure: ResourcePressure::HighWarning,
        })
    );
    assert_eq!(resources.disk_marker, DiskRefreshMarker::Refreshed);
}

#[test]
fn nothing_due_means_no_sample_and_no_change() {
    let mut app = visible_app();
    let start = Instant::from_secs(10_000);
    app.refresh_system_resources(start, || sample(Some(80 * GB)));
    let before = app.state.system_resources;
    let schedule = app.system_resource_schedule;
    assert!(!app.refresh_system_resources(start.plus(Duration::from_secs(1)), || {
        panic!("nothing is due")
    }));
    assert_eq!(app.state.system_resources, before);
    assert_eq!(app.system_resource_schedule, schedule);
}

#[test]
fn the_footer_deadline_is_the_soonest_beat() {
    let mut app = visible_app();
    let start = Instant::from_secs(10_000);
    app.refresh_system_resources(start, || sample(Some(80 * GB)));
    // Swap at +4 s, marker at +5 s, disk at +30 s.
    assert_eq!(
        app.next_system_resource_deadline_from(start),
        Some(start.plus(swap_refresh_interval()))
    );
    app.state.sidebar_collapsed = true;
    assert_eq!(app.next_system_resource_deadline_from(start), None);
}
