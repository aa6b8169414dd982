use aria2_mcp::config::{BandwidthProfile, BandwidthSchedule, ProfileEntry};
use aria2_mcp::scheduler::{get_active_profile, SchedulerState, TickDecision};

fn entry(day: &str, start: &str, end: &str, profile: &str) -> BandwidthSchedule {
    BandwidthSchedule {
        day: day.to_string(),
        start_time: start.to_string(),
        end_time: end.to_string(),
        profile_name: profile.to_string(),
    }
}

#[test]
fn test_get_active_profile() {
    let schedules = vec![
        entry("mon", "09:00", "17:00", "work"),
        entry("daily", "22:00", "06:00", "night"),
    ];

    // Monday 10:00 -> work
    assert_eq!(
        get_active_profile("mon", "10:00", &schedules),
        Some("work".to_string())
    );

    // Tuesday 10:00 -> None
    assert_eq!(get_active_profile("tue", "10:00", &schedules), None);

    // Any day 23:00 -> night
    assert_eq!(
        get_active_profile("wed", "23:00", &schedules),
        Some("night".to_string())
    );

    // Any day 07:00 -> None
    assert_eq!(get_active_profile("thu", "07:00", &schedules), None);
}

#[test]
fn test_single_match_resolves_that_profile() {
    // Exactly one entry covers Saturday noon; resolution returns it.
    let schedules = vec![
        entry("mon", "09:00", "17:00", "work"),
        entry("sat", "11:00", "13:00", "weekend"),
        entry("sun", "11:00", "13:00", "sunday"),
    ];
    assert_eq!(
        get_active_profile("sat", "12:00", &schedules),
        Some("weekend".to_string())
    );
    // No entry covers Friday noon; resolution returns none.
    assert_eq!(get_active_profile("fri", "12:00", &schedules), None);
}

#[test]
fn test_first_match_wins_in_declaration_order() {
    let schedules = vec![
        entry("daily", "00:00", "23:59", "first"),
        entry("daily", "00:00", "23:59", "second"),
    ];
    assert_eq!(
        get_active_profile("mon", "12:00", &schedules),
        Some("first".to_string())
    );
}

#[test]
fn test_overnight_wrap_window() {
    let schedules = vec![entry("daily", "22:00", "06:00", "night")];
    assert_eq!(
        get_active_profile("mon", "23:00", &schedules),
        Some("night".to_string())
    );
    assert_eq!(
        get_active_profile("fri", "05:00", &schedules),
        Some("night".to_string())
    );
    assert_eq!(get_active_profile("sun", "12:00", &schedules), None);
}

#[test]
fn test_non_wrap_window() {
    let schedules = vec![entry("mon", "09:00", "17:00", "work")];
    assert_eq!(
        get_active_profile("mon", "10:00", &schedules),
        Some("work".to_string())
    );
    assert_eq!(get_active_profile("tue", "10:00", &schedules), None);
    assert_eq!(get_active_profile("mon", "08:00", &schedules), None);
}

#[test]
fn test_window_start_inclusive_end_exclusive() {
    let schedules = vec![entry("mon", "09:00", "17:00", "work")];
    assert_eq!(
        get_active_profile("mon", "09:00", &schedules),
        Some("work".to_string())
    );
    assert_eq!(get_active_profile("mon", "17:00", &schedules), None);
}

#[test]
fn test_malformed_time_matches_nothing() {
    let schedules = vec![entry("daily", "9:00", "17:00", "work")];
    assert_eq!(get_active_profile("mon", "10:00", &schedules), None);
    let good = vec![entry("daily", "09:00", "17:00", "work")];
    assert_eq!(get_active_profile("mon", "10:0", &good), None);
}

#[test]
fn test_tick_activates_once_then_stays_quiet() {
    // A tick at a time matching "night" with no prior activation issues
    // exactly one change, carrying the raw rate strings; the next tick
    // at the same time issues none.
    let profiles = vec![ProfileEntry {
        name: "night".to_string(),
        profile: BandwidthProfile {
            max_download: "10M".to_string(),
            max_upload: "1M".to_string(),
        },
    }];
    let schedules = vec![entry("daily", "22:00", "06:00", "night")];
    let mut state = SchedulerState::new();

    let first = state.tick_decision(&profiles, &schedules, "wed", "23:00");
    match &first {
        TickDecision::Activate {
            profile_name,
            max_download,
            max_upload,
        } => {
            assert_eq!(profile_name, "night");
            assert_eq!(max_download, "10M");
            assert_eq!(max_upload, "1M");
        }
        other => panic!("expected an activation, got {:?}", other),
    }
    state.commit(&first, true);
    assert_eq!(state.last_profile, Some("night".to_string()));

    let second = state.tick_decision(&profiles, &schedules, "wed", "23:01");
    assert!(matches!(second, TickDecision::Idle));
}

#[test]
fn test_tick_failed_push_retries() {
    let profiles = vec![ProfileEntry {
        name: "night".to_string(),
        profile: BandwidthProfile {
            max_download: "10M".to_string(),
            max_upload: "1M".to_string(),
        },
    }];
    let schedules = vec![entry("daily", "22:00", "06:00", "night")];
    let mut state = SchedulerState::new();

    let first = state.tick_decision(&profiles, &schedules, "wed", "23:00");
    assert!(matches!(first, TickDecision::Activate { .. }));
    // The push failed: the marker stays clear and the next tick retries.
    state.commit(&first, false);
    assert_eq!(state.last_profile, None);
    let retry = state.tick_decision(&profiles, &schedules, "wed", "23:01");
    assert!(matches!(retry, TickDecision::Activate { .. }));
}

#[test]
fn test_tick_clears_marker_when_window_ends() {
    let profiles = vec![ProfileEntry {
        name: "night".to_string(),
        profile: BandwidthProfile {
            max_download: "10M".to_string(),
            max_upload: "1M".to_string(),
        },
    }];
    let schedules = vec![entry("daily", "22:00", "06:00", "night")];
    let mut state = SchedulerState::new();
    let first = state.tick_decision(&profiles, &schedules, "wed", "23:00");
    state.commit(&first, true);

    let after = state.tick_decision(&profiles, &schedules, "thu", "07:00");
    assert!(matches!(after, TickDecision::Clear));
    state.commit(&after, false);
    assert_eq!(state.last_profile, None);
}

#[test]
fn test_tick_unknown_profile_stays_idle() {
    let profiles: Vec<ProfileEntry> = Vec::new();
    let schedules = vec![entry("daily", "22:00", "06:00", "night")];
    let state = SchedulerState::new();
    let decision = state.tick_decision(&profiles, &schedules, "wed", "23:00");
    assert!(matches!(decision, TickDecision::Idle));
}
