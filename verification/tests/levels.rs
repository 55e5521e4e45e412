//! Tests of the severity-level enumeration and its numeric ranks.

use slog_prometheus::{Level, LEVEL_COUNT};

const ALL_LEVELS: [Level; 6] = [
    Level::Critical,
    Level::Error,
    Level::Warning,
    Level::Info,
    Level::Debug,
    Level::Trace,
];

#[test]
fn check_same_size() {
    // Ensure these match, otherwise retrieving the level doesn't work
    assert_eq!(LEVEL_COUNT, slog::LOG_LEVEL_NAMES.len() - 1);
}

#[test]
fn ranks_are_one_based_and_contiguous() {
    for (i, level) in ALL_LEVELS.iter().enumerate() {
        assert_eq!(level.as_usize(), i + 1);
        assert_eq!(level.as_index(), i);
    }
}

#[test]
fn names_and_rank_strings() {
    assert_eq!(Level::Critical.as_str(), "critical");
    assert_eq!(Level::Error.as_str(), "error");
    assert_eq!(Level::Warning.as_str(), "warning");
    assert_eq!(Level::Info.as_str(), "info");
    assert_eq!(Level::Debug.as_str(), "debug");
    assert_eq!(Level::Trace.as_str(), "trace");
    for level in ALL_LEVELS {
        assert_eq!(level.rank_str(), level.as_usize().to_string());
    }
}

#[test]
fn from_usize_rejects_the_sentinel() {
    assert_eq!(Level::from_usize(0), None);
    assert_eq!(Level::from_usize(7), None);
    for level in ALL_LEVELS {
        assert_eq!(Level::from_usize(level.as_usize()), Some(level));
    }
}

#[test]
fn from_index_round_trips() {
    for i in 0..LEVEL_COUNT {
        assert_eq!(Level::from_index(i).as_index(), i);
    }
}

#[test]
fn distinct_levels_fill_the_table() {
    // Structural check: the enumeration reaches every table position
    // exactly once.
    let mut seen = [false; LEVEL_COUNT];
    for level in ALL_LEVELS {
        assert!(!seen[level.as_index()]);
        seen[level.as_index()] = true;
    }
    assert!(seen.iter().all(|s| *s));
}
