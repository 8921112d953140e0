use amm::sensors::{idle_elapsed, is_foreground_fullscreen, Rect};

#[test]
fn idle_query_failure_reads_zero() {
    assert_eq!(idle_elapsed(None, 123_456), 0);
}

#[test]
fn idle_is_tick_difference() {
    assert_eq!(idle_elapsed(Some(1_000), 2_500), 1_500);
    assert_eq!(idle_elapsed(Some(7), 7), 0);
}

#[test]
fn idle_across_counter_wrap() {
    assert_eq!(idle_elapsed(Some(u32::MAX - 9), 10), 20);
}

#[test]
fn fullscreen_needs_window_covering_display() {
    let full = Rect { left: 0, top: 0, right: 1920, bottom: 1080 };
    assert!(is_foreground_fullscreen(Some(full), 1920, 1080));
    assert!(is_foreground_fullscreen(Some(Rect { left: 0, top: 0, right: 2000, bottom: 1200 }), 1920, 1080));
    assert!(!is_foreground_fullscreen(Some(Rect { left: 1, top: 0, right: 1920, bottom: 1080 }), 1920, 1080));
    assert!(!is_foreground_fullscreen(Some(Rect { left: 0, top: 0, right: 1919, bottom: 1080 }), 1920, 1080));
    assert!(!is_foreground_fullscreen(Some(Rect { left: 0, top: 0, right: 1920, bottom: 1079 }), 1920, 1080));
    assert!(!is_foreground_fullscreen(None, 1920, 1080));
}
