use amm::config::{Config, Pattern};

fn assert_default(c: &Config) {
    assert_eq!(c.idle_threshold_ms, 120_000);
    assert_eq!(c.interval_ms, 30_000);
    assert_eq!(c.jitter_ms, 5_000);
    assert_eq!(c.move_pattern, Pattern::PingPong);
    assert!(c.pause_on_fullscreen);
}

#[test]
fn defaults_are_documented_values() {
    assert_default(&Config::default());
}

#[test]
fn missing_document_gives_defaults() {
    assert_default(&Config::or_default(None));
}

#[test]
fn overflowing_spacing_gives_defaults() {
    assert!(Config::new(1, u64::MAX, 1, "ping_pong", false).is_none());
    let bad = Config {
        idle_threshold_ms: 1,
        interval_ms: u64::MAX,
        jitter_ms: 1,
        move_pattern: Pattern::MicroJitter,
        pause_on_fullscreen: false,
    };
    assert_default(&Config::or_default(Some(bad)));
}

#[test]
fn read_settings_are_kept() {
    let c = Config::new(1000, 0, 0, "random_walk_box", false).unwrap();
    assert_eq!(c.idle_threshold_ms, 1000);
    assert_eq!(c.interval_ms, 0);
    assert_eq!(c.jitter_ms, 0);
    assert_eq!(c.move_pattern, Pattern::RandomWalkBox);
    assert!(!c.pause_on_fullscreen);
    assert_eq!(Config::or_default(Some(c)), c);
    assert!(Config::new(0, u64::MAX, 0, "ping_pong", true).is_some());
}

#[test]
fn pattern_names() {
    assert_eq!(Pattern::from_name("ping_pong"), Pattern::PingPong);
    assert_eq!(Pattern::from_name("micro_jitter"), Pattern::MicroJitter);
    assert_eq!(Pattern::from_name("random_walk_box"), Pattern::RandomWalkBox);
    assert_eq!(Pattern::from_name("micro_jitte"), Pattern::PingPong);
    assert_eq!(Pattern::from_name(""), Pattern::PingPong);
    assert_eq!(Pattern::from_name("Micro_Jitter"), Pattern::PingPong);
}

#[test]
fn pattern_names_round_trip() {
    assert_eq!(Pattern::PingPong.name(), "ping_pong");
    assert_eq!(Pattern::MicroJitter.name(), "micro_jitter");
    assert_eq!(Pattern::RandomWalkBox.name(), "random_walk_box");
    for p in [Pattern::PingPong, Pattern::MicroJitter, Pattern::RandomWalkBox] {
        assert_eq!(Pattern::from_name(p.name()), p);
    }
}
