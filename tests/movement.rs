use amm::config::Pattern;
use amm::movement::{correction, micro_jitter, ping_pong, plan, random_walk, MovePlan, Point};
use rand::rngs::StdRng;
use rand::SeedableRng;

/// Applies a plan to a cursor that moves exactly as told.
fn run(p: &MovePlan, origin: Point) -> Point {
    let mut at = origin;
    for s in &p.steps {
        at = Point { x: at.x + s.dx, y: at.y + s.dy };
    }
    if p.restore_origin {
        let c = correction(origin, at).unwrap();
        at = Point { x: at.x + c.dx, y: at.y + c.dy };
    }
    at
}

#[test]
fn ping_pong_is_one_pixel_there_and_back() {
    let p = ping_pong();
    assert!(!p.restore_origin);
    assert_eq!(p.steps.len(), 2);
    assert_eq!((p.steps[0].dx, p.steps[0].dy, p.steps[0].pause_ms), (1, 0, 50));
    assert_eq!((p.steps[1].dx, p.steps[1].dy, p.steps[1].pause_ms), (-1, 0, 0));
}

#[test]
fn micro_jitter_negates_its_offset() {
    let p = micro_jitter(2, -1);
    assert_eq!((p.steps[0].dx, p.steps[0].dy, p.steps[0].pause_ms), (2, -1, 30));
    assert_eq!((p.steps[1].dx, p.steps[1].dy), (-2, 1));
}

#[test]
fn random_walk_keeps_drawn_steps() {
    let p = random_walk(&vec![(3, -3), (0, 1), (-2, 2), (1, 0)]);
    assert!(p.restore_origin);
    let got: Vec<(i32, i32, u64)> = p.steps.iter().map(|s| (s.dx, s.dy, s.pause_ms)).collect();
    assert_eq!(got, vec![(3, -3, 20), (0, 1, 20), (-2, 2, 20), (1, 0, 20)]);
}

#[test]
fn correction_returns_to_origin() {
    let c = correction(Point { x: 10, y: 20 }, Point { x: 13, y: 18 }).unwrap();
    assert_eq!((c.dx, c.dy, c.pause_ms), (-3, 2, 0));
    assert!(correction(Point { x: i32::MAX, y: 0 }, Point { x: -1, y: 0 }).is_none());
    assert!(correction(Point { x: 0, y: i32::MIN }, Point { x: 0, y: 1 }).is_none());
}

#[test]
fn every_pattern_preserves_origin() {
    let origin = Point { x: 400, y: 300 };
    for seed in 0..200u64 {
        let mut rng = StdRng::seed_from_u64(seed);
        for pattern in [Pattern::PingPong, Pattern::MicroJitter, Pattern::RandomWalkBox] {
            let p = plan(pattern, &mut rng);
            assert_eq!(run(&p, origin), origin);
        }
    }
}

#[test]
fn drawn_steps_stay_in_bounds() {
    for seed in 0..200u64 {
        let mut rng = StdRng::seed_from_u64(seed);
        let j = plan(Pattern::MicroJitter, &mut rng);
        assert_eq!(j.steps.len(), 2);
        assert!(j.steps[0].dx.abs() <= 2 && j.steps[0].dy.abs() <= 2);
        let w = plan(Pattern::RandomWalkBox, &mut rng);
        assert_eq!(w.steps.len(), 4);
        for s in &w.steps {
            assert!(s.dx.abs() <= 3 && s.dy.abs() <= 3);
            assert_eq!(s.pause_ms, 20);
        }
    }
}

#[test]
fn ping_pong_draws_nothing() {
    let mut a = StdRng::seed_from_u64(11);
    let mut b = StdRng::seed_from_u64(11);
    let p = plan(Pattern::from_name("zigzag"), &mut a);
    assert_eq!(p.steps.iter().map(|s| (s.dx, s.dy)).collect::<Vec<_>>(), vec![(1, 0), (-1, 0)]);
    let x = plan(Pattern::MicroJitter, &mut a);
    let y = plan(Pattern::MicroJitter, &mut b);
    assert_eq!((x.steps[0].dx, x.steps[0].dy), (y.steps[0].dx, y.steps[0].dy));
}
