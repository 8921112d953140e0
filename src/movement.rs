//! Movement patterns as plans of relative cursor steps, each of which brings
//! the cursor back to where it started.

use crate::config::Pattern;
use crate::draw::draw_u64_upto;
use rand::rngs::StdRng;
use vstd::prelude::*;

verus! {

/// A relative cursor displacement, followed by a pause.
#[derive(Clone, Copy, Debug, PartialEq, Eq, Structural)]
pub struct Step {
    pub dx: i32,
    pub dy: i32,
    pub pause_ms: u64,
}

/// A cursor position in screen coordinates.
#[derive(Clone, Copy, Debug, PartialEq, Eq, Structural)]
pub struct Point {
    pub x: i32,
    pub y: i32,
}

/// The steps to apply in order. Where `restore_origin` holds, the executor
/// then reads the cursor again and applies the [`correction`] back to the
/// position it read before the first step.
#[derive(Debug)]
pub struct MovePlan {
    pub steps: Vec<Step>,
    pub restore_origin: bool,
}

pub const PING_PONG_PAUSE_MS: u64 = 50;

pub const MICRO_JITTER_PAUSE_MS: u64 = 30;

pub const MICRO_JITTER_REACH: i32 = 2;

pub const WALK_PAUSE_MS: u64 = 20;

pub const WALK_REACH: i32 = 3;

pub const WALK_STEPS: usize = 4;

pub open spec fn sum_dx(s: Seq<Step>) -> int
    decreases s.len(),
{
    if s.len() == 0 {
        0
    } else {
        sum_dx(s.drop_last()) + s.last().dx
    }
}

pub open spec fn sum_dy(s: Seq<Step>) -> int
    decreases s.len(),
{
    if s.len() == 0 {
        0
    } else {
        sum_dy(s.drop_last()) + s.last().dy
    }
}

/// Each coordinate of the step lies within `reach` of zero.
pub open spec fn within(s: Step, reach: int) -> bool {
    -reach <= s.dx <= reach && -reach <= s.dy <= reach
}

/// What a plan of each pattern looks like:
/// ping-pong is one pixel right, a pause, and one pixel back;
/// micro-jitter is a random offset of at most two per axis, a pause, and its
/// exact negation;
/// random-walk-box is four random steps of at most three per axis, each with
/// a pause, followed by a correction back to the origin.
pub open spec fn plan_of(pattern: Pattern, steps: Seq<Step>, restore: bool) -> bool {
    match pattern {
        Pattern::PingPong => {
            &&& !restore
            &&& steps.len() == 2
            &&& steps[0] == (Step { dx: 1, dy: 0, pause_ms: 50 })
            &&& steps[1].dx == -1 && steps[1].dy == 0 && steps[1].pause_ms == 0
        },
        Pattern::MicroJitter => {
            &&& !restore
            &&& steps.len() == 2
            &&& within(steps[0], 2)
            &&& steps[0].pause_ms == 30
            &&& steps[1].dx == -steps[0].dx
            &&& steps[1].dy == -steps[0].dy
            &&& steps[1].pause_ms == 0
        },
        Pattern::RandomWalkBox => {
            &&& restore
            &&& steps.len() == 4
            &&& forall|i: int| 0 <= i < 4 ==> within(#[trigger] steps[i], 3) && steps[i].pause_ms == 20
        },
    }
}

/// The displacement that takes the cursor from `now` back to `origin`.
pub open spec fn correction_of(origin: (int, int), now: (int, int)) -> (int, int) {
    (origin.0 - now.0, origin.1 - now.1)
}

/// Where the cursor ends when the host applies every displacement exactly:
/// the steps in turn, then the correction where the plan asks for it.
pub open spec fn end_position(steps: Seq<Step>, restore: bool, origin: (int, int)) -> (int, int) {
    let walked = (origin.0 + sum_dx(steps), origin.1 + sum_dy(steps));
    if restore {
        let c = correction_of(origin, walked);
        (walked.0 + c.0, walked.1 + c.1)
    } else {
        walked
    }
}

/// A uniform draw from `-reach ..= reach`.
fn draw_offset(rng: &mut StdRng, reach: i32) -> (r: i32)
    requires
        0 <= reach <= 3,
    ensures
        -reach <= r <= reach,
{
    let d = draw_u64_upto(rng, (2 * reach) as u64);
    d as i32 - reach
}

/// The ping-pong plan.
pub fn ping_pong() -> (r: MovePlan)
    ensures
        plan_of(Pattern::PingPong, r.steps@, r.restore_origin),
{
    let steps = vec![
        Step { dx: 1, dy: 0, pause_ms: PING_PONG_PAUSE_MS },
        Step { dx: -1, dy: 0, pause_ms: 0 },
    ];
    MovePlan { steps, restore_origin: false }
}

/// The micro-jitter plan for a drawn offset.
pub fn micro_jitter(dx: i32, dy: i32) -> (r: MovePlan)
    requires
        -2 <= dx <= 2,
        -2 <= dy <= 2,
    ensures
        plan_of(Pattern::MicroJitter, r.steps@, r.restore_origin),
        r.steps@[0].dx == dx,
        r.steps@[0].dy == dy,
{
    let (back_x, back_y) = (-dx, -dy);
    let steps = vec![
        Step { dx, dy, pause_ms: MICRO_JITTER_PAUSE_MS },
        Step { dx: back_x, dy: back_y, pause_ms: 0 },
    ];
    MovePlan { steps, restore_origin: false }
}

/// The random-walk-box plan for drawn steps, given as `(dx, dy)` pairs.
pub fn random_walk(walk: &Vec<(i32, i32)>) -> (r: MovePlan)
    requires
        walk@.len() == 4,
        forall|i: int| 0 <= i < 4 ==> -3 <= #[trigger] walk@[i].0 <= 3 && -3 <= walk@[i].1 <= 3,
    ensures
        plan_of(Pattern::RandomWalkBox, r.steps@, r.restore_origin),
        forall|i: int| 0 <= i < 4 ==> #[trigger] r.steps@[i].dx == walk@[i].0 && r.steps@[i].dy == walk@[i].1,
{
    let mut steps: Vec<Step> = Vec::new();
    let mut i: usize = 0;
    while i < walk.len()
        invariant
            walk@.len() == 4,
            i <= 4,
            steps@.len() == i,
            forall|j: int| 0 <= j < i ==> #[trigger] steps@[j] == (Step { dx: walk@[j].0, dy: walk@[j].1, pause_ms: 20 }),
        decreases 4 - i,
    {
        let (dx, dy) = walk[i];
        steps.push(Step { dx, dy, pause_ms: WALK_PAUSE_MS });
        i = i + 1;
    }
    proof {
        assert forall|j: int| 0 <= j < 4 implies within(#[trigger] steps@[j], 3) && steps@[j].pause_ms == 20 by {
            assert(steps@[j] == (Step { dx: walk@[j].0, dy: walk@[j].1, pause_ms: 20 }));
        }
    }
    MovePlan { steps, restore_origin: true }
}

/// Draws the random parts of a pattern and returns its plan. Ping-pong draws
/// nothing.
pub fn plan(pattern: Pattern, rng: &mut StdRng) -> (r: MovePlan)
    ensures
        plan_of(pattern, r.steps@, r.restore_origin),
        pattern == Pattern::PingPong ==> *final(rng) == *old(rng),
{
    match pattern {
        Pattern::PingPong => ping_pong(),
        Pattern::MicroJitter => {
            let dx = draw_offset(rng, MICRO_JITTER_REACH);
            let dy = draw_offset(rng, MICRO_JITTER_REACH);
            micro_jitter(dx, dy)
        },
        Pattern::RandomWalkBox => {
            let mut walk: Vec<(i32, i32)> = Vec::new();
            let mut i: usize = 0;
            while i < WALK_STEPS
                invariant
                    i <= 4,
                    walk@.len() == i,
                    forall|j: int| 0 <= j < i ==> -3 <= #[trigger] walk@[j].0 <= 3 && -3 <= walk@[j].1 <= 3,
                decreases 4 - i,
            {
                let dx = draw_offset(rng, WALK_REACH);
                let dy = draw_offset(rng, WALK_REACH);
                walk.push((dx, dy));
                i = i + 1;
            }
            random_walk(&walk)
        },
    }
}

/// The displacement from `now` back to `origin`; `None` where a coordinate of
/// it does not fit in an `i32`.
pub fn correction(origin: Point, now: Point) -> (r: Option<Step>)
    ensures
        r.is_some() <==> (i32::MIN <= origin.x - now.x <= i32::MAX && i32::MIN <= origin.y
            - now.y <= i32::MAX),
        r matches Some(s) ==> (s.dx as int, s.dy as int) == correction_of(
            (origin.x as int, origin.y as int),
            (now.x as int, now.y as int),
        ) && s.pause_ms == 0,
{
    let dx = origin.x as i64 - now.x as i64;
    let dy = origin.y as i64 - now.y as i64;
    if dx < i32::MIN as i64 || dx > i32::MAX as i64 || dy < i32::MIN as i64 || dy > i32::MAX as i64 {
        None
    } else {
        Some(Step { dx: dx as i32, dy: dy as i32, pause_ms: 0 })
    }
}

/// Every plan of every pattern, whatever was drawn for it, leaves the cursor
/// where it started once the host has applied its displacements.
pub proof fn lemma_origin_preserved(
    pattern: Pattern,
    steps: Seq<Step>,
    restore: bool,
    origin: (int, int),
)
    requires
        plan_of(pattern, steps, restore),
    ensures
        end_position(steps, restore, origin) == origin,
{
    if !restore {
        assert(steps.len() == 2);
        let first = steps.drop_last();
        assert(first.len() == 1 && first.last() == steps[0]);
        assert(sum_dx(first.drop_last()) == 0 && sum_dy(first.drop_last()) == 0);
        assert(sum_dx(first) == steps[0].dx);
        assert(sum_dy(first) == steps[0].dy);
    }
}

} // verus!
