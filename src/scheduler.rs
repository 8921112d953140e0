//! The decisions of the scheduling loop: what a control state asks of a tick,
//! when a movement fires, and the timing state kept between ticks.

use crate::config::Config;
use crate::control::ControlState;
use crate::draw::draw_u64_upto;
use crate::movement::{plan, plan_of, MovePlan};
use rand::rngs::StdRng;
use vstd::prelude::*;

verus! {

/// The fixed period between two ticks of the loop.
pub const POLL_MS: u64 = 500;

/// What a tick does after reading the control state.
#[derive(Clone, Copy, Debug, PartialEq, Eq, Structural)]
pub enum TickAction {
    /// Leave the loop for good.
    Exit,
    /// Sleep until the next tick without sensing.
    Wait,
    /// Read the sensors and decide whether to move.
    Sense,
}

pub open spec fn action_for(s: ControlState) -> TickAction {
    match s {
        ControlState::Running => TickAction::Sense,
        ControlState::Paused => TickAction::Wait,
        ControlState::Quitting => TickAction::Exit,
    }
}

pub fn control_action(s: ControlState) -> (r: TickAction)
    ensures
        r == action_for(s),
{
    match s {
        ControlState::Running => TickAction::Sense,
        ControlState::Paused => TickAction::Wait,
        ControlState::Quitting => TickAction::Exit,
    }
}

/// A movement fires when the user has been idle long enough, the spacing
/// since the last movement has passed, and no full-screen window suppresses it.
pub open spec fn fires(cfg: Config, idle_ms: int, elapsed_ms: int, interval_ms: int, fullscreen: bool) -> bool {
    &&& idle_ms >= cfg.idle_threshold_ms
    &&& elapsed_ms >= interval_ms
    &&& !(cfg.pause_on_fullscreen && fullscreen)
}

pub fn should_fire(cfg: &Config, idle_ms: u64, elapsed_ms: u64, interval_ms: u64, fullscreen: bool) -> (r: bool)
    ensures
        r == fires(*cfg, idle_ms as int, elapsed_ms as int, interval_ms as int, fullscreen),
{
    idle_ms >= cfg.idle_threshold_ms && elapsed_ms >= interval_ms && !(cfg.pause_on_fullscreen
        && fullscreen)
}

/// With the user idle past the threshold and the spacing passed, a movement
/// fires unless suppression on full screen is set and a full-screen window is
/// in front: of the four combinations of the two, only that one withholds it.
pub proof fn lemma_fullscreen_combinations(cfg: Config, idle_ms: int, elapsed_ms: int, interval_ms: int)
    requires
        idle_ms >= cfg.idle_threshold_ms,
        elapsed_ms >= interval_ms,
    ensures
        cfg.pause_on_fullscreen ==> !fires(cfg, idle_ms, elapsed_ms, interval_ms, true),
        cfg.pause_on_fullscreen ==> fires(cfg, idle_ms, elapsed_ms, interval_ms, false),
        !cfg.pause_on_fullscreen ==> fires(cfg, idle_ms, elapsed_ms, interval_ms, true),
        !cfg.pause_on_fullscreen ==> fires(cfg, idle_ms, elapsed_ms, interval_ms, false),
{
}

/// The spacing for one tick, given the jitter drawn for it.
pub fn jittered_interval(base_ms: u64, jitter_ms: u64, drawn_ms: u64) -> (r: u64)
    requires
        base_ms + jitter_ms <= u64::MAX,
        drawn_ms <= jitter_ms,
    ensures
        r == base_ms + drawn_ms,
        base_ms <= r <= base_ms + jitter_ms,
{
    base_ms + drawn_ms
}

/// The spacing for one tick: the base plus a uniform draw of at most the
/// jitter bound.
pub fn effective_interval(base_ms: u64, jitter_ms: u64, rng: &mut StdRng) -> (r: u64)
    requires
        base_ms + jitter_ms <= u64::MAX,
    ensures
        base_ms <= r <= base_ms + jitter_ms,
{
    let drawn = draw_u64_upto(rng, jitter_ms);
    jittered_interval(base_ms, jitter_ms, drawn)
}

/// Milliseconds from `last` to `now` on a monotonic clock; zero where `now`
/// is not later.
pub open spec fn elapsed_between(last: u64, now: u64) -> int {
    if now >= last {
        now - last
    } else {
        0
    }
}

/// The state the loop keeps between ticks: its settings and the time of the
/// last movement, in milliseconds on a monotonic clock.
#[derive(Clone, Copy, Debug)]
pub struct Scheduler {
    pub config: Config,
    pub last_move_ms: u64,
}

impl Scheduler {
    pub open spec fn wf(&self) -> bool {
        self.config.wf()
    }

    /// A scheduler that starts its first spacing at `now_ms`.
    pub fn new(config: Config, now_ms: u64) -> (r: Scheduler)
        requires
            config.wf(),
        ensures
            r.wf(),
            r.config == config,
            r.last_move_ms == now_ms,
    {
        Scheduler { config, last_move_ms: now_ms }
    }

    pub fn elapsed_ms(&self, now_ms: u64) -> (r: u64)
        ensures
            r == elapsed_between(self.last_move_ms, now_ms),
    {
        if now_ms >= self.last_move_ms {
            now_ms - self.last_move_ms
        } else {
            0
        }
    }

    /// Whether a movement fires on this tick, for the spacing drawn for it.
    pub fn decide(&self, idle_ms: u64, now_ms: u64, interval_ms: u64, fullscreen: bool) -> (r: bool)
        ensures
            r == fires(
                self.config,
                idle_ms as int,
                elapsed_between(self.last_move_ms, now_ms),
                interval_ms as int,
                fullscreen,
            ),
    {
        let elapsed = self.elapsed_ms(now_ms);
        should_fire(&self.config, idle_ms, elapsed, interval_ms, fullscreen)
    }

    /// Draws this tick's spacing and decides whether a movement fires. Whatever
    /// was drawn, the answer is the rule applied to a spacing between the base
    /// and the base plus the jitter bound.
    pub fn evaluate(&self, idle_ms: u64, now_ms: u64, fullscreen: bool, rng: &mut StdRng) -> (r: bool)
        requires
            self.wf(),
        ensures
            exists|interval: int|
                self.config.interval_ms <= interval <= self.config.interval_ms + self.config.jitter_ms
                    && r == fires(
                    self.config,
                    idle_ms as int,
                    elapsed_between(self.last_move_ms, now_ms),
                    interval,
                    fullscreen,
                ),
    {
        let interval = effective_interval(self.config.interval_ms, self.config.jitter_ms, rng);
        self.decide(idle_ms, now_ms, interval, fullscreen)
    }

    /// The plan of the configured pattern for a movement that fires now.
    pub fn movement(&self, rng: &mut StdRng) -> (r: MovePlan)
        ensures
            plan_of(self.config.move_pattern, r.steps@, r.restore_origin),
    {
        plan(self.config.move_pattern, rng)
    }

    /// Notes that a movement has just ended.
    pub fn record_movement(&mut self, now_ms: u64)
        ensures
            final(self).config == old(self).config,
            final(self).last_move_ms == now_ms,
    {
        self.last_move_ms = now_ms;
    }
}

} // verus!
