//! The scheduler's settings and their defaults.

use vstd::prelude::*;
use vstd::string::StrSliceExecFns;

verus! {

/// The movement pattern the engine runs when the scheduler fires.
#[derive(Clone, Copy, Debug, PartialEq, Eq, Structural)]
pub enum Pattern {
    PingPong,
    MicroJitter,
    RandomWalkBox,
}

/// The pattern a setting names: `micro_jitter`, `random_walk_box`, and
/// ping-pong for any other name.
pub open spec fn pattern_named(name: Seq<char>) -> Pattern {
    if name == "micro_jitter"@ {
        Pattern::MicroJitter
    } else if name == "random_walk_box"@ {
        Pattern::RandomWalkBox
    } else {
        Pattern::PingPong
    }
}

/// Character-wise equality of two strings.
fn same_text(a: &str, b: &str) -> (r: bool)
    ensures
        r == (a@ == b@),
{
    let n = a.unicode_len();
    if n != b.unicode_len() {
        return false;
    }
    let mut i: usize = 0;
    while i < n
        invariant
            n == a@.len(),
            n == b@.len(),
            i <= n,
            forall|j: int| 0 <= j < i ==> a@[j] == b@[j],
        decreases n - i,
    {
        if a.get_char(i) != b.get_char(i) {
            return false;
        }
        i = i + 1;
    }
    assert(a@ =~= b@);
    true
}

impl Pattern {
    pub fn from_name(name: &str) -> (r: Pattern)
        ensures
            r == pattern_named(name@),
    {
        if same_text(name, "micro_jitter") {
            Pattern::MicroJitter
        } else if same_text(name, "random_walk_box") {
            Pattern::RandomWalkBox
        } else {
            Pattern::PingPong
        }
    }

    /// The setting's name for the pattern.
    pub fn name(self) -> (r: &'static str)
        ensures
            self == Pattern::PingPong ==> r@ == "ping_pong"@,
            self == Pattern::MicroJitter ==> r@ == "micro_jitter"@,
            self == Pattern::RandomWalkBox ==> r@ == "random_walk_box"@,
    {
        match self {
            Pattern::PingPong => "ping_pong",
            Pattern::MicroJitter => "micro_jitter",
            Pattern::RandomWalkBox => "random_walk_box",
        }
    }
}

/// A pattern's name reads back as that pattern.
pub proof fn lemma_name_round_trip(p: Pattern, name: Seq<char>)
    requires
        p == Pattern::PingPong ==> name == "ping_pong"@,
        p == Pattern::MicroJitter ==> name == "micro_jitter"@,
        p == Pattern::RandomWalkBox ==> name == "random_walk_box"@,
    ensures
        pattern_named(name) == p,
{
    reveal_strlit("ping_pong");
    reveal_strlit("micro_jitter");
    reveal_strlit("random_walk_box");
    assert("ping_pong"@.len() == 9);
    assert("micro_jitter"@.len() == 12);
    assert("random_walk_box"@.len() == 15);
}

pub const DEFAULT_IDLE_THRESHOLD_MS: u64 = 120_000;

pub const DEFAULT_INTERVAL_MS: u64 = 30_000;

pub const DEFAULT_JITTER_MS: u64 = 5_000;

/// Settings fixed at startup. Durations are in milliseconds.
#[derive(Clone, Copy, Debug, PartialEq, Eq, Structural)]
pub struct Config {
    /// Inactivity needed before a movement may happen.
    pub idle_threshold_ms: u64,
    /// Least spacing between two movements.
    pub interval_ms: u64,
    /// Bound of the random addition to the spacing.
    pub jitter_ms: u64,
    pub move_pattern: Pattern,
    /// Withhold movement while the foreground window fills the screen.
    pub pause_on_fullscreen: bool,
}

/// The documented defaults: 120 s idle, 30 s spacing, 5 s jitter, ping-pong,
/// and suppression on full screen.
pub open spec fn is_default(c: Config) -> bool {
    &&& c.idle_threshold_ms == 120_000
    &&& c.interval_ms == 30_000
    &&& c.jitter_ms == 5_000
    &&& c.move_pattern == Pattern::PingPong
    &&& c.pause_on_fullscreen
}

/// Settings were read and are well formed.
pub open spec fn usable(read: Option<Config>) -> bool {
    read matches Some(c) && c.wf()
}

impl Config {
    /// The largest spacing, with jitter, fits in a `u64`.
    pub open spec fn wf(&self) -> bool {
        self.interval_ms + self.jitter_ms <= u64::MAX
    }

    /// Settings from the values of a configuration document; `None` where the
    /// spacing with jitter does not fit in a `u64`.
    pub fn new(
        idle_threshold_ms: u64,
        interval_ms: u64,
        jitter_ms: u64,
        move_pattern: &str,
        pause_on_fullscreen: bool,
    ) -> (r: Option<Config>)
        ensures
            r.is_some() <==> interval_ms + jitter_ms <= u64::MAX,
            r matches Some(c) ==> {
                &&& c.wf()
                &&& c.idle_threshold_ms == idle_threshold_ms
                &&& c.interval_ms == interval_ms
                &&& c.jitter_ms == jitter_ms
                &&& c.move_pattern == pattern_named(move_pattern@)
                &&& c.pause_on_fullscreen == pause_on_fullscreen
            },
    {
        if interval_ms > u64::MAX - jitter_ms {
            return None;
        }
        Some(
            Config {
                idle_threshold_ms,
                interval_ms,
                jitter_ms,
                move_pattern: Pattern::from_name(move_pattern),
                pause_on_fullscreen,
            },
        )
    }

    /// The settings to run with: those read, where they were read and are
    /// well formed, and the defaults otherwise.
    pub fn or_default(read: Option<Config>) -> (r: Config)
        ensures
            r.wf(),
            usable(read) ==> r == read.unwrap(),
            !usable(read) ==> is_default(r),
    {
        match read {
            Some(c) => {
                if c.interval_ms <= u64::MAX - c.jitter_ms {
                    c
                } else {
                    Config::default()
                }
            },
            None => Config::default(),
        }
    }
}

impl Default for Config {
    fn default() -> (r: Config)
        ensures
            is_default(r),
            r.wf(),
    {
        Config {
            idle_threshold_ms: DEFAULT_IDLE_THRESHOLD_MS,
            interval_ms: DEFAULT_INTERVAL_MS,
            jitter_ms: DEFAULT_JITTER_MS,
            move_pattern: Pattern::PingPong,
            pause_on_fullscreen: true,
        }
    }
}

} // verus!
