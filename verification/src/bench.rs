//! Types and computations of the round-trip latency measurement that ships
//! with the runtime: the topics the processes exchange, the loop-control
//! decisions of the leading and following side, and the statistics drawn
//! from the recorded latencies.

use vstd::prelude::*;

verus! {

/// Upper bound on measured iterations.
pub const MAX_ITERATIONS: usize = 10000000;

/// Event id the leading process signals readiness with.
pub const LEADER_READY_EVENT_ID: usize = 1;

/// Event id the following process signals readiness with.
pub const FOLLOWER_READY_EVENT_ID: usize = 2;

/// Name of the readiness event service.
pub const READY_EVENT_NAME: &'static str = "bench/event/ready";

/// Name of the settings topic service.
pub const SETTINGS_SERVICE_NAME: &'static str = "bench/settings";

/// Name of the settings event service.
pub const SETTINGS_EVENT_NAME: &'static str = "bench/event/settings";

/// Name of the leading side's ping service.
pub const LEADER_SERVICE_NAME: &'static str = "bench/leader";

/// Name of the following side's pong service.
pub const FOLLOWER_SERVICE_NAME: &'static str = "bench/follower";

/// Name of the latency result service.
pub const LATENCY_SERVICE_NAME: &'static str = "bench/latency";

/// Command-line choices of the measurement: which role to run, and how many
/// iterations.
#[derive(Clone, Copy, Debug, PartialEq, Eq, Structural)]
pub struct Params {
    pub leader: bool,
    pub follower: bool,
    pub iterations: usize,
}

/// The settings the main process distributes before the measurement starts.
#[derive(Clone, Copy, Debug, PartialEq, Eq, Structural)]
pub struct SettingsTopic {
    pub iterations: usize,
}

/// Metadata carried by every ping and pong.
#[derive(Clone, Copy, Debug, PartialEq, Eq, Structural)]
pub struct Info {
    pub timestamp: u128,
    pub warmup: bool,
    pub last: bool,
}

/// One ping or pong: metadata plus an opaque payload of `N` bytes.
#[derive(Clone, Copy, Debug)]
pub struct BenchTopic<const N: usize> {
    pub info: Info,
    pub data: [u8; N],
}

/// The recorded latencies one side reports at the end: a fixed-capacity
/// record of [`MAX_ITERATIONS`] slots of which the first `used_size` carry
/// measurements.
#[derive(Clone, Debug)]
pub struct LatencyTopic {
    pub used_size: usize,
    pub latencies: Vec<u64>,
}

impl Default for LatencyTopic {
    /// A report with nothing used yet: every one of the
    /// [`MAX_ITERATIONS`] slots is present and zero.
    fn default() -> (r: LatencyTopic)
        ensures
            r.used_size == 0,
            r.latencies@.len() == MAX_ITERATIONS,
            forall|i: int| 0 <= i < r.latencies@.len() ==> r.latencies@[i] == 0,
    {
        let mut latencies: Vec<u64> = Vec::new();
        while latencies.len() < MAX_ITERATIONS
            invariant
                latencies@.len() <= MAX_ITERATIONS,
                forall|i: int| 0 <= i < latencies@.len() ==> latencies@[i] == 0,
            decreases MAX_ITERATIONS - latencies@.len(),
        {
            latencies.push(0);
        }
        LatencyTopic { used_size: 0, latencies }
    }
}

/// Whether a requested iteration count is within the measurement's bound.
pub fn validate_iterations(iterations: usize) -> (r: bool)
    ensures
        r == (iterations <= MAX_ITERATIONS),
{
    iterations <= MAX_ITERATIONS
}

/// Progress of the leading side's ping loop.
#[derive(Clone, Copy, Debug, PartialEq, Eq, Structural)]
pub struct LeaderProgress {
    pub remaining: usize,
    pub warmup: usize,
    pub recorded: usize,
    pub finished: bool,
}

impl LeaderProgress {
    /// The loop state before the first ping: all iterations ahead, the
    /// fixed warm-up budget to burn first.
    pub fn start(iterations: usize, warmup: usize) -> (r: LeaderProgress)
        ensures
            r == (LeaderProgress { remaining: iterations, warmup, recorded: 0, finished: false }),
    {
        LeaderProgress { remaining: iterations, warmup, recorded: 0, finished: false }
    }

    /// One completed round trip: warm-up rounds only burn the warm-up
    /// budget; measured rounds record one latency and finish the loop when
    /// every iteration is recorded.
    pub fn step(self, iterations: usize) -> (r: LeaderProgress)
        requires
            !self.finished,
            self.warmup == 0 ==> self.remaining > 0 && self.recorded < iterations,
        ensures
            self.warmup > 0 ==> r == (LeaderProgress { warmup: (self.warmup - 1) as usize, ..self }),
            self.warmup == 0 ==> r == (LeaderProgress {
                remaining: (self.remaining - 1) as usize,
                warmup: 0,
                recorded: (self.recorded + 1) as usize,
                finished: self.recorded + 1 == iterations,
            }),
    {
        if self.warmup > 0 {
            LeaderProgress { warmup: self.warmup - 1, ..self }
        } else {
            LeaderProgress {
                remaining: self.remaining - 1,
                warmup: 0,
                recorded: self.recorded + 1,
                finished: self.recorded + 1 == iterations,
            }
        }
    }
}

/// One relayed round on the following side: a warm-up ping is relayed
/// without recording; a measured ping records one latency, and the ping
/// marked as the last one finishes the loop.
pub fn follower_step(recorded: usize, warmup: bool, last: bool) -> (r: (usize, bool))
    requires
        recorded < usize::MAX,
    ensures
        warmup ==> r == (recorded, false),
        !warmup ==> r == (((recorded + 1) as usize, last)),
{
    if warmup {
        (recorded, false)
    } else {
        (recorded + 1, last)
    }
}

/// Mathematical sum of the first `i` latencies.
pub open spec fn latency_sum(s: Seq<u64>, i: int) -> int
    decreases i,
{
    if i <= 0 {
        0
    } else {
        latency_sum(s, i - 1) + s[i - 1]
    }
}

/// Number of the first `i` latencies strictly above the threshold.
pub open spec fn count_over(s: Seq<u64>, threshold: u64, i: int) -> int
    decreases i,
{
    if i <= 0 {
        0
    } else {
        count_over(s, threshold, i - 1) + if s[i - 1] > threshold {
            1int
        } else {
            0int
        }
    }
}

/// Smallest of the first `i` latencies, from the report's initial bound.
pub open spec fn min_latency_below(s: Seq<u64>, i: int) -> u64
    decreases i,
{
    if i <= 0 {
        1000000000u64
    } else if s[i - 1] < min_latency_below(s, i - 1) {
        s[i - 1]
    } else {
        min_latency_below(s, i - 1)
    }
}

/// Largest of the first `i` latencies, from zero.
pub open spec fn max_latency_below(s: Seq<u64>, i: int) -> u64
    decreases i,
{
    if i <= 0 {
        0u64
    } else if s[i - 1] > max_latency_below(s, i - 1) {
        s[i - 1]
    } else {
        max_latency_below(s, i - 1)
    }
}

/// Index at which the running maximum was first reached.
pub open spec fn max_latency_index_below(s: Seq<u64>, i: int) -> int
    decreases i,
{
    if i <= 0 {
        0
    } else if s[i - 1] > max_latency_below(s, i - 1) {
        i - 1
    } else {
        max_latency_index_below(s, i - 1)
    }
}

/// The statistics the measurement prints at the end.
#[derive(Clone, Copy, Debug, PartialEq, Eq, Structural)]
pub struct LatencyReport {
    pub total_transmissions: usize,
    pub total_time: u128,
    pub min_latency: u64,
    pub max_latency: u64,
    pub max_latency_index: usize,
    pub over_10us: usize,
    pub over_100us: usize,
    pub over_1000us: usize,
}

/// Folds the recorded latencies into the report: total and extreme
/// latencies, the index of the worst round trip, and how many round trips
/// crossed the 10, 100 and 1000 microsecond marks.
#[verifier::loop_isolation(false)]
pub fn analyze_latencies(latencies: &Vec<u64>) -> (r: LatencyReport)
    ensures
        r.total_transmissions == latencies@.len(),
        r.total_time == latency_sum(latencies@, latencies@.len() as int),
        r.min_latency == min_latency_below(latencies@, latencies@.len() as int),
        r.max_latency == max_latency_below(latencies@, latencies@.len() as int),
        r.max_latency_index == max_latency_index_below(latencies@, latencies@.len() as int),
        r.over_10us == count_over(latencies@, 10000, latencies@.len() as int),
        r.over_100us == count_over(latencies@, 100000, latencies@.len() as int),
        r.over_1000us == count_over(latencies@, 1000000, latencies@.len() as int),
{
    let mut total_time: u128 = 0;
    let mut min_latency: u64 = 1000000000;
    let mut max_latency: u64 = 0;
    let mut max_latency_index: usize = 0;
    let mut over_10us: usize = 0;
    let mut over_100us: usize = 0;
    let mut over_1000us: usize = 0;
    let mut i: usize = 0;
    let n = latencies.len();
    while i < n
        invariant
            i <= n,
            n == latencies@.len(),
            total_time == latency_sum(latencies@, i as int),
            min_latency == min_latency_below(latencies@, i as int),
            max_latency == max_latency_below(latencies@, i as int),
            max_latency_index == max_latency_index_below(latencies@, i as int),
            over_10us == count_over(latencies@, 10000, i as int),
            over_100us == count_over(latencies@, 100000, i as int),
            over_1000us == count_over(latencies@, 1000000, i as int),
            over_10us <= i && over_100us <= i && over_1000us <= i,
            total_time <= i * 0xffffffffffffffffu128,
        decreases n - i,
    {
        let latency = latencies[i];
        proof {
            assert((i + 1) * 0xffffffffffffffffu128 == i * 0xffffffffffffffffu128
                + 0xffffffffffffffffu128) by (nonlinear_arith);
            assert(i * 0xffffffffffffffffu128 <= (n - 1) * 0xffffffffffffffffu128)
                by (nonlinear_arith)
                requires
                    0 <= i <= n - 1,
            ;
            assert((n - 1) * 0xffffffffffffffffu128 + 0xffffffffffffffffu128 <= u128::MAX)
                by (nonlinear_arith)
                requires
                    1 <= n <= 0xffffffffffffffffu128,
            ;
        }
        total_time = total_time + (latency as u128);
        if latency < min_latency {
            min_latency = latency;
        }
        if latency > max_latency {
            max_latency = latency;
            max_latency_index = i;
        }
        if latency > 10000 {
            over_10us += 1;
        }
        if latency > 100000 {
            over_100us += 1;
        }
        if latency > 1000000 {
            over_1000us += 1;
        }
        i += 1;
    }
    LatencyReport {
        total_transmissions: n,
        total_time,
        min_latency,
        max_latency,
        max_latency_index,
        over_10us,
        over_100us,
        over_1000us,
    }
}

} // verus!
