//! The load counter shared by the workers of one load phase.

use vstd::prelude::*;
use vstd::string::StringExecFns;

verus! {

/// The start barrier that all workers and the sampling loop pass together.
#[verifier::external_type_specification]
#[verifier::external_body]
pub struct ExBarrier(std::sync::Barrier);

/// A start barrier together with the number of parties it gathers.
pub struct StartBarrier {
    barrier: std::sync::Barrier,
    parties: usize,
}

impl StartBarrier {
    /// How many parties the barrier gathers before it lets them all pass.
    pub closed spec fn parties(&self) -> usize {
        self.parties
    }

    /// Calls `std::sync::Barrier::new(parties)`: the barrier lets its waiters
    /// pass once `parties` of them have arrived; the count is kept beside it.
    #[verifier::external_body]
    pub fn new(parties: usize) -> (b: Self)
        ensures
            b.parties() == parties,
    {
        StartBarrier { barrier: std::sync::Barrier::new(parties), parties }
    }

    /// Calls `std::sync::Barrier::wait`, which blocks until `parties()`
    /// waiters have arrived; nothing is claimed of its result.
    #[verifier::external_body]
    pub fn wait(&self) {
        self.barrier.wait();
    }
}

/// How a load phase went, judged from the recorded totals.
#[derive(PartialEq, Eq, Structural, Clone, Copy, Debug)]
pub enum StreamStatus {
    /// No sample was recorded.
    NoData,
    /// The transfer ran without (or with few) stalls.
    Normal,
    /// The transfer stalled too often.
    Interrupted,
}

/// The byte and time difference over the sampling window, when data moved.
#[derive(PartialEq, Eq, Structural, Clone, Copy, Debug)]
pub enum Throughput {
    /// Fewer than two samples, no time elapsed, or no byte moved.
    Idle,
    /// `bytes` moved in `micros` microseconds (both positive).
    Rate { bytes: u64, micros: u128 },
}

/// Number of samples in which the total did not move since the previous one
/// (the first sample is compared with zero).
pub open spec fn stall_count(totals: Seq<u64>) -> nat
    decreases totals.len(),
{
    if totals.len() == 0 {
        0
    } else {
        let prev: u64 = if totals.len() >= 2 { totals[totals.len() - 2] } else { 0 };
        stall_count(totals.drop_last()) + if totals.last() == prev { 1nat } else { 0nat }
    }
}

/// The last three totals show a finished transfer: each of the last two
/// steps either kept the total or followed a zero total.
pub open spec fn settled(totals: Seq<u64>) -> bool {
    let n = totals.len();
    &&& n >= 3
    &&& (totals[n - 2] == totals[n - 1] || totals[n - 1] == 0)
    &&& (totals[n - 3] == totals[n - 2] || totals[n - 2] == 0)
}

/// The health of a load phase from its recorded totals.
pub open spec fn status_of(totals: Seq<u64>) -> StreamStatus {
    if totals.len() == 0 {
        StreamStatus::NoData
    } else if settled(totals) {
        StreamStatus::Normal
    } else if stall_count(totals) < 6 {
        StreamStatus::Normal
    } else {
        StreamStatus::Interrupted
    }
}

/// The text the client reports for a status.
pub open spec fn status_text(s: StreamStatus) -> Seq<char> {
    match s {
        StreamStatus::NoData => "无数据"@,
        StreamStatus::Normal => "正常"@,
        StreamStatus::Interrupted => "断流"@,
    }
}

/// The totals column of the recorded samples.
pub open spec fn totals_of(samples: Seq<(u64, u128)>) -> Seq<u64> {
    samples.map_values(|s: (u64, u128)| s.0)
}

/// Index of the first sample of the throughput window: the last ten samples,
/// or all of them when there are fewer.
pub open spec fn window_start(n: nat) -> nat {
    if n >= 10 { (n - 10) as nat } else { 0 }
}

/// The throughput over the window of recorded samples.
pub open spec fn throughput_of(samples: Seq<(u64, u128)>) -> Throughput {
    let n = samples.len();
    if n < 2 {
        Throughput::Idle
    } else {
        let first = samples[window_start(n) as int];
        let last = samples[n - 1];
        if last.1 <= first.1 || last.0 <= first.0 {
            Throughput::Idle
        } else {
            Throughput::Rate { bytes: (last.0 - first.0) as u64, micros: (last.1 - first.1) as u128 }
        }
    }
}

/// A transfer whose last three totals show it finished counts as normal,
/// however often it stalled before.
pub proof fn law_settled_is_normal(totals: Seq<u64>)
    requires
        settled(totals),
    ensures
        status_of(totals) == StreamStatus::Normal,
{
}

/// A phase is reported interrupted only when it stalled at least six times
/// and did not end settled.
pub proof fn law_interrupted_needs_stalls(totals: Seq<u64>)
    requires
        status_of(totals) == StreamStatus::Interrupted,
    ensures
        stall_count(totals) >= 6,
        !settled(totals),
        totals.len() > 0,
{
}

/// There are never more stalls than samples.
pub proof fn law_stalls_bounded(totals: Seq<u64>)
    ensures
        stall_count(totals) <= totals.len(),
    decreases totals.len(),
{
    if totals.len() > 0 {
        law_stalls_bounded(totals.drop_last());
    }
}

/// The throughput depends only on the last ten samples.
pub proof fn law_throughput_uses_last_ten(samples: Seq<(u64, u128)>)
    requires
        samples.len() >= 10,
    ensures
        throughput_of(samples) == throughput_of(
            samples.subrange(samples.len() - 10, samples.len() as int),
        ),
{
    let w = samples.subrange(samples.len() - 10, samples.len() as int);
    assert(w[0] == samples[samples.len() - 10]);
    assert(w[9] == samples[samples.len() - 1]);
}

/// A throughput is either idle or a positive number of bytes over a positive
/// time.
pub proof fn law_rate_is_positive(samples: Seq<(u64, u128)>)
    ensures
        match throughput_of(samples) {
            Throughput::Rate { bytes, micros } => bytes > 0 && micros > 0,
            Throughput::Idle => true,
        },
{
}

/// No sample reads 无数据; a phase is 断流 exactly when it has samples, did
/// not end with its last three totals agreeing (a zero total agrees with the
/// one before it), and stalled at least six times; every other phase is 正常.
pub proof fn law_status_cases(totals: Seq<u64>)
    ensures
        ({
            let n = totals.len();
            let finished = n >= 3 && (totals[n - 2] == totals[n - 1] || totals[n - 1] == 0) && (
            totals[n - 3] == totals[n - 2] || totals[n - 2] == 0);
            &&& (status_of(totals) == StreamStatus::NoData <==> n == 0)
            &&& (status_of(totals) == StreamStatus::Interrupted <==> (n > 0 && !finished
                && stall_count(totals) >= 6))
            &&& (status_of(totals) == StreamStatus::Normal <==> (n > 0 && (finished
                || stall_count(totals) < 6)))
        }),
{
}

/// Stalls are counted sample by sample: none in no samples, and one more
/// for each sample that repeats the total before it (zero before the first).
pub proof fn law_stall_count_steps(totals: Seq<u64>, x: u64)
    ensures
        stall_count(Seq::<u64>::empty()) == 0,
        stall_count(totals.push(x)) == stall_count(totals) + if x == (if totals.len() > 0 {
            totals.last()
        } else {
            0u64
        }) {
            1nat
        } else {
            0nat
        },
{
    assert(totals.push(x).drop_last() =~= totals);
}

/// The throughput compares the first sample of the window with the last
/// sample: the window is the last ten samples, or all of them when there are
/// fewer; data moved when both the total and the time grew.
pub proof fn law_throughput_window(samples: Seq<(u64, u128)>)
    ensures
        ({
            let n = samples.len();
            let first = if n >= 10 { samples[n - 10] } else { samples[0] };
            let last = samples[n - 1];
            throughput_of(samples) == if n >= 2 && first.0 < last.0 && first.1 < last.1 {
                (Throughput::Rate {
                    bytes: (last.0 - first.0) as u64,
                    micros: (last.1 - first.1) as u128,
                })
            } else {
                Throughput::Idle
            }
        }),
{
}

/// Byte counter of one load phase: workers add what they move, the sampler
/// records the running total with the elapsed time, and a flag tells the
/// workers to stop. A start barrier of `parties()` parties makes all workers
/// and the sampler start together.
pub struct LoadCounter {
    counter: u64,
    ended: bool,
    stater: StartBarrier,
    results: Vec<(u64, u128)>,
}

impl LoadCounter {
    /// The running total of bytes moved (modulo 2^64).
    pub closed spec fn total(&self) -> u64 {
        self.counter
    }

    /// Whether the phase has been told to end.
    pub closed spec fn ended(&self) -> bool {
        self.ended
    }

    /// The recorded `(total bytes, elapsed microseconds)` samples, oldest first.
    pub closed spec fn samples(&self) -> Seq<(u64, u128)> {
        self.results@
    }

    /// How many parties the start barrier gathers: the workers and the sampler.
    pub closed spec fn parties(&self) -> usize {
        self.stater.parties()
    }

    /// A counter for `threads` workers; its start barrier gathers them and
    /// the sampling loop.
    pub fn new(threads: u8) -> (c: Self)
        requires
            threads < 255,
        ensures
            c.total() == 0,
            !c.ended(),
            c.parties() == threads + 1,
            c.samples() == Seq::<(u64, u128)>::empty(),
    {
        let parties = (threads + 1) as usize;
        LoadCounter {
            counter: 0,
            ended: false,
            stater: StartBarrier::new(parties),
            results: Vec::new(),
        }
    }

    /// The recorded samples, oldest first.
    pub fn results(&self) -> (r: &Vec<(u64, u128)>)
        ensures
            r@ == self.samples(),
    {
        &self.results
    }

    /// Blocks until all `parties()` parties of the start barrier have arrived.
    pub fn wait(&self) {
        self.stater.wait();
    }

    /// Tells the workers to stop.
    pub fn end(&mut self)
        ensures
            final(self).ended(),
            final(self).total() == old(self).total(),
            final(self).parties() == old(self).parties(),
            final(self).samples() == old(self).samples(),
    {
        self.ended = true;
    }

    /// Whether the workers have been told to stop.
    pub fn is_end(&self) -> (b: bool)
        ensures
            b == self.ended(),
    {
        self.ended
    }

    /// Adds `count` moved bytes to the total, wrapping at 2^64.
    pub fn increase(&mut self, count: u64)
        ensures
            final(self).total() == (old(self).total() + count) % 0x1_0000_0000_0000_0000,
            final(self).ended() == old(self).ended(),
            final(self).parties() == old(self).parties(),
            final(self).samples() == old(self).samples(),
    {
        self.counter = self.counter.wrapping_add(count);
    }

    /// Records the current total with the elapsed time `time_passed`.
    pub fn count(&mut self, time_passed: u128)
        ensures
            final(self).samples() == old(self).samples().push((old(self).total(), time_passed)),
            final(self).total() == old(self).total(),
            final(self).ended() == old(self).ended(),
            final(self).parties() == old(self).parties(),
    {
        let c = self.counter;
        self.results.push((c, time_passed));
    }

    /// The health of the phase judged from the recorded totals.
    pub fn stream_status(&self) -> (st: StreamStatus)
        ensures
            st == status_of(totals_of(self.samples())),
    {
        let ghost totals = totals_of(self.samples());
        let n = self.results.len();
        if n == 0 {
            return StreamStatus::NoData;
        }
        if n >= 3 {
            let e0 = self.results[n - 1].0;
            let e1 = self.results[n - 2].0;
            let e2 = self.results[n - 3].0;
            if (e1 == e0 || e0 == 0) && (e2 == e1 || e1 == 0) {
                return StreamStatus::Normal;
            }
        }
        let mut stop: usize = 0;
        let mut last: u64 = 0;
        let mut i: usize = 0;
        while i < n
            invariant
                n == self.results@.len(),
                totals == totals_of(self.samples()),
                self.samples() == self.results@,
                i <= n,
                stop as nat == stall_count(totals.take(i as int)),
                stop <= i,
                last == (if i == 0 { 0u64 } else { totals[i - 1] }),
            decreases n - i,
        {
            let num = self.results[i].0;
            proof {
                assert(totals.take(i + 1).drop_last() =~= totals.take(i as int));
            }
            if num == last {
                stop += 1;
            }
            last = num;
            i += 1;
        }
        proof {
            assert(totals.take(n as int) =~= totals);
        }
        if stop < 6 {
            StreamStatus::Normal
        } else {
            StreamStatus::Interrupted
        }
    }

    /// The health of the phase as the text the client reports.
    pub fn status(&self) -> (s: String)
        ensures
            s@ == status_text(status_of(totals_of(self.samples()))),
    {
        match self.stream_status() {
            StreamStatus::NoData => String::from_str("无数据"),
            StreamStatus::Normal => String::from_str("正常"),
            StreamStatus::Interrupted => String::from_str("断流"),
        }
    }

    /// The byte and time difference between the first and last sample of the
    /// window (the last ten samples, or all of them when fewer).
    pub fn throughput(&self) -> (t: Throughput)
        ensures
            t == throughput_of(self.samples()),
    {
        let n = self.results.len();
        if n < 2 {
            return Throughput::Idle;
        }
        let start = if n >= 10 { n - 10 } else { 0 };
        let (c_start, t_start) = self.results[start];
        let (c_end, t_end) = self.results[n - 1];
        if t_end <= t_start {
            return Throughput::Idle;
        }
        let byte_diff = c_end.saturating_sub(c_start);
        if byte_diff == 0 {
            return Throughput::Idle;
        }
        Throughput::Rate { bytes: byte_diff, micros: t_end - t_start }
    }
}

} // verus!
