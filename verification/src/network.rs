//! Network throughput from cumulative interface counters.
//!
//! The host only counts bytes since it booted. A rate is the growth of those
//! counters between two observations over the time between them, so the one
//! piece of state that outlives a sample is the previous observation.

use vstd::multiset::Multiset;
use vstd::prelude::*;

verus! {

/// The shortest interval, in nanoseconds, that a rate is ever taken over: one
/// millisecond. Observations closer together than this count as this far apart.
pub const MIN_ELAPSED_NANOS: u64 = 1_000_000;

/// Nanoseconds in a second.
pub const NANOS_PER_SECOND: u64 = 1_000_000_000;

/// Bytes in the unit that rates are reported in.
pub const BYTES_PER_KB: u64 = 1024;

/// The counters of all interfaces added up, at one instant.
#[derive(Clone, Copy, Debug, PartialEq, Eq, Structural)]
pub struct NetworkSample {
    /// Bytes received since boot, over all interfaces.
    pub rx_total: u64,
    /// Bytes transmitted since boot, over all interfaces.
    pub tx_total: u64,
    /// When the counters were read: nanoseconds on a monotonic clock.
    pub instant: u64,
}

/// What moved between two observations.
#[derive(Clone, Copy, Debug, PartialEq, Eq, Structural)]
pub struct Throughput {
    /// Bytes received in the interval.
    pub received: u64,
    /// Bytes transmitted in the interval.
    pub transmitted: u64,
    /// Length of the interval in nanoseconds.
    pub elapsed_nanos: u64,
}

/// The retained state of the rate computation: the previous observation, and
/// nothing before the first one.
#[derive(Debug)]
pub struct RateTracker {
    last: Option<NetworkSample>,
}

/// A sum of counters as a `u64` holds it: capped at the largest value.
pub open spec fn saturated(n: nat) -> u64 {
    if n > u64::MAX {
        u64::MAX
    } else {
        n as u64
    }
}

/// Received and transmitted bytes added up over a bag of interfaces, each
/// given as its pair of counters.
pub open spec fn counter_sums(interfaces: Multiset<(u64, u64)>) -> (nat, nat)
    decreases interfaces.len(),
{
    if interfaces.len() == 0 {
        (0, 0)
    } else {
        let one = interfaces.choose();
        let rest = counter_sums(interfaces.remove(one));
        (one.0 as nat + rest.0, one.1 as nat + rest.1)
    }
}

/// The observation that interfaces with these counters make at `now`.
pub open spec fn observation(interfaces: Multiset<(u64, u64)>, now: u64) -> NetworkSample {
    NetworkSample {
        rx_total: saturated(counter_sums(interfaces).0),
        tx_total: saturated(counter_sums(interfaces).1),
        instant: now,
    }
}

/// Growth of a counter from `before` to `after`; a counter that went back, as
/// after a reset of its interface, has not grown.
pub open spec fn growth(before: u64, after: u64) -> u64 {
    if after >= before {
        (after - before) as u64
    } else {
        0
    }
}

/// Time from `before` to `after`, never less than `MIN_ELAPSED_NANOS`.
pub open spec fn elapsed_between(before: u64, after: u64) -> u64 {
    if growth(before, after) < MIN_ELAPSED_NANOS {
        MIN_ELAPSED_NANOS
    } else {
        growth(before, after)
    }
}

/// What an observation reports against the retained one: nothing moved when
/// there is none, else the growth of both counters over the time between.
pub open spec fn throughput_since(
    last: Option<NetworkSample>,
    current: NetworkSample,
) -> Throughput {
    match last {
        None => Throughput { received: 0, transmitted: 0, elapsed_nanos: MIN_ELAPSED_NANOS },
        Some(previous) => Throughput {
            received: growth(previous.rx_total, current.rx_total),
            transmitted: growth(previous.tx_total, current.tx_total),
            elapsed_nanos: elapsed_between(previous.instant, current.instant),
        },
    }
}

/// `bytes` moved in `nanos` nanoseconds, in whole units of 1024 bytes per
/// second, rounded down. An interval below `MIN_ELAPSED_NANOS` counts as that.
pub open spec fn kb_per_sec(bytes: u64, nanos: u64) -> int {
    let interval = if nanos < MIN_ELAPSED_NANOS {
        MIN_ELAPSED_NANOS
    } else {
        nanos
    };
    (bytes * NANOS_PER_SECOND) / (BYTES_PER_KB * interval)
}

/// A rate never exceeds the number of bytes it was taken from, so it fits the
/// counter's own width.
pub proof fn lemma_rate_bounded(bytes: u64, nanos: u64)
    ensures
        0 <= kb_per_sec(bytes, nanos) <= bytes,
        bytes == 0 ==> kb_per_sec(bytes, nanos) == 0,
{
    let interval: int = if nanos < MIN_ELAPSED_NANOS {
        MIN_ELAPSED_NANOS as int
    } else {
        nanos as int
    };
    let n: int = bytes * 1_000_000_000;
    let d: int = 1024 * interval;
    let b: int = bytes as int;
    assert(0 <= n / d <= b) by (nonlinear_arith)
        requires
            0 <= b,
            n == b * 1_000_000_000,
            d >= 1_024_000_000,
    ;
    assert(b == 0 ==> n / d == 0) by (nonlinear_arith)
        requires
            n == b * 1_000_000_000,
            d >= 1_024_000_000,
    ;
}

/// Adding one interface to a bag adds its counters to the sums.
pub proof fn lemma_counter_sums_insert(interfaces: Multiset<(u64, u64)>, one: (u64, u64))
    ensures
        counter_sums(interfaces.insert(one)) == (
            one.0 as nat + counter_sums(interfaces).0,
            one.1 as nat + counter_sums(interfaces).1,
        ),
    decreases interfaces.len(),
{
    let grown = interfaces.insert(one);
    let picked = grown.choose();
    assert(grown.len() == interfaces.len() + 1);
    assert(grown.count(picked) > 0);
    if picked == one {
        assert(grown.remove(picked) =~= interfaces);
    } else {
        let fewer = interfaces.remove(picked);
        assert(grown.remove(picked) =~= fewer.insert(one));
        assert(fewer.insert(picked) =~= interfaces);
        lemma_counter_sums_insert(fewer, one);
        lemma_counter_sums_insert(fewer, picked);
    }
}

/// Along any listing of a bag of interfaces the sums are those of the listing
/// without its last entry, plus the counters of that entry.
pub proof fn lemma_counter_sums_of_listing(listing: Seq<(u64, u64)>)
    ensures
        listing.len() == 0 ==> counter_sums(listing.to_multiset()) == (0nat, 0nat),
        listing.len() > 0 ==> counter_sums(listing.to_multiset()) == (
            listing.last().0 as nat + counter_sums(listing.drop_last().to_multiset()).0,
            listing.last().1 as nat + counter_sums(listing.drop_last().to_multiset()).1,
        ),
{
    listing.to_multiset_ensures();
    if listing.len() > 0 {
        let front = listing.drop_last();
        assert(listing =~= front.push(listing.last()));
        front.to_multiset_ensures();
        lemma_counter_sums_insert(front.to_multiset(), listing.last());
    }
}

/// The first observation reports that nothing moved, whatever the counters
/// hold.
pub proof fn lemma_first_observation_reports_nothing(current: NetworkSample)
    ensures
        throughput_since(None, current).received == 0,
        throughput_since(None, current).transmitted == 0,
        kb_per_sec(
            throughput_since(None, current).received,
            throughput_since(None, current).elapsed_nanos,
        ) == 0,
        kb_per_sec(
            throughput_since(None, current).transmitted,
            throughput_since(None, current).elapsed_nanos,
        ) == 0,
{
    lemma_rate_bounded(0, MIN_ELAPSED_NANOS);
}

/// A counter that went back between two observations, as after a reset of its
/// interface, gives the rate zero; and no rate is ever negative.
pub proof fn lemma_reset_counter_reports_zero(previous: NetworkSample, current: NetworkSample)
    ensures
        current.rx_total < previous.rx_total ==> kb_per_sec(
            throughput_since(Some(previous), current).received,
            throughput_since(Some(previous), current).elapsed_nanos,
        ) == 0,
        current.tx_total < previous.tx_total ==> kb_per_sec(
            throughput_since(Some(previous), current).transmitted,
            throughput_since(Some(previous), current).elapsed_nanos,
        ) == 0,
        kb_per_sec(
            throughput_since(Some(previous), current).received,
            throughput_since(Some(previous), current).elapsed_nanos,
        ) >= 0,
        kb_per_sec(
            throughput_since(Some(previous), current).transmitted,
            throughput_since(Some(previous), current).elapsed_nanos,
        ) >= 0,
{
    let moved = throughput_since(Some(previous), current);
    lemma_rate_bounded(moved.received, moved.elapsed_nanos);
    lemma_rate_bounded(moved.transmitted, moved.elapsed_nanos);
}

/// Counters that stand still give the rate zero, however much time has
/// passed.
pub proof fn lemma_flat_counters_report_zero(previous: NetworkSample, later: u64)
    ensures
        ({
            let current = NetworkSample {
                rx_total: previous.rx_total,
                tx_total: previous.tx_total,
                instant: later,
            };
            let moved = throughput_since(Some(previous), current);
            &&& moved.received == 0
            &&& moved.transmitted == 0
            &&& kb_per_sec(moved.received, moved.elapsed_nanos) == 0
            &&& kb_per_sec(moved.transmitted, moved.elapsed_nanos) == 0
        }),
{
    let current = NetworkSample {
        rx_total: previous.rx_total,
        tx_total: previous.tx_total,
        instant: later,
    };
    let moved = throughput_since(Some(previous), current);
    lemma_rate_bounded(0, moved.elapsed_nanos);
}

/// One observation as a step: what it reports against the state it finds, and
/// the state it leaves.
pub open spec fn step(found: Option<NetworkSample>, current: NetworkSample) -> (
    Throughput,
    Option<NetworkSample>,
) {
    (throughput_since(found, current), Some(current))
}

/// The state that a run of observations leaves, made one after the other on a
/// tracker that retained `last`. Each one finds what the one before it left:
/// the tracker is borrowed exclusively for the whole of an observation.
pub open spec fn retained_after(
    last: Option<NetworkSample>,
    run: Seq<NetworkSample>,
) -> Option<NetworkSample>
    decreases run.len(),
{
    if run.len() == 0 {
        last
    } else {
        step(retained_after(last, run.drop_last()), run.last()).1
    }
}

/// What the observation at place `k` of a run reports: the growth since the
/// observation before it in the run, or since `last` for the first.
pub open spec fn reported_at(
    last: Option<NetworkSample>,
    run: Seq<NetworkSample>,
    k: int,
) -> Throughput {
    step(retained_after(last, run.take(k)), run[k]).0
}

/// However many observations are made, in whatever order the tracker admits
/// them, the state they leave is the one that the last of them wrote, whole:
/// never a mixture of two.
pub proof fn lemma_run_retains_last_observation(
    last: Option<NetworkSample>,
    run: Seq<NetworkSample>,
)
    requires
        run.len() > 0,
    ensures
        retained_after(last, run) == Some(run.last()),
        exists|k: int| 0 <= k < run.len() && retained_after(last, run) == Some(#[trigger] run[k]),
{
}

/// Every observation of a run but the first reports the growth since the one
/// just before it: no observation is skipped and none is counted twice.
pub proof fn lemma_run_reports_step_by_step(
    last: Option<NetworkSample>,
    run: Seq<NetworkSample>,
    k: int,
)
    requires
        0 <= k < run.len(),
    ensures
        k == 0 ==> reported_at(last, run, k) == throughput_since(last, run[0]),
        k > 0 ==> reported_at(last, run, k) == throughput_since(Some(run[k - 1]), run[k]),
{
}

/// Adds up the counters of all interfaces, each given as received and
/// transmitted bytes. A sum that passes the largest `u64` stays there. The
/// order of the interfaces plays no part.
pub fn sum_counters(interfaces: &Vec<(u64, u64)>) -> (sums: (u64, u64))
    ensures
        sums.0 == saturated(counter_sums(interfaces@.to_multiset()).0),
        sums.1 == saturated(counter_sums(interfaces@.to_multiset()).1),
{
    let mut rx: u64 = 0;
    let mut tx: u64 = 0;
    let mut i: usize = 0;
    proof {
        lemma_counter_sums_of_listing(interfaces@.take(0));
    }
    while i < interfaces.len()
        invariant
            0 <= i <= interfaces.len(),
            rx == saturated(counter_sums(interfaces@.take(i as int).to_multiset()).0),
            tx == saturated(counter_sums(interfaces@.take(i as int).to_multiset()).1),
        decreases interfaces.len() - i,
    {
        let one = interfaces[i];
        proof {
            let seen = interfaces@.take(i + 1);
            assert(seen.drop_last() =~= interfaces@.take(i as int));
            lemma_counter_sums_of_listing(seen);
        }
        rx = rx.saturating_add(one.0);
        tx = tx.saturating_add(one.1);
        i = i + 1;
    }
    proof {
        assert(interfaces@.take(i as int) =~= interfaces@);
    }
    (rx, tx)
}

impl Throughput {
    /// Download rate in units of 1024 bytes per second, rounded down.
    pub fn down_kb_per_sec(&self) -> (rate: u64)
        ensures
            rate == kb_per_sec(self.received, self.elapsed_nanos),
    {
        rate_of(self.received, self.elapsed_nanos)
    }

    /// Upload rate in units of 1024 bytes per second, rounded down.
    pub fn up_kb_per_sec(&self) -> (rate: u64)
        ensures
            rate == kb_per_sec(self.transmitted, self.elapsed_nanos),
    {
        rate_of(self.transmitted, self.elapsed_nanos)
    }
}

/// `bytes` over `nanos` nanoseconds as a rate.
pub fn rate_of(bytes: u64, nanos: u64) -> (rate: u64)
    ensures
        rate == kb_per_sec(bytes, nanos),
{
    let interval: u64 = if nanos < MIN_ELAPSED_NANOS {
        MIN_ELAPSED_NANOS
    } else {
        nanos
    };
    proof {
        lemma_rate_bounded(bytes, nanos);
    }
    let scaled: u128 = bytes as u128 * NANOS_PER_SECOND as u128;
    let unit: u128 = BYTES_PER_KB as u128 * interval as u128;
    (scaled / unit) as u64
}

impl View for RateTracker {
    type V = Option<NetworkSample>;

    /// The retained observation.
    closed spec fn view(&self) -> Option<NetworkSample> {
        self.last
    }
}

impl RateTracker {
    /// A tracker that has observed nothing yet.
    pub fn new() -> (tracker: Self)
        ensures
            tracker@ is None,
    {
        RateTracker { last: None }
    }

    /// The retained observation.
    pub fn last(&self) -> (last: Option<NetworkSample>)
        ensures
            last == self@,
    {
        self.last
    }

    /// Takes the totals read at `now`, reports what moved since the retained
    /// observation, and retains the new one in its place. The first
    /// observation reports that nothing moved. The exclusive borrow makes the
    /// read of the old state and the write of the new one a single step.
    pub fn observe(&mut self, rx_total: u64, tx_total: u64, now: u64) -> (moved: Throughput)
        ensures
            moved == step(old(self)@, (NetworkSample { rx_total, tx_total, instant: now })).0,
            final(self)@ == step(
                old(self)@,
                (NetworkSample { rx_total, tx_total, instant: now }),
            ).1,
    {
        let moved = match self.last {
            None => Throughput { received: 0, transmitted: 0, elapsed_nanos: MIN_ELAPSED_NANOS },
            Some(previous) => {
                let apart = now.saturating_sub(previous.instant);
                Throughput {
                    received: rx_total.saturating_sub(previous.rx_total),
                    transmitted: tx_total.saturating_sub(previous.tx_total),
                    elapsed_nanos: if apart < MIN_ELAPSED_NANOS {
                        MIN_ELAPSED_NANOS
                    } else {
                        apart
                    },
                }
            },
        };
        self.last = Some(NetworkSample { rx_total, tx_total, instant: now });
        moved
    }
}

} // verus!
