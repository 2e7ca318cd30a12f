//! Filters over round-trip time samples.
use vstd::prelude::*;

use crate::time::{Duration, Instant, MAX_SPAN_NANOS, NANOS_PER_MILLI};

verus! {

/// The number of samples that [`RttMaxTracker`] looks back on.
pub const MAX_FILTER_SAMPLES: usize = 4;

/// The number of time slots of [`BucketRttMinTracker`]: one more than ten seconds take,
/// so that a sample from the end of a slot lasts for ten seconds too.
pub const BUCKETS: usize = 101;

/// The length of one time slot of [`BucketRttMinTracker`].
pub const BUCKET_MILLIS: u128 = 100;

/// The age at which a time slot has expired: its length and ten seconds.
pub const BUCKET_LIFE_MILLIS: u128 = 10_100;

/// The shortest of `spans`, the longest span of all where there is none.
pub open spec fn shortest(spans: Seq<Duration>) -> Duration
    decreases spans.len(),
{
    if spans.len() == 0 {
        Duration::of(MAX_SPAN_NANOS as int)
    } else if spans.len() == 1 {
        spans[0]
    } else {
        shortest(spans.drop_last()).shorter_spec(spans.last())
    }
}

/// The longest of `spans`, zero where there is none.
pub open spec fn longest(spans: Seq<Duration>) -> Duration
    decreases spans.len(),
{
    if spans.len() == 0 {
        Duration::of(0)
    } else if spans.len() == 1 {
        spans[0]
    } else {
        longest(spans.drop_last()).longer_spec(spans.last())
    }
}

/// `shortest` is a lower bound, and one of the spans where there is one.
pub proof fn shortest_is_attained(spans: Seq<Duration>)
    ensures
        forall|i: int| 0 <= i < spans.len() ==> shortest(spans).nanos <= (#[trigger] spans[i]).nanos,
        spans.len() > 0 ==> spans.contains(shortest(spans)),
    decreases spans.len(),
{
    if spans.len() == 1 {
        assert(spans[0] == shortest(spans));
    } else if spans.len() > 1 {
        let init = spans.drop_last();
        shortest_is_attained(init);
        assert forall|i: int| 0 <= i < spans.len() implies shortest(spans).nanos <= (
        #[trigger] spans[i]).nanos by {
            if i < init.len() {
                assert(init[i] == spans[i]);
            }
        }
        if shortest(spans) == shortest(init) {
            let k = choose|k: int| 0 <= k < init.len() && init[k] == shortest(init);
            assert(spans[k] == shortest(spans));
        } else {
            assert(spans[spans.len() - 1] == shortest(spans));
        }
    }
}

/// `longest` is an upper bound, and one of the spans where there is one.
pub proof fn longest_is_attained(spans: Seq<Duration>)
    ensures
        forall|i: int| 0 <= i < spans.len() ==> (#[trigger] spans[i]).nanos <= longest(spans).nanos,
        spans.len() > 0 ==> spans.contains(longest(spans)),
    decreases spans.len(),
{
    if spans.len() == 1 {
        assert(spans[0] == longest(spans));
    } else if spans.len() > 1 {
        let init = spans.drop_last();
        longest_is_attained(init);
        assert forall|i: int| 0 <= i < spans.len() implies (#[trigger] spans[i]).nanos <= longest(
            spans,
        ).nanos by {
            if i < init.len() {
                assert(init[i] == spans[i]);
            }
        }
        if longest(spans) == longest(init) {
            let k = choose|k: int| 0 <= k < init.len() && init[k] == longest(init);
            assert(spans[k] == longest(spans));
        } else {
            assert(spans[spans.len() - 1] == longest(spans));
        }
    }
}

/// The shortest span depends on which spans there are, not on their order.
proof fn shortest_unique(spans: Seq<Duration>, bound: Duration)
    requires
        spans.contains(bound),
        forall|i: int| 0 <= i < spans.len() ==> bound.nanos <= (#[trigger] spans[i]).nanos,
    ensures
        shortest(spans) == bound,
{
    shortest_is_attained(spans);
    let k = choose|k: int| 0 <= k < spans.len() && spans[k] == bound;
    assert(shortest(spans).nanos <= spans[k].nanos);
    let j = choose|j: int| 0 <= j < spans.len() && spans[j] == shortest(spans);
    assert(bound.nanos <= spans[j].nanos);
}

/// The longest span depends on which spans there are, not on their order.
proof fn longest_unique(spans: Seq<Duration>, bound: Duration)
    requires
        spans.contains(bound),
        forall|i: int| 0 <= i < spans.len() ==> (#[trigger] spans[i]).nanos <= bound.nanos,
    ensures
        longest(spans) == bound,
{
    longest_is_attained(spans);
    let k = choose|k: int| 0 <= k < spans.len() && spans[k] == bound;
    assert(spans[k].nanos <= longest(spans).nanos);
    let j = choose|j: int| 0 <= j < spans.len() && spans[j] == longest(spans);
    assert(spans[j].nanos <= bound.nanos);
}

/// The longest round-trip time of the last four samples.
///
/// Its view is those samples, the oldest first; where fewer than four have been
/// taken, zeros stand for the missing ones.
#[derive(Debug, Clone, Copy)]
pub struct RttMaxTracker {
    rtt: [Duration; 4],
    idx: usize,
}

impl View for RttMaxTracker {
    type V = Seq<Duration>;

    closed spec fn view(&self) -> Seq<Duration> {
        Seq::new(4, |i: int| self.rtt@[(self.idx + 1 + i) % 4])
    }
}

impl RttMaxTracker {
    #[verifier::type_invariant]
    spec fn in_range(&self) -> bool {
        self.idx < 4
    }

    /// A tracker that has seen no sample.
    pub fn new() -> (tracker: Self)
        ensures
            tracker@ == Seq::new(MAX_FILTER_SAMPLES as nat, |i: int| Duration::of(0)),
    {
        RttMaxTracker { rtt: [Duration::zero();4], idx: 0 }
    }

    /// Takes a sample in and lets the oldest go.
    pub fn update(&mut self, rtt: Duration)
        ensures
            old(self)@.len() == MAX_FILTER_SAMPLES,
            final(self)@ == old(self)@.drop_first().push(rtt),
    {
        proof {
            use_type_invariant(&*self);
        }
        self.idx = (self.idx + 1) % 4;
        self.rtt[self.idx] = rtt;
        assert(self@ =~= old(self)@.drop_first().push(rtt));
    }

    /// The longest of the last four samples.
    pub fn max_rtt(&self) -> (rtt: Duration)
        ensures
            self@.len() == MAX_FILTER_SAMPLES,
            rtt == longest(self@),
    {
        proof {
            use_type_invariant(&*self);
        }
        let mut best: Duration = self.rtt[0];
        let mut i: usize = 1;
        while i < 4
            invariant
                1 <= i <= 4,
                forall|j: int| 0 <= j < i ==> (#[trigger] self.rtt@[j]).nanos <= best.nanos,
                exists|j: int| 0 <= j < i && #[trigger] self.rtt@[j] == best,
            decreases 4 - i,
        {
            best = best.max(self.rtt[i]);
            assert(self.rtt@[i as int] == best || exists|j: int|
                0 <= j < i && #[trigger] self.rtt@[j] == best);
            i += 1;
        }
        proof {
            let j = choose|j: int| 0 <= j < 4 && #[trigger] self.rtt@[j] == best;
            let k = (j - self.idx - 1) % 4;
            assert(0 <= k < 4 && (self.idx + 1 + k) % 4 == j);
            assert(self@[k] == best);
            longest_unique(self@, best);
        }
        best
    }
}

/// A round-trip time sample and when it was taken.
#[derive(Debug, Clone, Copy)]
pub struct RttTracker {
    pub rtt: Duration,
    pub time: Instant,
}

/// The shortest round-trip time within a window that slides with the clock.
///
/// Its view is the samples that are kept, in the order in which they came.
#[derive(Debug, Clone)]
pub struct RttMinTracker {
    rtt: Vec<RttTracker>,
}

impl View for RttMinTracker {
    type V = Seq<RttTracker>;

    closed spec fn view(&self) -> Seq<RttTracker> {
        self.rtt@
    }
}

/// The round-trip times of `samples`.
pub open spec fn rtts(samples: Seq<RttTracker>) -> Seq<Duration> {
    samples.map_values(|sample: RttTracker| sample.rtt)
}

/// The samples that are younger than `window` at `now`, in their order.
pub open spec fn recent(samples: Seq<RttTracker>, now: Instant, window: Duration) -> Seq<RttTracker> {
    samples.filter(|sample: RttTracker| now.since(sample.time).nanos < window.nanos)
}

impl RttMinTracker {
    /// A tracker that has seen no sample.
    pub fn new() -> (tracker: Self)
        ensures
            tracker@ == Seq::<RttTracker>::empty(),
    {
        RttMinTracker { rtt: Vec::new() }
    }

    /// Drops the samples that are `window` old or older and takes a new one in.
    pub fn update(&mut self, rtt: Duration, now: Instant, window: Duration)
        ensures
            final(self)@ == recent(old(self)@, now, window).push(RttTracker { rtt, time: now }),
    {
        let ghost keep = |sample: RttTracker| now.since(sample.time).nanos < window.nanos;
        let mut kept: Vec<RttTracker> = Vec::new();
        let mut i: usize = 0;
        while i < self.rtt.len()
            invariant
                i <= self.rtt@.len(),
                self.rtt@ == old(self).rtt@,
                keep == (|sample: RttTracker| now.since(sample.time).nanos < window.nanos),
                kept@ == self.rtt@.take(i as int).filter(keep),
            decreases self.rtt.len() - i,
        {
            let sample = self.rtt[i];
            proof {
                reveal(Seq::filter);
                assert(self.rtt@.take(i + 1).drop_last() =~= self.rtt@.take(i as int));
                assert(self.rtt@.take(i + 1).last() == sample);
            }
            if now.saturating_duration_since(sample.time).nanos < window.nanos {
                kept.push(sample);
            }
            i += 1;
        }
        assert(self.rtt@.take(i as int) =~= self.rtt@);
        kept.push(RttTracker { rtt, time: now });
        self.rtt = kept;
    }

    /// The shortest sample that is kept, the longest span of all where there is none.
    pub fn min_rtt(&self) -> (rtt: Duration)
        ensures
            rtt == shortest(rtts(self@)),
    {
        let ghost all = rtts(self@);
        if self.rtt.len() == 0 {
            return Duration::longest();
        }
        let mut best: Duration = self.rtt[0].rtt;
        assert(all[0] == best);
        let mut i: usize = 1;
        while i < self.rtt.len()
            invariant
                1 <= i <= self.rtt@.len(),
                all == rtts(self.rtt@),
                forall|j: int| 0 <= j < i ==> best.nanos <= (#[trigger] all[j]).nanos,
                exists|j: int| 0 <= j < i && #[trigger] all[j] == best,
            decreases self.rtt.len() - i,
        {
            best = best.min(self.rtt[i].rtt);
            assert(all[i as int] == best || exists|j: int| 0 <= j < i && #[trigger] all[j] == best);
            i += 1;
        }
        proof {
            shortest_unique(all, best);
        }
        best
    }
}

/// What a [`BucketRttMinTracker`] holds: the minimum of each time slot, when the slot
/// began, the slot that is written to, and when that one was entered.
#[verifier::ext_equal]
pub struct Slots {
    pub buckets: Seq<Duration>,
    pub starts: Seq<Instant>,
    pub current: int,
    pub last_update: Instant,
}

impl Slots {
    /// There are [`BUCKETS`] slots, and the current one is among them.
    pub open spec fn valid(self) -> bool {
        &&& self.buckets.len() == BUCKETS
        &&& self.starts.len() == BUCKETS
        &&& 0 <= self.current < BUCKETS
    }

    /// Empty slots, the first of which begins at `now`.
    pub open spec fn empty(now: Instant) -> Slots {
        Slots {
            buckets: Seq::new(BUCKETS as nat, |i: int| Duration::of(MAX_SPAN_NANOS as int)),
            starts: Seq::new(BUCKETS as nat, |i: int| now),
            current: 0,
            last_update: now,
        }
    }

    /// How many slots `now` lies ahead of the last change of slot.
    pub open spec fn ahead(self, now: Instant) -> int {
        (now.since(self.last_update).nanos / NANOS_PER_MILLI / BUCKET_MILLIS) as int
    }

    /// The slot of `now`.
    pub open spec fn slot_at(self, now: Instant) -> int {
        (self.current + self.ahead(now)) % (BUCKETS as int)
    }

    /// Whether `slot` is entered at `now`.
    pub open spec fn enters(self, slot: int, now: Instant) -> bool {
        self.ahead(now) > 0 && slot == self.slot_at(now)
    }

    /// Whether all that `slot` holds is ten seconds old at `now`, or older.
    pub open spec fn expired(self, slot: int, now: Instant) -> bool {
        now.since(self.starts[slot]).nanos / NANOS_PER_MILLI >= BUCKET_LIFE_MILLIS
    }

    /// The slots when the clock has reached `now`: the slot that is entered is emptied,
    /// and so are those that have expired.
    pub open spec fn advance(self, now: Instant) -> Slots {
        Slots {
            buckets: Seq::new(
                BUCKETS as nat,
                |slot: int|
                    if self.enters(slot, now) || self.expired(slot, now) {
                        Duration::of(MAX_SPAN_NANOS as int)
                    } else {
                        self.buckets[slot]
                    },
            ),
            starts: Seq::new(
                BUCKETS as nat,
                |slot: int|
                    if self.enters(slot, now) {
                        now
                    } else {
                        self.starts[slot]
                    },
            ),
            current: self.slot_at(now),
            last_update: if self.ahead(now) > 0 {
                now
            } else {
                self.last_update
            },
        }
    }

    /// The slots after a sample at `now`.
    pub open spec fn sample(self, rtt: Duration, now: Instant) -> Slots {
        let there = self.advance(now);
        Slots {
            buckets: there.buckets.update(
                there.current,
                there.buckets[there.current].shorter_spec(rtt),
            ),
            ..there
        }
    }
}

/// The shortest round-trip time of the last ten seconds, in a ring of time slots.
///
/// The first slot begins when the tracker is made, any other one with the first sample that
/// is taken in it. A slot is kept until all its samples are ten seconds old, and no longer
/// than that and its own length.
#[derive(Debug, Clone, Copy)]
pub struct BucketRttMinTracker {
    buckets: [Duration; 101],
    starts: [Instant; 101],
    current_bucket: usize,
    last_update: Instant,
}

impl View for BucketRttMinTracker {
    type V = Slots;

    closed spec fn view(&self) -> Slots {
        Slots {
            buckets: self.buckets@,
            starts: self.starts@,
            current: self.current_bucket as int,
            last_update: self.last_update,
        }
    }
}

impl BucketRttMinTracker {
    #[verifier::type_invariant]
    spec fn in_range(&self) -> bool {
        self.current_bucket < 101
    }

    /// A tracker that has seen no sample and whose first slot begins at `now`.
    pub fn new(now: Instant) -> (tracker: Self)
        ensures
            tracker@ == Slots::empty(now),
    {
        let tracker = BucketRttMinTracker {
            buckets: [Duration::longest();101],
            starts: [now;101],
            current_bucket: 0,
            last_update: now,
        };
        assert(tracker@ =~= Slots::empty(now));
        tracker
    }

    /// Moves on to the slot of `now`, lets go what has expired, and takes a sample in.
    pub fn update(&mut self, rtt: Duration, now: Instant)
        ensures
            old(self)@.valid(),
            final(self)@.valid(),
            final(self)@ == old(self)@.sample(rtt, now),
    {
        proof {
            use_type_invariant(&*self);
        }
        let ghost before = self@;
        let elapsed: u128 = now.saturating_duration_since(self.last_update).as_millis()
            / BUCKET_MILLIS;
        let current: usize = (self.current_bucket + (elapsed % 101) as usize) % 101;
        assert(current == before.slot_at(now));
        if elapsed > 0 {
            self.buckets[current] = Duration::longest();
            self.starts[current] = now;
            self.current_bucket = current;
            self.last_update = now;
        }
        assert(self@.starts =~= before.advance(now).starts);
        let mut i: usize = 0;
        while i < BUCKETS
            invariant
                i <= BUCKETS,
                before.valid(),
                current == before.slot_at(now),
                self.current_bucket == current,
                self.last_update == before.advance(now).last_update,
                self.starts@ == before.advance(now).starts,
                forall|b: int|
                    0 <= b < BUCKETS ==> #[trigger] self.buckets@[b] == if before.enters(b, now)
                        || (b < i && before.expired(b, now)) {
                        Duration::of(MAX_SPAN_NANOS as int)
                    } else {
                        before.buckets[b]
                    },
            decreases BUCKETS - i,
        {
            if now.saturating_duration_since(self.starts[i]).as_millis() >= BUCKET_LIFE_MILLIS {
                self.buckets[i] = Duration::longest();
            }
            i += 1;
        }
        assert(self@.buckets =~= before.advance(now).buckets);
        self.buckets[current] = self.buckets[current].min(rtt);
        assert(self@.buckets =~= before.sample(rtt, now).buckets);
    }

    /// The shortest span over all slots.
    pub fn min_rtt(&self) -> (rtt: Duration)
        ensures
            self@.valid(),
            rtt == shortest(self@.buckets),
    {
        proof {
            use_type_invariant(&*self);
        }
        let mut best: Duration = self.buckets[0];
        let mut i: usize = 1;
        while i < BUCKETS
            invariant
                1 <= i <= BUCKETS,
                forall|j: int| 0 <= j < i ==> best.nanos <= (#[trigger] self.buckets@[j]).nanos,
                exists|j: int| 0 <= j < i && #[trigger] self.buckets@[j] == best,
            decreases BUCKETS - i,
        {
            best = best.min(self.buckets[i]);
            assert(self.buckets@[i as int] == best || exists|j: int|
                0 <= j < i && #[trigger] self.buckets@[j] == best);
            i += 1;
        }
        proof {
            shortest_unique(self@.buckets, best);
        }
        best
    }
}

} // verus!
