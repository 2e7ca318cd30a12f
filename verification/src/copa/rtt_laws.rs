//! What the round-trip time filters promise over several samples.
use vstd::prelude::*;

use crate::copa::rtt::{
    longest, longest_is_attained, recent, rtts, shortest, shortest_is_attained, BucketRttMinTracker,
    RttMaxTracker, RttMinTracker, RttTracker, Slots, BUCKETS, BUCKET_LIFE_MILLIS, BUCKET_MILLIS,
    MAX_FILTER_SAMPLES,
};
use crate::time::{Duration, Instant, MAX_SPAN_NANOS, NANOS_PER_MILLI};

verus! {

/// What an [`RttMaxTracker`](crate::copa::rtt::RttMaxTracker) holds after a sample.
pub open spec fn pushed(samples: Seq<Duration>, rtt: Duration) -> Seq<Duration> {
    samples.drop_first().push(rtt)
}

/// Four samples replace all that came before: the maximum is that of the last four.
pub proof fn four_samples_decide_the_maximum(
    samples: Seq<Duration>,
    a: Duration,
    b: Duration,
    c: Duration,
    d: Duration,
)
    requires
        samples.len() == MAX_FILTER_SAMPLES,
    ensures
        ({
            let last = pushed(pushed(pushed(pushed(samples, a), b), c), d);
            let max = longest(last);
            &&& last == seq![a, b, c, d]
            &&& a.nanos <= max.nanos && b.nanos <= max.nanos && c.nanos <= max.nanos && d.nanos
                <= max.nanos
            &&& max == a || max == b || max == c || max == d
        }),
{
    let last = pushed(pushed(pushed(pushed(samples, a), b), c), d);
    assert(last =~= seq![a, b, c, d]);
    longest_is_attained(last);
    assert(last[0] == a && last[1] == b && last[2] == c && last[3] == d);
}

/// The newest sample always counts: no minimum exceeds it.
pub proof fn standing_minimum_covers_newest(
    samples: Seq<RttTracker>,
    rtt: Duration,
    now: Instant,
    window: Duration,
)
    ensures
        shortest(rtts(recent(samples, now, window).push(RttTracker { rtt, time: now }))).nanos
            <= rtt.nanos,
{
    let kept = recent(samples, now, window).push(RttTracker { rtt, time: now });
    shortest_is_attained(rtts(kept));
    assert(rtts(kept)[kept.len() - 1] == rtt);
}

/// A sample is kept by an update if and only if it is younger than the window.
pub proof fn standing_window_is_exact(
    samples: Seq<RttTracker>,
    now: Instant,
    window: Duration,
    sample: RttTracker,
)
    ensures
        recent(samples, now, window).contains(sample) <==> samples.contains(sample) && now.since(
            sample.time,
        ).nanos < window.nanos,
    decreases samples.len(),
{
    reveal(Seq::filter);
    let keep = |s: RttTracker| now.since(s.time).nanos < window.nanos;
    if samples.len() > 0 {
        let init = samples.drop_last();
        let last = samples.last();
        standing_window_is_exact(init, now, window, sample);
        assert(samples =~= init.push(last));
        assert(samples.contains(sample) <==> init.contains(sample) || last == sample) by {
            if init.contains(sample) {
                let k = choose|k: int| 0 <= k < init.len() && init[k] == sample;
                assert(samples[k] == sample);
            }
            assert(samples[samples.len() - 1] == last);
        }
        let kept = recent(init, now, window);
        if keep(last) {
            assert(recent(samples, now, window) == kept.push(last));
            assert(kept.push(last).contains(sample) <==> kept.contains(sample) || last == sample)
                by {
                if kept.contains(sample) {
                    let k = choose|k: int| 0 <= k < kept.len() && kept[k] == sample;
                    assert(kept.push(last)[k] == sample);
                }
                assert(kept.push(last)[kept.len() as int] == last);
            }
        }
    }
}

/// An empty window leaves nothing but the newest sample.
pub proof fn empty_window_keeps_newest_only(samples: Seq<RttTracker>, rtt: Duration, now: Instant)
    ensures
        shortest(rtts(recent(samples, now, Duration::of(0)).push(RttTracker { rtt, time: now })))
            == rtt,
{
    let kept = recent(samples, now, Duration::of(0));
    if kept.len() > 0 {
        assert(kept.contains(kept[0]));
        standing_window_is_exact(samples, now, Duration::of(0), kept[0]);
    }
    assert(rtts(kept.push(RttTracker { rtt, time: now })) =~= seq![rtt]);
}

/// Slots stay valid.
pub proof fn slots_stay_valid(slots: Slots, rtt: Duration, now: Instant)
    requires
        slots.valid(),
    ensures
        slots.sample(rtt, now).valid(),
{
}

/// The newest sample always counts: no minimum exceeds it.
pub proof fn slot_minimum_covers_newest(slots: Slots, rtt: Duration, now: Instant)
    requires
        slots.valid(),
    ensures
        shortest(slots.sample(rtt, now).buckets).nanos <= rtt.nanos,
{
    let after = slots.sample(rtt, now);
    shortest_is_attained(after.buckets);
    assert(after.buckets[after.current].nanos <= rtt.nanos);
}

/// A sample lowers the minimum to itself, or leaves the minimum of what has not expired.
pub proof fn sample_takes_the_minimum(slots: Slots, rtt: Duration, now: Instant)
    requires
        slots.valid(),
    ensures
        shortest(slots.sample(rtt, now).buckets) == shortest(
            slots.advance(now).buckets,
        ).shorter_spec(rtt),
{
    let there = slots.advance(now);
    let after = slots.sample(rtt, now);
    let (old_min, new_min) = (shortest(there.buckets), shortest(after.buckets));
    shortest_is_attained(there.buckets);
    shortest_is_attained(after.buckets);
    let k = choose|k: int| 0 <= k < there.buckets.len() && there.buckets[k] == old_min;
    let j = choose|j: int| 0 <= j < after.buckets.len() && after.buckets[j] == new_min;
    assert(after.buckets[k].nanos <= old_min.nanos);
    assert(after.buckets[after.current].nanos <= rtt.nanos);
    assert(after.buckets[j] == there.buckets[j] || after.buckets[j] == rtt);
    assert(old_min.nanos <= there.buckets[j].nanos);
}

/// A long silence empties every slot: after ten seconds and the length of a slot, the
/// minimum is the new sample.
pub proof fn silence_empties_the_slots(slots: Slots, rtt: Duration, now: Instant)
    requires
        slots.valid(),
        rtt.nanos <= MAX_SPAN_NANOS,
        forall|slot: int|
            0 <= slot < BUCKETS ==> (#[trigger] slots.starts[slot]).nanos + life_nanos()
                <= now.nanos,
    ensures
        shortest(slots.sample(rtt, now).buckets) == rtt,
{
    let after = slots.sample(rtt, now);
    shortest_is_attained(after.buckets);
    let j = choose|j: int|
        0 <= j < after.buckets.len() && after.buckets[j] == shortest(after.buckets);
    assert(slots.starts[j].nanos + life_nanos() <= now.nanos);
    assert(slots.starts[after.current].nanos + life_nanos() <= now.nanos);
    assert(after.buckets[after.current].nanos == rtt.nanos);
    assert(after.buckets[after.current] == rtt || rtt == Duration::of(rtt.nanos as int));
}

/// The slots after all samples of `feed`, one after the other.
pub open spec fn fed(slots: Slots, feed: Seq<(Duration, Instant)>) -> Slots
    decreases feed.len(),
{
    if feed.len() == 0 {
        slots
    } else {
        fed(slots, feed.drop_last()).sample(feed.last().0, feed.last().1)
    }
}

/// The times of `feed` do not go back, neither among themselves nor behind `from`.
pub open spec fn in_order(from: Instant, feed: Seq<(Duration, Instant)>) -> bool {
    &&& forall|i: int| 0 <= i < feed.len() ==> from.nanos <= (#[trigger] feed[i]).1.nanos
    &&& forall|i: int, j: int|
        0 <= i <= j < feed.len() ==> (#[trigger] feed[i]).1.nanos <= (#[trigger] feed[j]).1.nanos
}

/// The length of a slot in nanoseconds.
pub open spec fn slot_nanos() -> int {
    BUCKET_MILLIS * NANOS_PER_MILLI
}

/// The age in nanoseconds at which a slot has expired.
pub open spec fn life_nanos() -> int {
    BUCKET_LIFE_MILLIS * NANOS_PER_MILLI
}

/// How many slots `slot` lies behind the current one, going round.
spec fn back(slots: Slots, slot: int) -> int {
    (slots.current - slot) % (BUCKETS as int)
}

/// Something was taken into `slot`.
spec fn is_filled(slots: Slots, slot: int) -> bool {
    0 <= slot < BUCKETS && slots.buckets[slot].nanos < MAX_SPAN_NANOS
}

/// The sample of `feed` at `i` was taken within the time of `slot`.
spec fn in_slot(slots: Slots, slot: int, feed: Seq<(Duration, Instant)>, i: int) -> bool {
    &&& 0 <= i < feed.len()
    &&& 0 <= slot < BUCKETS
    &&& slots.starts[slot].nanos <= feed[i].1.nanos < slots.starts[slot].nanos + slot_nanos()
}

/// Slots that have taken in `feed` by the time `clock`.
spec fn tracks(slots: Slots, feed: Seq<(Duration, Instant)>, clock: Instant) -> bool {
    &&& slots.valid()
    &&& slots.last_update.nanos <= clock.nanos < slots.last_update.nanos + slot_nanos()
    &&& slots.starts[slots.current] == slots.last_update
    &&& forall|k: int|
        0 <= k < BUCKETS ==> (#[trigger] slots.buckets[k]).nanos <= MAX_SPAN_NANOS
    // A filled slot lies in time as far back as in the ring, has not expired, and holds a
    // sample of its time.
    &&& forall|k: int| #[trigger]
        is_filled(slots, k) ==> {
            &&& slots.starts[k].nanos + back(slots, k) * slot_nanos() <= slots.last_update.nanos
            &&& clock.nanos < slots.starts[k].nanos + life_nanos()
            &&& exists|i: int| #[trigger]
                in_slot(slots, k, feed, i) && feed[i].0 == slots.buckets[k]
        }
    // A sample of the last ten seconds has a slot that is not above it.
    &&& forall|i: int|
        0 <= i < feed.len() && (#[trigger] feed[i]).0.nanos < MAX_SPAN_NANOS && clock.nanos
            < feed[i].1.nanos + 10_000_000_000 ==> exists|k: int| #[trigger]
            in_slot(slots, k, feed, i) && slots.buckets[k].nanos <= feed[i].0.nanos
}

/// A slot that is entered has been round: it lies at least one full round back.
proof fn entered_slot_is_a_round_back(current: int, ahead: int)
    requires
        0 <= current < BUCKETS,
        ahead > 0,
    ensures
        (current - (current + ahead) % (BUCKETS as int)) % (BUCKETS as int) + ahead >= BUCKETS,
{
    let part = ahead % 101;
    assert((current + ahead) % 101 == (current + part) % 101);
    assert((current + part) % 101 == if current + part < 101 {
        current + part
    } else {
        current + part - 101
    });
    if part > 0 {
        assert((-part) % 101 == 101 - part);
        assert((101 - part) % 101 == 101 - part);
    }
}

/// A move ahead puts a slot back by no more than that move.
proof fn move_puts_back(current: int, slot: int, ahead: int)
    requires
        0 <= current < BUCKETS,
        0 <= slot < BUCKETS,
        ahead >= 0,
    ensures
        ((current + ahead) % (BUCKETS as int) - slot) % (BUCKETS as int) <= (current - slot) % (
        BUCKETS as int) + ahead,
{
    let b = (current - slot) % 101;
    assert(((current + ahead) % 101 - slot) % 101 == (current - slot + ahead) % 101);
    assert((current - slot + ahead) % 101 == (b + ahead) % 101);
}

/// One more sample.
proof fn tracks_one_more(
    slots: Slots,
    feed: Seq<(Duration, Instant)>,
    clock: Instant,
    rtt: Duration,
    now: Instant,
)
    requires
        tracks(slots, feed, clock),
        clock.nanos <= now.nanos,
        rtt.nanos <= MAX_SPAN_NANOS,
    ensures
        tracks(slots.sample(rtt, now), feed.push((rtt, now)), now),
{
    let after = slots.sample(rtt, now);
    let all = feed.push((rtt, now));
    let a = slots.ahead(now);
    let e = slots.slot_at(now);
    let gap = now.nanos - slots.last_update.nanos;
    assert(slot_nanos() == 100_000_000 && life_nanos() == 10_100_000_000);
    assert(now.since(slots.last_update).nanos == gap);
    assert(a * 100_000_000 <= gap < a * 100_000_000 + 100_000_000);
    // Whatever a slot holds when it is entered has expired.
    assert(a > 0 && is_filled(slots, e) ==> slots.expired(e, now)) by {
        if a > 0 && is_filled(slots, e) {
            entered_slot_is_a_round_back(slots.current, a);
            let b = back(slots, e);
            assert(b + a >= 101);
            assert(slots.starts[e].nanos + b * 100_000_000 <= slots.last_update.nanos);
            assert(now.since(slots.starts[e]).nanos >= 10_100_000_000);
        }
    }
    assert forall|k: int| 0 <= k < BUCKETS implies (#[trigger] after.buckets[k]).nanos
        <= MAX_SPAN_NANOS by {
        assert(slots.buckets[k].nanos <= MAX_SPAN_NANOS);
    }
    assert forall|k: int| #[trigger] is_filled(after, k) implies {
        &&& after.starts[k].nanos + back(after, k) * slot_nanos() <= after.last_update.nanos
        &&& now.nanos < after.starts[k].nanos + life_nanos()
        &&& exists|i: int| #[trigger] in_slot(after, k, all, i) && all[i].0 == after.buckets[k]
    } by {
        if k == e && (a > 0 || after.buckets[k] == rtt) {
            assert(after.current == k);
            assert(back(after, k) == 0);
            assert(after.starts[k] == after.last_update);
            assert(all[feed.len() as int] == (rtt, now));
            assert(in_slot(after, k, all, feed.len() as int));
            if a > 0 {
                assert(after.buckets[k].nanos == rtt.nanos);
                assert(after.buckets[k] == Duration { nanos: after.buckets[k].nanos });
            }
        } else {
            assert(after.buckets[k] == slots.buckets[k]);
            assert(is_filled(slots, k));
            assert(after.starts[k] == slots.starts[k]);
            move_puts_back(slots.current, k, a);
            let i = choose|i: int| #[trigger]
                in_slot(slots, k, feed, i) && feed[i].0 == slots.buckets[k];
            assert(all[i] == feed[i]);
            assert(in_slot(after, k, all, i));
            assert(!slots.expired(k, now));
        }
    }
    assert forall|i: int|
        0 <= i < all.len() && (#[trigger] all[i]).0.nanos < MAX_SPAN_NANOS && now.nanos
            < all[i].1.nanos + 10_000_000_000 implies exists|k: int| #[trigger]
        in_slot(after, k, all, i) && after.buckets[k].nanos <= all[i].0.nanos by {
        if i == feed.len() {
            assert(in_slot(after, e, all, i));
            assert(after.buckets[e].nanos <= rtt.nanos);
        } else {
            assert(all[i] == feed[i]);
            let k = choose|k: int| #[trigger]
                in_slot(slots, k, feed, i) && slots.buckets[k].nanos <= feed[i].0.nanos;
            assert(is_filled(slots, k));
            assert(!slots.expired(k, now));
            assert(!slots.enters(k, now));
            assert(in_slot(after, k, all, i));
            assert(after.buckets[k].nanos <= slots.buckets[k].nanos);
        }
    }
}

proof fn tracks_all(from: Instant, feed: Seq<(Duration, Instant)>)
    requires
        in_order(from, feed),
        forall|i: int| 0 <= i < feed.len() ==> (#[trigger] feed[i]).0.nanos <= MAX_SPAN_NANOS,
    ensures
        tracks(
            fed(Slots::empty(from), feed),
            feed,
            if feed.len() == 0 {
                from
            } else {
                feed.last().1
            },
        ),
    decreases feed.len(),
{
    if feed.len() > 0 {
        let init = feed.drop_last();
        assert forall|i: int| 0 <= i < init.len() implies from.nanos <= (
        #[trigger] init[i]).1.nanos && init[i].0.nanos <= MAX_SPAN_NANOS by {
            assert(init[i] == feed[i]);
        }
        assert forall|i: int, j: int| 0 <= i <= j < init.len() implies (
        #[trigger] init[i]).1.nanos <= (#[trigger] init[j]).1.nanos by {
            assert(feed[i].1.nanos <= feed[j].1.nanos);
        }
        tracks_all(from, init);
        let clock = if init.len() == 0 {
            from
        } else {
            init.last().1
        };
        assert(clock.nanos <= feed.last().1.nanos) by {
            if init.len() > 0 {
                assert(feed[init.len() - 1].1.nanos <= feed[feed.len() - 1].1.nanos);
            }
        }
        assert(init.push(feed.last()) =~= feed);
        tracks_one_more(
            fed(Slots::empty(from), init),
            init,
            clock,
            feed.last().0,
            feed.last().1,
        );
    }
}

/// On a clock that does not go back, the minimum is that of the last ten seconds: it is
/// one of the samples, it is not above any sample that is less than ten seconds old, and
/// it is one that is less than ten seconds and the length of a slot old. Without samples
/// it is the longest span.
pub proof fn minimum_is_that_of_ten_seconds(from: Instant, feed: Seq<(Duration, Instant)>)
    requires
        in_order(from, feed),
        forall|i: int| 0 <= i < feed.len() ==> (#[trigger] feed[i]).0.nanos <= MAX_SPAN_NANOS,
    ensures
        ({
            let min = shortest(fed(Slots::empty(from), feed).buckets);
            &&& feed.len() == 0 ==> min == Duration::of(MAX_SPAN_NANOS as int)
            &&& feed.len() > 0 ==> exists|i: int|
                0 <= i < feed.len() && min == (#[trigger] feed[i]).0 && feed.last().1.nanos
                    < feed[i].1.nanos + 10_100_000_000
            &&& forall|i: int|
                0 <= i < feed.len() && feed.last().1.nanos < (#[trigger] feed[i]).1.nanos
                    + 10_000_000_000 ==> min.nanos <= feed[i].0.nanos
        }),
{
    let slots = fed(Slots::empty(from), feed);
    let min = shortest(slots.buckets);
    assert(slot_nanos() == 100_000_000 && life_nanos() == 10_100_000_000);
    tracks_all(from, feed);
    shortest_is_attained(slots.buckets);
    let k = choose|k: int| 0 <= k < slots.buckets.len() && slots.buckets[k] == min;
    assert(min.nanos <= MAX_SPAN_NANOS);
    if feed.len() == 0 {
        assert(slots.buckets[k] == Duration::of(MAX_SPAN_NANOS as int));
    } else {
        assert forall|i: int|
            0 <= i < feed.len() && feed.last().1.nanos < (#[trigger] feed[i]).1.nanos
                + 10_000_000_000 implies min.nanos <= feed[i].0.nanos by {
            if feed[i].0.nanos < MAX_SPAN_NANOS {
                let j = choose|j: int| #[trigger]
                    in_slot(slots, j, feed, i) && slots.buckets[j].nanos <= feed[i].0.nanos;
                assert(min.nanos <= slots.buckets[j].nanos);
            }
        }
        if min.nanos < MAX_SPAN_NANOS {
            assert(is_filled(slots, k));
            let i = choose|i: int| #[trigger]
                in_slot(slots, k, feed, i) && feed[i].0 == slots.buckets[k];
            assert(min == feed[i].0 && feed.last().1.nanos < feed[i].1.nanos + 10_100_000_000);
        } else {
            let last = feed[feed.len() - 1];
            assert(min.nanos <= last.0.nanos);
            assert(min == last.0);
        }
    }
}

/// A [`RttMaxTracker`] gives the longest of the last four samples.
pub proof fn max_tracker_gives_the_longest(
    tracker: &mut RttMaxTracker,
    sample: Duration,
    rtt: Duration,
)
    requires
        call_ensures(RttMaxTracker::update, (tracker, sample), ()),
        call_ensures(RttMaxTracker::max_rtt, (&*final(tracker),), rtt),
    ensures
        final(tracker)@ == pushed(old(tracker)@, sample),
        final(tracker)@.contains(rtt),
        sample.nanos <= rtt.nanos,
        forall|i: int| 0 < i < 4 ==> (#[trigger] old(tracker)@[i]).nanos <= rtt.nanos,
{
    let all = final(tracker)@;
    longest_is_attained(all);
    assert(all[3] == sample);
    assert forall|i: int| 0 < i < 4 implies (#[trigger] old(tracker)@[i]).nanos <= rtt.nanos by {
        assert(all[i - 1] == old(tracker)@[i]);
    }
}

/// A [`RttMinTracker`] gives the shortest of the new sample and of those that are younger
/// than the window.
pub proof fn min_tracker_gives_the_shortest(
    tracker: &mut RttMinTracker,
    sample: Duration,
    now: Instant,
    window: Duration,
    rtt: Duration,
    other: RttTracker,
)
    requires
        call_ensures(RttMinTracker::update, (tracker, sample, now, window), ()),
        call_ensures(RttMinTracker::min_rtt, (&*final(tracker),), rtt),
    ensures
        rtt.nanos <= sample.nanos,
        old(tracker)@.contains(other) && now.since(other.time).nanos < window.nanos ==> rtt.nanos
            <= other.rtt.nanos,
        rtt == sample || exists|kept: RttTracker|
            #![trigger old(tracker)@.contains(kept)]
            old(tracker)@.contains(kept) && kept.rtt == rtt && now.since(kept.time).nanos
                < window.nanos,
{
    let all = final(tracker)@;
    let kept = recent(old(tracker)@, now, window);
    shortest_is_attained(rtts(all));
    assert(rtts(all)[kept.len() as int] == sample);
    standing_window_is_exact(old(tracker)@, now, window, other);
    if kept.contains(other) {
        let k = choose|k: int| 0 <= k < kept.len() && kept[k] == other;
        assert(rtts(all)[k] == other.rtt);
    }
    let j = choose|j: int| 0 <= j < rtts(all).len() && rtts(all)[j] == rtt;
    if j < kept.len() {
        assert(kept.contains(kept[j]));
        standing_window_is_exact(old(tracker)@, now, window, kept[j]);
    }
}

/// A [`BucketRttMinTracker`] takes a sample into its slots and gives the shortest span over
/// them.
pub proof fn slot_tracker_follows_its_slots(
    tracker: &mut BucketRttMinTracker,
    sample: Duration,
    now: Instant,
    rtt: Duration,
)
    requires
        call_ensures(BucketRttMinTracker::update, (tracker, sample, now), ()),
        call_ensures(BucketRttMinTracker::min_rtt, (&*final(tracker),), rtt),
    ensures
        final(tracker)@ == old(tracker)@.sample(sample, now),
        rtt == shortest(final(tracker)@.buckets),
        rtt.nanos <= sample.nanos,
{
    slot_minimum_covers_newest(old(tracker)@, sample, now);
}

} // verus!
