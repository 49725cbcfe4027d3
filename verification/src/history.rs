//! The sliding window of pulse timestamps.
//!
//! The window is bounded twice: it never holds more than [`CAPACITY`]
//! timestamps, and none that lies more than [`HORIZON_MS`] before the newest.
//! Timestamps are milliseconds on a monotonic clock.

use crate::ring::{
    ring_back, ring_dequeue, ring_enqueue, ring_front, ring_is_full, ring_items, ring_len,
    ring_new, ring_to_vec, ring_written, CAPACITY,
};
use ringbuffer::ConstGenericRingBuffer;
use vstd::prelude::*;

verus! {

/// The age, in milliseconds, beyond which a timestamp leaves the window.
pub const HORIZON_MS: u64 = 240_000;

/// The ring buffer counts what it has taken in a cursor that only grows. Once
/// the count reaches this number the history moves its timestamps to a fresh
/// buffer, long before the cursor could overflow.
const RENEW_AT: usize = 1_000_000;

/// No timestamp is later than one that follows it.
pub open spec fn ordered(s: Seq<u64>) -> bool {
    forall|i: int, j: int| 0 <= i <= j < s.len() ==> s[i] <= s[j]
}

/// What holds of the timestamps in a history at all times: at most
/// `CAPACITY` of them, oldest first, spanning no more than the horizon.
pub open spec fn is_window(s: Seq<u64>) -> bool {
    &&& s.len() <= CAPACITY
    &&& ordered(s)
    &&& s.len() > 0 ==> s.last() - s.first() <= HORIZON_MS
}

/// A pulse at `t` is stale at `now` when it is older than the horizon.
pub open spec fn stale(t: u64, now: u64) -> bool {
    now - t > HORIZON_MS
}

/// The length of the run of stale timestamps at the front of `s`.
pub open spec fn stale_count(s: Seq<u64>, now: u64) -> nat
    decreases s.len(),
{
    if s.len() > 0 && stale(s.first(), now) {
        1 + stale_count(s.drop_first(), now)
    } else {
        0
    }
}

/// How many timestamps leave `s` before `now` is recorded: every stale one,
/// and, when none is stale but the window is full, the oldest.
pub open spec fn evict_count(s: Seq<u64>, now: u64) -> nat {
    let k = stale_count(s, now);
    if k == 0 && s.len() >= CAPACITY {
        1
    } else {
        k
    }
}

/// The window after a pulse at `now` has been recorded in `s`.
pub open spec fn recorded(s: Seq<u64>, now: u64) -> Seq<u64> {
    s.skip(evict_count(s, now) as int).push(now)
}

/// Whether the oldest timestamp of `s` has to go before `now` can come in:
/// the window is full, or that timestamp is stale.
pub open spec fn must_evict(s: Seq<u64>, now: u64) -> bool {
    s.len() >= CAPACITY || (s.len() > 0 && stale(s.first(), now))
}

/// What is left of `s` when its oldest timestamp is taken away time and
/// again, as long as it has to go.
pub open spec fn evicted(s: Seq<u64>, now: u64) -> Seq<u64>
    decreases s.len(),
{
    if must_evict(s, now) && s.len() > 0 {
        evicted(s.drop_first(), now)
    } else {
        s
    }
}

/// The stale run is a prefix of `s`, and the timestamp after it is fresh.
pub proof fn lemma_stale_count(s: Seq<u64>, now: u64)
    ensures
        stale_count(s, now) <= s.len(),
        forall|i: int| 0 <= i < stale_count(s, now) ==> stale(#[trigger] s[i], now),
        stale_count(s, now) < s.len() ==> !stale(s[stale_count(s, now) as int], now),
    decreases s.len(),
{
    if s.len() > 0 && stale(s.first(), now) {
        let rest = s.drop_first();
        lemma_stale_count(rest, now);
        assert forall|i: int| 0 <= i < stale_count(s, now) implies stale(#[trigger] s[i], now) by {
            if i > 0 {
                assert(s[i] == rest[i - 1]);
            }
        }
        if stale_count(s, now) < s.len() {
            assert(s[stale_count(s, now) as int] == rest[stale_count(rest, now) as int]);
        }
    }
}

/// Taking the oldest timestamp away, as long as the window is full or that
/// timestamp is stale, leaves `s` without its first `evict_count` timestamps.
pub proof fn lemma_evicted(s: Seq<u64>, now: u64)
    requires
        is_window(s),
    ensures
        evicted(s, now) == s.skip(evict_count(s, now) as int),
    decreases s.len(),
{
    if must_evict(s, now) && s.len() > 0 {
        let rest = s.drop_first();
        assert(is_window(rest)) by {
            assert forall|i: int, j: int| 0 <= i <= j < rest.len() implies rest[i] <= rest[j] by {
                assert(rest[i] == s[i + 1] && rest[j] == s[j + 1]);
            }
            if rest.len() > 0 {
                assert(rest.last() == s.last());
                assert(rest.first() == s[1]);
            }
        }
        lemma_evicted(rest, now);
        if stale(s.first(), now) {
            lemma_stale_count(rest, now);
            assert(s.skip(1 + stale_count(rest, now) as int) == rest.skip(stale_count(rest, now) as int));
        } else {
            if rest.len() > 0 {
                assert(rest.first() == s[1]);
                assert(!stale(rest.first(), now));
            }
            assert(stale_count(rest, now) == 0);
            assert(rest.skip(0) == rest);
        }
    } else {
        assert(s.skip(0) == s);
    }
}

/// Recording a pulse keeps the window a window: it ends with the new
/// timestamp, holds at most `CAPACITY` of them, and holds none that is stale
/// at `now`.
pub proof fn lemma_recorded_is_window(s: Seq<u64>, now: u64)
    requires
        is_window(s),
        s.len() > 0 ==> s.last() <= now,
    ensures
        is_window(recorded(s, now)),
        recorded(s, now).len() >= 1,
        recorded(s, now).last() == now,
        forall|i: int|
            0 <= i < recorded(s, now).len() ==> (#[trigger] recorded(s, now)[i]) <= now && !stale(
                recorded(s, now)[i],
                now,
            ),
{
    lemma_stale_count(s, now);
    let k = evict_count(s, now) as int;
    let kept = s.skip(k);
    let after = recorded(s, now);
    assert(after == kept.push(now));
    assert forall|i: int| 0 <= i < kept.len() implies (#[trigger] kept[i]) <= now && !stale(
        kept[i],
        now,
    ) by {
        assert(kept[i] == s[k + i]);
        assert(s[k] <= s[k + i]);
        assert(s[k + i] <= s.last());
        if stale_count(s, now) == 0 {
            assert(s[0] <= s[k]);
        }
    }
    assert forall|i: int| 0 <= i < after.len() implies (#[trigger] after[i]) <= now && !stale(
        after[i],
        now,
    ) by {
        if i < kept.len() {
            assert(after[i] == kept[i]);
        }
    }
    assert forall|i: int, j: int| 0 <= i <= j < after.len() implies after[i] <= after[j] by {
        if j < kept.len() {
            assert(after[i] == s[k + i] && after[j] == s[k + j]);
        }
    }
    assert(after.last() - after.first() <= HORIZON_MS);
}

/// A timestamp that is stale at `now` is not in the window once the pulse at
/// `now` has been recorded, whether it was there before or not.
pub proof fn lemma_stale_is_absent(s: Seq<u64>, now: u64, t: u64)
    requires
        is_window(s),
        s.len() > 0 ==> s.last() <= now,
        stale(t, now),
    ensures
        !recorded(s, now).contains(t),
{
    lemma_recorded_is_window(s, now);
    if recorded(s, now).contains(t) {
        let i = choose|i: int| 0 <= i < recorded(s, now).len() && recorded(s, now)[i] == t;
        assert(!stale(recorded(s, now)[i], now));
    }
}

/// The sliding window of pulse timestamps, oldest first.
pub struct PulseHistory {
    ring: ConstGenericRingBuffer<u64, CAPACITY>,
    written: usize,
}

impl View for PulseHistory {
    type V = Seq<u64>;

    /// The timestamps in the window, oldest first.
    closed spec fn view(&self) -> Seq<u64> {
        ring_items(self.ring)
    }
}

impl PulseHistory {
    /// The history is sound: its timestamps form a window, and its count of
    /// what the ring buffer has taken is the buffer's own.
    pub closed spec fn wf(&self) -> bool {
        &&& is_window(self@)
        &&& ring_written(self.ring) == self.written
        &&& self.written <= RENEW_AT
    }

    /// A sound history holds a window.
    pub proof fn lemma_wf_is_window(&self)
        requires
            self.wf(),
        ensures
            is_window(self@),
    {
    }

    /// An empty history.
    pub fn new() -> (history: Self)
        ensures
            history.wf(),
            history@ == Seq::<u64>::empty(),
    {
        PulseHistory { ring: ring_new(), written: 0 }
    }

    /// The number of timestamps in the window.
    pub fn len(&self) -> (n: usize)
        requires
            self.wf(),
        ensures
            n == self@.len(),
            n <= CAPACITY,
    {
        ring_len(&self.ring)
    }

    /// Whether the window holds no timestamp.
    pub fn is_empty(&self) -> (empty: bool)
        requires
            self.wf(),
        ensures
            empty == (self@.len() == 0),
    {
        ring_len(&self.ring) == 0
    }

    /// The oldest timestamp in the window, if there is one.
    pub fn oldest(&self) -> (t: Option<u64>)
        requires
            self.wf(),
        ensures
            t == if self@.len() == 0 {
                None
            } else {
                Some(self@.first())
            },
    {
        ring_front(&self.ring)
    }

    /// The newest timestamp in the window, if there is one.
    pub fn newest(&self) -> (t: Option<u64>)
        requires
            self.wf(),
        ensures
            t == if self@.len() == 0 {
                None
            } else {
                Some(self@.last())
            },
    {
        ring_back(&self.ring)
    }

    /// The timestamps in the window, oldest first.
    pub fn timestamps(&self) -> (all: Vec<u64>)
        requires
            self.wf(),
        ensures
            all@ == self@,
    {
        ring_to_vec(&self.ring)
    }

    /// Whether the oldest timestamp has to go before `now` can come in.
    fn oldest_must_go(&self, now: u64) -> (go: bool)
        requires
            self@.len() <= CAPACITY,
            self@.len() > 0 ==> self@.first() <= now,
        ensures
            go == must_evict(self@, now),
    {
        if ring_is_full(&self.ring) {
            true
        } else {
            match ring_front(&self.ring) {
                Some(t) => now - t > HORIZON_MS,
                None => false,
            }
        }
    }

    /// Moves the timestamps to a fresh ring buffer, whose cursors start at
    /// zero again.
    fn renew(&mut self)
        requires
            old(self).wf(),
        ensures
            final(self).wf(),
            final(self)@ == old(self)@,
            final(self).written <= CAPACITY,
    {
        let ghost before = self@;
        let mut fresh = ring_new();
        let mut moved: usize = 0;
        while ring_len(&self.ring) > 0
            invariant
                before.len() <= CAPACITY,
                ring_items(fresh) + ring_items(self.ring) == before,
                ring_items(fresh).len() == moved,
                ring_written(fresh) == moved,
            decreases ring_items(self.ring).len(),
        {
            let ghost rest = ring_items(self.ring);
            let ghost done = ring_items(fresh);
            let t = ring_dequeue(&mut self.ring);
            match t {
                Some(t) => {
                    ring_enqueue(&mut fresh, t);
                    moved = moved + 1;
                    assert(done.push(rest.first()) + rest.drop_first() == done + rest);
                },
                None => {},
            }
        }
        assert(ring_items(fresh) + ring_items(self.ring) == ring_items(fresh));
        self.ring = fresh;
        self.written = moved;
    }

    /// Records a pulse at `now`.
    ///
    /// First the timestamps that have to go leave, oldest first: as long as
    /// the window is full, or its oldest timestamp is stale at `now`. Then
    /// `now` comes in as the newest. The clock is monotonic: `now` is not
    /// before the newest timestamp already in the window.
    pub fn record(&mut self, now: u64)
        requires
            old(self).wf(),
            old(self)@.len() > 0 ==> old(self)@.last() <= now,
        ensures
            final(self).wf(),
            final(self)@ == recorded(old(self)@, now),
            final(self)@.len() <= CAPACITY,
            final(self)@.last() == now,
            forall|i: int| 0 <= i < final(self)@.len() ==> !stale(#[trigger] final(self)@[i], now),
    {
        let ghost before = self@;
        if self.written >= RENEW_AT {
            self.renew();
        }
        let mut go = self.oldest_must_go(now);
        while go
            invariant
                is_window(self@),
                self@.len() > 0 ==> self@.last() <= now,
                go == must_evict(self@, now),
                evicted(self@, now) == evicted(before, now),
                ring_written(self.ring) == self.written,
                self.written < RENEW_AT,
            decreases self@.len(),
        {
            let ghost cur = self@;
            ring_dequeue(&mut self.ring);
            proof {
                let rest = cur.drop_first();
                assert(self@ == rest);
                assert forall|i: int, j: int| 0 <= i <= j < rest.len() implies rest[i]
                    <= rest[j] by {
                    assert(rest[i] == cur[i + 1] && rest[j] == cur[j + 1]);
                }
                if rest.len() > 0 {
                    assert(rest.last() == cur.last());
                    assert(rest.first() == cur[1]);
                }
            }
            go = self.oldest_must_go(now);
        }
        ring_enqueue(&mut self.ring, now);
        self.written = self.written + 1;
        proof {
            lemma_evicted(before, now);
            lemma_recorded_is_window(before, now);
        }
    }
}

} // verus!
