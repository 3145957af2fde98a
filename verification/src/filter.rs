//! Sliding window over the readings of one scale.
use std::collections::VecDeque;
use vstd::prelude::*;

verus! {

/// Number of readings in the window of a scale.
pub const BUFFER_LENGTH: usize = 20;

/// Largest spread of a settled window, and smallest change that counts as an event,
/// in thousandths of a weight unit.
pub const MAX_NOISE: i64 = 3000;

/// Largest reading in `s`; defined for a sequence that is not empty.
pub open spec fn max_of(s: Seq<i64>) -> int
    decreases s.len(),
{
    if s.len() <= 1 {
        s[0] as int
    } else {
        let rest = max_of(s.drop_last());
        if s.last() > rest {
            s.last() as int
        } else {
            rest
        }
    }
}

/// Smallest reading in `s`; defined for a sequence that is not empty.
pub open spec fn min_of(s: Seq<i64>) -> int
    decreases s.len(),
{
    if s.len() <= 1 {
        s[0] as int
    } else {
        let rest = min_of(s.drop_last());
        if s.last() < rest {
            s.last() as int
        } else {
            rest
        }
    }
}

/// `max_of` is an upper bound of a sequence that is not empty, and one of its readings.
pub proof fn lemma_max_of(s: Seq<i64>)
    requires
        s.len() > 0,
    ensures
        forall|i: int| 0 <= i < s.len() ==> s[i] <= max_of(s),
        exists|i: int| 0 <= i < s.len() && s[i] == max_of(s),
    decreases s.len(),
{
    if s.len() > 1 {
        let front = s.drop_last();
        lemma_max_of(front);
        let k = choose|i: int| 0 <= i < front.len() && front[i] == max_of(front);
        assert(front[k] == s[k]);
        assert forall|i: int| 0 <= i < s.len() implies s[i] <= max_of(s) by {
            if i < s.len() - 1 {
                assert(s[i] == front[i]);
            }
        }
        if s.last() > max_of(front) {
            assert(s[s.len() - 1] == max_of(s));
        } else {
            assert(s[k] == max_of(s));
        }
    } else {
        assert(s[0] == max_of(s));
    }
}

/// `min_of` is a lower bound of a sequence that is not empty, and one of its readings.
pub proof fn lemma_min_of(s: Seq<i64>)
    requires
        s.len() > 0,
    ensures
        forall|i: int| 0 <= i < s.len() ==> min_of(s) <= s[i],
        exists|i: int| 0 <= i < s.len() && s[i] == min_of(s),
    decreases s.len(),
{
    if s.len() > 1 {
        let front = s.drop_last();
        lemma_min_of(front);
        let k = choose|i: int| 0 <= i < front.len() && front[i] == min_of(front);
        assert(front[k] == s[k]);
        assert forall|i: int| 0 <= i < s.len() implies min_of(s) <= s[i] by {
            if i < s.len() - 1 {
                assert(s[i] == front[i]);
            }
        }
        if s.last() < min_of(front) {
            assert(s[s.len() - 1] == min_of(s));
        } else {
            assert(s[k] == min_of(s));
        }
    } else {
        assert(s[0] == min_of(s));
    }
}

/// Distance between the largest and the smallest reading of a sequence that is not empty.
pub open spec fn spread(s: Seq<i64>) -> int {
    max_of(s) - min_of(s)
}

/// The window after `reading` has arrived: the oldest reading leaves a full window.
pub open spec fn pushed(window: Seq<i64>, capacity: nat, reading: i64) -> Seq<i64> {
    if window.len() < capacity {
        window.push(reading)
    } else {
        window.drop_first().push(reading)
    }
}

/// Whether a window has settled: it is full and its spread is below the threshold.
pub open spec fn settled(window: Seq<i64>, capacity: nat, noise_threshold: int) -> bool {
    window.len() == capacity && spread(window) < noise_threshold
}

/// The last readings of one scale, oldest first, at most `capacity` of them.
pub struct StabilityFilter {
    window: VecDeque<i64>,
    capacity: usize,
    noise_threshold: i64,
}

impl View for StabilityFilter {
    type V = Seq<i64>;

    closed spec fn view(&self) -> Seq<i64> {
        self.window@
    }
}

impl StabilityFilter {
    /// Validity: the window can hold a reading and holds no more than it can.
    pub closed spec fn wf(self) -> bool {
        1 <= self.capacity && self.window@.len() <= self.capacity
    }

    /// Number of readings that fill the window.
    pub closed spec fn spec_capacity(self) -> nat {
        self.capacity as nat
    }

    /// Bound on the spread of a settled window.
    pub closed spec fn spec_noise_threshold(self) -> int {
        self.noise_threshold as int
    }

    /// Whether the window has settled.
    pub open spec fn stable(self) -> bool {
        settled(self@, self.spec_capacity(), self.spec_noise_threshold())
    }

    /// What validity means in terms of the public model.
    pub proof fn lemma_wf(self)
        requires
            self.wf(),
        ensures
            1 <= self.spec_capacity() <= usize::MAX,
            self@.len() <= self.spec_capacity(),
    {
    }

    /// An empty window of `capacity` readings. A window that can hold no reading is
    /// refused as a configuration fault.
    pub fn new(capacity: usize, noise_threshold: i64) -> (r: Result<StabilityFilter, crate::error::Error>)
        ensures
            capacity == 0 <==> r is Err,
            r matches Err(e) ==> e == crate::error::Error::ConfigFault,
            r matches Ok(f) ==> {
                &&& f.wf()
                &&& f@ == Seq::<i64>::empty()
                &&& f.spec_capacity() == capacity
                &&& f.spec_noise_threshold() == noise_threshold
            },
    {
        if capacity == 0 {
            Err(crate::error::Error::ConfigFault)
        } else {
            Ok(StabilityFilter { window: VecDeque::new(), capacity, noise_threshold })
        }
    }

    pub fn capacity(&self) -> (n: usize)
        ensures
            n == self.spec_capacity(),
    {
        self.capacity
    }

    pub fn noise_threshold(&self) -> (t: i64)
        ensures
            t == self.spec_noise_threshold(),
    {
        self.noise_threshold
    }

    /// Number of readings in the window.
    pub fn len(&self) -> (n: usize)
        requires
            self.wf(),
        ensures
            n == self@.len(),
            n <= self.spec_capacity(),
    {
        self.window.len()
    }

    /// Takes a reading in; the oldest one leaves a full window.
    pub fn push(&mut self, reading: i64)
        requires
            old(self).wf(),
        ensures
            final(self).wf(),
            final(self)@ == pushed(old(self)@, old(self).spec_capacity(), reading),
            final(self).spec_capacity() == old(self).spec_capacity(),
            final(self).spec_noise_threshold() == old(self).spec_noise_threshold(),
    {
        if self.window.len() < self.capacity {
            self.window.push_back(reading);
        } else {
            let _ = self.window.pop_front();
            self.window.push_back(reading);
            assert(old(self).window@.subrange(1, old(self).window@.len() as int) =~= old(
                self,
            ).window@.drop_first());
        }
    }

    /// Forgets every reading.
    pub fn clear(&mut self)
        requires
            old(self).wf(),
        ensures
            final(self).wf(),
            final(self)@ == Seq::<i64>::empty(),
            final(self).spec_capacity() == old(self).spec_capacity(),
            final(self).spec_noise_threshold() == old(self).spec_noise_threshold(),
    {
        self.window.clear();
    }

    /// The reading that arrived last, if any has.
    pub fn current(&self) -> (r: Option<i64>)
        ensures
            self@.len() == 0 <==> r is None,
            r matches Some(v) ==> v == self@.last(),
    {
        let n = self.window.len();
        if n == 0 {
            None
        } else {
            Some(self.window[n - 1])
        }
    }

    /// Largest reading of the window, if it holds any.
    pub fn max(&self) -> (r: Option<i64>)
        ensures
            self@.len() == 0 <==> r is None,
            r matches Some(v) ==> v == max_of(self@),
    {
        let n = self.window.len();
        if n == 0 {
            return None;
        }
        let mut best: i64 = self.window[0];
        let mut i: usize = 1;
        assert(self.window@.take(1).len() == 1);
        while i < n
            invariant
                1 <= i <= n,
                n == self.window@.len(),
                best == max_of(self.window@.take(i as int)),
            decreases n - i,
        {
            let v = self.window[i];
            proof {
                let next = self.window@.take(i + 1);
                assert(next.drop_last() =~= self.window@.take(i as int));
                assert(next.last() == v);
            }
            if v > best {
                best = v;
            }
            i += 1;
        }
        assert(self.window@.take(n as int) =~= self.window@);
        Some(best)
    }

    /// Smallest reading of the window, if it holds any.
    pub fn min(&self) -> (r: Option<i64>)
        ensures
            self@.len() == 0 <==> r is None,
            r matches Some(v) ==> v == min_of(self@),
    {
        let n = self.window.len();
        if n == 0 {
            return None;
        }
        let mut best: i64 = self.window[0];
        let mut i: usize = 1;
        assert(self.window@.take(1).len() == 1);
        while i < n
            invariant
                1 <= i <= n,
                n == self.window@.len(),
                best == min_of(self.window@.take(i as int)),
            decreases n - i,
        {
            let v = self.window[i];
            proof {
                let next = self.window@.take(i + 1);
                assert(next.drop_last() =~= self.window@.take(i as int));
                assert(next.last() == v);
            }
            if v < best {
                best = v;
            }
            i += 1;
        }
        assert(self.window@.take(n as int) =~= self.window@);
        Some(best)
    }

    /// Whether the window is full and its spread is below the noise threshold.
    pub fn is_stable(&self) -> (r: bool)
        requires
            self.wf(),
        ensures
            r == self.stable(),
    {
        if self.window.len() != self.capacity {
            return false;
        }
        match (self.max(), self.min()) {
            (Some(max), Some(min)) => {
                let spread: i128 = max as i128 - min as i128;
                spread < self.noise_threshold as i128
            },
            _ => false,
        }
    }
}

impl Default for StabilityFilter {
    /// An empty window of `BUFFER_LENGTH` readings with `MAX_NOISE` as its threshold.
    fn default() -> (f: StabilityFilter)
        ensures
            f.wf(),
            f@ == Seq::<i64>::empty(),
            f.spec_capacity() == BUFFER_LENGTH,
            f.spec_noise_threshold() == MAX_NOISE,
    {
        StabilityFilter { window: VecDeque::new(), capacity: BUFFER_LENGTH, noise_threshold: MAX_NOISE }
    }
}

/// The window after the readings of `readings` have arrived one by one, oldest first.
pub open spec fn fed(window: Seq<i64>, capacity: nat, readings: Seq<i64>) -> Seq<i64>
    decreases readings.len(),
{
    if readings.len() == 0 {
        window
    } else {
        pushed(fed(window, capacity, readings.drop_last()), capacity, readings.last())
    }
}

/// The last `capacity` readings of `readings`, or all of them where there are fewer.
pub open spec fn latest(readings: Seq<i64>, capacity: nat) -> Seq<i64> {
    if readings.len() <= capacity {
        readings
    } else {
        readings.subrange(readings.len() - capacity, readings.len() as int)
    }
}

/// A window holds the latest readings it was fed, in their order, after those it held
/// before: the oldest reading is the one that leaves.
pub proof fn lemma_window_holds_latest(window: Seq<i64>, capacity: nat, readings: Seq<i64>)
    requires
        capacity >= 1,
        window.len() <= capacity,
    ensures
        fed(window, capacity, readings) == latest(window + readings, capacity),
    decreases readings.len(),
{
    if readings.len() == 0 {
        assert(window + readings =~= window);
    } else {
        let front = readings.drop_last();
        lemma_window_holds_latest(window, capacity, front);
        assert((window + front).push(readings.last()) =~= window + readings);
        assert(fed(window, capacity, readings) =~= latest(window + readings, capacity));
    }
}

/// A window that is fed the same weight as often as it holds readings, or more often,
/// has settled, whatever it held before, if the threshold is positive at all.
pub proof fn lemma_constant_feed_settles(
    window: Seq<i64>,
    capacity: nat,
    noise_threshold: int,
    readings: Seq<i64>,
    weight: i64,
)
    requires
        capacity >= 1,
        window.len() <= capacity,
        readings.len() >= capacity,
        forall|i: int| 0 <= i < readings.len() ==> readings[i] == weight,
    ensures
        settled(fed(window, capacity, readings), capacity, noise_threshold) <==> noise_threshold > 0,
        fed(window, capacity, readings).last() == weight,
{
    lemma_window_holds_latest(window, capacity, readings);
    let after = fed(window, capacity, readings);
    assert forall|i: int| 0 <= i < after.len() implies after[i] == weight by {
        let all = window + readings;
        assert(after[i] == all[all.len() - capacity + i]);
        assert(all[all.len() - capacity + i] == readings[all.len() - capacity + i - window.len()]);
    }
    lemma_max_of(after);
    lemma_min_of(after);
}

/// A window that has been fed fewer readings than it holds has not settled, whatever
/// the readings and the threshold are.
pub proof fn lemma_short_window_is_unstable(capacity: nat, noise_threshold: int, readings: Seq<i64>)
    requires
        capacity >= 1,
        readings.len() < capacity,
    ensures
        !settled(fed(Seq::empty(), capacity, readings), capacity, noise_threshold),
{
    lemma_window_holds_latest(Seq::empty(), capacity, readings);
    assert(Seq::<i64>::empty() + readings =~= readings);
}

/// A filter whose window is not full is not stable.
pub proof fn lemma_partial_filter_is_unstable(filter: StabilityFilter)
    requires
        filter.wf(),
        filter@.len() < filter.spec_capacity(),
    ensures
        !filter.stable(),
{
}

/// A full window has settled exactly when its largest and smallest reading differ by
/// less than the threshold, which is to say when any two of its readings do. A spread
/// equal to the threshold is not enough.
pub proof fn lemma_full_window_stability(window: Seq<i64>, capacity: nat, noise_threshold: int)
    requires
        capacity >= 1,
        window.len() == capacity,
    ensures
        settled(window, capacity, noise_threshold) <==> max_of(window) - min_of(window)
            < noise_threshold,
        settled(window, capacity, noise_threshold) <==> (forall|i: int, j: int|
            0 <= i < window.len() && 0 <= j < window.len() ==> window[i] - window[j]
                < noise_threshold),
        spread(window) == noise_threshold ==> !settled(window, capacity, noise_threshold),
{
    lemma_max_of(window);
    lemma_min_of(window);
    let hi = choose|i: int| 0 <= i < window.len() && window[i] == max_of(window);
    let lo = choose|i: int| 0 <= i < window.len() && window[i] == min_of(window);
    if forall|i: int, j: int|
        0 <= i < window.len() && 0 <= j < window.len() ==> window[i] - window[j]
            < noise_threshold {
        assert(window[hi] - window[lo] < noise_threshold);
    }
}

} // verus!
