//! Module providing functions and structs to deal with boon related statistics.
use vstd::prelude::*;

use fnv::{FnvHashMap, FnvHasher};
use std::hash::BuildHasherDefault;

use super::math::{
    combine_commutes, count_at_or_before, fold_defined, fold_selected, select_all, Monoid,
    RecordFunc, Semigroup,
};

verus! {

/// The type of a boon.
#[derive(Copy, Clone, Debug, PartialEq, Eq, Structural)]
pub enum BoonType {
    /// Boon stacks duration, e.g. Regeneration.
    Duration,
    /// Boon stacks intensity, e.g. Might.
    Intensity,
}

/// The stacks are in descending order: the longest first.
pub open spec fn sorted_desc(s: Seq<u64>) -> bool {
    forall|i: int, j: int| 0 <= i <= j < s.len() ==> s[i] >= s[j]
}

/// Where a stable insertion puts a stack into stacks in descending order: right after the last
/// stack that is not shorter.
pub open spec fn desc_insertion_point(s: Seq<u64>, x: u64) -> int
    decreases s.len(),
{
    if s.len() == 0 {
        0
    } else if s.last() >= x {
        s.len() as int
    } else {
        desc_insertion_point(s.drop_last(), x)
    }
}

/// The stacks in descending order.
pub open spec fn sort_desc(s: Seq<u64>) -> Seq<u64>
    decreases s.len(),
{
    if s.len() == 0 {
        s
    } else {
        let sorted = sort_desc(s.drop_last());
        sorted.insert(desc_insertion_point(sorted, s.last()), s.last())
    }
}

/// The sum of the stacks.
pub open spec fn total(s: Seq<u64>) -> int
    decreases s.len(),
{
    if s.len() == 0 {
        0
    } else {
        total(s.drop_last()) + s.last()
    }
}

/// The stacks in descending order, cut to the capacity by dropping the shortest.
pub open spec fn fixed_queue(s: Seq<u64>, capacity: u32) -> Seq<u64> {
    if s.len() > capacity {
        sort_desc(s).take(capacity as int)
    } else {
        sort_desc(s)
    }
}

/// Duration stacks after `d` milliseconds, used up one after the other from the front: the stacks
/// that ran out are gone and the one that was running is shortened, at the end.
pub open spec fn drain(q: Seq<u64>, d: int) -> Seq<u64>
    decreases q.len(),
{
    if d <= 0 || q.len() == 0 {
        q
    } else if q[0] > d {
        q.drop_first().push((q[0] - d) as u64)
    } else {
        drain(q.drop_first(), d - q[0])
    }
}

/// Intensity stacks after `d` milliseconds, all running at once: those that ran out are gone, the
/// others are shortened.
pub open spec fn decay(q: Seq<u64>, d: u64) -> Seq<u64>
    decreases q.len(),
{
    if q.len() == 0 {
        q
    } else if q.last() > d {
        decay(q.drop_last(), d).push((q.last() - d) as u64)
    } else {
        decay(q.drop_last(), d)
    }
}

/// The number of stacks longer than `d`.
pub open spec fn count_longer(q: Seq<u64>, d: u64) -> nat
    decreases q.len(),
{
    if q.len() == 0 {
        0
    } else if q.last() > d {
        count_longer(q.drop_last(), d) + 1
    } else {
        count_longer(q.drop_last(), d)
    }
}

proof fn lemma_desc_insertion_point(s: Seq<u64>, x: u64)
    ensures
        0 <= desc_insertion_point(s, x) <= s.len(),
        forall|j: int| desc_insertion_point(s, x) <= j < s.len() ==> s[j] < x,
        desc_insertion_point(s, x) > 0 ==> s[desc_insertion_point(s, x) - 1] >= x,
    decreases s.len(),
{
    if s.len() > 0 && s.last() < x {
        let rest = s.drop_last();
        lemma_desc_insertion_point(rest, x);
        let p = desc_insertion_point(s, x);
        assert forall|j: int| p <= j < s.len() implies s[j] < x by {
            if j < rest.len() {
                assert(s[j] == rest[j]);
            }
        }
        if p > 0 {
            assert(s[p - 1] == rest[p - 1]);
        }
    }
}

proof fn lemma_desc_insertion_point_at(s: Seq<u64>, x: u64, p: int)
    requires
        0 <= p <= s.len(),
        p == 0 || s[p - 1] >= x,
        forall|j: int| p <= j < s.len() ==> s[j] < x,
    ensures
        desc_insertion_point(s, x) == p,
    decreases s.len(),
{
    if s.len() > p {
        let rest = s.drop_last();
        if p > 0 {
            assert(rest[p - 1] == s[p - 1]);
        }
        assert forall|j: int| p <= j < rest.len() implies rest[j] < x by {
            assert(rest[j] == s[j]);
        }
        lemma_desc_insertion_point_at(rest, x, p);
    }
}

proof fn lemma_total_insert(s: Seq<u64>, p: int, x: u64)
    requires
        0 <= p <= s.len(),
    ensures
        total(s.insert(p, x)) == total(s) + x,
    decreases s.len(),
{
    s.insert_ensures(p, x);
    if p < s.len() {
        let rest = s.drop_last();
        lemma_total_insert(rest, p, x);
        assert(s.insert(p, x).drop_last() == rest.insert(p, x));
    } else {
        assert(s.insert(p, x).drop_last() == s);
    }
}

/// Sorting keeps the stacks: it gives them in descending order, as many and as long in total.
pub proof fn lemma_sort_desc(s: Seq<u64>)
    ensures
        sorted_desc(sort_desc(s)),
        sort_desc(s).len() == s.len(),
        total(sort_desc(s)) == total(s),
        sort_desc(s).to_multiset() == s.to_multiset(),
    decreases s.len(),
{
    if s.len() > 0 {
        let rest = s.drop_last();
        let x = s.last();
        lemma_sort_desc(rest);
        let sorted = sort_desc(rest);
        let p = desc_insertion_point(sorted, x);
        lemma_desc_insertion_point(sorted, x);
        sorted.insert_ensures(p, x);
        let r = sorted.insert(p, x);
        assert forall|i: int, j: int| 0 <= i <= j < r.len() implies r[i] >= r[j] by {
            if i < p && j < p {
            } else if i < p && j == p {
                assert(sorted[i] >= sorted[p - 1]);
            } else if i < p {
                assert(sorted[i] >= sorted[j - 1]);
            } else if i == p && j > p {
                assert(sorted[j - 1] < x);
            } else if i > p {
                assert(sorted[i - 1] >= sorted[j - 1]);
            }
        }
        lemma_total_insert(sorted, p, x);
        vstd::seq_lib::to_multiset_insert(sorted, p, x);
        assert(s == rest.push(x));
        rest.to_multiset_ensures();
    }
}

proof fn lemma_total_first(s: Seq<u64>)
    requires
        s.len() > 0,
    ensures
        total(s) == s[0] + total(s.drop_first()),
    decreases s.len(),
{
    if s.len() > 1 {
        lemma_total_first(s.drop_last());
        assert(s.drop_last().drop_first() == s.drop_first().drop_last());
        assert(s.drop_first().last() == s.last());
        assert(s.drop_last()[0] == s[0]);
        assert(total(s) == total(s.drop_last()) + s.last());
        assert(total(s.drop_first()) == total(s.drop_first().drop_last()) + s.drop_first().last());
    } else {
        assert(s.drop_first().len() == 0);
        assert(s.drop_last().len() == 0);
        assert(total(s) == total(s.drop_last()) + s.last());
        assert(total(s.drop_first()) == 0);
    }
}

/// Draining uses up exactly the time, as far as the stacks last.
pub proof fn lemma_drain(q: Seq<u64>, d: int)
    ensures
        drain(q, d).len() <= q.len(),
        d >= 0 ==> total(drain(q, d)) == if total(q) > d {
            total(q) - d
        } else {
            0
        },
        d < 0 ==> drain(q, d) == q,
    decreases q.len(),
{
    lemma_total_nonneg(q);
    if d <= 0 || q.len() == 0 {
    } else {
        lemma_total_first(q);
        lemma_total_nonneg(q.drop_first());
        if q[0] > d {
            let r = q.drop_first().push((q[0] - d) as u64);
            assert(r.drop_last() == q.drop_first());
            assert(r.last() == (q[0] - d) as u64);
            assert(total(r) == total(q.drop_first()) + (q[0] - d));
        } else {
            lemma_drain(q.drop_first(), d - q[0]);
        }
    }
}

proof fn lemma_total_nonneg(s: Seq<u64>)
    ensures
        total(s) >= 0,
    decreases s.len(),
{
    if s.len() > 0 {
        lemma_total_nonneg(s.drop_last());
    }
}

/// Decaying keeps the stacks in descending order and leaves those longer than the time.
pub proof fn lemma_decay(q: Seq<u64>, d: u64)
    requires
        sorted_desc(q),
    ensures
        sorted_desc(decay(q, d)),
        decay(q, d).len() == count_longer(q, d),
        count_longer(q, d) <= q.len(),
        forall|i: int| 0 <= i < decay(q, d).len() ==> decay(q, d)[i] + d == q[i],
    decreases q.len(),
{
    if q.len() > 0 {
        let rest = q.drop_last();
        assert(sorted_desc(rest));
        lemma_decay(rest, d);
        let r = decay(rest, d);
        assert forall|i: int| 0 <= i < rest.len() implies rest[i] == q[i] by {}
        if q.last() > d {
            // Every stack before the last one is at least as long, so none of them ran out.
            assert forall|i: int| 0 <= i < rest.len() implies rest[i] > d by {
                assert(q[i] >= q[q.len() - 1]);
            }
            lemma_count_longer_all(rest, d);
        }
    }
}

/// Intensity stacks decaying for `a` and then for `b` milliseconds are the stacks decaying for
/// `a + b` milliseconds: simulating in two steps is simulating once for their sum.
pub proof fn lemma_decay_twice(q: Seq<u64>, a: u64, b: u64)
    requires
        a + b <= u64::MAX,
    ensures
        decay(decay(q, a), b) == decay(q, (a + b) as u64),
    decreases q.len(),
{
    if q.len() > 0 {
        let rest = q.drop_last();
        lemma_decay_twice(rest, a, b);
        if q.last() > a {
            let once = decay(rest, a).push((q.last() - a) as u64);
            assert(once.drop_last() == decay(rest, a));
            assert(once.last() == (q.last() - a) as u64);
        }
    }
}

/// Duration stacks run out entirely when more time passes than they hold.
proof fn lemma_drain_empties(q: Seq<u64>, d: int)
    requires
        total(q) < d,
    ensures
        drain(q, d).len() == 0,
    decreases q.len(),
{
    if q.len() > 0 {
        lemma_total_first(q);
        lemma_total_nonneg(q.drop_first());
        lemma_drain_empties(q.drop_first(), d - q[0]);
    }
}

/// Stacks that hold some time are there.
proof fn lemma_total_positive(q: Seq<u64>)
    requires
        total(q) > 0,
    ensures
        q.len() > 0,
{
}

/// Duration stacks used up for `a` and then for `b` milliseconds hold as much time as the stacks
/// used up for `a + b` milliseconds, and there are stacks left in both or in neither where the
/// stacks held more or less than `a + b` milliseconds.
proof fn lemma_drain_twice(q: Seq<u64>, capacity: u32, a: u64, b: u64)
    requires
        q.len() <= capacity,
        a + b <= u64::MAX,
    ensures
        ({
            let two = fixed_queue(drain(fixed_queue(drain(q, a as int), capacity), b as int), capacity);
            let one = fixed_queue(drain(q, a + b), capacity);
            &&& total(two) == total(one)
            &&& total(q) > a + b ==> two.len() > 0 && one.len() > 0
            &&& total(q) < a + b ==> two.len() == 0 && one.len() == 0
        }),
{
    let first = drain(q, a as int);
    lemma_drain(q, a as int);
    let mid = fixed_queue(first, capacity);
    lemma_sort_desc(first);
    assert(mid == sort_desc(first));
    let second = drain(mid, b as int);
    lemma_drain(mid, b as int);
    let two = fixed_queue(second, capacity);
    lemma_sort_desc(second);
    assert(two == sort_desc(second));
    let d = drain(q, a + b);
    lemma_drain(q, a + b);
    let one = fixed_queue(d, capacity);
    lemma_sort_desc(d);
    assert(one == sort_desc(d));
    if total(q) > a + b {
        lemma_total_positive(two);
        lemma_total_positive(one);
    }
    if total(q) < a + b {
        lemma_drain_empties(q, a + b);
        if total(q) < a {
            lemma_drain_empties(q, a as int);
            assert(mid.len() == 0);
            assert(second.len() == 0);
        } else {
            lemma_drain_empties(mid, b as int);
        }
    }
}

/// Stacks that all have length zero hold no time.
proof fn lemma_total_all_zero(q: Seq<u64>)
    requires
        forall|i: int| 0 <= i < q.len() ==> q[i] == 0,
    ensures
        total(q) == 0,
    decreases q.len(),
{
    if q.len() > 0 {
        let rest = q.drop_last();
        assert forall|i: int| 0 <= i < rest.len() implies rest[i] == 0 by {
            assert(rest[i] == q[i]);
        }
        lemma_total_all_zero(rest);
    }
}

/// Stacks that hold no time all have length zero.
proof fn lemma_total_zero(q: Seq<u64>)
    requires
        total(q) == 0,
    ensures
        forall|i: int| 0 <= i < q.len() ==> q[i] == 0,
    decreases q.len(),
{
    if q.len() > 0 {
        let rest = q.drop_last();
        lemma_total_nonneg(rest);
        lemma_total_zero(rest);
        assert forall|i: int| 0 <= i < q.len() implies q[i] == 0 by {
            if i < rest.len() {
                assert(q[i] == rest[i]);
            }
        }
    }
}

/// Stacks in descending order that hold some time start with a stack that is not empty, and an
/// empty stack is among them exactly when it is among those after the first.
proof fn lemma_first_positive(q: Seq<u64>)
    requires
        sorted_desc(q),
        total(q) > 0,
    ensures
        q.len() > 0,
        q[0] > 0,
        q[0] <= total(q),
        total(q.drop_first()) == total(q) - q[0],
        sorted_desc(q.drop_first()),
        q.contains(0) <==> q.drop_first().contains(0),
{
    lemma_total_first(q);
    lemma_total_nonneg(q.drop_first());
    let rest = q.drop_first();
    if q[0] == 0 {
        assert forall|i: int| 0 <= i < q.len() implies q[i] == 0 by {
            assert(q[0] >= q[i]);
        }
        lemma_total_all_zero(q);
    }
    if q.contains(0) {
        let i = choose|i: int| 0 <= i < q.len() && q[i] == 0;
        assert(rest[i - 1] == 0);
    }
    if rest.contains(0) {
        let j = choose|j: int| 0 <= j < rest.len() && rest[j] == 0;
        assert(q[j + 1] == 0);
    }
}

/// Using up duration stacks in descending order for less time than they hold keeps an empty
/// stack among them exactly where there was one.
proof fn lemma_drain_keeps_zero(q: Seq<u64>, d: int)
    requires
        sorted_desc(q),
        0 < d < total(q),
    ensures
        drain(q, d).contains(0) <==> q.contains(0),
    decreases q.len(),
{
    lemma_first_positive(q);
    let rest = q.drop_first();
    if q[0] > d {
        let r = rest.push((q[0] - d) as u64);
        assert(drain(q, d) == r);
        if r.contains(0) {
            let j = choose|j: int| 0 <= j < r.len() && r[j] == 0;
            assert(rest[j] == 0);
        }
        if rest.contains(0) {
            let j = choose|j: int| 0 <= j < rest.len() && rest[j] == 0;
            assert(r[j] == 0);
        }
    } else if q[0] < d {
        assert(drain(q, d) == drain(rest, d - q[0]));
        lemma_drain_keeps_zero(rest, d - q[0]);
    } else {
        assert(drain(q, d) == drain(rest, 0));
        assert(drain(rest, 0) == rest);
    }
}

/// Using up duration stacks in descending order for exactly the time they hold leaves stacks
/// exactly where there was an empty one.
proof fn lemma_drain_all(q: Seq<u64>, d: int)
    requires
        sorted_desc(q),
        d > 0,
        total(q) == d,
    ensures
        drain(q, d).len() > 0 <==> q.contains(0),
    decreases q.len(),
{
    lemma_first_positive(q);
    let rest = q.drop_first();
    assert(drain(q, d) == drain(rest, d - q[0]));
    if q[0] == d {
        assert(drain(rest, 0) == rest);
        lemma_total_zero(rest);
        if rest.len() > 0 {
            assert(rest[0] == 0);
        }
    } else {
        lemma_drain_all(rest, d - q[0]);
    }
}

/// The stacks of a queue after simulating `d` milliseconds, as [`BoonQueue::simulate`] leaves
/// them.
pub open spec fn simulated(q: Seq<u64>, capacity: u32, boon_type: BoonType, d: u64) -> Seq<u64> {
    if d == 0 {
        q
    } else {
        match boon_type {
            BoonType::Duration => fixed_queue(drain(q, d as int), capacity),
            BoonType::Intensity => decay(q, d),
        }
    }
}

/// Simulating `a` and then `b` milliseconds shows what simulating `a + b` milliseconds at once
/// shows: intensity stacks come out the same, and duration stacks hold as much time and are left
/// in both or in neither, so that [`BoonQueue::current_stacks`] and [`BoonQueue::next_change`]
/// give the same either way.
pub proof fn lemma_simulate_twice(q: Seq<u64>, capacity: u32, boon_type: BoonType, a: u64, b: u64)
    requires
        sorted_desc(q),
        q.len() <= capacity,
        a + b <= u64::MAX,
    ensures
        ({
            let two = simulated(simulated(q, capacity, boon_type, a), capacity, boon_type, b);
            let one = simulated(q, capacity, boon_type, (a + b) as u64);
            &&& boon_type == BoonType::Intensity ==> two == one
            &&& boon_type == BoonType::Duration ==> total(two) == total(one)
            &&& boon_type == BoonType::Duration ==> (two.len() > 0 <==> one.len() > 0)
        }),
{
    if a > 0 && b > 0 {
        match boon_type {
            BoonType::Intensity => {
                lemma_decay_twice(q, a, b);
            },
            BoonType::Duration => {
                lemma_drain_twice(q, capacity, a, b);
                if total(q) == a + b {
                    let first = drain(q, a as int);
                    lemma_drain(q, a as int);
                    let mid = fixed_queue(first, capacity);
                    lemma_sort_desc(first);
                    assert(mid == sort_desc(first));
                    let second = drain(mid, b as int);
                    lemma_drain(mid, b as int);
                    lemma_sort_desc(second);
                    let whole = drain(q, a + b);
                    lemma_drain(q, a + b);
                    lemma_sort_desc(whole);
                    lemma_drain_all(q, a + b);
                    lemma_drain_all(mid, b as int);
                    lemma_drain_keeps_zero(q, a as int);
                    first.to_multiset_ensures();
                    mid.to_multiset_ensures();
                    assert(mid.to_multiset().count(0) == first.to_multiset().count(0));
                    assert(mid.contains(0) <==> first.contains(0));
                }
            },
        }
    }
}

proof fn lemma_count_longer_all(q: Seq<u64>, d: u64)
    requires
        forall|i: int| 0 <= i < q.len() ==> q[i] > d,
    ensures
        count_longer(q, d) == q.len(),
    decreases q.len(),
{
    if q.len() > 0 {
        lemma_count_longer_all(q.drop_last(), d);
    }
}

/// A struct that helps with simulating boon changes over time.
///
/// This basically simulates a single boon-queue (for a single boon).
///
/// # A quick word about how boon queues work
///
/// For each boon, you have an internal *boon queue*, limited to a specific
/// capacity. When the current stack expires, the next one is taken from the
/// queue.
///
/// The queue is sorted by boon strength. This means that "weak" boons are
/// always at the end (and as such, are the first ones to be deleted when the
/// queue is full). This prevents "bad" boons (e.g. the Quickness from Lightning
/// Hammer #2) to override the "good" boons (e.g. the Quickness from your
/// friendly neighborhood Chrono with 100% boon duration).
///
/// This also means that boons can be "lost". If the queue is full, the boon
/// might not get applied, or it might replace another boon, thus wasting some
/// of the boon duration.
///
/// Intensity-stacked boons (such as Might) work a bit differently: as time
/// passes, all stacks are decreased simultaneously! As soon as a stack reaches
/// 0, it is dropped.
///
/// You can find more information and the size of some of the queues on the wiki:
/// https://wiki.guildwars2.com/wiki/Effect_stacking
#[derive(Debug)]
pub struct BoonQueue {
    capacity: u32,
    queue: Vec<u64>,
    boon_type: BoonType,
}

impl BoonQueue {
    /// The queue holds its stacks longest first and no more than its capacity.
    #[verifier::type_invariant]
    closed spec fn queue_fits(self) -> bool {
        sorted_desc(self.queue@) && self.queue@.len() <= self.capacity
    }

    /// The capacity of the queue.
    pub closed spec fn spec_capacity(&self) -> u32 {
        self.capacity
    }

    /// The remaining durations of the stacks, longest first.
    pub closed spec fn spec_queue(&self) -> Seq<u64> {
        self.queue@
    }

    /// How the boons stack.
    pub closed spec fn spec_boon_type(&self) -> BoonType {
        self.boon_type
    }

    /// Create a new boon queue.
    ///
    /// * `capacity` - The capacity of the queue.
    /// * `boon_type` - How the boons stack.
    pub fn new(capacity: u32, boon_type: BoonType) -> (r: BoonQueue)
        ensures
            r.spec_capacity() == capacity,
            r.spec_boon_type() == boon_type,
            r.spec_queue() == Seq::<u64>::empty(),
    {
        BoonQueue { capacity, queue: Vec::new(), boon_type }
    }

    /// Sorts the stacks, longest first, and cuts them to the capacity by dropping the shortest.
    fn fix_queue(queue: Vec<u64>, capacity: u32) -> (r: Vec<u64>)
        ensures
            r@ == fixed_queue(queue@, capacity),
            sorted_desc(r@),
            r@.len() <= capacity,
    {
        // Sort reversed, so that the longest stack is at the front.
        let mut sorted: Vec<u64> = Vec::new();
        let mut i: usize = 0;
        while i < queue.len()
            invariant
                i <= queue@.len(),
                sorted@ == sort_desc(queue@.take(i as int)),
            decreases queue@.len() - i,
        {
            let x = queue[i];
            let ghost before = sorted@;
            let mut p: usize = sorted.len();
            while p > 0 && sorted[p - 1] < x
                invariant
                    p <= sorted@.len(),
                    before == sorted@,
                    forall|j: int| p <= j < before.len() ==> before[j] < x,
                decreases p,
            {
                p -= 1;
            }
            proof {
                lemma_desc_insertion_point_at(before, x, p as int);
                assert(queue@.take(i + 1).drop_last() == queue@.take(i as int));
            }
            sorted.insert(p, x);
            i += 1;
        }
        assert(queue@.take(i as int) == queue@);
        proof {
            lemma_sort_desc(queue@);
        }
        // Truncate queue by cutting of the shortest stacks
        if sorted.len() > capacity as usize {
            sorted.truncate(capacity as usize);
        }
        sorted
    }

    /// Get the type of this boon.
    pub fn boon_type(&self) -> (r: BoonType)
        ensures
            r == self.spec_boon_type(),
    {
        self.boon_type
    }

    /// Add a boon stack to this queue.
    ///
    /// * `duration` - Duration (in milliseconds) of the added stack.
    ///
    /// The stack goes into its place by length; if the queue is then over its capacity, the
    /// shortest stack is dropped.
    pub fn add_stack(&mut self, duration: u64)
        ensures
            final(self).spec_queue() == fixed_queue(
                old(self).spec_queue().push(duration),
                old(self).spec_capacity(),
            ),
            final(self).spec_capacity() == old(self).spec_capacity(),
            final(self).spec_boon_type() == old(self).spec_boon_type(),
            sorted_desc(final(self).spec_queue()),
            final(self).spec_queue().len() <= final(self).spec_capacity(),
    {
        let mut queue = self.queue.clone();
        assert(queue@ == self.queue@);
        queue.push(duration);
        self.queue = BoonQueue::fix_queue(queue, self.capacity);
    }

    /// Return the amount of current stacks.
    ///
    /// If the boon type is a duration boon, this will always return 0 or 1.
    ///
    /// If the boon type is an intensity boon, it will return the number of
    /// stacks.
    pub fn current_stacks(&self) -> (r: u32)
        ensures
            self.spec_boon_type() == BoonType::Intensity ==> r == self.spec_queue().len(),
            self.spec_boon_type() == BoonType::Duration ==> r == if self.spec_queue().len() > 0 {
                1int
            } else {
                0int
            },
            r <= self.spec_capacity(),
    {
        proof {
            use_type_invariant(self);
        }
        match self.boon_type {
            BoonType::Intensity => self.queue.len() as u32,
            BoonType::Duration => if self.queue.len() > 0 {
                1
            } else {
                0
            },
        }
    }

    /// Simulate time passing.
    ///
    /// This will decrease the remaining duration of the stacks accordingly: duration stacks are
    /// used up one after the other, longest first; intensity stacks all run at once, and those
    /// that run out are dropped.
    ///
    /// * `duration` - The amount of time (in milliseconds) to simulate.
    pub fn simulate(&mut self, duration: u64)
        ensures
            final(self).spec_capacity() == old(self).spec_capacity(),
            final(self).spec_boon_type() == old(self).spec_boon_type(),
            duration == 0 ==> final(self).spec_queue() == old(self).spec_queue(),
            duration > 0 && old(self).spec_boon_type() == BoonType::Duration ==> final(self).spec_queue() == fixed_queue(
                drain(old(self).spec_queue(), duration as int),
                old(self).spec_capacity(),
            ),
            duration > 0 && old(self).spec_boon_type() == BoonType::Intensity ==> final(self).spec_queue() == decay(old(self).spec_queue(), duration),
            old(self).spec_boon_type() == BoonType::Duration ==> total(final(self).spec_queue())
                == if total(old(self).spec_queue()) > duration {
                total(old(self).spec_queue()) - duration
            } else {
                0
            },
            duration > 0 && old(self).spec_boon_type() == BoonType::Intensity ==> final(self).spec_queue().len() == count_longer(old(self).spec_queue(), duration),
            final(self).spec_queue() == simulated(
                old(self).spec_queue(),
                old(self).spec_capacity(),
                old(self).spec_boon_type(),
                duration,
            ),
            sorted_desc(final(self).spec_queue()),
            final(self).spec_queue().len() <= final(self).spec_capacity(),
    {
        proof {
            use_type_invariant(&*self);
            lemma_drain(self.queue@, duration as int);
        }
        if duration == 0 {
            proof {
                lemma_total_nonneg(self.queue@);
            }
            return;
        }
        match self.boon_type {
            BoonType::Duration => {
                let ghost start = self.queue@;
                let mut queue = self.queue.clone();
                assert(queue@ == start);
                let mut remaining: u64 = duration;
                let mut done = false;
                while remaining > 0 && queue.len() > 0 && !done
                    invariant
                        done ==> queue@ == drain(start, duration as int),
                        !done ==> drain(queue@, remaining as int) == drain(start, duration as int),
                    decreases queue@.len(), if done { 0int } else { 1int },
                {
                    let next = queue.remove(0);
                    if next > remaining {
                        queue.push(next - remaining);
                        done = true;
                    } else {
                        remaining -= next;
                    }
                }
                self.queue = BoonQueue::fix_queue(queue, self.capacity);
                proof {
                    lemma_sort_desc(drain(start, duration as int));
                    use_type_invariant(&*self);
                }
            },
            BoonType::Intensity => {
                let ghost start = self.queue@;
                let mut queue: Vec<u64> = Vec::new();
                let mut i: usize = 0;
                while i < self.queue.len()
                    invariant
                        i <= start.len(),
                        start == self.queue@,
                        queue@ == decay(start.take(i as int), duration),
                    decreases start.len() - i,
                {
                    assert(start.take(i + 1).drop_last() == start.take(i as int));
                    let v = self.queue[i];
                    if v > duration {
                        queue.push(v - duration);
                    }
                    i += 1;
                }
                assert(start.take(i as int) == start);
                proof {
                    lemma_decay(start, duration);
                }
                self.queue = queue;
                proof {
                    use_type_invariant(&*self);
                }
            },
        }
    }

    /// Remove all stacks.
    pub fn clear(&mut self)
        ensures
            final(self).spec_queue() == Seq::<u64>::empty(),
            final(self).spec_capacity() == old(self).spec_capacity(),
            final(self).spec_boon_type() == old(self).spec_boon_type(),
    {
        self.queue = Vec::new();
    }

    /// Checks if any stacks are left.
    pub fn is_empty(&self) -> (r: bool)
        ensures
            sorted_desc(self.spec_queue()),
            self.spec_queue().len() <= self.spec_capacity(),
            r == (self.spec_queue().len() == 0),
    {
        proof {
            use_type_invariant(self);
        }
        self.queue.len() == 0
    }

    /// Calculate when the stacks will have the next visible change.
    ///
    /// This assumes that the stacks will not be modified during this time.
    ///
    /// The return value is the duration in milliseconds: for a duration boon, the time until all
    /// stacks have run out; for an intensity boon, the time until the shortest stack runs out. If
    /// the boon queue is currently empty, 0 is returned.
    pub fn next_change(&self) -> (r: u64)
        requires
            self.spec_boon_type() == BoonType::Duration ==> total(self.spec_queue()) <= u64::MAX,
        ensures
            self.spec_boon_type() == BoonType::Duration ==> r == total(self.spec_queue()),
            self.spec_boon_type() == BoonType::Intensity ==> r == if self.spec_queue().len()
                > 0 {
                self.spec_queue().last()
            } else {
                0
            },
    {
        match self.boon_type {
            BoonType::Duration => {
                let ghost q = self.queue@;
                let mut sum: u64 = 0;
                let mut i: usize = 0;
                while i < self.queue.len()
                    invariant
                        i <= q.len(),
                        q == self.queue@,
                        total(q) <= u64::MAX,
                        sum == total(q.take(i as int)),
                    decreases q.len() - i,
                {
                    assert(q.take(i + 1).drop_last() == q.take(i as int));
                    proof {
                        lemma_total_prefix(q, i + 1);
                    }
                    sum = sum + self.queue[i];
                    i += 1;
                }
                assert(q.take(i as int) == q);
                sum
            },
            BoonType::Intensity => if self.queue.len() > 0 {
                self.queue[self.queue.len() - 1]
            } else {
                0
            },
        }
    }

    /// Calculate when the boon queue should be updated next.
    ///
    /// The next update always means that a stack runs out, even if it has no
    /// visible effect: it is the remaining duration of the shortest stack.
    ///
    /// For each queue: `next_update() <= next_change()`.
    ///
    /// A return value of 0 means that there's no update awaiting.
    pub fn next_update(&self) -> (r: u64)
        ensures
            r == if self.spec_queue().len() > 0 {
                self.spec_queue().last()
            } else {
                0
            },
    {
        if self.queue.len() > 0 {
            self.queue[self.queue.len() - 1]
        } else {
            0
        }
    }
}

/// When a queue is next updated: when its shortest stack runs out, 0 for an empty queue.
pub open spec fn update_time(q: Seq<u64>) -> int {
    if q.len() > 0 {
        q.last() as int
    } else {
        0
    }
}

/// When the stacks of a queue next change visibly: when all of them have run out for a duration
/// boon, when the shortest runs out for an intensity boon.
pub open spec fn change_time(q: Seq<u64>, boon_type: BoonType) -> int {
    match boon_type {
        BoonType::Duration => total(q),
        BoonType::Intensity => update_time(q),
    }
}

/// For each queue, the next update comes no later than the next change: `next_update() <=
/// next_change()`.
pub proof fn lemma_update_before_change(queue: &BoonQueue)
    ensures
        update_time(queue.spec_queue()) <= change_time(queue.spec_queue(), queue.spec_boon_type()),
{
    let q = queue.spec_queue();
    if q.len() > 0 {
        lemma_total_nonneg(q.drop_last());
    }
}

impl Clone for BoonQueue {
    fn clone(&self) -> (r: Self)
        ensures
            r.spec_queue() == self.spec_queue(),
            r.spec_capacity() == self.spec_capacity(),
            r.spec_boon_type() == self.spec_boon_type(),
    {
        proof {
            use_type_invariant(self);
        }
        let queue = self.queue.clone();
        assert(queue@ == self.queue@);
        BoonQueue { capacity: self.capacity, queue, boon_type: self.boon_type }
    }
}

proof fn lemma_total_prefix(s: Seq<u64>, k: int)
    requires
        0 <= k <= s.len(),
    ensures
        total(s.take(k)) <= total(s),
    decreases s.len(),
{
    if k < s.len() {
        assert(s.drop_last().take(k) == s.take(k));
        lemma_total_prefix(s.drop_last(), k);
        lemma_total_nonneg(s.drop_last());
    } else {
        assert(s.take(k) == s);
    }
}

/// Amount of stacks of a boon.
// Since this is also used to represent changes in stacks, we need access to
// negative numbers too, as stacks can drop.
#[derive(Clone, Copy, Debug, PartialEq, Eq, Structural)]
pub struct Stacks(pub i32);

impl Semigroup for Stacks {
    open spec fn spec_combine(self, other: Self) -> Self {
        Stacks((self.0 + other.0) as i32)
    }

    open spec fn combinable(self, other: Self) -> bool {
        i32::MIN <= self.0 + other.0 <= i32::MAX
    }

    fn combine(&self, other: &Self) -> (r: Self) {
        Stacks(self.0 + other.0)
    }
}

/// Summing up changes of stacks is associative and commutative, so the laws of a [`RecordFunc`]
/// that need this hold of a boon log's records.
pub proof fn lemma_stacks_commutes()
    ensures
        combine_commutes::<Stacks>(),
{
    reveal(combine_commutes);
    assert forall|a: Stacks, b: Stacks, c: Stacks|
        #[trigger] a.spec_combine(b).spec_combine(c) == a.spec_combine(b.spec_combine(c)) by {
        let (x, y, z) = (a.0, b.0, c.0);
        assert(((x + y) as i32 + z) as i32 == (x + (y + z) as i32) as i32) by (bit_vector);
    }
    assert forall|a: Stacks, b: Stacks| #[trigger] a.spec_combine(b) == b.spec_combine(a) by {}
}

impl Monoid for Stacks {
    open spec fn spec_mempty() -> Self {
        Stacks(0)
    }

    fn mempty() -> (r: Self) {
        Stacks(0)
    }

    proof fn lemma_mempty_left(x: Self) {
    }

    proof fn lemma_mempty_right(x: Self) {
    }
}

/// The area below a curve of stacks over time: stacks times milliseconds.
// This shouldn't be negative, as total stacks are always greater than 0, thus
// the area below the curve will always be positive.
#[derive(Clone, Copy, Debug, PartialEq, Eq, Structural)]
pub struct BoonArea(pub u64);

impl Semigroup for BoonArea {
    open spec fn spec_combine(self, other: Self) -> Self {
        BoonArea((self.0 + other.0) as u64)
    }

    open spec fn combinable(self, other: Self) -> bool {
        self.0 + other.0 <= u64::MAX
    }

    fn combine(&self, other: &Self) -> (r: Self) {
        BoonArea(self.0 + other.0)
    }
}

impl Monoid for BoonArea {
    open spec fn spec_mempty() -> Self {
        BoonArea(0)
    }

    fn mempty() -> (r: Self) {
        BoonArea(0)
    }

    proof fn lemma_mempty_left(x: Self) {
    }

    proof fn lemma_mempty_right(x: Self) {
    }
}

/// Stacks held for a number of milliseconds give the area below them.
impl std::ops::Mul<u64> for Stacks {
    type Output = BoonArea;

    fn mul(self, rhs: u64) -> (r: BoonArea) {
        BoonArea((self.0 as u64) * rhs)
    }
}

impl vstd::std_specs::ops::MulSpecImpl<u64> for Stacks {
    open spec fn obeys_mul_spec() -> bool {
        true
    }

    /// The stacks, taken as a `u64` (negative ones wrap around), times the milliseconds fit.
    open spec fn mul_req(self, rhs: u64) -> bool {
        (self.0 as u64) * rhs <= u64::MAX
    }

    open spec fn mul_spec(self, rhs: u64) -> BoonArea {
        BoonArea(((self.0 as u64) * rhs) as u64)
    }
}

#[verifier::external_type_specification]
#[verifier::external_body]
#[verifier::reject_recursive_types(H)]
pub struct ExBuildHasherDefault<H>(BuildHasherDefault<H>);

#[verifier::external_type_specification]
#[verifier::external_body]
pub struct ExFnvHasher(FnvHasher);

/// The records of a boon log: a map with the FNV hasher from boon ids to records.
pub type BoonRecords = FnvHashMap<u16, RecordFunc<u64, (), Stacks>>;

/// `FnvHashMap::default`: an empty map.
#[verifier::external_body]
fn fnv_map_new() -> (r: BoonRecords)
    ensures
        r@.dom() == Set::<u16>::empty(),
{
    FnvHashMap::default()
}

/// `HashMap::get` on a map with the FNV hasher: the value of the key, if it has one.
#[verifier::external_body]
fn fnv_map_get<V>(m: &FnvHashMap<u16, V>, k: u16) -> (r: Option<&V>)
    ensures
        match r {
            Some(v) => m@.contains_key(k) && *v == m@[k],
            None => !m@.contains_key(k),
        },
{
    m.get(&k)
}

/// `HashMap::remove` on a map with the FNV hasher: takes the value of the key out, if it has one.
#[verifier::external_body]
fn fnv_map_remove<V>(m: &mut FnvHashMap<u16, V>, k: u16) -> (r: Option<V>)
    ensures
        final(m)@ == old(m)@.remove(k),
        match r {
            Some(v) => old(m)@.contains_key(k) && v == old(m)@[k],
            None => !old(m)@.contains_key(k),
        },
{
    m.remove(&k)
}

/// `HashMap::insert` on a map with the FNV hasher: the key now has the value.
#[verifier::external_body]
fn fnv_map_insert<V>(m: &mut FnvHashMap<u16, V>, k: u16, v: V)
    ensures
        final(m)@ == old(m)@.insert(k, v),
{
    m.insert(k, v);
}

/// The sum of all stack changes of a record of a boon.
pub open spec fn stacks_total(f: RecordFunc<u64, (), Stacks>) -> int {
    fold_selected(f.increments(), select_all(f.increments().len())).0 as int
}

/// The stacks that a record of a boon gives at the time: the sum of the changes at or before it.
pub open spec fn stacks_upto(f: RecordFunc<u64, (), Stacks>, x: u64) -> i32 {
    fold_selected(f.increments().take(f.count_upto(&x)), select_all(f.count_upto(&x) as nat)).0
}

/// A boon log for a specific player.
///
/// This logs the amount of stacks of each boon a player had at any given time.
#[derive(Debug)]
pub struct BoonLog {
    // Keep a separate RecordFunc for each boon.
    inner: BoonRecords,
}

impl BoonLog {
    /// The records of the boons, by boon id: each holds the changes of the boon's stacks.
    pub closed spec fn records(&self) -> Map<u16, RecordFunc<u64, (), Stacks>> {
        self.inner@
    }

    /// Every record holds its changes in order of time.
    #[verifier::type_invariant]
    closed spec fn records_ordered(self) -> bool {
        forall|k: u16| #[trigger] self.inner@.contains_key(k) ==> self.inner@[k].wf()
    }

    /// Create a new, empty boon log.
    pub fn new() -> (r: Self)
        ensures
            r.records() == Map::<u16, RecordFunc<u64, (), Stacks>>::empty(),
    {
        let inner = fnv_map_new();
        assert(inner@ =~= Map::empty());
        BoonLog { inner }
    }

    /// Add an event to the boon log: the boon has the given amount of stacks from the time on.
    ///
    /// The change of stacks is recorded at the time, unless the stacks are what all recorded
    /// changes sum up to already. The boon has a record afterwards, possibly an empty one.
    pub fn log(&mut self, time: u64, boon_id: u16, stacks: u32)
        requires
            old(self).records().contains_key(boon_id) ==> {
                let f = old(self).records()[boon_id];
                &&& f.foldable()
                &&& i32::MIN <= (stacks as i32) - stacks_total(f) <= i32::MAX
            },
        ensures
            final(self).records().dom() == old(self).records().dom().insert(boon_id),
            forall|k: u16|
                k != boon_id && old(self).records().contains_key(k)
                    ==> #[trigger] final(self).records()[k] == old(self).records()[k],
            ({
                let known = old(self).records().contains_key(boon_id);
                let points = if known {
                    old(self).records()[boon_id].points()
                } else {
                    Seq::empty()
                };
                let increments = if known {
                    old(self).records()[boon_id].increments()
                } else {
                    Seq::empty()
                };
                let current = if known {
                    stacks_total(old(self).records()[boon_id])
                } else {
                    0
                };
                let f = final(self).records()[boon_id];
                if current == stacks as i32 {
                    f.points() == points && f.increments() == increments
                } else {
                    let p = count_at_or_before(points, time as int);
                    &&& f.points() == points.insert(p, time)
                    &&& f.increments() == increments.insert(p, Stacks((stacks as i32 - current) as i32))
                }
            }),
    {
        proof {
            use_type_invariant(&*self);
        }
        let mut inner = fnv_map_new();
        std::mem::swap(&mut inner, &mut self.inner);
        let mut func = match fnv_map_remove(&mut inner, boon_id) {
            Some(f) => f,
            None => RecordFunc::new(),
        };
        proof {
            if !old(self).records().contains_key(boon_id) {
                assert(func.increments() =~= Seq::<Stacks>::empty());
                assert(func.foldable()) by {
                    assert forall|i: int, j: int, selected: Seq<bool>|
                        0 <= i <= j <= func.increments().len() implies #[trigger] fold_defined(
                            func.increments().subrange(i, j),
                            selected,
                        ) by {
                        assert(func.increments().subrange(i, j).len() == 0);
                    }
                }
            }
        }
        let current = func.tally();
        if current.0 != stacks as i32 {
            let diff = stacks as i32 - current.0;
            func.insert(time, (), Stacks(diff));
        }
        fnv_map_insert(&mut inner, boon_id, func);
        self.inner = inner;
        proof {
            assert(self.inner@.dom() =~= old(self).records().dom().insert(boon_id));
        }
    }

    /// Get the amount of stacks at the given time point: 0 for a boon that was never logged.
    ///
    /// * `x` - Time point.
    /// * `boon_id` - ID of the boon that you want to get.
    pub fn stacks_at(&self, x: u64, boon_id: u16) -> (r: u32)
        requires
            self.records().contains_key(boon_id) ==> self.records()[boon_id].foldable(),
        ensures
            r == if self.records().contains_key(boon_id) {
                stacks_upto(self.records()[boon_id], x) as u32
            } else {
                0
            },
    {
        proof {
            use_type_invariant(self);
        }
        match fnv_map_get(&self.inner, boon_id) {
            Some(f) => f.get(&x).0 as u32,
            None => 0,
        }
    }
}

} // verus!
