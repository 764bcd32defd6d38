//! Mechanic logs: how often agents were hit by boss mechanics.
use vstd::prelude::*;

use super::gamedata::Mechanic;
use super::math::{
    combine_commutes, count_at_or_before, fold_defined, fold_selected, negated,
    Monoid, RecordFunc, Semigroup,
};

verus! {

/// A count of occurrences.
#[derive(Clone, Copy, PartialEq, Eq, PartialOrd, Ord, Hash, Debug, Structural)]
pub struct Counter(pub u32);

impl Semigroup for Counter {
    open spec fn spec_combine(self, other: Self) -> Self {
        Counter((self.0 + other.0) as u32)
    }

    open spec fn combinable(self, other: Self) -> bool {
        self.0 + other.0 <= u32::MAX
    }

    fn combine(&self, other: &Counter) -> (r: Counter) {
        Counter(self.0 + other.0)
    }
}

/// Counting is associative and commutative, so the laws of a [`RecordFunc`] that need this hold
/// of a mechanic log's records.
pub proof fn lemma_counter_commutes()
    ensures
        combine_commutes::<Counter>(),
{
    reveal(combine_commutes);
    assert forall|a: Counter, b: Counter, c: Counter|
        #[trigger] a.spec_combine(b).spec_combine(c) == a.spec_combine(b.spec_combine(c)) by {
        let (x, y, z) = (a.0, b.0, c.0);
        assert(((x + y) as u32 + z) as u32 == (x + (y + z) as u32) as u32) by (bit_vector);
    }
    assert forall|a: Counter, b: Counter| #[trigger] a.spec_combine(b) == b.spec_combine(a) by {}
}

impl Monoid for Counter {
    open spec fn spec_mempty() -> Self {
        Counter(0)
    }

    fn mempty() -> (r: Counter) {
        Counter(0)
    }

    proof fn lemma_mempty_left(x: Self) {
    }

    proof fn lemma_mempty_right(x: Self) {
    }
}

/// The occurrences of mechanics, by time, each with the agent that it hit.
#[derive(Debug)]
pub struct MechanicLog {
    inner: RecordFunc<u64, (&'static Mechanic, u64), Counter>,
}

impl MechanicLog {
    /// The occurrences are in order of time, and each counts once.
    #[verifier::type_invariant]
    pub(crate) open spec fn occurrences_ordered(self) -> bool {
        &&& self.spec_inner().wf()
        &&& forall|i: int|
            0 <= i < self.spec_inner().increments().len() ==> #[trigger] self.spec_inner().increments()[i]
                == Counter(1)
    }

    /// The occurrences of the log, by time.
    pub closed spec fn spec_inner(&self) -> RecordFunc<u64, (&'static Mechanic, u64), Counter> {
        self.inner
    }

    /// Create an empty mechanic log.
    pub fn new() -> (r: Self)
        ensures
            r.spec_inner().wf(),
            r.spec_inner().points().len() == 0,
    {
        MechanicLog { inner: RecordFunc::new() }
    }

    /// Log one occurrence of the mechanic, hitting the agent, at the time.
    pub fn increase(&mut self, time: u64, mechanic: &'static Mechanic, agent: u64)
        ensures
            final(self).spec_inner().wf(),
            ({
                let p = super::math::count_at_or_before(old(self).spec_inner().points(), time as int);
                &&& final(self).spec_inner().points() == old(self).spec_inner().points().insert(p, time)
                &&& final(self).spec_inner().tags() == old(self).spec_inner().tags().insert(
                    p,
                    (mechanic, agent),
                )
                &&& final(self).spec_inner().increments() == old(
                    self,
                ).spec_inner().increments().insert(p, Counter(1))
            }),
            // Every filtered count gains one where the filter takes the new occurrence.
            ({
                let p = super::math::count_at_or_before(old(self).spec_inner().points(), time as int);
                forall|selected: Seq<bool>, take: bool|
                    selected.len() == old(self).spec_inner().increments().len()
                        ==> #[trigger] accepted(selected.insert(p, take)) == accepted(selected) + if take {
                        1int
                    } else {
                        0
                    }
            }),
    {
        proof {
            use_type_invariant(&*self);
        }
        let ghost before = self.spec_inner();
        let ghost p = count_at_or_before(before.points(), time as int);
        proof {
            super::math::lemma_count_bounds(before.points(), time as int);
        }
        let mut inner = RecordFunc::new();
        std::mem::swap(&mut inner, &mut self.inner);
        inner.insert(time, (mechanic, agent), Counter(1));
        proof {
            let incs = before.increments().insert(p, Counter(1));
            assert(inner.increments() == incs);
            assert forall|i: int| 0 <= i < incs.len() implies #[trigger] incs[i] == Counter(1) by {
                if i < p {
                    assert(incs[i] == before.increments()[i]);
                } else if i > p {
                    assert(incs[i] == before.increments()[i - 1]);
                }
            }
        }
        self.inner = inner;
        proof {
            assert forall|selected: Seq<bool>, take: bool|
                selected.len() == before.increments().len() implies #[trigger] accepted(
                selected.insert(p, take),
            ) == accepted(selected) + if take {
                1int
            } else {
                0
            } by {
                let ones = Seq::new(selected.len(), |i: int| Counter(1));
                lemma_counter_total_insert(ones, selected, p, Counter(1), take);
                lemma_ones_total(ones, selected);
                assert(ones.insert(p, Counter(1)) =~= Seq::new(selected.len() + 1, |i: int| Counter(1)));
                lemma_ones_total(ones.insert(p, Counter(1)), selected.insert(p, take));
            }
        }
    }

    /// The number of occurrences that the filter accepts, given the mechanic and the agent.
    pub fn count<F: Fn(&'static Mechanic, u64) -> bool>(&self, filter: F) -> (r: u32)
        requires
            self.spec_inner().increments().len() <= u32::MAX,
            forall|m: &'static Mechanic, a: u64| filter.requires((m, a)),
        ensures
            exists|selected: Seq<bool>|
                {
                    &&& selected.len() == self.spec_inner().increments().len()
                    &&& forall|i: int|
                        0 <= i < self.spec_inner().increments().len() ==> filter.ensures(
                            (self.spec_inner().tags()[i].0, self.spec_inner().tags()[i].1),
                            #[trigger] selected[i],
                        )
                    &&& r == fold_selected(self.spec_inner().increments(), selected).0
                    &&& r == accepted(selected)
                },
    {
        proof {
            use_type_invariant(self);
            let incs = self.spec_inner().increments();
            assert forall|i: int| 0 <= i < incs.len() implies #[trigger] incs[i].0 <= 1 by {}
            lemma_counter_foldable(incs, 1);
        }
        let f = &filter;
        let by_tag = |tag: &(&'static Mechanic, u64)| -> (b: bool)
            requires
                forall|m: &'static Mechanic, a: u64| f.requires((m, a)),
            ensures
                f.ensures((tag.0, tag.1), b),
            { f(tag.0, tag.1) };
        let r = self.inner.tally_only(by_tag).0;
        proof {
            let incs = self.spec_inner().increments();
            let sel = choose|selected: Seq<bool>|
                {
                    &&& selected.len() == incs.len()
                    &&& forall|i: int|
                        0 <= i < incs.len() ==> by_tag.ensures(
                            (&self.spec_inner().tags()[i],),
                            #[trigger] selected[i],
                        )
                    &&& r == fold_selected(incs, selected).0
                };
            assert(incs.subrange(0, incs.len() as int) == incs);
            assert(fold_defined(incs.subrange(0, incs.len() as int), sel));
            lemma_counter_fold_is_total(incs, sel);
            lemma_ones_total(incs, sel);
            assert forall|i: int| 0 <= i < incs.len() implies filter.ensures(
                (self.spec_inner().tags()[i].0, self.spec_inner().tags()[i].1),
                #[trigger] sel[i],
            ) by {
                assert(by_tag.ensures((&self.spec_inner().tags()[i],), sel[i]));
            }
        }
        r
    }
}

/// The sum of the selected count values, as an integer.
pub open spec fn counter_total(data: Seq<Counter>, selected: Seq<bool>) -> int
    decreases data.len(),
{
    if data.len() == 0 {
        0
    } else {
        counter_total(data.drop_last(), selected) + if selected[data.len() - 1] {
            data.last().0 as int
        } else {
            0
        }
    }
}

/// Sums over the same values with selections that agree on them are the same.
proof fn lemma_counter_total_agree(data: Seq<Counter>, s1: Seq<bool>, s2: Seq<bool>)
    requires
        forall|i: int| 0 <= i < data.len() ==> s1[i] == s2[i],
    ensures
        counter_total(data, s1) == counter_total(data, s2),
    decreases data.len(),
{
    if data.len() > 0 {
        lemma_counter_total_agree(data.drop_last(), s1, s2);
    }
}

/// Where the fold of the selected count values is defined, it is their integer sum.
pub proof fn lemma_counter_fold_is_total(data: Seq<Counter>, selected: Seq<bool>)
    requires
        fold_defined(data, selected),
    ensures
        fold_selected(data, selected).0 == counter_total(data, selected),
    decreases data.len(),
{
    if data.len() > 0 {
        lemma_counter_fold_is_total(data.drop_last(), selected);
    }
}

/// An entry inserted anywhere adds its value to every sum whose selection takes it, and nothing
/// to the others: what a filtered count of a mechanic log after `MechanicLog::increase` is what it was before, plus the new entry's value
/// where the filter accepts it.
pub proof fn lemma_counter_total_insert(data: Seq<Counter>, selected: Seq<bool>, p: int, x: Counter, take: bool)
    requires
        0 <= p <= data.len(),
        selected.len() == data.len(),
    ensures
        counter_total(data.insert(p, x), selected.insert(p, take)) == counter_total(data, selected) + if take {
            x.0 as int
        } else {
            0
        },
    decreases data.len(),
{
    let n = data.len() as int;
    let big = data.insert(p, x);
    let sel = selected.insert(p, take);
    if p == n {
        assert(big.drop_last() == data);
        assert forall|i: int| 0 <= i < n implies sel[i] == selected[i] by {}
        lemma_counter_total_agree(data, sel, selected);
    } else {
        let rest = data.drop_last();
        let rest_sel = selected.drop_last();
        lemma_counter_total_insert(rest, rest_sel, p, x, take);
        assert(big.drop_last() == rest.insert(p, x));
        assert(big.last() == data.last());
        assert(sel[n] == selected[n - 1]);
        assert forall|i: int| 0 <= i < n implies #[trigger] sel[i] == rest_sel.insert(p, take)[i] by {}
        lemma_counter_total_agree(rest.insert(p, x), sel, rest_sel.insert(p, take));
        assert forall|i: int| 0 <= i < n - 1 implies #[trigger] selected[i] == rest_sel[i] by {}
        lemma_counter_total_agree(rest, selected, rest_sel);
    }
}

/// A sum of selected values, none above `m`, is at most `m` times their number.
proof fn lemma_counter_total_bounded(data: Seq<Counter>, selected: Seq<bool>, m: u32)
    requires
        forall|i: int| 0 <= i < data.len() ==> #[trigger] data[i].0 <= m,
    ensures
        0 <= counter_total(data, selected) <= data.len() * m,
    decreases data.len(),
{
    if data.len() > 0 {
        let n = data.len() as int;
        assert forall|i: int| 0 <= i < n - 1 implies #[trigger] data.drop_last()[i].0 <= m by {
            assert(data.drop_last()[i] == data[i]);
        }
        lemma_counter_total_bounded(data.drop_last(), selected, m);
        assert(data.last().0 <= m) by {
            assert(data[n - 1].0 <= m);
        }
        assert((n - 1) * m + m == n * m) by (nonlinear_arith);
    }
}

/// The values, none above `m`, with `m` times their number fitting, fold without overflow.
proof fn lemma_counter_defined(data: Seq<Counter>, selected: Seq<bool>, m: u32)
    requires
        forall|i: int| 0 <= i < data.len() ==> #[trigger] data[i].0 <= m,
        data.len() * m <= u32::MAX,
    ensures
        fold_defined(data, selected),
    decreases data.len(),
{
    if data.len() > 0 {
        let n = data.len() as int;
        let rest = data.drop_last();
        assert forall|i: int| 0 <= i < n - 1 implies #[trigger] rest[i].0 <= m by {
            assert(rest[i] == data[i]);
        }
        assert((n - 1) * m <= n * m) by (nonlinear_arith)
            requires
                n >= 1,
                m >= 0,
        ;
        lemma_counter_defined(rest, selected, m);
        lemma_counter_fold_is_total(rest, selected);
        lemma_counter_total_bounded(rest, selected, m);
        assert(data.last().0 <= m) by {
            assert(data[n - 1].0 <= m);
        }
        assert((n - 1) * m + m == n * m) by (nonlinear_arith);
    }
}

/// Values none of which is above `m`, with `m` times their number fitting, can be summed up without
/// overflow however they are cut and filtered: a mechanic log whose entries are so bounded is
/// [foldable](RecordFunc::foldable).
pub proof fn lemma_counter_foldable(data: Seq<Counter>, m: u32)
    requires
        forall|i: int| 0 <= i < data.len() ==> #[trigger] data[i].0 <= m,
        data.len() * m <= u32::MAX,
    ensures
        forall|i: int, j: int, selected: Seq<bool>|
            0 <= i <= j <= data.len() ==> #[trigger] fold_defined(data.subrange(i, j), selected),
{
    assert forall|i: int, j: int, selected: Seq<bool>| 0 <= i <= j <= data.len() implies #[trigger] fold_defined(
        data.subrange(i, j),
        selected,
    ) by {
        let sub = data.subrange(i, j);
        assert forall|k: int| 0 <= k < sub.len() implies #[trigger] sub[k].0 <= m by {
            assert(sub[k] == data[i + k]);
        }
        assert(sub.len() * m <= data.len() * m) by (nonlinear_arith)
            requires
                sub.len() <= data.len(),
                m >= 0,
        ;
        lemma_counter_defined(sub, selected, m);
    }
}

/// A sum split by a filter and its negation: what the filter accepts and what it leaves out add
/// up to the sum of all values, as a filtered count of a mechanic log and the one filtered by the
/// negated filter add up to the unfiltered one.
pub proof fn lemma_counter_total_split(data: Seq<Counter>, selected: Seq<bool>)
    requires
        selected.len() == data.len(),
    ensures
        counter_total(data, selected) + counter_total(data, negated(selected)) == counter_total(
            data,
            Seq::new(data.len(), |i: int| true),
        ),
    decreases data.len(),
{
    if data.len() > 0 {
        let n = data.len() as int;
        let rest = data.drop_last();
        let rest_sel = selected.drop_last();
        lemma_counter_total_split(rest, rest_sel);
        lemma_counter_total_agree(rest, selected, rest_sel);
        lemma_counter_total_agree(rest, negated(selected), negated(rest_sel));
        lemma_counter_total_agree(
            rest,
            Seq::new(data.len(), |i: int| true),
            Seq::new(rest.len(), |i: int| true),
        );
    }
}

/// The number of positions that the selection takes.
pub open spec fn accepted(selected: Seq<bool>) -> int
    decreases selected.len(),
{
    if selected.len() == 0 {
        0
    } else {
        accepted(selected.drop_last()) + if selected.last() {
            1int
        } else {
            0
        }
    }
}

/// Occurrences that each count once sum up to the number that the selection takes: a filtered
/// count of a mechanic log is the number of logged occurrences that the filter accepts.
pub proof fn lemma_ones_total(data: Seq<Counter>, selected: Seq<bool>)
    requires
        selected.len() == data.len(),
        forall|i: int| 0 <= i < data.len() ==> #[trigger] data[i] == Counter(1),
    ensures
        counter_total(data, selected) == accepted(selected),
    decreases data.len(),
{
    if data.len() > 0 {
        let rest = data.drop_last();
        assert forall|i: int| 0 <= i < rest.len() implies #[trigger] rest[i] == Counter(1) by {
            assert(rest[i] == data[i]);
        }
        lemma_ones_total(rest, selected.drop_last());
        lemma_counter_total_agree(rest, selected, selected.drop_last());
        assert(data.last() == data[data.len() - 1]);
    }
}

} // verus!
