//! Damage logs: the damage that agents deal to each other over time.
use vstd::prelude::*;

use super::math::{
    combine_commutes, count_at_or_before, count_before, fold_defined, fold_selected, lemma_range_after_insert,
    negated, range_of, Monoid, Ordinal, RecordFunc, Semigroup,
};

verus! {

/// Type of the damage.
#[derive(Clone, Copy, Debug, PartialEq, Eq, Structural)]
pub enum DamageType {
    /// Direct damage.
    Physical,
    /// Damage over time by a condition.
    Condition,
}

/// Meta information about a damage log entry.
#[derive(Clone, Copy, Debug, PartialEq, Eq, Structural)]
pub struct Meta {
    /// The address of the agent that dealt the damage.
    pub source: u64,
    /// The address of the agent that took the damage.
    pub target: u64,
    /// Whether the damage was direct or by a condition.
    pub kind: DamageType,
    /// The skill (or condition) that dealt the damage.
    pub skill: u32,
}

/// A small wrapper that wraps a damage number.
#[derive(Clone, Copy, Debug, PartialEq, Eq, PartialOrd, Ord, Structural)]
pub struct Damage(pub u64);

impl Semigroup for Damage {
    open spec fn spec_combine(self, other: Self) -> Self {
        Damage((self.0 + other.0) as u64)
    }

    open spec fn combinable(self, other: Self) -> bool {
        self.0 + other.0 <= u64::MAX
    }

    fn combine(&self, other: &Self) -> (r: Self) {
        Damage(self.0 + other.0)
    }
}

/// Summing up damage is associative and commutative, so the laws of a [`RecordFunc`] that need
/// this hold of a damage log's records.
pub proof fn lemma_damage_commutes()
    ensures
        combine_commutes::<Damage>(),
{
    reveal(combine_commutes);
    assert forall|a: Damage, b: Damage, c: Damage|
        #[trigger] a.spec_combine(b).spec_combine(c) == a.spec_combine(b.spec_combine(c)) by {
        let (x, y, z) = (a.0, b.0, c.0);
        assert(((x + y) as u64 + z) as u64 == (x + (y + z) as u64) as u64) by (bit_vector);
    }
    assert forall|a: Damage, b: Damage| #[trigger] a.spec_combine(b) == b.spec_combine(a) by {}
}

impl Monoid for Damage {
    open spec fn spec_mempty() -> Self {
        Damage(0)
    }

    fn mempty() -> (r: Self) {
        Damage(0)
    }

    proof fn lemma_mempty_left(x: Self) {
    }

    proof fn lemma_mempty_right(x: Self) {
    }
}

/// Provides access to the damage log.
#[derive(Debug)]
pub struct DamageLog {
    inner: RecordFunc<u64, Meta, Damage>,
}

impl DamageLog {
    /// The entries are in order of time.
    #[verifier::type_invariant]
    pub(crate) open spec fn entries_ordered(self) -> bool {
        self.spec_inner().wf()
    }

    /// The entries of the log, by time.
    pub closed spec fn spec_inner(&self) -> RecordFunc<u64, Meta, Damage> {
        self.inner
    }

    /// Create an empty damage log.
    pub fn new() -> (r: Self)
        ensures
            r.spec_inner().wf(),
            r.spec_inner().points().len() == 0,
    {
        DamageLog { inner: RecordFunc::new() }
    }

    /// Log the damage that `source` dealt to `target` with the skill at the time.
    ///
    /// The entry goes after those at the same or an earlier time.
    pub fn log(
        &mut self,
        time: u64,
        source: u64,
        target: u64,
        kind: DamageType,
        skill: u32,
        value: u64,
    )
        ensures
            final(self).spec_inner().wf(),
            ({
                let p = super::math::count_at_or_before(old(self).spec_inner().points(), time as int);
                &&& final(self).spec_inner().points() == old(self).spec_inner().points().insert(p, time)
                &&& final(self).spec_inner().tags() == old(self).spec_inner().tags().insert(
                    p,
                    Meta { source, target, kind, skill },
                )
                &&& final(self).spec_inner().increments() == old(
                    self,
                ).spec_inner().increments().insert(p, Damage(value))
            }),
            // Every filtered damage sum gains the value where the filter takes the new entry.
            ({
                let p = super::math::count_at_or_before(old(self).spec_inner().points(), time as int);
                forall|selected: Seq<bool>, take: bool|
                    selected.len() == old(self).spec_inner().increments().len()
                        ==> #[trigger] damage_total(
                        final(self).spec_inner().increments(),
                        selected.insert(p, take),
                    ) == damage_total(old(self).spec_inner().increments(), selected) + if take {
                        value as int
                    } else {
                        0
                    }
            }),
    {
        proof {
            use_type_invariant(&*self);
        }
        let ghost before = self.spec_inner();
        let mut inner = RecordFunc::new();
        std::mem::swap(&mut inner, &mut self.inner);
        inner.insert(time, Meta { source, target, kind, skill }, Damage(value));
        self.inner = inner;
        proof {
            let p = count_at_or_before(before.points(), time as int);
            super::math::lemma_count_bounds(before.points(), time as int);
            assert forall|selected: Seq<bool>, take: bool|
                selected.len() == before.increments().len() implies #[trigger] damage_total(
                self.spec_inner().increments(),
                selected.insert(p, take),
            ) == damage_total(before.increments(), selected) + if take {
                value as int
            } else {
                0
            } by {
                lemma_damage_total_insert(before.increments(), selected, p, Damage(value), take);
            }
        }
    }

    /// The damage dealt from `start` up to `stop`, by the entries that the filter accepts.
    pub fn damage_between<F: Fn(&Meta) -> bool>(&self, start: u64, stop: u64, filter: F) -> (r:
        Damage)
        requires
            self.spec_inner().foldable(),
            forall|m: &Meta| filter.requires((m,)),
        ensures
            ({
                let f = self.spec_inner();
                let lo = count_before(f.points(), start as int);
                let hi = if f.count_upto(&stop) >= lo {
                    f.count_upto(&stop)
                } else {
                    lo
                };
                exists|selected: Seq<bool>|
                    {
                        &&& selected.len() == hi - lo
                        &&& forall|i: int|
                            0 <= i < hi - lo ==> filter.ensures(
                                (&f.tags()[lo + i],),
                                #[trigger] selected[i],
                            )
                        &&& r == fold_selected(f.increments().subrange(lo, hi), selected)
                        &&& r.0 == damage_total(f.increments().subrange(lo, hi), selected)
                    }
            }),
    {
        proof {
            use_type_invariant(self);
        }
        let r = self.inner.between_only(&start, &stop, filter);
        proof {
            let f = self.spec_inner();
            let lo = count_before(f.points(), start as int);
            let hi = if f.count_upto(&stop) >= lo {
                f.count_upto(&stop)
            } else {
                lo
            };
            let sel = choose|selected: Seq<bool>|
                {
                    &&& selected.len() == hi - lo
                    &&& forall|i: int|
                        0 <= i < hi - lo ==> filter.ensures(
                            (&f.tags()[lo + i],),
                            #[trigger] selected[i],
                        )
                    &&& r == fold_selected(f.increments().subrange(lo, hi), selected)
                };
            super::math::lemma_count_bounds(f.points(), start as int);
            super::math::lemma_count_bounds(f.points(), stop as int);
            assert(fold_defined(f.increments().subrange(lo, hi), sel));
            lemma_damage_fold_is_total(f.increments().subrange(lo, hi), sel);
        }
        r
    }

    /// The damage dealt by the entries that the filter accepts.
    pub fn damage<F: Fn(&Meta) -> bool>(&self, filter: F) -> (r: Damage)
        requires
            self.spec_inner().foldable(),
            forall|m: &Meta| filter.requires((m,)),
        ensures
            exists|selected: Seq<bool>|
                {
                    &&& selected.len() == self.spec_inner().increments().len()
                    &&& forall|i: int|
                        0 <= i < self.spec_inner().increments().len() ==> filter.ensures(
                            (&self.spec_inner().tags()[i],),
                            #[trigger] selected[i],
                        )
                    &&& r == fold_selected(self.spec_inner().increments(), selected)
                    &&& r.0 == damage_total(self.spec_inner().increments(), selected)
                },
    {
        proof {
            use_type_invariant(self);
        }
        let r = self.inner.tally_only(filter);
        proof {
            let incs = self.spec_inner().increments();
            let sel = choose|selected: Seq<bool>|
                {
                    &&& selected.len() == incs.len()
                    &&& forall|i: int|
                        0 <= i < incs.len() ==> filter.ensures(
                            (&self.spec_inner().tags()[i],),
                            #[trigger] selected[i],
                        )
                    &&& r == fold_selected(incs, selected)
                };
            assert(incs.subrange(0, incs.len() as int) == incs);
            assert(fold_defined(incs.subrange(0, incs.len() as int), sel));
            lemma_damage_fold_is_total(incs, sel);
        }
        r
    }
}

/// The sum of the selected damage values, as an integer.
pub open spec fn damage_total(data: Seq<Damage>, selected: Seq<bool>) -> int
    decreases data.len(),
{
    if data.len() == 0 {
        0
    } else {
        damage_total(data.drop_last(), selected) + if selected[data.len() - 1] {
            data.last().0 as int
        } else {
            0
        }
    }
}

/// Sums over the same values with selections that agree on them are the same.
proof fn lemma_damage_total_agree(data: Seq<Damage>, s1: Seq<bool>, s2: Seq<bool>)
    requires
        forall|i: int| 0 <= i < data.len() ==> s1[i] == s2[i],
    ensures
        damage_total(data, s1) == damage_total(data, s2),
    decreases data.len(),
{
    if data.len() > 0 {
        lemma_damage_total_agree(data.drop_last(), s1, s2);
    }
}

/// Where the fold of the selected damage values is defined, it is their integer sum.
pub proof fn lemma_damage_fold_is_total(data: Seq<Damage>, selected: Seq<bool>)
    requires
        fold_defined(data, selected),
    ensures
        fold_selected(data, selected).0 == damage_total(data, selected),
    decreases data.len(),
{
    if data.len() > 0 {
        lemma_damage_fold_is_total(data.drop_last(), selected);
    }
}

/// An entry inserted anywhere adds its value to every sum whose selection takes it, and nothing
/// to the others: what a filtered damage sum of a damage log after `DamageLog::log` is what it was before, plus the new entry's value
/// where the filter accepts it.
pub proof fn lemma_damage_total_insert(data: Seq<Damage>, selected: Seq<bool>, p: int, x: Damage, take: bool)
    requires
        0 <= p <= data.len(),
        selected.len() == data.len(),
    ensures
        damage_total(data.insert(p, x), selected.insert(p, take)) == damage_total(data, selected) + if take {
            x.0 as int
        } else {
            0
        },
    decreases data.len(),
{
    let n = data.len() as int;
    let big = data.insert(p, x);
    let sel = selected.insert(p, take);
    if p == n {
        assert(big.drop_last() == data);
        assert forall|i: int| 0 <= i < n implies sel[i] == selected[i] by {}
        lemma_damage_total_agree(data, sel, selected);
    } else {
        let rest = data.drop_last();
        let rest_sel = selected.drop_last();
        lemma_damage_total_insert(rest, rest_sel, p, x, take);
        assert(big.drop_last() == rest.insert(p, x));
        assert(big.last() == data.last());
        assert(sel[n] == selected[n - 1]);
        assert forall|i: int| 0 <= i < n implies #[trigger] sel[i] == rest_sel.insert(p, take)[i] by {}
        lemma_damage_total_agree(rest.insert(p, x), sel, rest_sel.insert(p, take));
        assert forall|i: int| 0 <= i < n - 1 implies #[trigger] selected[i] == rest_sel[i] by {}
        lemma_damage_total_agree(rest, selected, rest_sel);
    }
}

/// A sum of selected values, none above `m`, is at most `m` times their number.
proof fn lemma_damage_total_bounded(data: Seq<Damage>, selected: Seq<bool>, m: u64)
    requires
        forall|i: int| 0 <= i < data.len() ==> #[trigger] data[i].0 <= m,
    ensures
        0 <= damage_total(data, selected) <= data.len() * m,
    decreases data.len(),
{
    if data.len() > 0 {
        let n = data.len() as int;
        assert forall|i: int| 0 <= i < n - 1 implies #[trigger] data.drop_last()[i].0 <= m by {
            assert(data.drop_last()[i] == data[i]);
        }
        lemma_damage_total_bounded(data.drop_last(), selected, m);
        assert(data.last().0 <= m) by {
            assert(data[n - 1].0 <= m);
        }
        assert((n - 1) * m + m == n * m) by (nonlinear_arith);
    }
}

/// The values, none above `m`, with `m` times their number fitting, fold without overflow.
proof fn lemma_damage_defined(data: Seq<Damage>, selected: Seq<bool>, m: u64)
    requires
        forall|i: int| 0 <= i < data.len() ==> #[trigger] data[i].0 <= m,
        data.len() * m <= u64::MAX,
    ensures
        fold_defined(data, selected),
    decreases data.len(),
{
    if data.len() > 0 {
        let n = data.len() as int;
        let rest = data.drop_last();
        assert forall|i: int| 0 <= i < n - 1 implies #[trigger] rest[i].0 <= m by {
            assert(rest[i] == data[i]);
        }
        assert((n - 1) * m <= n * m) by (nonlinear_arith)
            requires
                n >= 1,
                m >= 0,
        ;
        lemma_damage_defined(rest, selected, m);
        lemma_damage_fold_is_total(rest, selected);
        lemma_damage_total_bounded(rest, selected, m);
        assert(data.last().0 <= m) by {
            assert(data[n - 1].0 <= m);
        }
        assert((n - 1) * m + m == n * m) by (nonlinear_arith);
    }
}

/// Values none of which is above `m`, with `m` times their number fitting, can be summed up without
/// overflow however they are cut and filtered: a damage log whose entries are so bounded is
/// [foldable](RecordFunc::foldable).
pub proof fn lemma_damage_foldable(data: Seq<Damage>, m: u64)
    requires
        forall|i: int| 0 <= i < data.len() ==> #[trigger] data[i].0 <= m,
        data.len() * m <= u64::MAX,
    ensures
        forall|i: int, j: int, selected: Seq<bool>|
            0 <= i <= j <= data.len() ==> #[trigger] fold_defined(data.subrange(i, j), selected),
{
    assert forall|i: int, j: int, selected: Seq<bool>| 0 <= i <= j <= data.len() implies #[trigger] fold_defined(
        data.subrange(i, j),
        selected,
    ) by {
        let sub = data.subrange(i, j);
        assert forall|k: int| 0 <= k < sub.len() implies #[trigger] sub[k].0 <= m by {
            assert(sub[k] == data[i + k]);
        }
        assert(sub.len() * m <= data.len() * m) by (nonlinear_arith)
            requires
                sub.len() <= data.len(),
                m >= 0,
        ;
        lemma_damage_defined(sub, selected, m);
    }
}

/// A sum split by a filter and its negation: what the filter accepts and what it leaves out add
/// up to the sum of all values, as a filtered damage sum of a damage log and the one filtered by the
/// negated filter add up to the unfiltered one.
pub proof fn lemma_damage_total_split(data: Seq<Damage>, selected: Seq<bool>)
    requires
        selected.len() == data.len(),
    ensures
        damage_total(data, selected) + damage_total(data, negated(selected)) == damage_total(
            data,
            Seq::new(data.len(), |i: int| true),
        ),
    decreases data.len(),
{
    if data.len() > 0 {
        let n = data.len() as int;
        let rest = data.drop_last();
        let rest_sel = selected.drop_last();
        lemma_damage_total_split(rest, rest_sel);
        lemma_damage_total_agree(rest, selected, rest_sel);
        lemma_damage_total_agree(rest, negated(selected), negated(rest_sel));
        lemma_damage_total_agree(
            rest,
            Seq::new(data.len(), |i: int| true),
            Seq::new(rest.len(), |i: int| true),
        );
    }
}

/// Every recorded time lies between 0 and `u64::MAX`: the entries from 0 up to `u64::MAX` are all
/// entries of a damage log, so [`DamageLog::damage_between`] from 0 to `u64::MAX` sums up the same
/// entries as [`DamageLog::damage`], with a filter that decides each entry alike.
pub proof fn lemma_damage_whole_range(f: RecordFunc<u64, Meta, Damage>)
    requires
        f.wf(),
    ensures
        count_before(f.points(), 0) == 0,
        f.count_upto(&u64::MAX) == f.increments().len(),
        f.increments().subrange(0, f.increments().len() as int) == f.increments(),
{
    lemma_ranks_within(f.points());
    assert(f.increments().subrange(0, f.increments().len() as int) == f.increments());
}

/// The counts of points before 0 and at or before `u64::MAX`.
proof fn lemma_ranks_within(points: Seq<u64>)
    ensures
        count_before(points, 0) == 0,
        count_at_or_before(points, u64::MAX as int) == points.len(),
    decreases points.len(),
{
    if points.len() > 0 {
        lemma_ranks_within(points.drop_last());
    }
}

/// What [`DamageLog::damage_between`] sums up after [`DamageLog::log`]: where the new entry's time
/// lies in the range, every filtered sum over the range gains its value if the filter takes it;
/// elsewhere the sum over the range is what it was, entry for entry.
pub proof fn lemma_damage_between_after_log(
    before: RecordFunc<u64, Meta, Damage>,
    after: RecordFunc<u64, Meta, Damage>,
    time: u64,
    meta: Meta,
    value: u64,
    start: u64,
    stop: u64,
    selected: Seq<bool>,
    take: bool,
)
    requires
        before.wf(),
        after.points() == before.points().insert(count_at_or_before(before.points(), time as int), time),
        after.tags() == before.tags().insert(count_at_or_before(before.points(), time as int), meta),
        after.increments() == before.increments().insert(
            count_at_or_before(before.points(), time as int),
            Damage(value),
        ),
        selected.len() == range_of(before.points(), start as int, stop as int).1 - range_of(
            before.points(),
            start as int,
            stop as int,
        ).0,
    ensures
        ({
            let (lo, hi) = range_of(before.points(), start as int, stop as int);
            let (lo2, hi2) = range_of(after.points(), start as int, stop as int);
            let p = count_at_or_before(before.points(), time as int);
            &&& start <= time <= stop ==> after.tags().subrange(lo2, hi2) == before.tags().subrange(
                lo,
                hi,
            ).insert(p - lo, meta)
            &&& start <= time <= stop ==> damage_total(
                after.increments().subrange(lo2, hi2),
                selected.insert(p - lo, take),
            ) == damage_total(before.increments().subrange(lo, hi), selected) + if take {
                value as int
            } else {
                0
            }
            &&& !(start <= time <= stop) ==> after.tags().subrange(lo2, hi2) == before.tags().subrange(lo, hi)
            &&& !(start <= time <= stop) ==> damage_total(after.increments().subrange(lo2, hi2), selected)
                == damage_total(before.increments().subrange(lo, hi), selected)
        }),
{
    lemma_range_after_insert(before, after, time, meta, Damage(value), start, stop);
    let (lo, hi) = range_of(before.points(), start as int, stop as int);
    let p = count_at_or_before(before.points(), time as int);
    if start <= time && time <= stop {
        lemma_damage_total_insert(before.increments().subrange(lo, hi), selected, p - lo, Damage(value), take);
    }
}

} // verus!
