//! This module provides some basic mathematical structures.
use vstd::prelude::*;

verus! {

/// A semigroup.
///
/// This trait lets you combine elements by a binary operation.
pub trait Semigroup: Sized {
    /// The result of combining two elements.
    spec fn spec_combine(self, other: Self) -> Self;

    /// The two elements can be combined: the operation does not overflow.
    spec fn combinable(self, other: Self) -> bool;

    /// Combine this element with another.
    fn combine(&self, other: &Self) -> (r: Self)
        requires
            self.combinable(*other),
        ensures
            r == self.spec_combine(*other),
    ;
}

/// A monoid.
///
/// Extends the semigroup with a "neutral" element.
///
/// # Laws
///
/// ```raw
/// mempty.combine(x) == x
/// x.combine(mempty) == x
/// ```
///
/// Every implementation proves them.
pub trait Monoid: Semigroup {
    /// The neutral element.
    spec fn spec_mempty() -> Self;

    /// The neutral element.
    fn mempty() -> (r: Self)
        ensures
            r == Self::spec_mempty(),
    ;

    /// Combining the neutral element with an element gives that element.
    proof fn lemma_mempty_left(x: Self)
        ensures
            Self::spec_mempty().combinable(x),
            Self::spec_mempty().spec_combine(x) == x,
    ;

    /// Combining an element with the neutral element gives that element.
    proof fn lemma_mempty_right(x: Self)
        ensures
            x.combinable(Self::spec_mempty()),
            x.spec_combine(Self::spec_mempty()) == x,
    ;
}

/// A point of the domain of a [`RecordFunc`]: totally ordered by its rank.
pub trait Ordinal: Sized {
    /// The position of the point in the order.
    spec fn rank(&self) -> int;

    /// This point comes strictly before the other one.
    fn precedes(&self, other: &Self) -> (r: bool)
        ensures
            r == (self.rank() < other.rank()),
    ;
}

impl Ordinal for u64 {
    open spec fn rank(&self) -> int {
        *self as int
    }

    fn precedes(&self, other: &Self) -> (r: bool) {
        *self < *other
    }
}

impl Ordinal for u32 {
    open spec fn rank(&self) -> int {
        *self as int
    }

    fn precedes(&self, other: &Self) -> (r: bool) {
        *self < *other
    }
}

impl Ordinal for u16 {
    open spec fn rank(&self) -> int {
        *self as int
    }

    fn precedes(&self, other: &Self) -> (r: bool) {
        *self < *other
    }
}

/// The combination of the data at the selected positions, in order, starting from the neutral
/// element.
pub open spec fn fold_selected<D: Monoid>(data: Seq<D>, selected: Seq<bool>) -> D
    decreases data.len(),
{
    if data.len() == 0 {
        D::spec_mempty()
    } else {
        let acc = fold_selected(data.drop_last(), selected);
        if selected[data.len() - 1] {
            acc.spec_combine(data.last())
        } else {
            acc
        }
    }
}

/// Every step of [`fold_selected`] can be taken without overflow.
pub open spec fn fold_defined<D: Monoid>(data: Seq<D>, selected: Seq<bool>) -> bool
    decreases data.len(),
{
    data.len() == 0 || (fold_defined(data.drop_last(), selected) && (selected[data.len() - 1]
        ==> fold_selected(data.drop_last(), selected).combinable(data.last())))
}

/// The selection that takes every position.
pub open spec fn select_all(n: nat) -> Seq<bool> {
    Seq::new(n, |i: int| true)
}

#[derive(Debug, Clone)]
struct Record<X, T, D> {
    x: X,
    tag: T,
    data: D,
}

/// A function that records tagged data points.
///
/// This represents a "function" as a list of increases at soem discrete points.
/// Think about it as a generalized damage log. Increases can be tagged by some
/// arbitrary data, for example which the agent ID, the skill ID, the target,
/// ...
///
/// This offers methods to get the value at a specific point (by "summing up"
/// all increments before that point), between two points and in total. It also
/// offers variants that allow you to filter the increments by their tag.
///
/// Type parameters:
///
/// * `X` domain of the function. Must have a defined [order](Ordinal).
/// * `T` tag for each data point. Can be arbitrary.
/// * `D` actual data. Must be [`Monoid`](trait.Monoid.html), so that it can be
///   summed up.
#[derive(Debug, Clone)]
pub struct RecordFunc<X, T, D> {
    data: Vec<Record<X, T, D>>,
}

impl<X: Ordinal, T, D: Monoid> RecordFunc<X, T, D> {
    /// The points of the increments, in order.
    pub closed spec fn points(&self) -> Seq<X> {
        self.data@.map_values(|r: Record<X, T, D>| r.x)
    }

    /// The tags of the increments, in order.
    pub closed spec fn tags(&self) -> Seq<T> {
        self.data@.map_values(|r: Record<X, T, D>| r.tag)
    }

    /// The increments, in order.
    pub closed spec fn increments(&self) -> Seq<D> {
        self.data@.map_values(|r: Record<X, T, D>| r.data)
    }

    /// The increments are in ascending order of their points.
    pub open spec fn wf(&self) -> bool {
        &&& self.tags().len() == self.points().len()
        &&& self.increments().len() == self.points().len()
        &&& forall|i: int, j: int|
            0 <= i <= j < self.points().len() ==> self.points()[i].rank()
                <= self.points()[j].rank()
    }

    /// Every run of consecutive increments can be summed up without overflow, whatever is left
    /// out of it.
    pub open spec fn foldable(&self) -> bool {
        forall|i: int, j: int, selected: Seq<bool>|
            0 <= i <= j <= self.increments().len() ==> #[trigger] fold_defined(
                self.increments().subrange(i, j),
                selected,
            )
    }

    /// The number of increments at or before the point.
    pub open spec fn count_upto(&self, x: &X) -> int
        decreases self.points().len(),
    {
        count_at_or_before(self.points(), x.rank())
    }

    /// The value at a point: the sum of the increments at or before it.
    pub open spec fn value_at(&self, x: &X) -> D {
        fold_selected(self.increments().take(self.count_upto(x)), select_all(self.count_upto(x) as nat))
    }

    /// The sum of all increments.
    pub open spec fn total_value(&self) -> D {
        fold_selected(self.increments(), select_all(self.increments().len()))
    }

    /// Create a new `RecordFunc`.
    pub fn new() -> (r: Self)
        ensures
            r.wf(),
            r.points().len() == 0,
    {
        RecordFunc { data: Vec::new() }
    }

    /// Insert a data point into the record func.
    ///
    /// Note that you should supply the *increment*, not the *absolute value*!
    ///
    /// The increment goes after those at points before or equal to its own.
    #[verifier::rlimit(40)]
    pub fn insert(&mut self, x: X, tag: T, data: D)
        requires
            old(self).wf(),
        ensures
            final(self).wf(),
            ({
                let p = count_at_or_before(old(self).points(), x.rank());
                &&& final(self).points() == old(self).points().insert(p, x)
                &&& final(self).tags() == old(self).tags().insert(p, tag)
                &&& final(self).increments() == old(self).increments().insert(p, data)
            }),
    {
        let ghost points = self.points();
        let ghost tags = self.tags();
        let ghost increments = self.increments();
        let ghost rank = x.rank();
        // Usually, the list will be built up in order, which means we can always append to the
        // end: the search below starts there.
        let mut p: usize = self.data.len();
        while p > 0 && x.precedes(&self.data[p - 1].x)
            invariant
                p <= points.len(),
                points == self.points(),
                self.wf(),
                rank == x.rank(),
                forall|j: int| p <= j < points.len() ==> points[j].rank() > rank,
            decreases p,
        {
            p -= 1;
        }
        proof {
            lemma_count_at_or_before(points, rank, p as int);
            points.insert_ensures(p as int, x);
            tags.insert_ensures(p as int, tag);
            increments.insert_ensures(p as int, data);
        }
        self.data.insert(p, Record { x, tag, data });
        proof {
            assert(self.points() =~= points.insert(p as int, x));
            assert(self.tags() =~= tags.insert(p as int, tag));
            assert(self.increments() =~= increments.insert(p as int, data));
            lemma_insert_ordered(points, p as int, x);
        }
    }

    /// Get the amount of data points saved.
    pub fn len(&self) -> (r: usize)
        ensures
            r == self.points().len(),
    {
        self.data.len()
    }

    /// The combination of the increments at positions `lo` up to `hi` whose tags the predicate
    /// accepts, in order.
    fn fold_only<F: Fn(&T) -> bool>(&self, lo: usize, hi: usize, predicate: &F) -> (r: D)
        requires
            self.wf(),
            self.foldable(),
            lo <= hi <= self.points().len(),
            forall|t: &T| predicate.requires((t,)),
        ensures
            exists|selected: Seq<bool>|
                {
                    &&& selected.len() == hi - lo
                    &&& forall|i: int|
                        0 <= i < hi - lo ==> predicate.ensures(
                            (&self.tags()[lo + i],),
                            #[trigger] selected[i],
                        )
                    &&& r == fold_selected(self.increments().subrange(lo as int, hi as int), selected)
                },
    {
        let ghost increments = self.increments();
        let ghost tags = self.tags();
        let mut acc = D::mempty();
        let ghost mut selected: Seq<bool> = Seq::empty();
        let mut i: usize = lo;
        while i < hi
            invariant
                lo <= i <= hi <= self.points().len(),
                self.wf(),
                self.foldable(),
                increments == self.increments(),
                tags == self.tags(),
                forall|t: &T| predicate.requires((t,)),
                selected.len() == i - lo,
                forall|k: int|
                    0 <= k < i - lo ==> predicate.ensures((&tags[lo + k],), #[trigger] selected[k]),
                acc == fold_selected(increments.subrange(lo as int, i as int), selected),
            decreases hi - i,
        {
            let b = predicate(&self.data[i].tag);
            assert(tags[i as int] == self.data@[i as int].tag);
            let ghost next = selected.push(b);
            proof {
                let part = increments.subrange(lo as int, i + 1);
                assert(part.drop_last() == increments.subrange(lo as int, i as int));
                assert(part.last() == self.data@[i as int].data);
                lemma_fold_selected_prefix(part.drop_last(), selected, next);
                assert(fold_defined(part, next));
            }
            if b {
                acc = acc.combine(&self.data[i].data);
            }
            proof {
                selected = next;
            }
            i += 1;
        }
        acc
    }

    /// The number of increments at or before the point, counted from the first.
    fn count_upto_exec(&self, x: &X) -> (r: usize)
        requires
            self.wf(),
        ensures
            r == self.count_upto(x),
            r <= self.points().len(),
    {
        let ghost points = self.points();
        let mut n: usize = 0;
        while n < self.data.len() && !x.precedes(&self.data[n].x)
            invariant
                n <= points.len(),
                points == self.points(),
                self.wf(),
                forall|j: int| 0 <= j < n ==> points[j].rank() <= x.rank(),
            decreases points.len() - n,
        {
            assert(points[n as int] == self.data@[n as int].x);
            n += 1;
        }
        proof {
            if n < points.len() {
                assert(points[n as int] == self.data@[n as int].x);
            }
            assert forall|j: int| n <= j < points.len() implies points[j].rank() > x.rank() by {
                assert(points[n as int].rank() <= points[j].rank());
            }
            lemma_count_at_or_before(points, x.rank(), n as int);
        }
        n
    }

    /// The number of increments before the point, counted from the first.
    fn count_before_exec(&self, x: &X) -> (r: usize)
        requires
            self.wf(),
        ensures
            r == count_before(self.points(), x.rank()),
            r <= self.points().len(),
    {
        let ghost points = self.points();
        let mut n: usize = 0;
        while n < self.data.len() && self.data[n].x.precedes(x)
            invariant
                n <= points.len(),
                points == self.points(),
                self.wf(),
                forall|j: int| 0 <= j < n ==> points[j].rank() < x.rank(),
            decreases points.len() - n,
        {
            assert(points[n as int] == self.data@[n as int].x);
            n += 1;
        }
        proof {
            if n < points.len() {
                assert(points[n as int] == self.data@[n as int].x);
            }
            assert forall|j: int| n <= j < points.len() implies points[j].rank() >= x.rank() by {
                assert(points[n as int].rank() <= points[j].rank());
            }
            lemma_count_before(points, x.rank(), n as int);
        }
        n
    }

    /// Get the absolute value at the specific point: the sum of the increments at or before it.
    pub fn get(&self, x: &X) -> (r: D)
        requires
            self.wf(),
            self.foldable(),
        ensures
            r == self.value_at(x),
    {
        let n = self.count_upto_exec(x);
        let all = |_t: &T| -> (b: bool)
            ensures
                b,
            { true };
        let r = self.fold_only(0, n, &all);
        proof {
            let selected = choose|selected: Seq<bool>|
                {
                    &&& selected.len() == n - 0
                    &&& forall|i: int|
                        0 <= i < n - 0 ==> all.ensures(
                            (&self.tags()[0 + i],),
                            #[trigger] selected[i],
                        )
                    &&& r == fold_selected(self.increments().subrange(0, n as int), selected)
                };
            assert(self.increments().subrange(0, n as int) == self.increments().take(n as int));
            assert forall|i: int| 0 <= i < n implies selected[i] == select_all(n as nat)[i] by {
                assert(all.ensures((&self.tags()[0 + i],), selected[i]));
            }
            lemma_fold_selected_prefix(
                self.increments().take(n as int),
                selected,
                select_all(n as nat),
            );
        }
        r
    }

    /// Get the absolute value at the specific point by only considering increments where the
    /// predicate holds: the sum of the increments at or before it whose tags it accepts.
    pub fn get_only<F: Fn(&T) -> bool>(&self, x: &X, predicate: F) -> (r: D)
        requires
            self.wf(),
            self.foldable(),
            forall|t: &T| predicate.requires((t,)),
        ensures
            exists|selected: Seq<bool>|
                {
                    &&& selected.len() == self.count_upto(x)
                    &&& forall|i: int|
                        0 <= i < self.count_upto(x) ==> predicate.ensures(
                            (&self.tags()[i],),
                            #[trigger] selected[i],
                        )
                    &&& r == fold_selected(self.increments().take(self.count_upto(x)), selected)
                },
    {
        let n = self.count_upto_exec(x);
        let r = self.fold_only(0, n, &predicate);
        assert(self.increments().subrange(0, n as int) == self.increments().take(n as int));
        r
    }

    /// Get the increments between the two given points: the sum of those at points from `a` up
    /// to `b`.
    pub fn between(&self, a: &X, b: &X) -> (r: D)
        requires
            self.wf(),
            self.foldable(),
        ensures
            ({
                let lo = count_before(self.points(), a.rank());
                let hi = if self.count_upto(b) >= lo {
                    self.count_upto(b)
                } else {
                    lo
                };
                r == fold_selected(
                    self.increments().subrange(lo, hi),
                    select_all((hi - lo) as nat),
                )
            }),
    {
        let lo = self.count_before_exec(a);
        let upto = self.count_upto_exec(b);
        let hi = if upto >= lo {
            upto
        } else {
            lo
        };
        let all = |_t: &T| -> (b: bool)
            ensures
                b,
            { true };
        let r = self.fold_only(lo, hi, &all);
        proof {
            let selected = choose|selected: Seq<bool>|
                {
                    &&& selected.len() == hi - lo
                    &&& forall|i: int|
                        0 <= i < hi - lo ==> all.ensures(
                            (&self.tags()[lo + i],),
                            #[trigger] selected[i],
                        )
                    &&& r == fold_selected(
                        self.increments().subrange(lo as int, hi as int),
                        selected,
                    )
                };
            assert forall|i: int| 0 <= i < hi - lo implies selected[i] == select_all(
                (hi - lo) as nat,
            )[i] by {
                assert(all.ensures((&self.tags()[lo + i],), selected[i]));
            }
            lemma_fold_selected_prefix(
                self.increments().subrange(lo as int, hi as int),
                selected,
                select_all((hi - lo) as nat),
            );
        }
        r
    }

    /// Get the increments between the two given points by only considering increments where the
    /// predicate holds: the sum of those at points from `a` up to `b` whose tags it accepts.
    pub fn between_only<F: Fn(&T) -> bool>(&self, a: &X, b: &X, predicate: F) -> (r: D)
        requires
            self.wf(),
            self.foldable(),
            forall|t: &T| predicate.requires((t,)),
        ensures
            ({
                let lo = count_before(self.points(), a.rank());
                let hi = if self.count_upto(b) >= lo {
                    self.count_upto(b)
                } else {
                    lo
                };
                exists|selected: Seq<bool>|
                    {
                        &&& selected.len() == hi - lo
                        &&& forall|i: int|
                            0 <= i < hi - lo ==> predicate.ensures(
                                (&self.tags()[lo + i],),
                                #[trigger] selected[i],
                            )
                        &&& r == fold_selected(self.increments().subrange(lo, hi), selected)
                    }
            }),
    {
        let lo = self.count_before_exec(a);
        let upto = self.count_upto_exec(b);
        let hi = if upto >= lo {
            upto
        } else {
            lo
        };
        self.fold_only(lo, hi, &predicate)
    }

    /// Get the sum of all increments.
    pub fn tally(&self) -> (r: D)
        requires
            self.wf(),
            self.foldable(),
        ensures
            r == self.total_value(),
    {
        let n = self.data.len();
        assert(n == self.points().len());
        let all = |_t: &T| -> (b: bool)
            ensures
                b,
            { true };
        let r = self.fold_only(0, n, &all);
        proof {
            let selected = choose|selected: Seq<bool>|
                {
                    &&& selected.len() == n - 0
                    &&& forall|i: int|
                        0 <= i < n - 0 ==> all.ensures(
                            (&self.tags()[0 + i],),
                            #[trigger] selected[i],
                        )
                    &&& r == fold_selected(self.increments().subrange(0, n as int), selected)
                };
            assert(self.increments().subrange(0, n as int) == self.increments());
            assert forall|i: int| 0 <= i < n implies selected[i] == select_all(
                self.increments().len(),
            )[i] by {
                assert(all.ensures((&self.tags()[0 + i],), selected[i]));
            }
            lemma_fold_selected_prefix(
                self.increments(),
                selected,
                select_all(self.increments().len()),
            );
        }
        r
    }

    /// Get the sum of all increments by only considering increments where the predicate holds.
    pub fn tally_only<F: Fn(&T) -> bool>(&self, predicate: F) -> (r: D)
        requires
            self.wf(),
            self.foldable(),
            forall|t: &T| predicate.requires((t,)),
        ensures
            exists|selected: Seq<bool>|
                {
                    &&& selected.len() == self.increments().len()
                    &&& forall|i: int|
                        0 <= i < self.increments().len() ==> predicate.ensures(
                            (&self.tags()[i],),
                            #[trigger] selected[i],
                        )
                    &&& r == fold_selected(self.increments(), selected)
                },
    {
        let n = self.data.len();
        assert(n == self.points().len());
        let r = self.fold_only(0, n, &predicate);
        assert(self.increments().subrange(0, n as int) == self.increments());
        r
    }
}

/// Inserting a point after those at or before it and before those after it keeps the points in
/// ascending order.
proof fn lemma_insert_ordered<X: Ordinal>(points: Seq<X>, p: int, x: X)
    requires
        0 <= p <= points.len(),
        forall|i: int, j: int| 0 <= i <= j < points.len() ==> points[i].rank() <= points[j].rank(),
        p == 0 || points[p - 1].rank() <= x.rank(),
        forall|j: int| p <= j < points.len() ==> points[j].rank() > x.rank(),
    ensures
        forall|i: int, j: int|
            0 <= i <= j < points.insert(p, x).len() ==> points.insert(p, x)[i].rank() <= points.insert(
                p,
                x,
            )[j].rank(),
{
    let q = points.insert(p, x);
    assert forall|i: int, j: int| 0 <= i <= j < q.len() implies q[i].rank() <= q[j].rank() by {
        if i < p && j < p {
            assert(q[i] == points[i] && q[j] == points[j]);
        } else if i < p && j == p {
            assert(q[i] == points[i]);
            assert(points[i].rank() <= points[p - 1].rank());
        } else if i < p {
            assert(q[i] == points[i] && q[j] == points[j - 1]);
        } else if i == p && j > p {
            assert(q[j] == points[j - 1]);
        } else if i > p {
            assert(q[i] == points[i - 1] && q[j] == points[j - 1]);
        }
    }
}

/// At a point no earlier than every recorded point, the value of a record is its sum of all
/// increments: what [`RecordFunc::get`] gives there is what [`RecordFunc::tally`] gives. A new
/// record sums up to the neutral element.
pub proof fn lemma_get_past_last<X: Ordinal, T, D: Monoid>(f: RecordFunc<X, T, D>, x: X)
    requires
        f.wf(),
        forall|i: int| 0 <= i < f.points().len() ==> #[trigger] f.points()[i].rank() <= x.rank(),
    ensures
        f.count_upto(&x) == f.increments().len(),
        f.value_at(&x) == f.total_value(),
        f.increments().len() == 0 ==> f.total_value() == D::spec_mempty(),
{
    let n = f.points().len() as int;
    lemma_count_at_or_before(f.points(), x.rank(), n);
    assert(f.increments().take(n) == f.increments());
}

/// Between two points that enclose every recorded point, a record's increments are all of them:
/// what [`RecordFunc::between`] and [`RecordFunc::between_only`] give there is what
/// [`RecordFunc::tally`] and [`RecordFunc::tally_only`] give.
pub proof fn lemma_between_whole<X: Ordinal, T, D: Monoid>(f: RecordFunc<X, T, D>, a: X, b: X)
    requires
        f.wf(),
        forall|i: int|
            0 <= i < f.points().len() ==> a.rank() <= #[trigger] f.points()[i].rank() <= b.rank(),
    ensures
        count_before(f.points(), a.rank()) == 0,
        f.count_upto(&b) == f.increments().len(),
        f.increments().subrange(0, f.increments().len() as int) == f.increments(),
{
    let n = f.points().len() as int;
    lemma_count_before(f.points(), a.rank(), 0);
    lemma_count_at_or_before(f.points(), b.rank(), n);
    assert(f.increments().subrange(0, n) == f.increments());
}

/// A filter that accepts every increment sums up to what [`RecordFunc::tally`] gives; one that
/// accepts none sums up to the neutral element.
pub proof fn lemma_fold_all_or_none<D: Monoid>(data: Seq<D>, selected: Seq<bool>)
    ensures
        (forall|i: int| 0 <= i < data.len() ==> #[trigger] selected[i]) ==> fold_selected(
            data,
            selected,
        ) == fold_selected(data, select_all(data.len())),
        (forall|i: int| 0 <= i < data.len() ==> !#[trigger] selected[i]) ==> fold_selected(
            data,
            selected,
        ) == D::spec_mempty(),
    decreases data.len(),
{
    if forall|i: int| 0 <= i < data.len() ==> #[trigger] selected[i] {
        lemma_fold_selected_prefix(data, selected, select_all(data.len()));
    }
    if data.len() > 0 {
        lemma_fold_all_or_none(data.drop_last(), selected);
        if forall|i: int| 0 <= i < data.len() ==> !#[trigger] selected[i] {
            assert(!selected[data.len() - 1]);
            assert forall|i: int| 0 <= i < data.drop_last().len() implies !#[trigger] selected[i] by {
                assert(!selected[i]);
            }
        }
    }
}

/// Folds over the same data with selections that agree on it give the same result.
pub proof fn lemma_fold_selected_prefix<D: Monoid>(data: Seq<D>, s1: Seq<bool>, s2: Seq<bool>)
    requires
        forall|i: int| 0 <= i < data.len() ==> s1[i] == s2[i],
    ensures
        fold_selected(data, s1) == fold_selected(data, s2),
        fold_defined(data, s1) == fold_defined(data, s2),
    decreases data.len(),
{
    if data.len() > 0 {
        lemma_fold_selected_prefix(data.drop_last(), s1, s2);
    }
}

/// The number of points before the rank, in points in ascending order.
pub open spec fn count_before<X: Ordinal>(points: Seq<X>, rank: int) -> int
    decreases points.len(),
{
    if points.len() == 0 {
        0
    } else if points.last().rank() < rank {
        points.len() as int
    } else {
        count_before(points.drop_last(), rank)
    }
}

proof fn lemma_count_before<X: Ordinal>(points: Seq<X>, rank: int, p: int)
    requires
        0 <= p <= points.len(),
        p == 0 || points[p - 1].rank() < rank,
        forall|j: int| p <= j < points.len() ==> points[j].rank() >= rank,
    ensures
        count_before(points, rank) == p,
    decreases points.len(),
{
    if points.len() > p {
        let rest = points.drop_last();
        if p > 0 {
            assert(rest[p - 1] == points[p - 1]);
        }
        assert forall|j: int| p <= j < rest.len() implies rest[j].rank() >= rank by {
            assert(rest[j] == points[j]);
        }
        lemma_count_before(rest, rank, p);
    }
}

/// Both counts of points lie between 0 and the number of points.
pub proof fn lemma_count_bounds<X: Ordinal>(points: Seq<X>, rank: int)
    ensures
        0 <= count_before(points, rank) <= points.len(),
        0 <= count_at_or_before(points, rank) <= points.len(),
    decreases points.len(),
{
    if points.len() > 0 {
        lemma_count_bounds(points.drop_last(), rank);
    }
}

/// The number of points at or before the rank, in points in ascending order.
pub open spec fn count_at_or_before<X: Ordinal>(points: Seq<X>, rank: int) -> int
    decreases points.len(),
{
    if points.len() == 0 {
        0
    } else if points.last().rank() <= rank {
        points.len() as int
    } else {
        count_at_or_before(points.drop_last(), rank)
    }
}

proof fn lemma_count_at_or_before<X: Ordinal>(points: Seq<X>, rank: int, p: int)
    requires
        0 <= p <= points.len(),
        p == 0 || points[p - 1].rank() <= rank,
        forall|j: int| p <= j < points.len() ==> points[j].rank() > rank,
    ensures
        count_at_or_before(points, rank) == p,
    decreases points.len(),
{
    if points.len() > p {
        let rest = points.drop_last();
        if p > 0 {
            assert(rest[p - 1] == points[p - 1]);
        }
        assert forall|j: int| p <= j < rest.len() implies rest[j].rank() > rank by {
            assert(rest[j] == points[j]);
        }
        lemma_count_at_or_before(rest, rank, p);
    }
}

/// The selection that takes exactly what the given one leaves out.
pub open spec fn negated(selected: Seq<bool>) -> Seq<bool> {
    Seq::new(selected.len(), |i: int| !selected[i])
}

/// Combining is associative and commutative: the order in which increments are summed up does not
/// matter.
#[verifier::opaque]
pub open spec fn combine_commutes<D: Semigroup>() -> bool {
    &&& forall|a: D, b: D, c: D| #[trigger] a.spec_combine(b).spec_combine(c) == a.spec_combine(b.spec_combine(c))
    &&& forall|a: D, b: D| #[trigger] a.spec_combine(b) == b.spec_combine(a)
}

/// Where the count of points at or before a rank splits the points: those before the split are
/// at or before the rank, those after it are later.
proof fn lemma_count_at_or_before_split<X: Ordinal>(points: Seq<X>, rank: int)
    ensures
        0 <= count_at_or_before(points, rank) <= points.len(),
        count_at_or_before(points, rank) == 0 || points[count_at_or_before(points, rank) - 1].rank()
            <= rank,
        forall|j: int|
            count_at_or_before(points, rank) <= j < points.len() ==> #[trigger] points[j].rank()
                > rank,
    decreases points.len(),
{
    if points.len() > 0 && points.last().rank() > rank {
        let rest = points.drop_last();
        lemma_count_at_or_before_split(rest, rank);
        let c = count_at_or_before(rest, rank);
        if c > 0 {
            assert(points[c - 1] == rest[c - 1]);
        }
        assert forall|j: int| c <= j < points.len() implies #[trigger] points[j].rank() > rank by {
            if j < rest.len() {
                assert(points[j] == rest[j]);
            }
        }
    }
}

/// Summing up every increment with one more put in anywhere is summing up every increment and
/// then the new one, where combining commutes.
proof fn lemma_fold_insert<D: Monoid>(data: Seq<D>, p: int, d: D)
    requires
        0 <= p <= data.len(),
        combine_commutes::<D>(),
    ensures
        fold_selected(data.insert(p, d), select_all(data.len() + 1)) == fold_selected(
            data,
            select_all(data.len()),
        ).spec_combine(d),
    decreases data.len(),
{
    reveal(combine_commutes);
    let n = data.len();
    let ins = data.insert(p, d);
    data.insert_ensures(p, d);
    if p == n {
        assert(ins.drop_last() == data);
        lemma_fold_selected_prefix(data, select_all(n + 1), select_all(n));
    } else {
        let rest = data.drop_last();
        let last = data.last();
        lemma_fold_insert(rest, p, d);
        assert(ins.drop_last() == rest.insert(p, d));
        assert(ins.last() == last);
        lemma_fold_selected_prefix(rest.insert(p, d), select_all(n + 1), select_all(n));
        lemma_fold_selected_prefix(rest, select_all(n), select_all((n - 1) as nat));
        let a = fold_selected(rest, select_all(n));
        assert(a.spec_combine(d).spec_combine(last) == a.spec_combine(d.spec_combine(last)));
        assert(d.spec_combine(last) == last.spec_combine(d));
        assert(a.spec_combine(last).spec_combine(d) == a.spec_combine(last.spec_combine(d)));
        assert(data.drop_last() == rest);
    }
}

/// Inserting an increment adds it to the value at every point at or after its own and leaves the
/// value before it unchanged, where combining commutes: what [`RecordFunc::get`] gives after
/// [`RecordFunc::insert`] is what it gave before, combined with the new increment where that
/// counts.
pub proof fn lemma_get_after_insert<X: Ordinal, T, D: Monoid>(
    before: RecordFunc<X, T, D>,
    after: RecordFunc<X, T, D>,
    x: X,
    data: D,
    y: X,
)
    requires
        before.wf(),
        after.wf(),
        after.points() == before.points().insert(count_at_or_before(before.points(), x.rank()), x),
        after.increments() == before.increments().insert(
            count_at_or_before(before.points(), x.rank()),
            data,
        ),
        combine_commutes::<D>(),
    ensures
        after.value_at(&y) == if x.rank() <= y.rank() {
            before.value_at(&y).spec_combine(data)
        } else {
            before.value_at(&y)
        },
{
    let p = count_at_or_before(before.points(), x.rank());
    let c = count_at_or_before(before.points(), y.rank());
    lemma_count_after_insert(before.points(), x, y);
    let old_incs = before.increments();
    old_incs.insert_ensures(p, data);
    if x.rank() <= y.rank() {
        assert(after.increments().take(c + 1) == old_incs.take(c).insert(p, data));
        lemma_fold_insert(old_incs.take(c), p, data);
    } else {
        assert(after.increments().take(c) == old_incs.take(c));
    }
}

/// Inserting a point where [`RecordFunc::insert`] puts it adds one to the count of points at or
/// before every rank at or after its own, and leaves the count before it unchanged.
#[verifier::spinoff_prover]
#[verifier::rlimit(40)]
proof fn lemma_count_after_insert<X: Ordinal>(points: Seq<X>, x: X, y: X)
    ensures
        ({
            let p = count_at_or_before(points, x.rank());
            let c = count_at_or_before(points, y.rank());
            let n = count_at_or_before(points.insert(p, x), y.rank());
            &&& 0 <= p <= points.len()
            &&& 0 <= c <= points.len()
            &&& x.rank() <= y.rank() ==> p <= c && n == c + 1
            &&& x.rank() > y.rank() ==> c <= p && n == c
        }),
{
    let p = count_at_or_before(points, x.rank());
    let c = count_at_or_before(points, y.rank());
    let new_points = points.insert(p, x);
    lemma_count_at_or_before_split(points, x.rank());
    lemma_count_at_or_before_split(points, y.rank());
    points.insert_ensures(p, x);
    if x.rank() <= y.rank() {
        if c < p {
            assert(points[p - 1].rank() > y.rank());
        }
        if c > p {
            assert(new_points[c] == points[c - 1]);
        }
        assert forall|j: int| c + 1 <= j < new_points.len() implies new_points[j].rank() > y.rank() by {
            assert(new_points[j] == points[j - 1]);
        }
        lemma_count_at_or_before(new_points, y.rank(), c + 1);
    } else {
        if c > p {
            assert(points[c - 1].rank() > y.rank());
        }
        if c > 0 {
            assert(new_points[c - 1] == points[c - 1]);
        }
        assert forall|j: int| c <= j < new_points.len() implies new_points[j].rank() > y.rank() by {
            if j > p {
                assert(new_points[j] == points[j - 1]);
            } else if j < p {
                assert(new_points[j] == points[j]);
            }
        }
        lemma_count_at_or_before(new_points, y.rank(), c);
    }
}

/// The increments that a filter accepts and those that it leaves out sum up to all increments,
/// where combining commutes: [`RecordFunc::tally_only`] with a filter, combined with it with the
/// negated filter, gives what [`RecordFunc::tally`] gives.
pub proof fn lemma_fold_split<D: Monoid>(data: Seq<D>, selected: Seq<bool>)
    requires
        selected.len() == data.len(),
        combine_commutes::<D>(),
    ensures
        fold_selected(data, selected).spec_combine(fold_selected(data, negated(selected)))
            == fold_selected(data, select_all(data.len())),
    decreases data.len(),
{
    reveal(combine_commutes);
    let n = data.len();
    if n == 0 {
        D::lemma_mempty_left(D::spec_mempty());
    } else {
        let rest = data.drop_last();
        let last = data.last();
        let rest_sel = selected.take(n - 1);
        lemma_fold_selected_prefix(rest, selected, rest_sel);
        lemma_fold_selected_prefix(rest, negated(selected), negated(rest_sel));
        lemma_fold_selected_prefix(rest, select_all(n), select_all((n - 1) as nat));
        lemma_fold_split(rest, rest_sel);
        let a = fold_selected(rest, selected);
        let b = fold_selected(rest, negated(selected));
        if selected[n - 1] {
            assert(a.spec_combine(last).spec_combine(b) == a.spec_combine(last.spec_combine(b)));
            assert(last.spec_combine(b) == b.spec_combine(last));
            assert(a.spec_combine(b).spec_combine(last) == a.spec_combine(b.spec_combine(last)));
        } else {
            assert(a.spec_combine(b).spec_combine(last) == a.spec_combine(b.spec_combine(last)));
        }
    }
}

/// Where the count of points before a rank splits the points: those before the split are before
/// the rank, those after it are not.
proof fn lemma_count_before_split<X: Ordinal>(points: Seq<X>, rank: int)
    ensures
        0 <= count_before(points, rank) <= points.len(),
        count_before(points, rank) == 0 || points[count_before(points, rank) - 1].rank() < rank,
        forall|j: int|
            count_before(points, rank) <= j < points.len() ==> #[trigger] points[j].rank() >= rank,
    decreases points.len(),
{
    if points.len() > 0 && points.last().rank() >= rank {
        let rest = points.drop_last();
        lemma_count_before_split(rest, rank);
        let c = count_before(rest, rank);
        if c > 0 {
            assert(points[c - 1] == rest[c - 1]);
        }
        assert forall|j: int| c <= j < points.len() implies #[trigger] points[j].rank() >= rank by {
            if j < rest.len() {
                assert(points[j] == rest[j]);
            }
        }
    }
}

/// Inserting a point where [`RecordFunc::insert`] puts it adds one to the count of points before
/// every rank after its own, and leaves the count before the others unchanged.
#[verifier::spinoff_prover]
#[verifier::rlimit(40)]
proof fn lemma_count_before_after_insert<X: Ordinal>(points: Seq<X>, x: X, a: X)
    ensures
        ({
            let p = count_at_or_before(points, x.rank());
            let q = count_before(points, a.rank());
            let n = count_before(points.insert(p, x), a.rank());
            &&& x.rank() < a.rank() ==> p <= q && n == q + 1
            &&& x.rank() >= a.rank() ==> q <= p && n == q
        }),
{
    let p = count_at_or_before(points, x.rank());
    let q = count_before(points, a.rank());
    let new_points = points.insert(p, x);
    lemma_count_at_or_before_split(points, x.rank());
    lemma_count_before_split(points, a.rank());
    points.insert_ensures(p, x);
    if x.rank() < a.rank() {
        if q < p {
            assert(points[p - 1].rank() >= a.rank());
        }
        if q > p {
            assert(new_points[q] == points[q - 1]);
        }
        assert forall|j: int| q + 1 <= j < new_points.len() implies new_points[j].rank() >= a.rank() by {
            assert(new_points[j] == points[j - 1]);
        }
        lemma_count_before(new_points, a.rank(), q + 1);
    } else {
        if q > p {
            assert(points[q - 1].rank() > x.rank());
        }
        if q > 0 {
            assert(new_points[q - 1] == points[q - 1]);
        }
        assert forall|j: int| q <= j < new_points.len() implies new_points[j].rank() >= a.rank() by {
            if j > p {
                assert(new_points[j] == points[j - 1]);
            } else if j < p {
                assert(new_points[j] == points[j]);
            }
        }
        lemma_count_before(new_points, a.rank(), q);
    }
}

/// Where the increments from the rank `a` up to the rank `b` begin and end, as
/// [`RecordFunc::between`] and [`RecordFunc::between_only`] take them.
pub open spec fn range_of<X: Ordinal>(points: Seq<X>, a: int, b: int) -> (int, int) {
    let lo = count_before(points, a);
    let upto = count_at_or_before(points, b);
    (lo, if upto >= lo {
        upto
    } else {
        lo
    })
}

/// Inserting an increment puts it into the range of every two points that enclose its own, and
/// leaves every other range as it was: what [`RecordFunc::between`] and
/// [`RecordFunc::between_only`] sum up after [`RecordFunc::insert`] is what they summed up before,
/// with the new increment and its tag added where the range takes its point.
#[verifier::spinoff_prover]
#[verifier::rlimit(40)]
pub proof fn lemma_range_after_insert<X: Ordinal, T, D: Monoid>(
    before: RecordFunc<X, T, D>,
    after: RecordFunc<X, T, D>,
    x: X,
    tag: T,
    data: D,
    a: X,
    b: X,
)
    requires
        before.wf(),
        after.points() == before.points().insert(count_at_or_before(before.points(), x.rank()), x),
        after.tags() == before.tags().insert(count_at_or_before(before.points(), x.rank()), tag),
        after.increments() == before.increments().insert(
            count_at_or_before(before.points(), x.rank()),
            data,
        ),
    ensures
        ({
            let (lo, hi) = range_of(before.points(), a.rank(), b.rank());
            let (lo2, hi2) = range_of(after.points(), a.rank(), b.rank());
            let p = count_at_or_before(before.points(), x.rank());
            &&& 0 <= lo <= hi <= before.points().len()
            &&& a.rank() <= x.rank() <= b.rank() ==> {
                &&& lo2 == lo && hi2 == hi + 1 && lo <= p <= hi
                &&& after.increments().subrange(lo2, hi2) == before.increments().subrange(
                    lo,
                    hi,
                ).insert(p - lo, data)
                &&& after.tags().subrange(lo2, hi2) == before.tags().subrange(lo, hi).insert(
                    p - lo,
                    tag,
                )
            }
            &&& !(a.rank() <= x.rank() <= b.rank()) ==> {
                &&& hi2 - lo2 == hi - lo
                &&& after.increments().subrange(lo2, hi2) == before.increments().subrange(lo, hi)
                &&& after.tags().subrange(lo2, hi2) == before.tags().subrange(lo, hi)
            }
        }),
{
    let points = before.points();
    let p = count_at_or_before(points, x.rank());
    let lo = count_before(points, a.rank());
    let c = count_at_or_before(points, b.rank());
    lemma_count_at_or_before_split(points, x.rank());
    lemma_count_before_split(points, a.rank());
    lemma_count_at_or_before_split(points, b.rank());
    lemma_count_after_insert(points, x, b);
    lemma_count_before_after_insert(points, x, a);
    let (lo, hi) = range_of(points, a.rank(), b.rank());
    let (lo2, hi2) = range_of(after.points(), a.rank(), b.rank());
    let incs = before.increments();
    let tags = before.tags();
    incs.insert_ensures(p, data);
    tags.insert_ensures(p, tag);
    if a.rank() <= x.rank() && x.rank() <= b.rank() {
        assert(after.increments().subrange(lo2, hi2) =~= incs.subrange(lo, hi).insert(p - lo, data));
        assert(after.tags().subrange(lo2, hi2) =~= tags.subrange(lo, hi).insert(p - lo, tag));
    } else if x.rank() < a.rank() {
        assert(after.increments().subrange(lo2, hi2) =~= incs.subrange(lo, hi));
        assert(after.tags().subrange(lo2, hi2) =~= tags.subrange(lo, hi));
    } else {
        assert(after.increments().subrange(lo2, hi2) =~= incs.subrange(lo, hi));
        assert(after.tags().subrange(lo2, hi2) =~= tags.subrange(lo, hi));
    }
}

} // verus!
