//! Filtering and stable sorting, the two steps by which every list view
//! turns its source records into the rows it shows.
//!
//! Contracts speak of the rows' models (their deep views), so that texts
//! count by their characters.

use vstd::prelude::*;

verus! {

/// The elements of `s` that meet `pred`, in their order.
pub open spec fn keep_where<A>(s: Seq<A>, pred: spec_fn(A) -> bool) -> Seq<A>
    decreases s.len(),
{
    if s.len() == 0 {
        s
    } else if pred(s.last()) {
        keep_where(s.drop_last(), pred).push(s.last())
    } else {
        keep_where(s.drop_last(), pred)
    }
}

/// Index of the first element of `s` that meets `pred`, or `s.len()` where
/// none does.
pub open spec fn first_where<A>(s: Seq<A>, pred: spec_fn(A) -> bool) -> int
    decreases s.len(),
{
    if s.len() == 0 {
        0
    } else {
        let before = first_where(s.drop_last(), pred);
        if before < s.len() - 1 {
            before
        } else if pred(s.last()) {
            s.len() - 1
        } else {
            s.len() as int
        }
    }
}

/// Whether `le` can order rows: of any two one may stand before the other,
/// and "may stand before" carries over a row in between.
pub open spec fn is_total_preorder<A>(le: spec_fn(A, A) -> bool) -> bool {
    &&& forall|a: A, b: A| #[trigger] le(a, b) || #[trigger] le(b, a)
    &&& forall|a: A, b: A, c: A| #[trigger] le(a, b) && #[trigger] le(b, c) ==> le(a, c)
}

/// Whether every row of `s` may stand before every later one.
pub open spec fn sorted_by<A>(s: Seq<A>, le: spec_fn(A, A) -> bool) -> bool {
    forall|i: int, j: int| 0 <= i < j < s.len() ==> le(#[trigger] s[i], #[trigger] s[j])
}

/// Where `x` goes into the sorted rows `s`: behind the last row that may
/// stand before it.
pub open spec fn insert_position<A>(s: Seq<A>, le: spec_fn(A, A) -> bool, x: A) -> int
    decreases s.len(),
{
    if s.len() == 0 {
        0
    } else if le(s.last(), x) {
        s.len() as int
    } else {
        insert_position(s.drop_last(), le, x)
    }
}

/// The rows of `s` in the order of `le`; rows that may stand either way
/// keep the order in which `s` has them.
pub open spec fn stable_sort<A>(s: Seq<A>, le: spec_fn(A, A) -> bool) -> Seq<A>
    decreases s.len(),
{
    if s.len() == 0 {
        s
    } else {
        let front = stable_sort(s.drop_last(), le);
        front.insert(insert_position(front, le, s.last()), s.last())
    }
}

/// What `keep_where` keeps meets the predicate and comes from the source,
/// and it keeps every element that meets the predicate.
pub proof fn lemma_keep_where<A>(s: Seq<A>, pred: spec_fn(A) -> bool)
    ensures
        keep_where(s, pred).len() <= s.len(),
        forall|i: int| 0 <= i < keep_where(s, pred).len() ==> pred(#[trigger] keep_where(s, pred)[i]),
        forall|i: int|
            0 <= i < keep_where(s, pred).len() ==> s.contains(#[trigger] keep_where(s, pred)[i]),
        forall|i: int|
            0 <= i < s.len() && pred(s[i]) ==> keep_where(s, pred).contains(#[trigger] s[i]),
    decreases s.len(),
{
    if s.len() > 0 {
        let init = s.drop_last();
        lemma_keep_where(init, pred);
        let k = keep_where(s, pred);
        let ki = keep_where(init, pred);
        assert forall|i: int| 0 <= i < k.len() implies s.contains(#[trigger] k[i]) by {
            if i < ki.len() {
                let j = choose|j: int| 0 <= j < init.len() && init[j] == ki[i];
                assert(s[j] == k[i]);
            } else {
                assert(s[s.len() - 1] == k[i]);
            }
        }
        assert forall|i: int| 0 <= i < s.len() && pred(s[i]) implies k.contains(
            #[trigger] s[i],
        ) by {
            if i < init.len() {
                assert(init[i] == s[i]);
                let j = choose|j: int| 0 <= j < ki.len() && ki[j] == init[i];
                assert(k[j] == s[i]);
            } else {
                assert(k[k.len() - 1] == s[i]);
            }
        }
    }
}

/// Rows that all meet the predicate come out of `keep_where` unchanged.
pub proof fn lemma_keep_where_all<A>(s: Seq<A>, pred: spec_fn(A) -> bool)
    requires
        forall|i: int| 0 <= i < s.len() ==> pred(#[trigger] s[i]),
    ensures
        keep_where(s, pred) == s,
    decreases s.len(),
{
    if s.len() > 0 {
        let init = s.drop_last();
        assert forall|i: int| 0 <= i < init.len() implies pred(#[trigger] init[i]) by {
            assert(init[i] == s[i]);
        }
        lemma_keep_where_all(init, pred);
        assert(pred(s[s.len() - 1]));
        assert(init.push(s.last()) =~= s);
    }
}

/// What `keep_where` keeps of the beginning of a sequence is the beginning
/// of what it keeps of the whole.
pub proof fn lemma_keep_where_prefix<A>(s: Seq<A>, pred: spec_fn(A) -> bool, i: int)
    requires
        0 <= i <= s.len(),
    ensures
        keep_where(s.take(i), pred).len() <= keep_where(s, pred).len(),
        keep_where(s.take(i), pred) == keep_where(s, pred).take(
            keep_where(s.take(i), pred).len() as int,
        ),
    decreases s.len() - i,
{
    if i == s.len() {
        assert(s.take(i) =~= s);
        assert(keep_where(s, pred).take(keep_where(s, pred).len() as int) =~= keep_where(s, pred));
    } else {
        lemma_keep_where_prefix(s, pred, i + 1);
        assert(s.take(i + 1).drop_last() =~= s.take(i));
        let shorter = keep_where(s.take(i), pred);
        let longer = keep_where(s.take(i + 1), pred);
        let whole = keep_where(s, pred);
        assert(shorter =~= longer.take(shorter.len() as int));
        assert(longer.take(shorter.len() as int) =~= whole.take(longer.len() as int).take(
            shorter.len() as int,
        ));
        assert(whole.take(longer.len() as int).take(shorter.len() as int) =~= whole.take(
            shorter.len() as int,
        ));
    }
}

/// `first_where` is the least index whose element meets the predicate.
pub proof fn lemma_first_where<A>(s: Seq<A>, pred: spec_fn(A) -> bool)
    ensures
        0 <= first_where(s, pred) <= s.len(),
        first_where(s, pred) < s.len() ==> pred(s[first_where(s, pred)]),
        forall|k: int| 0 <= k < first_where(s, pred) ==> !pred(#[trigger] s[k]),
    decreases s.len(),
{
    if s.len() > 0 {
        lemma_first_where(s.drop_last(), pred);
        let before = first_where(s.drop_last(), pred);
        if before < s.len() - 1 {
            assert(s.drop_last()[before] == s[before]);
        }
        assert forall|k: int| 0 <= k < first_where(s, pred) implies !pred(#[trigger] s[k]) by {
            if k < s.len() - 1 {
                assert(s.drop_last()[k] == s[k]);
            }
        }
    }
}

/// An index is `first_where` if its element meets the predicate (or it is
/// the length) and no earlier element does.
pub proof fn lemma_first_where_is<A>(s: Seq<A>, pred: spec_fn(A) -> bool, i: int)
    requires
        0 <= i <= s.len(),
        i < s.len() ==> pred(s[i]),
        forall|k: int| 0 <= k < i ==> !pred(#[trigger] s[k]),
    ensures
        first_where(s, pred) == i,
{
    lemma_first_where(s, pred);
    let f = first_where(s, pred);
    if f < i {
        assert(!pred(s[f]));
    }
}

/// The insert position lies within the rows, the row before it may stand
/// before `x`, and no row from it on may.
pub proof fn lemma_insert_position<A>(s: Seq<A>, le: spec_fn(A, A) -> bool, x: A)
    ensures
        0 <= insert_position(s, le, x) <= s.len(),
        insert_position(s, le, x) > 0 ==> le(s[insert_position(s, le, x) - 1], x),
        forall|k: int| insert_position(s, le, x) <= k < s.len() ==> !le(#[trigger] s[k], x),
    decreases s.len(),
{
    if s.len() > 0 && !le(s.last(), x) {
        lemma_insert_position(s.drop_last(), le, x);
        assert forall|k: int| insert_position(s, le, x) <= k < s.len() implies !le(
            #[trigger] s[k],
            x,
        ) by {
            if k < s.len() - 1 {
                assert(s.drop_last()[k] == s[k]);
            }
        }
    }
}

/// Inserting a row at its position keeps sorted rows sorted.
pub proof fn lemma_insert_keeps_sorted<A>(s: Seq<A>, le: spec_fn(A, A) -> bool, x: A)
    requires
        is_total_preorder(le),
        sorted_by(s, le),
    ensures
        sorted_by(s.insert(insert_position(s, le, x), x), le),
{
    let p = insert_position(s, le, x);
    let t = s.insert(p, x);
    lemma_insert_position(s, le, x);
    assert forall|i: int, j: int| 0 <= i < j < t.len() implies le(
        #[trigger] t[i],
        #[trigger] t[j],
    ) by {
        if j < p {
            assert(t[i] == s[i] && t[j] == s[j]);
        } else if j == p {
            assert(t[i] == s[i]);
            if i < p - 1 {
                assert(le(s[i], s[p - 1]) && le(s[p - 1], x));
            }
        } else if i == p {
            assert(t[j] == s[j - 1]);
            assert(!le(s[j - 1], x));
            assert(le(s[j - 1], x) || le(x, s[j - 1]));
        } else if i < p {
            assert(t[i] == s[i] && t[j] == s[j - 1]);
        } else {
            assert(t[i] == s[i - 1] && t[j] == s[j - 1]);
        }
    }
}

/// The result of sorting is sorted and as long as the source.
pub proof fn lemma_stable_sort_sorted<A>(s: Seq<A>, le: spec_fn(A, A) -> bool)
    requires
        is_total_preorder(le),
    ensures
        sorted_by(stable_sort(s, le), le),
        stable_sort(s, le).len() == s.len(),
    decreases s.len(),
{
    if s.len() > 0 {
        lemma_stable_sort_sorted(s.drop_last(), le);
        let front = stable_sort(s.drop_last(), le);
        lemma_insert_position(front, le, s.last());
        lemma_insert_keeps_sorted(front, le, s.last());
    }
}

/// Sorting keeps the rows: each occurs in the result as often as before.
pub proof fn lemma_stable_sort_permutes<A>(s: Seq<A>, le: spec_fn(A, A) -> bool)
    ensures
        stable_sort(s, le).to_multiset() == s.to_multiset(),
        stable_sort(s, le).len() == s.len(),
    decreases s.len(),
{
    broadcast use vstd::seq_lib::group_to_multiset_ensures;

    if s.len() > 0 {
        let init = s.drop_last();
        lemma_stable_sort_permutes(init, le);
        let front = stable_sort(init, le);
        let p = insert_position(front, le, s.last());
        lemma_insert_position(front, le, s.last());
        assert(init.push(s.last()) =~= s);
        assert(front.insert(p, s.last()).to_multiset() =~= front.to_multiset().insert(s.last()));
    }
}

/// Rows that are already sorted come out of sorting unchanged.
pub proof fn lemma_sorted_is_fixed<A>(s: Seq<A>, le: spec_fn(A, A) -> bool)
    requires
        sorted_by(s, le),
    ensures
        stable_sort(s, le) == s,
    decreases s.len(),
{
    if s.len() > 0 {
        let init = s.drop_last();
        assert forall|i: int, j: int| 0 <= i < j < init.len() implies le(
            #[trigger] init[i],
            #[trigger] init[j],
        ) by {
            assert(init[i] == s[i] && init[j] == s[j]);
        }
        lemma_sorted_is_fixed(init, le);
        if init.len() > 0 {
            assert(le(s[init.len() - 1], s[s.len() - 1]));
            assert(init.last() == s[init.len() - 1]);
        }
        assert(insert_position(init, le, s.last()) == init.len());
        assert(init.insert(init.len() as int, s.last()) =~= s);
    }
}

/// Filtering and then sorting rows that were already filtered and sorted in
/// the same way changes nothing.
pub proof fn lemma_filter_then_sort_idempotent<A>(
    s: Seq<A>,
    pred: spec_fn(A) -> bool,
    le: spec_fn(A, A) -> bool,
)
    requires
        is_total_preorder(le),
    ensures
        stable_sort(keep_where(stable_sort(keep_where(s, pred), le), pred), le) == stable_sort(
            keep_where(s, pred),
            le,
        ),
{
    broadcast use vstd::seq_lib::group_to_multiset_ensures;

    let k = keep_where(s, pred);
    let once = stable_sort(k, le);
    lemma_keep_where(s, pred);
    lemma_stable_sort_sorted(k, le);
    lemma_stable_sort_permutes(k, le);
    assert forall|i: int| 0 <= i < once.len() implies pred(#[trigger] once[i]) by {
        assert(once.to_multiset().count(once[i]) > 0);
        assert(k.to_multiset().count(once[i]) > 0);
        assert(k.contains(once[i]));
        let j = choose|j: int| 0 <= j < k.len() && k[j] == once[i];
        assert(pred(k[j]));
    }
    lemma_keep_where_all(once, pred);
    lemma_sorted_is_fixed(once, le);
}

/// Filtering twice by one test keeps what filtering once keeps.
pub proof fn lemma_keep_where_idempotent<A>(s: Seq<A>, pred: spec_fn(A) -> bool)
    ensures
        keep_where(keep_where(s, pred), pred) == keep_where(s, pred),
{
    lemma_keep_where(s, pred);
    lemma_keep_where_all(keep_where(s, pred), pred);
}

/// A test that decides which rows a view keeps.
pub trait RowFilter<T: DeepView> {
    spec fn keeps(&self, row: T::V) -> bool;

    fn keep(&self, row: &T) -> (r: bool)
        ensures
            r == self.keeps(row.deep_view()),
    ;
}

/// An order by which rows are sorted. `le(a, b)` says that `a` may stand
/// before `b`; it is total and transitive.
pub trait RowOrder<T: DeepView> {
    spec fn le(&self, a: T::V, b: T::V) -> bool;

    proof fn le_total(&self, a: T::V, b: T::V)
        ensures
            self.le(a, b) || self.le(b, a),
    ;

    proof fn le_transitive(&self, a: T::V, b: T::V, c: T::V)
        requires
            self.le(a, b),
            self.le(b, c),
        ensures
            self.le(a, c),
    ;

    fn may_precede(&self, a: &T, b: &T) -> (r: bool)
        ensures
            r == self.le(a.deep_view(), b.deep_view()),
    ;
}

/// The test of a filter as a predicate on row models.
pub open spec fn test_of<T: DeepView, F: RowFilter<T>>(filter: &F) -> spec_fn(T::V) -> bool {
    |row: T::V| filter.keeps(row)
}

/// The order of a `RowOrder` as a relation on row models.
pub open spec fn order_of<T: DeepView, O: RowOrder<T>>(order: &O) -> spec_fn(T::V, T::V) -> bool {
    |a: T::V, b: T::V| order.le(a, b)
}

/// A filter that keeps what another one drops.
pub struct Except<F> {
    pub inner: F,
}

impl<T: DeepView, F: RowFilter<T>> RowFilter<T> for Except<F> {
    open spec fn keeps(&self, row: T::V) -> bool {
        !self.inner.keeps(row)
    }

    fn keep(&self, row: &T) -> (r: bool) {
        !self.inner.keep(row)
    }
}

/// A filter on borrowed rows that goes by a filter on the rows themselves.
pub struct Borrowed<F> {
    pub inner: F,
}

impl<'r, T: DeepView, F: RowFilter<T>> RowFilter<&'r T> for Borrowed<F> {
    open spec fn keeps(&self, row: T::V) -> bool {
        self.inner.keeps(row)
    }

    fn keep(&self, row: &&'r T) -> (r: bool) {
        self.inner.keep(*row)
    }
}

/// Drops from `rows` every row that the filter does not keep.
pub fn filter_rows<T: DeepView, F: RowFilter<T>>(rows: &mut Vec<T>, filter: &F)
    ensures
        final(rows).deep_view() == keep_where(old(rows).deep_view(), test_of::<T, F>(filter)),
{
    let mut source: Vec<T> = Vec::new();
    core::mem::swap(rows, &mut source);
    let ghost models = source.deep_view();
    let ghost pred = test_of::<T, F>(filter);
    for x in it: source
        invariant
            it.seq().len() == models.len(),
            forall|k: int| 0 <= k < models.len() ==> (#[trigger] it.seq()[k]).deep_view() == models[k],
            pred == test_of::<T, F>(filter),
            rows.deep_view() == keep_where(models.take(it.index() as int), pred),
    {
        proof {
            assert(models.take(it.index() + 1).drop_last() =~= models.take(it.index() as int));
            assert(models.take(it.index() + 1).last() == x.deep_view());
        }
        if filter.keep(&x) {
            let ghost before = rows.deep_view();
            let ghost m = x.deep_view();
            rows.push(x);
            assert(rows.deep_view() =~= before.push(m));
        }
    }
    assert(models.take(models.len() as int) =~= models);
}

/// Sorts `rows` in place; rows that may stand either way keep their order.
pub fn sort_rows<T: DeepView, O: RowOrder<T>>(rows: &mut Vec<T>, order: &O)
    ensures
        final(rows).deep_view() == stable_sort(old(rows).deep_view(), order_of::<T, O>(order)),
{
    let mut source: Vec<T> = Vec::new();
    core::mem::swap(rows, &mut source);
    let ghost models = source.deep_view();
    let ghost le = order_of::<T, O>(order);
    for x in it: source
        invariant
            it.seq().len() == models.len(),
            forall|k: int| 0 <= k < models.len() ==> (#[trigger] it.seq()[k]).deep_view() == models[k],
            le == order_of::<T, O>(order),
            rows.deep_view() == stable_sort(models.take(it.index() as int), le),
            rows.len() == it.index(),
    {
        let ghost sorted = rows.deep_view();
        let ghost m = x.deep_view();
        let mut pos: usize = rows.len();
        assert(sorted.take(pos as int) =~= sorted);
        while pos > 0 && !order.may_precede(&rows[pos - 1], &x)
            invariant
                pos <= rows.len(),
                sorted == rows.deep_view(),
                m == x.deep_view(),
                le == order_of::<T, O>(order),
                insert_position(sorted, le, m) == insert_position(sorted.take(pos as int), le, m),
            decreases pos,
        {
            proof {
                assert(sorted.take(pos as int).drop_last() =~= sorted.take(pos - 1));
                assert(sorted.take(pos as int).last() == rows@[pos - 1].deep_view());
            }
            pos -= 1;
        }
        proof {
            if pos > 0 {
                assert(sorted.take(pos as int).last() == rows@[pos - 1].deep_view());
            }
            assert(insert_position(sorted, le, m) == pos);
            assert(models.take(it.index() + 1).drop_last() =~= models.take(it.index() as int));
            assert(models.take(it.index() + 1).last() == m);
        }
        rows.insert(pos, x);
        assert(rows.deep_view() =~= sorted.insert(pos as int, m));
    }
    assert(models.take(models.len() as int) =~= models);
}

/// Index of the first row that the filter keeps, if there is one.
pub fn find_row<T: DeepView, F: RowFilter<T>>(rows: &Vec<T>, filter: &F) -> (r: Option<usize>)
    ensures
        match r {
            Some(i) => i < rows.len() && i == first_where(
                rows.deep_view(),
                test_of::<T, F>(filter),
            ),
            None => first_where(rows.deep_view(), test_of::<T, F>(filter)) == rows.len(),
        },
        forall|k: int|
            0 <= k < first_where(rows.deep_view(), test_of::<T, F>(filter)) ==> !filter.keeps(
                #[trigger] rows.deep_view()[k],
            ),
        r.is_some() ==> filter.keeps(rows.deep_view()[r.unwrap() as int]),
{
    let ghost pred = test_of::<T, F>(filter);
    let mut i: usize = 0;
    while i < rows.len()
        invariant
            i <= rows.len(),
            pred == test_of::<T, F>(filter),
            forall|k: int| 0 <= k < i ==> !pred(#[trigger] rows.deep_view()[k]),
        decreases rows.len() - i,
    {
        if filter.keep(&rows[i]) {
            proof {
                lemma_first_where_is(rows.deep_view(), pred, i as int);
            }
            return Some(i);
        }
        i += 1;
    }
    proof {
        lemma_first_where_is(rows.deep_view(), pred, rows.len() as int);
    }
    None
}

/// References to the rows of `items`, in order.
pub fn row_refs<T: DeepView>(items: &Vec<T>) -> (r: Vec<&T>)
    ensures
        r.deep_view() == items.deep_view(),
        r@.len() == items@.len(),
        forall|k: int| 0 <= k < items@.len() ==> *#[trigger] r@[k] == items@[k],
{
    let mut out: Vec<&T> = Vec::new();
    let mut i: usize = 0;
    while i < items.len()
        invariant
            i <= items.len(),
            out@.len() == i,
            forall|k: int| 0 <= k < i ==> *#[trigger] out@[k] == items@[k],
        decreases items.len() - i,
    {
        out.push(&items[i]);
        i += 1;
    }
    assert(out.deep_view() =~= items.deep_view());
    out
}

} // verus!
