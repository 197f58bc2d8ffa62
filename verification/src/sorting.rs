//! A verified insertion sort over any total order, and the upper-median
//! selection the consensus aggregator is built on.

use vstd::prelude::*;
use vstd::relations::{sorted_by, total_ordering};
use vstd::seq_lib::{lemma_multiset_commutative, lemma_sorted_unique};

verus! {

/// A total order a type can be sorted by. `ord_le` is the mathematical
/// order, `le` its executable decision procedure, and `lemma_le_total`
/// obliges every implementor to prove the order total.
pub trait SortOrder: Sized {
    spec fn ord_le(self, other: Self) -> bool;

    proof fn lemma_le_total(a: Self, b: Self, c: Self)
        ensures
            Self::ord_le(a, a),
            Self::ord_le(a, b) || Self::ord_le(b, a),
            (Self::ord_le(a, b) && Self::ord_le(b, a)) ==> a == b,
            (Self::ord_le(a, b) && Self::ord_le(b, c)) ==> Self::ord_le(a, c),
    ;

    fn le(&self, other: &Self) -> (r: bool)
        ensures
            r == self.ord_le(*other),
    ;
}

/// The order of a `SortOrder` type as a spec-level relation.
pub open spec fn le_of<T: SortOrder>() -> spec_fn(T, T) -> bool {
    |a: T, b: T| a.ord_le(b)
}

pub proof fn lemma_le_of_total_ordering<T: SortOrder>()
    ensures
        total_ordering(le_of::<T>()),
{
    let leq = le_of::<T>();
    assert forall|x: T| #[trigger] leq(x, x) by {
        T::lemma_le_total(x, x, x);
    }
    assert forall|x: T, y: T| #[trigger] leq(x, y) && #[trigger] leq(y, x) implies x == y by {
        T::lemma_le_total(x, y, x);
    }
    assert forall|x: T, y: T| #[trigger] leq(x, y) || #[trigger] leq(y, x) by {
        T::lemma_le_total(x, y, x);
    }
    assert forall|x: T, y: T, z: T|
        #[trigger] leq(x, y) && #[trigger] leq(y, z) implies leq(x, z) by {
        T::lemma_le_total(x, y, z);
    }
}

/// Inserting an element anywhere in a sequence adds exactly that element to
/// its multiset.
pub proof fn lemma_insert_to_multiset<A>(s: Seq<A>, k: int, x: A)
    requires
        0 <= k <= s.len(),
    ensures
        s.insert(k, x).to_multiset() == s.to_multiset().insert(x),
{
    broadcast use vstd::seq_lib::group_to_multiset_ensures;
    broadcast use vstd::multiset::group_multiset_axioms;

    let pre = s.subrange(0, k);
    let post = s.subrange(k, s.len() as int);
    assert(s.insert(k, x) == pre.push(x) + post);
    lemma_multiset_commutative(pre.push(x), post);
    lemma_multiset_commutative(pre, post);
    assert(s =~= pre + post);
    assert(pre.push(x).to_multiset() =~= pre.to_multiset().insert(x));
    assert(pre.to_multiset().insert(x).add(post.to_multiset()) =~= pre.to_multiset().add(
        post.to_multiset(),
    ).insert(x));
    assert(s.insert(k, x).to_multiset() =~= s.to_multiset().insert(x));
}

/// Insertion sort. The result is exactly `sort_by` of the input's view: the
/// unique permutation of the input that is sorted by the type's total order.
pub fn sort_vec<T: SortOrder + Copy>(v: &Vec<T>) -> (r: Vec<T>)
    ensures
        r@ == v@.sort_by(le_of::<T>()),
        sorted_by(r@, le_of::<T>()),
        r@.to_multiset() == v@.to_multiset(),
        r@.len() == v@.len(),
{
    broadcast use vstd::seq_lib::group_to_multiset_ensures;

    let mut out: Vec<T> = Vec::new();
    let mut i: usize = 0;
    proof {
        assert(out@ =~= v@.take(0));
    }
    while i < v.len()
        invariant
            i <= v@.len(),
            out@.len() == i,
            sorted_by(out@, le_of::<T>()),
            out@.to_multiset() == v@.take(i as int).to_multiset(),
        decreases v@.len() - i,
    {
        let x = v[i];
        let mut k: usize = 0;
        while k < out.len() && out[k].le(&x)
            invariant
                k <= out@.len(),
                forall|j: int| 0 <= j < k ==> (#[trigger] out@[j]).ord_le(x),
            decreases out@.len() - k,
        {
            k += 1;
        }
        proof {
            broadcast use vstd::seq_lib::group_to_multiset_ensures;

            let s2 = out@.insert(k as int, x);
            out@.insert_ensures(k as int, x);
            assert forall|a: int, b: int| 0 <= a < b < s2.len() implies #[trigger] le_of::<
                T,
            >()(s2[a], s2[b]) by {
                let ki = k as int;
                if b < ki {
                    assert(le_of::<T>()(out@[a], out@[b]));
                } else if a < ki && b == ki {
                    assert(out@[a].ord_le(x));
                } else if a < ki && b > ki {
                    if a < b - 1 {
                        assert(le_of::<T>()(out@[a], out@[b - 1]));
                    } else {
                        T::lemma_le_total(out@[a], out@[a], out@[a]);
                    }
                } else if a == ki {
                    assert(b > ki);
                    if ki < out@.len() {
                        assert(!out@[ki].ord_le(x));
                        T::lemma_le_total(out@[ki], x, x);
                        assert(x.ord_le(out@[ki]));
                        if ki < b - 1 {
                            assert(le_of::<T>()(out@[ki], out@[b - 1]));
                            T::lemma_le_total(x, out@[ki], out@[b - 1]);
                        }
                    }
                } else {
                    assert(a > ki);
                    assert(le_of::<T>()(out@[a - 1], out@[b - 1]));
                }
            }
            assert(sorted_by(s2, le_of::<T>()));
            lemma_insert_to_multiset(out@, k as int, x);
            assert(v@.take(i as int + 1) =~= v@.take(i as int).push(v@[i as int]));
            assert(v@.take(i as int + 1).to_multiset() =~= v@.take(
                i as int,
            ).to_multiset().insert(x));
        }
        out.insert(k, x);
        i += 1;
    }
    proof {
        assert(v@.take(v@.len() as int) =~= v@);
        lemma_le_of_total_ordering::<T>();
        v@.lemma_sort_by_ensures(le_of::<T>());
        lemma_sorted_unique(out@, v@.sort_by(le_of::<T>()), le_of::<T>());
        assert(out@ =~= v@.sort_by(le_of::<T>()));
    }
    out
}

impl SortOrder for u64 {
    open spec fn ord_le(self, other: Self) -> bool {
        self <= other
    }

    proof fn lemma_le_total(a: Self, b: Self, c: Self) {
    }

    fn le(&self, other: &Self) -> (r: bool) {
        *self <= *other
    }
}

impl SortOrder for u32 {
    open spec fn ord_le(self, other: Self) -> bool {
        self <= other
    }

    proof fn lemma_le_total(a: Self, b: Self, c: Self) {
    }

    fn le(&self, other: &Self) -> (r: bool) {
        *self <= *other
    }
}

/// The upper median of a sequence: the element at index `⌊n/2⌋` of its
/// sorted permutation. For odd `n` this is the middle element, for even `n`
/// the upper of the two middle elements.
pub open spec fn median_upper<T: SortOrder>(s: Seq<T>) -> T
    recommends
        s.len() > 0,
{
    s.sort_by(le_of::<T>())[s.len() as int / 2]
}

/// Median correctness: on an input that is already sorted, the upper median
/// is the element at index `⌊n/2⌋` — the middle element when the length is
/// odd, the upper of the two middle elements when it is even.
pub proof fn lemma_median_of_sorted<T: SortOrder>(s: Seq<T>)
    requires
        s.len() > 0,
        sorted_by(s, le_of::<T>()),
    ensures
        median_upper(s) == s[s.len() as int / 2],
{
    broadcast use vstd::seq_lib::group_to_multiset_ensures;

    lemma_le_of_total_ordering::<T>();
    s.lemma_sort_by_ensures(le_of::<T>());
    lemma_sorted_unique(s, s.sort_by(le_of::<T>()), le_of::<T>());
    assert(s =~= s.sort_by(le_of::<T>()));
}

/// The upper median of a non-empty sequence is one of its elements.
pub proof fn lemma_median_is_element<T: SortOrder>(s: Seq<T>)
    requires
        s.len() > 0,
    ensures
        s.contains(median_upper(s)),
{
    broadcast use vstd::seq_lib::group_to_multiset_ensures;

    let sorted = s.sort_by(le_of::<T>());
    lemma_le_of_total_ordering::<T>();
    s.lemma_sort_by_ensures(le_of::<T>());
    assert(sorted.to_multiset().len() == s.to_multiset().len());
    assert(sorted.len() == s.len());
    assert(sorted.contains(sorted[s.len() as int / 2]));
}

} // verus!
