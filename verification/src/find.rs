use vstd::prelude::*;

verus! {

/// The index of the first element of `s` satisfying `p`, if any.
pub open spec fn first_index_where<T>(s: Seq<T>, p: spec_fn(T) -> bool) -> Option<int>
    decreases s.len(),
{
    if s.len() == 0 {
        None
    } else if p(s[0]) {
        Some(0int)
    } else {
        match first_index_where(s.drop_first(), p) {
            Some(i) => Some(i + 1),
            None => None,
        }
    }
}

/// The first element of `s` satisfying `p`, scanning from the front.
pub open spec fn first_where<T>(s: Seq<T>, p: spec_fn(T) -> bool) -> Option<T> {
    match first_index_where(s, p) {
        Some(i) => Some(s[i]),
        None => None,
    }
}

/// A forward scan that stops at `i` pins down `first_index_where`.
pub proof fn lemma_first_index_where_found<T>(s: Seq<T>, p: spec_fn(T) -> bool, i: int)
    requires
        0 <= i < s.len(),
        p(s[i]),
        forall|j: int| 0 <= j < i ==> !p(#[trigger] s[j]),
    ensures
        first_index_where(s, p) == Some(i),
        first_where(s, p) == Some(s[i]),
    decreases i,
{
    if i == 0 {
    } else {
        lemma_first_index_where_found(s.drop_first(), p, i - 1);
    }
}

/// A forward scan that exhausts `s` shows there is no match.
pub proof fn lemma_first_index_where_none<T>(s: Seq<T>, p: spec_fn(T) -> bool)
    requires
        forall|j: int| 0 <= j < s.len() ==> !p(#[trigger] s[j]),
    ensures
        first_index_where(s, p) is None,
        first_where(s, p) is None,
    decreases s.len(),
{
    if s.len() == 0 {
    } else {
        lemma_first_index_where_none(s.drop_first(), p);
    }
}

/// `first_index_where` finds an index exactly when some element matches,
/// and what it finds is the earliest match.
pub proof fn lemma_first_index_where_properties<T>(s: Seq<T>, p: spec_fn(T) -> bool)
    ensures
        (first_index_where(s, p) is Some) <==> (exists|j: int|
            0 <= j < s.len() && p(#[trigger] s[j])),
        first_index_where(s, p) matches Some(i) ==> 0 <= i < s.len() && p(s[i]) && (forall|j: int|
            0 <= j < i ==> !p(#[trigger] s[j])),
    decreases s.len(),
{
    if s.len() != 0 && !p(s[0]) {
        lemma_first_index_where_properties(s.drop_first(), p);
        if first_index_where(s.drop_first(), p) is Some {
            let i = first_index_where(s.drop_first(), p)->Some_0;
            assert(s.drop_first()[i] == s[i + 1]);
            assert forall|j: int| 0 <= j < i + 1 implies !p(#[trigger] s[j]) by {
                if j > 0 {
                    assert(s[j] == s.drop_first()[j - 1]);
                }
            }
        } else {
            assert forall|j: int| 0 <= j < s.len() implies !p(#[trigger] s[j]) by {
                if j > 0 {
                    assert(s[j] == s.drop_first()[j - 1]);
                }
            }
        }
    }
}

/// How `first_where` acts on a one-element extension of `s`.
pub proof fn lemma_first_where_push<T>(s: Seq<T>, p: spec_fn(T) -> bool, x: T)
    ensures
        first_where(s, p) is Some ==> first_where(s.push(x), p) == first_where(s, p),
        first_where(s, p) is None && p(x) ==> first_where(s.push(x), p) == Some(x),
        first_where(s, p) is None && !p(x) ==> first_where(s.push(x), p) is None,
{
    lemma_first_index_where_properties(s, p);
    if first_where(s, p) is Some {
        let i = first_index_where(s, p)->Some_0;
        assert(s.push(x)[i] == s[i]);
        assert(forall|j: int| 0 <= j < i ==> s.push(x)[j] == s[j]);
        lemma_first_index_where_found(s.push(x), p, i);
    } else {
        assert(forall|j: int| 0 <= j < s.len() ==> s.push(x)[j] == s[j]);
        if p(x) {
            lemma_first_index_where_found(s.push(x), p, s.len() as int);
        } else {
            lemma_first_index_where_none(s.push(x), p);
        }
    }
}

/// Every pair of elements of `s` has a different key under `k`.
pub open spec fn distinct_by<T, K>(s: Seq<T>, k: spec_fn(T) -> K) -> bool {
    forall|i: int, j: int| 0 <= i < j < s.len() ==> k(#[trigger] s[i]) != k(#[trigger] s[j])
}

/// How `filter` acts on a one-element extension of `s`.
pub proof fn lemma_filter_push<T>(s: Seq<T>, p: spec_fn(T) -> bool, x: T)
    ensures
        p(x) ==> s.push(x).filter(p) == s.filter(p).push(x),
        !p(x) ==> s.push(x).filter(p) == s.filter(p),
{
    reveal(Seq::filter);
    assert(s.push(x).drop_last() =~= s);
    assert(s.push(x).last() == x);
}

/// Filtering by a predicate that holds nowhere leaves nothing.
pub proof fn lemma_filter_none_empty<T>(s: Seq<T>, p: spec_fn(T) -> bool)
    requires
        forall|i: int| 0 <= i < s.len() ==> !p(#[trigger] s[i]),
    ensures
        s.filter(p) == Seq::<T>::empty(),
    decreases s.len(),
{
    reveal(Seq::filter);
    if s.len() != 0 {
        let prefix = s.drop_last();
        assert(forall|i: int| 0 <= i < prefix.len() ==> prefix[i] == s[i]);
        lemma_filter_none_empty(prefix, p);
    }
}

/// Filtering by a predicate that holds everywhere changes nothing.
pub proof fn lemma_filter_all_true<T>(s: Seq<T>, p: spec_fn(T) -> bool)
    requires
        forall|i: int| 0 <= i < s.len() ==> p(#[trigger] s[i]),
    ensures
        s.filter(p) == s,
    decreases s.len(),
{
    reveal(Seq::filter);
    if s.len() != 0 {
        let prefix = s.drop_last();
        assert(forall|i: int| 0 <= i < prefix.len() ==> prefix[i] == s[i]);
        lemma_filter_all_true(prefix, p);
        assert(s.filter(p) =~= s);
    }
}

/// When exactly the element at `i` fails the predicate, filtering equals
/// removing that element.
pub proof fn lemma_filter_removes_one<T>(s: Seq<T>, keep: spec_fn(T) -> bool, i: int)
    requires
        0 <= i < s.len(),
        !keep(s[i]),
        forall|j: int| 0 <= j < s.len() && j != i ==> keep(#[trigger] s[j]),
    ensures
        s.filter(keep) == s.remove(i),
{
    let a = s.subrange(0, i);
    let b = seq![s[i]];
    let c = s.subrange(i + 1, s.len() as int);
    assert(s =~= (a + b) + c);
    Seq::filter_distributes_over_add(a + b, c, keep);
    Seq::filter_distributes_over_add(a, b, keep);
    assert(forall|j: int| 0 <= j < a.len() ==> keep(#[trigger] a[j]));
    lemma_filter_all_true(a, keep);
    assert(forall|j: int| 0 <= j < c.len() ==> keep(#[trigger] c[j]));
    lemma_filter_all_true(c, keep);
    reveal_with_fuel(Seq::filter, 2);
    assert(b.drop_last() =~= Seq::<T>::empty());
    assert(b.filter(keep) =~= Seq::<T>::empty());
    assert(s.filter(keep) =~= ((a + b) + c).filter(keep));
    assert(s.remove(i) =~= a + c);
}

/// Every element of `s.filter(p)` occurs in `s`.
pub proof fn lemma_filter_is_subset<T>(s: Seq<T>, p: spec_fn(T) -> bool)
    ensures
        forall|i: int| 0 <= i < s.filter(p).len() ==> s.contains(#[trigger] s.filter(p)[i]),
    decreases s.len(),
{
    reveal(Seq::filter);
    if s.len() != 0 {
        let prefix = s.drop_last();
        lemma_filter_is_subset(prefix, p);
        assert forall|i: int| 0 <= i < s.filter(p).len() implies s.contains(
            #[trigger] s.filter(p)[i],
        ) by {
            if i < prefix.filter(p).len() {
                assert(prefix.contains(prefix.filter(p)[i]));
                let j = choose|j: int| 0 <= j < prefix.len() && prefix[j] == prefix.filter(p)[i];
                assert(s[j] == prefix[j]);
            } else {
                assert(s.filter(p)[i] == s.last());
                assert(s[s.len() - 1] == s.last());
            }
        }
    }
}

/// Filtering never introduces a duplicate key.
pub proof fn lemma_filter_keeps_distinct_by<T, K>(s: Seq<T>, p: spec_fn(T) -> bool, k: spec_fn(
    T,
) -> K)
    requires
        distinct_by(s, k),
    ensures
        distinct_by(s.filter(p), k),
    decreases s.len(),
{
    reveal(Seq::filter);
    if s.len() != 0 {
        let prefix = s.drop_last();
        assert(forall|i: int| 0 <= i < prefix.len() ==> prefix[i] == s[i]);
        lemma_filter_keeps_distinct_by(prefix, p, k);
        if p(s.last()) {
            lemma_filter_is_subset(prefix, p);
            let out = s.filter(p);
            assert forall|i: int, j: int| 0 <= i < j < out.len() implies k(#[trigger] out[i]) != k(
                #[trigger] out[j],
            ) by {
                if j == out.len() - 1 {
                    assert(out[j] == s.last());
                    assert(prefix.contains(prefix.filter(p)[i]));
                    let m = choose|m: int| 0 <= m < prefix.len() && prefix[m] == prefix.filter(p)[i];
                    assert(k(s[m]) != k(s[s.len() - 1]));
                } else {
                    assert(out[i] == prefix.filter(p)[i]);
                    assert(out[j] == prefix.filter(p)[j]);
                }
            }
        }
    }
}

/// Filtering keeps every element-wise property.
pub proof fn lemma_filter_keeps_forall<T>(s: Seq<T>, p: spec_fn(T) -> bool, q: spec_fn(T) -> bool)
    requires
        forall|i: int| 0 <= i < s.len() ==> q(#[trigger] s[i]),
    ensures
        forall|i: int| 0 <= i < s.filter(p).len() ==> q(#[trigger] s.filter(p)[i]),
{
    lemma_filter_is_subset(s, p);
    assert forall|i: int| 0 <= i < s.filter(p).len() implies q(#[trigger] s.filter(p)[i]) by {
        let x = s.filter(p)[i];
        let j = choose|j: int| 0 <= j < s.len() && s[j] == x;
        assert(q(s[j]));
    }
}

/// The largest key in `s` under `k`, floored at zero: the high-water mark
/// the id allocators advance past.
pub open spec fn max_key<T>(s: Seq<T>, k: spec_fn(T) -> i32) -> int
    decreases s.len(),
{
    if s.len() == 0 {
        0
    } else {
        let rest = max_key(s.drop_last(), k);
        if k(s.last()) > rest {
            k(s.last()) as int
        } else {
            rest
        }
    }
}

/// `max_key` is nonnegative and bounds every key in `s`.
pub proof fn lemma_max_key_bound<T>(s: Seq<T>, k: spec_fn(T) -> i32)
    ensures
        max_key(s, k) >= 0,
        forall|j: int| 0 <= j < s.len() ==> k(#[trigger] s[j]) <= max_key(s, k),
    decreases s.len(),
{
    if s.len() != 0 {
        lemma_max_key_bound(s.drop_last(), k);
        assert(forall|j: int| 0 <= j < s.len() - 1 ==> s.drop_last()[j] == s[j]);
    }
}

} // verus!
