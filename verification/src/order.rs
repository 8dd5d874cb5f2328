use vstd::prelude::*;

verus! {

use vstd::relations::{antisymmetric, strongly_connected, transitive};

/// Lexicographic "less than or equal" over sequences, parameterised by the
/// order `le` on the elements. A shorter sequence precedes every extension
/// of itself.
pub open spec fn lex_le<T>(a: Seq<T>, b: Seq<T>, le: spec_fn(T, T) -> bool) -> bool
    decreases a.len(),
{
    if a.len() == 0 {
        true
    } else if b.len() == 0 {
        false
    } else if a[0] == b[0] {
        lex_le(a.drop_first(), b.drop_first(), le)
    } else {
        le(a[0], b[0])
    }
}

pub proof fn lemma_lex_le_reflexive<T>(a: Seq<T>, le: spec_fn(T, T) -> bool)
    ensures
        lex_le(a, a, le),
    decreases a.len(),
{
    if a.len() != 0 {
        lemma_lex_le_reflexive(a.drop_first(), le);
    }
}

pub proof fn lemma_lex_le_antisymmetric<T>(a: Seq<T>, b: Seq<T>, le: spec_fn(T, T) -> bool)
    requires
        antisymmetric(le),
        lex_le(a, b, le),
        lex_le(b, a, le),
    ensures
        a == b,
    decreases a.len(),
{
    if a.len() == 0 {
        assert(b.len() == 0);
        assert(a =~= b);
    } else {
        assert(b.len() != 0);
        if a[0] == b[0] {
            lemma_lex_le_antisymmetric(a.drop_first(), b.drop_first(), le);
            assert(a =~= b) by {
                assert(forall|k: int|
                    1 <= k < a.len() ==> a[k] == a.drop_first()[k - 1] && b[k] == b.drop_first()[k
                        - 1]);
            }
        } else {
            assert(le(a[0], b[0]) && le(b[0], a[0]));
            assert(false);
        }
    }
}

pub proof fn lemma_lex_le_transitive<T>(a: Seq<T>, b: Seq<T>, c: Seq<T>, le: spec_fn(T, T) -> bool)
    requires
        antisymmetric(le),
        transitive(le),
        lex_le(a, b, le),
        lex_le(b, c, le),
    ensures
        lex_le(a, c, le),
    decreases a.len(),
{
    if a.len() == 0 {
    } else {
        assert(b.len() != 0);
        assert(c.len() != 0);
        if a[0] == b[0] && b[0] == c[0] {
            lemma_lex_le_transitive(a.drop_first(), b.drop_first(), c.drop_first(), le);
        } else if a[0] == b[0] {
            assert(le(b[0], c[0]));
        } else if b[0] == c[0] {
            assert(le(a[0], b[0]));
        } else {
            assert(le(a[0], c[0]));
            if a[0] == c[0] {
                assert(le(a[0], b[0]) && le(b[0], c[0]));
                assert(false);
            }
        }
    }
}

pub proof fn lemma_lex_le_strongly_connected<T>(a: Seq<T>, b: Seq<T>, le: spec_fn(T, T) -> bool)
    requires
        strongly_connected(le),
    ensures
        lex_le(a, b, le) || lex_le(b, a, le),
    decreases a.len(),
{
    if a.len() != 0 && b.len() != 0 && a[0] == b[0] {
        lemma_lex_le_strongly_connected(a.drop_first(), b.drop_first(), le);
    }
}

/// Comparing two sequences that agree on their first `i` elements reduces
/// to comparing what follows.
pub proof fn lemma_lex_le_common_prefix<T>(a: Seq<T>, b: Seq<T>, le: spec_fn(T, T) -> bool, i: int)
    requires
        0 <= i <= a.len(),
        i <= b.len(),
        forall|k: int| 0 <= k < i ==> a[k] == b[k],
    ensures
        lex_le(a, b, le) == lex_le(a.skip(i), b.skip(i), le),
    decreases i,
{
    if i == 0 {
        assert(a.skip(0) =~= a);
        assert(b.skip(0) =~= b);
    } else {
        assert(a[0] == b[0]);
        lemma_lex_le_common_prefix(a.drop_first(), b.drop_first(), le, i - 1);
        assert(a.drop_first().skip(i - 1) =~= a.skip(i));
        assert(b.drop_first().skip(i - 1) =~= b.skip(i));
    }
}

pub proof fn lemma_map_values_push<A, B>(s: Seq<A>, f: spec_fn(A) -> B, x: A)
    ensures
        s.push(x).map_values(f) =~= s.map_values(f).push(f(x)),
{
}

pub proof fn lemma_map_values_remove<A, B>(s: Seq<A>, f: spec_fn(A) -> B, i: int)
    requires
        0 <= i < s.len(),
    ensures
        s.remove(i).map_values(f) =~= s.map_values(f).remove(i),
{
}

/// Mapping a function over two sequences with the same multiset of elements
/// yields sequences with the same multiset of images.
pub proof fn lemma_map_values_to_multiset<A, B>(s1: Seq<A>, s2: Seq<A>, f: spec_fn(A) -> B)
    requires
        s1.to_multiset() == s2.to_multiset(),
    ensures
        s1.map_values(f).to_multiset() == s2.map_values(f).to_multiset(),
    decreases s1.len(),
{
    broadcast use vstd::seq_lib::group_to_multiset_ensures;
    broadcast use vstd::multiset::group_multiset_axioms;

    if s1.len() == 0 {
        assert(s2.to_multiset().len() == 0);
        assert(s1.map_values(f) =~= s2.map_values(f));
    } else {
        let x = s1.last();
        let s1d = s1.drop_last();
        assert(s1 =~= s1d.push(x));
        assert(s1.to_multiset() =~= s1d.to_multiset().insert(x));
        assert(s2.to_multiset().count(x) > 0) by {
            assert(s1.to_multiset().count(x) > 0);
        }
        assert(s2.contains(x));
        let i = choose|i: int| 0 <= i < s2.len() && s2[i] == x;
        assert(s2.remove(i).to_multiset() =~= s2.to_multiset().remove(x));
        assert(s1d.to_multiset() =~= s2.remove(i).to_multiset());
        lemma_map_values_to_multiset(s1d, s2.remove(i), f);
        lemma_map_values_push(s1d, f, x);
        assert(s1.map_values(f) =~= s1d.map_values(f).push(f(x)));
        assert(s1.map_values(f).to_multiset() =~= s1d.map_values(f).to_multiset().insert(f(x)));
        lemma_map_values_remove(s2, f, i);
        assert(s2.map_values(f).remove(i) =~= s2.remove(i).map_values(f));
        assert(s2.map_values(f).remove(i).to_multiset() =~= s2.map_values(f).to_multiset().remove(
            f(x),
        )) by {
            assert(s2.map_values(f)[i] == f(x));
        }
        assert(s2.map_values(f).to_multiset().count(f(x)) > 0) by {
            assert(s2.map_values(f)[i] == f(x));
            assert(s2.map_values(f).contains(f(x)));
        }
        assert(s2.map_values(f).to_multiset() =~= s2.map_values(f).to_multiset().remove(
            f(x),
        ).insert(f(x)));
        assert(s1.map_values(f).to_multiset() =~= s2.map_values(f).to_multiset());
    }
}

/// Reading a sequence through a multiset-preserving index sequence preserves
/// the multiset of elements read.
pub proof fn lemma_index_map_multiset<T>(s: Seq<T>, p: Seq<int>)
    requires
        p.to_multiset() == Seq::new(s.len(), |k: int| k).to_multiset(),
    ensures
        p.map_values(|j: int| s[j]).to_multiset() == s.to_multiset(),
{
    let get = |j: int| s[j];
    let ident = Seq::new(s.len(), |k: int| k);
    lemma_map_values_to_multiset(p, ident, get);
    assert(ident.map_values(get) =~= s);
}

} // verus!
