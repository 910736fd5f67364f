//! Round-robin rotation of a sequence, and what follows from it.
//!
//! A pool hands out its front element and moves it to the back. The
//! functions here describe that policy on mathematical sequences; the
//! lemmas state fairness, periodicity and conservation of the elements.
use vstd::arithmetic::div_mod::lemma_mod_bound;
use vstd::prelude::*;

verus! {

/// The order after one hand-out: the front element moves to the back.
pub open spec fn rotate<T>(s: Seq<T>) -> Seq<T>
    recommends
        s.len() > 0,
{
    s.drop_first().push(s.first())
}

/// The order after `k` hand-outs.
pub open spec fn rotate_n<T>(s: Seq<T>, k: nat) -> Seq<T>
    decreases k,
{
    if k == 0 {
        s
    } else {
        rotate(rotate_n(s, (k - 1) as nat))
    }
}

/// The element returned by hand-out number `k`, counted from zero.
pub open spec fn handed_out<T>(s: Seq<T>, k: nat) -> T
    recommends
        s.len() > 0,
{
    rotate_n(s, k).first()
}

/// The elements returned by the first `k` hand-outs, in the order of the calls.
pub open spec fn served<T>(s: Seq<T>, k: nat) -> Seq<T>
    recommends
        s.len() > 0,
{
    Seq::new(k, |i: int| handed_out(s, i as nat))
}

/// Position `j` after `k` hand-outs holds what stood at position
/// `(k + j) mod n` at the start; the length never changes.
pub proof fn lemma_rotate_n_index<T>(s: Seq<T>, k: nat, j: int)
    requires
        s.len() > 0,
        0 <= j < s.len(),
    ensures
        rotate_n(s, k).len() == s.len(),
        rotate_n(s, k)[j] == s[(k + j) % (s.len() as int)],
    decreases k,
{
    let n = s.len() as int;
    if k == 0 {
        vstd::arithmetic::div_mod::lemma_small_mod(j as nat, n as nat);
    } else {
        let prev = rotate_n(s, (k - 1) as nat);
        lemma_rotate_n_index(s, (k - 1) as nat, 0);
        if j < n - 1 {
            lemma_rotate_n_index(s, (k - 1) as nat, j + 1);
            assert(rotate(prev)[j] == prev[j + 1]);
        } else {
            assert(rotate(prev)[j] == prev[0]);
            // (k - 1) mod n and (k - 1 + n) mod n agree
            vstd::arithmetic::div_mod::lemma_mod_add_multiples_vanish((k - 1) as int, n);
            assert((k + j) == n + (k - 1));
        }
    }
}

/// Hand-out number `k` returns the element that stood at position `k mod n`.
pub proof fn lemma_handed_out<T>(s: Seq<T>, k: nat)
    requires
        s.len() > 0,
    ensures
        handed_out(s, k) == s[(k as int) % (s.len() as int)],
{
    lemma_rotate_n_index(s, k, 0);
}

/// Fairness of the round robin: over `n` consecutive hand-outs from a pool of
/// `n` elements every element is returned exactly once, in pool order, and
/// the pool is back in the order it started in.
pub proof fn lemma_full_cycle<T>(s: Seq<T>)
    requires
        s.len() > 0,
    ensures
        served(s, s.len()) == s,
        rotate_n(s, s.len()) == s,
{
    let n = s.len();
    assert forall|i: int| 0 <= i < n implies served(s, n)[i] == s[i] by {
        lemma_handed_out(s, i as nat);
        vstd::arithmetic::div_mod::lemma_small_mod(i as nat, n);
    }
    assert(served(s, n) =~= s);
    assert forall|j: int| 0 <= j < n implies rotate_n(s, n)[j] == s[j] by {
        lemma_rotate_n_index(s, n, j);
        vstd::arithmetic::div_mod::lemma_mod_add_multiples_vanish(j, n as int);
        vstd::arithmetic::div_mod::lemma_small_mod(j as nat, n);
    }
    lemma_rotate_n_index(s, n, 0);
    assert(rotate_n(s, n) =~= s);
}

/// An element is handed out again exactly `n` hand-outs later: between two
/// uses of one position lie `n - 1` uses of the others.
pub proof fn lemma_reuse_period<T>(s: Seq<T>, k: nat)
    requires
        s.len() > 0,
    ensures
        handed_out(s, k + s.len()) == handed_out(s, k),
        rotate_n(s, k + s.len()) == rotate_n(s, k),
{
    let n = s.len() as int;
    assert forall|j: int| 0 <= j < n implies rotate_n(s, k + s.len())[j] == rotate_n(s, k)[j] by {
        lemma_rotate_n_index(s, k + s.len(), j);
        lemma_rotate_n_index(s, k, j);
        vstd::arithmetic::div_mod::lemma_mod_add_multiples_vanish(k + j, n);
        assert(k + s.len() + j == n + (k + j));
    }
    lemma_rotate_n_index(s, k + s.len(), 0);
    lemma_rotate_n_index(s, k, 0);
    assert(rotate_n(s, k + s.len()) =~= rotate_n(s, k));
}

/// No element is handed out twice within one cycle: when the pool holds no
/// element twice, two hand-outs fewer than `n` calls apart return different
/// elements.
pub proof fn lemma_no_reuse_within_cycle<T>(s: Seq<T>, i: nat, j: nat)
    requires
        s.len() > 0,
        s.no_duplicates(),
        i < j < i + s.len(),
    ensures
        handed_out(s, i) != handed_out(s, j),
{
    let n = s.len() as int;
    lemma_handed_out(s, i);
    lemma_handed_out(s, j);
    lemma_mod_bound(i as int, n);
    lemma_mod_bound(j as int, n);
    lemma_mod_distinct_within_period(i as int, j as int, n);
}

proof fn lemma_mod_distinct_within_period(i: int, j: int, n: int)
    requires
        0 <= i < j,
        j < i + n,
        n > 0,
    ensures
        i % n != j % n,
{
    vstd::arithmetic::div_mod::lemma_fundamental_div_mod(i, n);
    vstd::arithmetic::div_mod::lemma_fundamental_div_mod(j, n);
    let qi = i / n;
    let qj = j / n;
    if i % n == j % n {
        assert(j - i == n * (qj - qi)) by (nonlinear_arith)
            requires
                i == n * qi + i % n,
                j == n * qj + j % n,
                i % n == j % n,
        ;
        assert(qj - qi >= 1 ==> n * (qj - qi) >= n) by (nonlinear_arith)
            requires
                n > 0,
        ;
        assert(qj - qi <= 0 ==> n * (qj - qi) <= 0) by (nonlinear_arith)
            requires
                n > 0,
        ;
    }
}

/// A rotation neither loses nor duplicates an element.
pub proof fn lemma_rotate_keeps_elements<T>(s: Seq<T>)
    requires
        s.len() > 0,
    ensures
        rotate(s).len() == s.len(),
        rotate(s).to_multiset() == s.to_multiset(),
{
    broadcast use vstd::seq_lib::group_to_multiset_ensures;

    let rest = s.drop_first();
    assert(s =~= seq![s.first()] + rest);
    assert(rotate(s) =~= rest + seq![s.first()]);
    vstd::seq_lib::lemma_multiset_commutative(seq![s.first()], rest);
    vstd::seq_lib::lemma_multiset_commutative(rest, seq![s.first()]);
}

/// However many hand-outs took place, the pool holds the elements it
/// started with, each as often as at the start.
pub proof fn lemma_rotate_n_keeps_elements<T>(s: Seq<T>, k: nat)
    requires
        s.len() > 0,
    ensures
        rotate_n(s, k).len() == s.len(),
        rotate_n(s, k).to_multiset() == s.to_multiset(),
    decreases k,
{
    if k > 0 {
        lemma_rotate_n_keeps_elements(s, (k - 1) as nat);
        lemma_rotate_keeps_elements(rotate_n(s, (k - 1) as nat));
    }
}

} // verus!
