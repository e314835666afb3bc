//! Stable ordering of records by a two-part rank, highest first.
use vstd::prelude::*;
use vstd::seq_lib::to_multiset_insert;

verus! {

/// A record that carries a rank; records of higher rank come first.
pub trait Ranked: Sized {
    /// The rank: compared by its first part, then by its second, larger first.
    spec fn rank(&self) -> (int, int);

    /// The rank, computed.
    fn rank_key(&self) -> (r: (i64, i64))
        ensures
            r.0 as int == self.rank().0,
            r.1 as int == self.rank().1;
}

/// Rank `a` may stand before rank `b`.
pub open spec fn ranks_before(a: (int, int), b: (int, int)) -> bool {
    a.0 > b.0 || (a.0 == b.0 && a.1 >= b.1)
}

/// The records of `s` stand in order of rank, highest first.
pub open spec fn sorted_by_rank<T: Ranked>(s: Seq<T>) -> bool {
    forall|i: int, j: int| 0 <= i < j < s.len() ==> ranks_before(#[trigger] s[i].rank(), #[trigger] s[j].rank())
}

/// The test of whether a record has rank `k`.
pub open spec fn of_rank<T: Ranked>(k: (int, int)) -> spec_fn(T) -> bool {
    |x: T| x.rank() == k
}

/// Records of equal rank stand in `r` in the order they stand in `v`.
pub open spec fn keeps_ties_in_order<T: Ranked>(r: Seq<T>, v: Seq<T>) -> bool {
    forall|k: (int, int)| #[trigger] r.filter(of_rank::<T>(k)) == v.filter(of_rank::<T>(k))
}

/// Filtering a sequence with one element inserted that the filter drops.
pub proof fn lemma_filter_insert_dropped<A>(s: Seq<A>, pos: int, x: A, p: spec_fn(A) -> bool)
    requires
        0 <= pos <= s.len(),
        !p(x),
    ensures
        s.insert(pos, x).filter(p) == s.filter(p),
{
    reveal(Seq::filter);
    let a = s.take(pos);
    let b = s.skip(pos);
    assert(s.insert(pos, x) =~= a + seq![x] + b);
    assert(s =~= a + b);
    assert(seq![x].drop_last() =~= Seq::<A>::empty());
    Seq::filter_distributes_over_add(a + seq![x], b, p);
    Seq::filter_distributes_over_add(a, seq![x], p);
    Seq::filter_distributes_over_add(a, b, p);
    assert(Seq::<A>::empty().filter(p) =~= Seq::<A>::empty());
    assert(seq![x].last() == x);
    assert(seq![x].filter(p) =~= Seq::<A>::empty());
    assert(a.filter(p) + Seq::<A>::empty() =~= a.filter(p));
}

/// Filtering a sequence with one element inserted that the filter keeps, after every element
/// that the filter keeps.
pub proof fn lemma_filter_insert_kept<A>(s: Seq<A>, pos: int, x: A, p: spec_fn(A) -> bool)
    requires
        0 <= pos <= s.len(),
        p(x),
        forall|m: int| pos <= m < s.len() ==> !p(#[trigger] s[m]),
    ensures
        s.insert(pos, x).filter(p) == s.filter(p).push(x),
{
    reveal(Seq::filter);
    let a = s.take(pos);
    let b = s.skip(pos);
    assert(s.insert(pos, x) =~= a + seq![x] + b);
    assert(s =~= a + b);
    assert(seq![x].drop_last() =~= Seq::<A>::empty());
    Seq::filter_distributes_over_add(a + seq![x], b, p);
    Seq::filter_distributes_over_add(a, seq![x], p);
    Seq::filter_distributes_over_add(a, b, p);
    assert(seq![x].filter(p) =~= seq![x]);
    assert forall|m: int| 0 <= m < b.len() implies !p(#[trigger] b[m]) by {
        assert(b[m] == s[pos + m]);
    }
    assert(b.all(|y: A| !p(y)));
    b.lemma_all_neg_filter_empty(p);
    assert(b.filter(p) =~= Seq::<A>::empty());
    assert(a.filter(p) + seq![x] + Seq::<A>::empty() =~= a.filter(p).push(x));
    assert(a.filter(p) + Seq::<A>::empty() =~= a.filter(p));
}

/// Where `x` goes into the ordered `out`: after every record that ranks as high as it.
fn insertion_point<T: Ranked>(out: &Vec<T>, x: &T) -> (pos: usize)
    requires
        sorted_by_rank(out@),
    ensures
        pos <= out@.len(),
        forall|k: int| 0 <= k < pos ==> ranks_before(#[trigger] out@[k].rank(), x.rank()),
        forall|k: int| pos <= k < out@.len() ==> !ranks_before(#[trigger] out@[k].rank(), x.rank()),
{
    let key = x.rank_key();
    let n = out.len();
    let mut i: usize = 0;
    while i < n
        invariant
            n == out@.len(),
            i <= n,
            sorted_by_rank(out@),
            key.0 as int == x.rank().0,
            key.1 as int == x.rank().1,
            forall|k: int| 0 <= k < i ==> ranks_before(#[trigger] out@[k].rank(), x.rank()),
        decreases n - i,
    {
        let k = out[i].rank_key();
        if !(k.0 > key.0 || (k.0 == key.0 && k.1 >= key.1)) {
            assert forall|m: int| i <= m < out@.len() implies !ranks_before(#[trigger] out@[m].rank(), x.rank()) by {
                if m > i {
                    assert(ranks_before(out@[i as int].rank(), out@[m].rank()));
                }
            }
            return i;
        }
        i = i + 1;
    }
    i
}

/// Orders `v` by rank, highest first, keeping records of equal rank in the order they had.
pub fn sort_by_rank<T: Ranked>(v: Vec<T>) -> (r: Vec<T>)
    ensures
        sorted_by_rank(r@),
        keeps_ties_in_order(r@, v@),
        r@.to_multiset() == v@.to_multiset(),
        r@.len() == v@.len(),
{
    let ghost orig = v@;
    let mut rest = v;
    let mut out: Vec<T> = Vec::new();
    let ghost mut taken: int = 0;
    assert(orig.take(0) =~= Seq::<T>::empty());
    assert(out@ =~= Seq::<T>::empty());
    while rest.len() > 0
        invariant
            sorted_by_rank(out@),
            0 <= taken <= orig.len(),
            rest@ == orig.skip(taken),
            out@.to_multiset() == orig.take(taken).to_multiset(),
            out@.len() == taken,
            keeps_ties_in_order(out@, orig.take(taken)),
        decreases rest@.len(),
    {
        let x = rest.remove(0);
        assert(x == orig[taken]);
        let pos = insertion_point(&out, &x);
        let ghost before = out@;
        out.insert(pos, x);
        proof {
            to_multiset_insert(before, pos as int, x);
            assert(orig.take(taken + 1) =~= orig.take(taken).push(x));
            vstd::seq_lib::to_multiset_build(orig.take(taken), x);
            assert forall|i: int, j: int| 0 <= i < j < out@.len() implies ranks_before(
                #[trigger] out@[i].rank(),
                #[trigger] out@[j].rank(),
            ) by {
                if i < pos && j < pos {
                    assert(out@[i] == before[i] && out@[j] == before[j]);
                } else if i < pos && j == pos {
                } else if i < pos {
                    assert(out@[i] == before[i] && out@[j] == before[j - 1]);
                } else if i == pos {
                    assert(out@[j] == before[j - 1]);
                    assert(!ranks_before(before[j - 1].rank(), x.rank()));
                } else {
                    assert(out@[i] == before[i - 1] && out@[j] == before[j - 1]);
                }
            }
            assert forall|k: (int, int)| #[trigger] out@.filter(of_rank::<T>(k)) == orig.take(taken + 1).filter(
                of_rank::<T>(k),
            ) by {
                crate::capture_rules::lemma_filter_push(orig.take(taken), of_rank::<T>(k), x);
                if x.rank() == k {
                    assert forall|m: int| pos <= m < before.len() implies !(of_rank::<T>(k))(#[trigger] before[m]) by {
                        assert(!ranks_before(before[m].rank(), x.rank()));
                    }
                    lemma_filter_insert_kept(before, pos as int, x, of_rank::<T>(k));
                } else {
                    lemma_filter_insert_dropped(before, pos as int, x, of_rank::<T>(k));
                }
                assert(before.filter(of_rank::<T>(k)) == orig.take(taken).filter(of_rank::<T>(k)));
            }
            taken = taken + 1;
            assert(rest@ =~= orig.skip(taken));
        }
    }
    assert(orig.take(taken) =~= orig);
    out
}

} // verus!
