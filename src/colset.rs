//! Small verified operations on sets of column identifiers.
use std::collections::HashSet;
use vstd::prelude::*;
use vstd::std_specs::iter::IteratorSpec;

verus! {

broadcast use vstd::std_specs::hash::group_hash_axioms;

/// The members of `s`, each once, in the order the set hands them out.
pub fn set_elems(s: &HashSet<usize>) -> (v: Vec<usize>)
    ensures
        v@.to_set() == s@,
        v@.no_duplicates(),
{
    let ghost keys = vstd::std_specs::hash::spec_hash_keys_iter(s).remaining().unref();
    let mut v: Vec<usize> = Vec::new();
    for x in it: s.iter()
        invariant
            it.seq().unref() == keys,
            v@ == keys.take(it.index()),
    {
        v.push(*x);
        proof {
            assert(v@ =~= keys.take(it.index() + 1));
        }
    }
    proof {
        assert(v@ =~= keys);
    }
    v
}

/// The set holding exactly the entries of `v`.
pub fn set_of_vec(v: &Vec<usize>) -> (s: HashSet<usize>)
    ensures
        s@ == v@.to_set(),
{
    let mut s: HashSet<usize> = HashSet::new();
    let mut i: usize = 0;
    while i < v.len()
        invariant
            i <= v.len(),
            s@ == v@.take(i as int).to_set(),
        decreases v.len() - i,
    {
        s.insert(v[i]);
        proof {
            assert(v@.take(i + 1) =~= v@.take(i as int).push(v@[i as int]));
            v@.take(i as int).lemma_push_to_set_commute(v@[i as int]);
        }
        i = i + 1;
    }
    proof {
        assert(v@.take(i as int) =~= v@);
    }
    s
}

/// Adds every member of `src` to `dst`.
pub fn union_into(dst: &mut HashSet<usize>, src: &HashSet<usize>)
    ensures
        final(dst)@ == old(dst)@.union(src@),
{
    let elems = set_elems(src);
    let ghost start = dst@;
    let mut i: usize = 0;
    while i < elems.len()
        invariant
            i <= elems.len(),
            elems@.to_set() == src@,
            dst@ == start.union(elems@.take(i as int).to_set()),
        decreases elems.len() - i,
    {
        dst.insert(elems[i]);
        proof {
            assert(elems@.take(i + 1) =~= elems@.take(i as int).push(elems@[i as int]));
            elems@.take(i as int).lemma_push_to_set_commute(elems@[i as int]);
            assert(dst@ =~= start.union(elems@.take(i + 1).to_set()));
        }
        i = i + 1;
    }
    proof {
        assert(elems@.take(i as int) =~= elems@);
    }
}

/// A fresh set with the same members as `s`.
pub fn copy_set(s: &HashSet<usize>) -> (r: HashSet<usize>)
    ensures
        r@ == s@,
{
    let mut r: HashSet<usize> = HashSet::new();
    union_into(&mut r, s);
    proof {
        assert(r@ =~= s@);
    }
    r
}

/// Whether every member of `a` is a member of `b`.
pub fn is_subset(a: &HashSet<usize>, b: &HashSet<usize>) -> (r: bool)
    ensures
        r == a@.subset_of(b@),
{
    let elems = set_elems(a);
    let mut i: usize = 0;
    while i < elems.len()
        invariant
            i <= elems.len(),
            elems@.to_set() == a@,
            forall|j: int| 0 <= j < i ==> b@.contains(#[trigger] elems@[j]),
        decreases elems.len() - i,
    {
        if !b.contains(&elems[i]) {
            proof {
                assert(elems@.to_set().contains(elems@[i as int]));
            }
            return false;
        }
        i = i + 1;
    }
    proof {
        assert forall|x: usize| a@.contains(x) implies b@.contains(x) by {
            assert(elems@.contains(x));
        }
    }
    true
}

/// Whether `q` is strictly increasing.
pub open spec fn is_ascending(q: Seq<usize>) -> bool {
    forall|i: int, j: int| 0 <= i < j < q.len() ==> q[i] < q[j]
}

/// The members of `s` in increasing order.
pub open spec fn ascending(s: Set<usize>) -> Seq<usize> {
    choose|q: Seq<usize>| is_ascending(q) && q.to_set() == s
}

/// Two increasing sequences with the same members are equal.
proof fn ascending_unique(a: Seq<usize>, b: Seq<usize>)
    requires
        is_ascending(a),
        is_ascending(b),
        a.to_set() == b.to_set(),
    ensures
        a == b,
    decreases a.len(),
{
    if a.len() == 0 {
        if b.len() > 0 {
            assert(b.to_set().contains(b[0]));
        }
        assert(a =~= b);
    } else {
        assert(a.to_set().contains(a[0]));
        if b.len() == 0 {
            assert(false);
        }
        assert(b.to_set().contains(b[0]));
        assert(b.contains(a[0]));
        assert(a.contains(b[0]));
        let ka = choose|k: int| 0 <= k < b.len() && b[k] == a[0];
        let kb = choose|k: int| 0 <= k < a.len() && a[k] == b[0];
        if kb > 0 {
            assert(a[0] < a[kb]);
        }
        if ka > 0 {
            assert(b[0] < b[ka]);
        }
        assert(a[0] == b[0]);
        let a1 = a.drop_first();
        let b1 = b.drop_first();
        assert forall|y: usize| a1.to_set().contains(y) implies b1.to_set().contains(y) by {
            let i = choose|i: int| 0 <= i < a1.len() && a1[i] == y;
            assert(a.to_set().contains(y));
            assert(b.contains(y));
            let j = choose|j: int| 0 <= j < b.len() && b[j] == y;
            assert(a[i + 1] == y);
            assert(y != a[0]);
            assert(j != 0);
            assert(b1[j - 1] == y);
        }
        assert forall|y: usize| b1.to_set().contains(y) implies a1.to_set().contains(y) by {
            let i = choose|i: int| 0 <= i < b1.len() && b1[i] == y;
            assert(b.to_set().contains(y));
            assert(a.contains(y));
            let j = choose|j: int| 0 <= j < a.len() && a[j] == y;
            assert(b[i + 1] == y);
            assert(y != b[0]);
            assert(j != 0);
            assert(a1[j - 1] == y);
        }
        assert(a1.to_set() =~= b1.to_set());
        ascending_unique(a1, b1);
        assert(a =~= seq![a[0]] + a1);
        assert(b =~= seq![b[0]] + b1);
    }
}

/// The members of `s` in increasing order.
pub fn sorted_ids(s: &HashSet<usize>) -> (r: Vec<usize>)
    ensures
        r@ == ascending(s@),
{
    let elems = set_elems(s);
    let mut out: Vec<usize> = Vec::new();
    let mut i: usize = 0;
    while i < elems.len()
        invariant
            i <= elems.len(),
            elems@.no_duplicates(),
            elems@.to_set() == s@,
            is_ascending(out@),
            out@.to_set() == elems@.take(i as int).to_set(),
        decreases elems.len() - i,
    {
        let x = elems[i];
        let mut k: usize = 0;
        while k < out.len() && out[k] < x
            invariant
                k <= out.len(),
                forall|j: int| 0 <= j < k ==> out@[j] < x,
            decreases out.len() - k,
        {
            k = k + 1;
        }
        proof {
            if out@.contains(x) {
                assert(out@.to_set().contains(x));
                let j = choose|j: int| 0 <= j < i && elems@.take(i as int)[j] == x;
                assert(elems@[j] == elems@[i as int]);
            }
            if k < out.len() {
                assert(out@[k as int] != x);
            }
        }
        let ghost prev = out@;
        out.insert(k, x);
        proof {
            assert forall|a: int, b: int| 0 <= a < b < out@.len() implies out@[a] < out@[b] by {
                if b < k {
                } else if b == k {
                } else if a < k {
                    assert(prev[k as int] > x);
                } else if a == k {
                    assert(prev[k as int] > x);
                    assert(prev[k as int] <= prev[b - 1]);
                } else {
                }
            }
            assert(elems@.take(i + 1) =~= elems@.take(i as int).push(x));
            assert forall|y: usize| out@.to_set().contains(y) <==> elems@.take(i + 1).to_set().contains(y) by {
                if out@.contains(y) {
                    let j = choose|j: int| 0 <= j < out@.len() && out@[j] == y;
                    if j < k {
                        assert(prev[j] == y);
                        assert(prev.to_set().contains(y));
                    } else if j > k {
                        assert(prev[j - 1] == y);
                        assert(prev.to_set().contains(y));
                    }
                    assert(elems@.take(i + 1)[i as int] == x);
                }
                let t = elems@.take(i + 1);
                if t.contains(y) {
                    let j = choose|j: int| 0 <= j < t.len() && t[j] == y;
                    if j < i {
                        assert(elems@.take(i as int)[j] == y);
                        assert(prev.to_set().contains(y));
                        let m = choose|m: int| 0 <= m < prev.len() && prev[m] == y;
                        if m < k {
                            assert(out@[m] == y);
                        } else {
                            assert(out@[m + 1] == y);
                        }
                    } else {
                        assert(out@[k as int] == y);
                    }
                }
            }
            assert(out@.to_set() =~= elems@.take(i + 1).to_set());
        }
        i = i + 1;
    }
    proof {
        assert(elems@.take(i as int) =~= elems@);
        ascending_unique(out@, ascending(s@));
    }
    out
}

} // verus!
