//! Facts about listed and filtered sequences.

use vstd::prelude::*;

verus! {

/// Whether a sequence lists each element of a set exactly once.
pub open spec fn enumerates<A>(s: Seq<A>, all: Set<A>) -> bool {
    s.no_duplicates() && s.to_set() == all
}

/// Without its item at a place, a list of a set lists the set without that
/// item.
pub proof fn enumerates_rest<A>(s: Seq<A>, all: Set<A>, i: int)
    requires
        enumerates(s, all),
        0 <= i < s.len(),
    ensures
        enumerates(s.remove(i), all.remove(s[i])),
{
    let t = s.remove(i);
    assert forall|a: int, b: int| 0 <= a < t.len() && 0 <= b < t.len() && a != b implies t[a]
        != t[b] by {
        let a0 = if a < i { a } else { a + 1 };
        let b0 = if b < i { b } else { b + 1 };
        assert(t[a] == s[a0]);
        assert(t[b] == s[b0]);
    }
    assert forall|x: A| t.to_set().contains(x) <==> all.remove(s[i]).contains(x) by {
        if t.contains(x) {
            let a = choose|a: int| 0 <= a < t.len() && t[a] == x;
            let a0 = if a < i { a } else { a + 1 };
            assert(s[a0] == x);
            assert(s.to_set().contains(s[a0]));
        }
        if all.remove(s[i]).contains(x) {
            assert(s.to_set().contains(x));
            let a0 = choose|a: int| 0 <= a < s.len() && s[a] == x;
            let a = if a0 < i { a0 } else { a0 - 1 };
            assert(t[a] == x);
        }
    }
    assert(t.to_set() =~= all.remove(s[i]));
}

/// The items of a list of a set that pass a filter list the elements of the set
/// that pass it.
pub proof fn filter_enumerates<A>(s: Seq<A>, all: Set<A>, f: spec_fn(A) -> bool)
    requires
        enumerates(s, all),
    ensures
        enumerates(s.filter(f), all.filter(f)),
    decreases s.len(),
{
    reveal(Seq::filter);
    if s.len() == 0 {
        assert(s.filter(f).to_set() =~= all.filter(f));
    } else {
        let d = s.drop_last();
        let x = s.last();
        enumerates_rest(s, all, s.len() - 1);
        assert(s.remove(s.len() - 1) =~= d);
        filter_enumerates(d, all.remove(x), f);
        let t = d.filter(f);
        assert(!t.contains(x)) by {
            if t.contains(x) {
                assert(t.to_set().contains(x));
                assert(all.remove(x).filter(f).contains(x));
            }
        }
        let r = s.filter(f);
        assert(s.to_set().contains(s[s.len() - 1]));
        assert forall|a: A| r.to_set().contains(a) <==> all.filter(f).contains(a) by {
            if f(x) {
                assert(r == t.push(x));
                assert(r[r.len() - 1] == x);
                if t.to_set().contains(a) {
                    let i = choose|i: int| 0 <= i < t.len() && t[i] == a;
                    assert(r[i] == a);
                }
                if r.contains(a) && a != x {
                    let i = choose|i: int| 0 <= i < r.len() && r[i] == a;
                    assert(t[i] == a);
                    assert(t.to_set().contains(a));
                }
            }
            if a != x {
                assert(all.remove(x).filter(f).contains(a) == all.filter(f).contains(a));
            }
        }
        assert(r.to_set() =~= all.filter(f));
    }
}

/// A filter that every item passes changes nothing.
pub proof fn filter_all<A>(s: Seq<A>, f: spec_fn(A) -> bool)
    requires
        forall|j: int| 0 <= j < s.len() ==> f(#[trigger] s[j]),
    ensures
        s.filter(f) == s,
    decreases s.len(),
{
    reveal(Seq::filter);
    if s.len() > 0 {
        let d = s.drop_last();
        assert forall|j: int| 0 <= j < d.len() implies f(#[trigger] d[j]) by {
            assert(d[j] == s[j]);
        }
        filter_all(d, f);
        assert(f(s[s.len() - 1]));
        assert(s =~= d.push(s.last()));
    }
}

/// A filter that a single item fails removes that item.
pub proof fn filter_but_one<A>(s: Seq<A>, f: spec_fn(A) -> bool, i: int)
    requires
        0 <= i < s.len(),
        !f(s[i]),
        forall|j: int| 0 <= j < s.len() && j != i ==> f(#[trigger] s[j]),
    ensures
        s.filter(f) == s.remove(i),
    decreases s.len(),
{
    reveal(Seq::filter);
    let d = s.drop_last();
    if i == s.len() - 1 {
        assert forall|j: int| 0 <= j < d.len() implies f(#[trigger] d[j]) by {
            assert(d[j] == s[j]);
        }
        filter_all(d, f);
        assert(s.remove(i) =~= d);
    } else {
        assert forall|j: int| 0 <= j < d.len() && j != i implies f(#[trigger] d[j]) by {
            assert(d[j] == s[j]);
        }
        filter_but_one(d, f, i);
        assert(f(s[s.len() - 1]));
        assert(s.remove(i) =~= d.remove(i).push(s.last()));
    }
}

/// A filter never adds items.
pub proof fn filter_shrinks<A>(s: Seq<A>, f: spec_fn(A) -> bool)
    ensures
        s.filter(f).len() <= s.len(),
    decreases s.len(),
{
    reveal(Seq::filter);
    if s.len() > 0 {
        filter_shrinks(s.drop_last(), f);
    }
}

/// Filtering one item more.
pub proof fn filter_next<A>(s: Seq<A>, f: spec_fn(A) -> bool, i: int)
    requires
        0 <= i < s.len(),
    ensures
        s.take(i + 1).filter(f) == (if f(s[i]) {
            s.take(i).filter(f).push(s[i])
        } else {
            s.take(i).filter(f)
        }),
{
    reveal(Seq::filter);
    let t = s.take(i + 1);
    assert(t.drop_last() =~= s.take(i));
    assert(t.last() == s[i]);
}

} // verus!
