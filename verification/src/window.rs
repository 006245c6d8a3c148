//! Bounded histories: a push beyond the bound drops the oldest item.

use vstd::prelude::*;

verus! {

/// The last `n` items of a sequence, or all of them where there are fewer.
pub open spec fn keep_last<T>(s: Seq<T>, n: nat) -> Seq<T> {
    if s.len() > n {
        s.subrange(s.len() - n, s.len() as int)
    } else {
        s
    }
}

/// `s` with `x` behind it; the first item goes where that makes it longer than
/// `n`.
pub open spec fn pushed<T>(s: Seq<T>, x: T, n: nat) -> Seq<T> {
    if s.len() + 1 > n {
        s.push(x).drop_first()
    } else {
        s.push(x)
    }
}

/// Pushes an item; the oldest goes where the history becomes longer than
/// `bound`.
pub fn push_bounded<T>(v: &mut Vec<T>, x: T, bound: usize)
    ensures
        final(v)@ == pushed(old(v)@, x, bound as nat),
{
    let ghost before = v@;
    v.push(x);
    if v.len() > bound {
        let _ = v.remove(0);
        assert(v@ =~= before.push(x).drop_first());
    }
}

/// A push within the bound keeps the history within it, and holds exactly the
/// last items.
pub proof fn pushed_is_bounded<T>(s: Seq<T>, x: T, n: nat)
    requires
        s.len() <= n,
    ensures
        pushed(s, x, n).len() <= n,
        pushed(s, x, n) == keep_last(s.push(x), n),
{
    assert(pushed(s, x, n) =~= keep_last(s.push(x), n));
}

/// What was pushed last stays, and what goes is the oldest.
pub proof fn newest_stays<T>(s: Seq<T>, x: T, n: nat)
    requires
        s.len() <= n,
        n > 0,
    ensures
        pushed(s, x, n).last() == x,
        s.len() < n ==> pushed(s, x, n).drop_last() == s,
        s.len() == n ==> pushed(s, x, n).drop_last() == s.drop_first(),
{
    assert(s.push(x).drop_last() =~= s);
    if s.len() == n {
        assert(s.push(x).drop_first().drop_last() =~= s.drop_first());
    }
}

} // verus!
