//! Slash-separated paths and their components.

use vstd::prelude::*;

use crate::table::Key;
use crate::text;

verus! {

/// The pieces of a text between slashes; there is one more than slashes.
pub open spec fn pieces(s: Seq<char>) -> Seq<Seq<char>>
    decreases s.len(),
{
    if s.len() == 0 {
        seq![Seq::empty()]
    } else {
        let p = pieces(s.drop_last());
        if s.last() == '/' {
            p.push(Seq::empty())
        } else {
            p.drop_last().push(p.last().push(s.last()))
        }
    }
}

/// Whether a piece at a place names something: the empty piece does not, and
/// a dot does so only at the start.
pub open spec fn names(piece: Seq<char>, place: int) -> bool {
    piece.len() > 0 && (piece != seq!['.'] || place == 0)
}

/// The pieces that name something.
pub open spec fn named(p: Seq<Seq<char>>) -> Seq<Seq<char>>
    decreases p.len(),
{
    if p.len() == 0 {
        Seq::empty()
    } else if names(p.last(), p.len() - 1) {
        named(p.drop_last()).push(p.last())
    } else {
        named(p.drop_last())
    }
}

/// Whether a path starts at the root.
pub open spec fn is_absolute(s: Seq<char>) -> bool {
    s.len() > 0 && s[0] == '/'
}

/// The components of a path: repeated slashes, a trailing slash and inner dots
/// do not count.
pub open spec fn components(s: Seq<char>) -> Seq<Seq<char>> {
    named(pieces(s))
}

/// The parts of a path: the root, where it starts there, and its components.
pub open spec fn parts(s: Seq<char>) -> Seq<Seq<char>> {
    if is_absolute(s) {
        seq![seq!['/']] + components(s)
    } else {
        components(s)
    }
}

/// Whether the parts of a path begin with those of another.
pub open spec fn leads(base: Seq<Seq<char>>, path: Seq<Seq<char>>) -> bool {
    base.len() <= path.len() && path.take(base.len() as int) == base
}

/// Whether a path lies at or under another, part by part. Every path lies under
/// the empty one.
pub open spec fn lies_under(path: Seq<char>, base: Seq<char>) -> bool {
    leads(parts(base), parts(path))
}

/// A path as a key: paths with the same parts are the same key.
#[derive(Clone, Debug)]
pub struct FilePath(pub String);

impl Key for FilePath {
    type Id = Seq<Seq<char>>;

    open spec fn id(&self) -> Seq<Seq<char>> {
        parts(self.0@)
    }

    fn same(&self, other: &Self) -> (r: bool) {
        same_path(self.0.as_str(), other.0.as_str())
    }
}

/// The characters of vectors, one by one.
spec fn rows(v: Seq<Vec<char>>) -> Seq<Seq<char>> {
    Seq::new(v.len(), |i: int| v[i]@)
}

proof fn pieces_not_empty(s: Seq<char>)
    ensures
        pieces(s).len() > 0,
    decreases s.len(),
{
    if s.len() > 0 {
        pieces_not_empty(s.drop_last());
    }
}

fn is_name(piece: &Vec<char>, first: bool) -> (r: bool)
    ensures
        r == (piece@.len() > 0 && (piece@ != seq!['.'] || first)),
{
    let n: usize = piece.len();
    if n == 0 {
        return false;
    }
    if n == 1 && piece[0] == '.' {
        assert(piece@ =~= seq!['.']);
        return first;
    }
    true
}

/// The components of a path.
fn split(chars: &Vec<char>) -> (r: Vec<Vec<char>>)
    ensures
        rows(r@) == components(chars@),
{
    let mut done: Vec<Vec<char>> = Vec::new();
    let mut piece: Vec<char> = Vec::new();
    let mut first: bool = true;
    let mut i: usize = 0;
    let ghost s = chars@;
    assert(s.take(0) =~= Seq::<char>::empty());
    assert(pieces(s.take(0)).drop_last() =~= Seq::<Seq<char>>::empty());
    assert(rows(done@) =~= named(pieces(s.take(0)).drop_last()));
    assert(piece@ =~= pieces(s.take(0)).last());
    while i < chars.len()
        invariant
            s == chars@,
            i <= s.len(),
            pieces(s.take(i as int)).len() > 0,
            piece@ == pieces(s.take(i as int)).last(),
            rows(done@) == named(pieces(s.take(i as int)).drop_last()),
            first == (pieces(s.take(i as int)).len() == 1),
        decreases s.len() - i,
    {
        let c = chars[i];
        let ghost before = pieces(s.take(i as int));
        let ghost after = pieces(s.take(i + 1));
        proof {
            assert(s.take(i + 1).drop_last() =~= s.take(i as int));
            assert(s.take(i + 1).last() == c);
        }
        if c == '/' {
            proof {
                assert(after.drop_last() =~= before);
                assert(before.drop_last().push(before.last()) =~= before);
            }
            let mut full: Vec<char> = Vec::new();
            std::mem::swap(&mut full, &mut piece);
            if is_name(&full, first) {
                let ghost kept = done@;
                done.push(full);
                assert(rows(done@) =~= rows(kept).push(full@));
            }
            first = false;
            assert(piece@ =~= Seq::<char>::empty());
        } else {
            proof {
                assert(after.drop_last() =~= before.drop_last());
            }
            piece.push(c);
        }
        i += 1;
    }
    proof {
        assert(s.take(s.len() as int) =~= s);
        let p = pieces(s);
        assert(p.drop_last().push(p.last()) =~= p);
    }
    if is_name(&piece, first) {
        let ghost kept = done@;
        done.push(piece);
        assert(rows(done@) =~= rows(kept).push(piece@));
    }
    done
}

fn same_chars(a: &Vec<char>, b: &Vec<char>) -> (r: bool)
    ensures
        r == (a@ == b@),
{
    if a.len() != b.len() {
        return false;
    }
    let mut i: usize = 0;
    while i < a.len()
        invariant
            i <= a@.len(),
            a@.len() == b@.len(),
            forall|j: int| 0 <= j < i ==> a@[j] == b@[j],
        decreases a@.len() - i,
    {
        if a[i] != b[i] {
            return false;
        }
        i += 1;
    }
    assert(a@ =~= b@);
    true
}

/// The parts of a path.
fn parts_of(chars: &Vec<char>) -> (r: Vec<Vec<char>>)
    ensures
        rows(r@) == parts(chars@),
{
    let mut r: Vec<Vec<char>> = Vec::new();
    if chars.len() > 0 && chars[0] == '/' {
        let mut root: Vec<char> = Vec::new();
        root.push('/');
        assert(root@ =~= seq!['/']);
        r.push(root);
    }
    let mut rest = split(chars);
    let ghost head = rows(r@);
    let ghost tail = rows(rest@);
    assert(head + tail =~= parts(chars@));
    let ghost before = r@;
    let ghost more = rest@;
    r.append(&mut rest);
    assert(r@ =~= before + more);
    assert(rows(r@) =~= head + tail);
    r
}

/// Whether the first parts of one path are all the parts of another.
fn starts(p: &Vec<Vec<char>>, b: &Vec<Vec<char>>) -> (r: bool)
    ensures
        r == leads(rows(b@), rows(p@)),
{
    let ghost pc = rows(p@);
    let ghost bc = rows(b@);
    if b.len() > p.len() {
        return false;
    }
    let mut i: usize = 0;
    while i < b.len()
        invariant
            i <= b@.len(),
            b@.len() <= p@.len(),
            rows(p@) == pc,
            rows(b@) == bc,
            pc.len() == p@.len(),
            bc.len() == b@.len(),
            forall|j: int| 0 <= j < i ==> pc[j] == bc[j],
        decreases b@.len() - i,
    {
        assert(pc[i as int] == p@[i as int]@);
        assert(bc[i as int] == b@[i as int]@);
        if !same_chars(&p[i], &b[i]) {
            assert(pc.take(bc.len() as int)[i as int] != bc[i as int]);
            return false;
        }
        i += 1;
    }
    assert(pc.take(bc.len() as int) =~= bc);
    true
}

/// Whether a path lies at or under another, part by part.
pub fn is_under(path: &Vec<char>, base: &Vec<char>) -> (r: bool)
    ensures
        r == lies_under(path@, base@),
{
    let p = parts_of(path);
    let b = parts_of(base);
    starts(&p, &b)
}

/// Whether two paths are the same, part by part.
pub fn same_path(a: &str, b: &str) -> (r: bool)
    ensures
        r == (parts(a@) == parts(b@)),
{
    let p = parts_of(&text::chars_of(a));
    let q = parts_of(&text::chars_of(b));
    assert(rows(p@).len() == p@.len());
    assert(rows(q@).len() == q@.len());
    if p.len() != q.len() {
        return false;
    }
    assert(parts(a@).take(q@.len() as int) =~= parts(a@));
    starts(&p, &q)
}

/// The pieces of a path with a slash and more behind it begin with its own.
proof fn pieces_extend(s: Seq<char>, t: Seq<char>)
    ensures
        pieces(s + seq!['/'] + t).len() > pieces(s).len(),
        pieces(s + seq!['/'] + t).take(pieces(s).len() as int) == pieces(s),
    decreases t.len(),
{
    pieces_not_empty(s);
    if t.len() == 0 {
        let u = s + seq!['/'] + t;
        assert(u.drop_last() =~= s);
        assert(pieces(u).take(pieces(s).len() as int) =~= pieces(s));
    } else {
        let u = s + seq!['/'] + t;
        assert(u.drop_last() =~= s + seq!['/'] + t.drop_last());
        pieces_extend(s, t.drop_last());
        let q = pieces(u.drop_last());
        assert(pieces(u).take(pieces(s).len() as int) =~= q.take(pieces(s).len() as int));
    }
}

/// The components of the first pieces are the first components.
proof fn named_extends(p: Seq<Seq<char>>, n: int)
    requires
        0 <= n <= p.len(),
    ensures
        named(p.take(n)).len() <= named(p).len(),
        named(p).take(named(p.take(n)).len() as int) == named(p.take(n)),
    decreases p.len(),
{
    if n == p.len() {
        assert(p.take(n) =~= p);
        assert(named(p).take(named(p).len() as int) =~= named(p));
    } else {
        let d = p.drop_last();
        named_extends(d, n);
        assert(d.take(n) =~= p.take(n));
        assert(named(p).take(named(p.take(n)).len() as int) =~= named(d).take(
            named(p.take(n)).len() as int,
        ));
    }
}

/// A path lies under itself and under the empty path, and whatever follows it
/// behind a slash lies under it.
pub proof fn under_itself(s: Seq<char>, t: Seq<char>)
    ensures
        lies_under(s, s),
        lies_under(s, Seq::empty()),
        lies_under(s + seq!['/'] + t, s),
{
    assert(parts(s).take(parts(s).len() as int) =~= parts(s));
    reveal_with_fuel(pieces, 2);
    reveal_with_fuel(named, 2);
    let nothing = Seq::<char>::empty();
    assert(pieces(nothing).drop_last() =~= Seq::<Seq<char>>::empty());
    assert(parts(nothing) =~= Seq::<Seq<char>>::empty());
    assert(parts(s).take(0) =~= parts(nothing));
    let u = s + seq!['/'] + t;
    pieces_extend(s, t);
    named_extends(pieces(u), pieces(s).len() as int);
    if s.len() > 0 {
        assert(u[0] == s[0]);
        let n = components(s).len() as int;
        assert(components(u).take(n) == components(s));
        assert(parts(u).take(parts(s).len() as int) =~= parts(s));
    } else {
        assert(s =~= nothing);
        assert(parts(u).take(0) =~= parts(s));
    }
}

/// Lying under is transitive, and two paths that lie under each other are the
/// same.
pub proof fn under_through(a: Seq<char>, b: Seq<char>, c: Seq<char>)
    requires
        lies_under(a, b),
        lies_under(b, c),
    ensures
        lies_under(a, c),
        lies_under(b, a) ==> parts(a) == parts(b),
{
    let n = parts(c).len() as int;
    assert(parts(a).take(n) =~= parts(a).take(parts(b).len() as int).take(n));
    if lies_under(b, a) {
        assert(parts(a).take(parts(b).len() as int) =~= parts(a));
    }
}

/// An empty piece, and a dot anywhere but at the start, are no names; every
/// other piece is one. A path that does not open with a slash is not absolute.
pub proof fn names_are_the_rest(piece: Seq<char>, place: int, s: Seq<char>)
    ensures
        piece.len() == 0 ==> !names(piece, place),
        place > 0 && piece == seq!['.'] ==> !names(piece, place),
        piece == seq!['.'] ==> names(piece, 0),
        piece.len() > 1 ==> names(piece, place),
        piece.len() == 1 && piece[0] != '.' ==> names(piece, place),
        is_absolute(s) <==> s.len() > 0 && s.first() == '/',
{
}

/// An absolute path and a relative one never lie under each other, but for the
/// empty path, under which everything lies.
pub proof fn absolute_and_relative_differ(s: Seq<char>, t: Seq<char>)
    requires
        is_absolute(s),
        !is_absolute(t),
        components(t).len() > 0,
        components(t)[0] != seq!['/'],
    ensures
        !lies_under(s, t),
        !lies_under(t, s),
{
    if lies_under(s, t) {
        assert(parts(s)[0] == parts(s).take(parts(t).len() as int)[0]);
    }
    if lies_under(t, s) {
        assert(parts(t)[0] == parts(t).take(parts(s).len() as int)[0]);
    }
}

/// No piece holds a slash, and a slash more gives a piece more.
pub proof fn pieces_hold_no_slash(s: Seq<char>, i: int, j: int)
    requires
        0 <= i < pieces(s).len(),
        0 <= j < pieces(s)[i].len(),
    ensures
        pieces(s)[i][j] != '/',
    decreases s.len(),
{
    if s.len() > 0 {
        let d = s.drop_last();
        pieces_are_some(d);
        let p = pieces(d);
        if s.last() == '/' {
            if i < p.len() {
                pieces_hold_no_slash(d, i, j);
            }
        } else if i < p.len() - 1 {
            pieces_hold_no_slash(d, i, j);
        } else if j < p.last().len() {
            pieces_hold_no_slash(d, i, j);
        }
    }
}

proof fn pieces_are_some(s: Seq<char>)
    ensures
        pieces(s).len() > 0,
    decreases s.len(),
{
    if s.len() > 0 {
        pieces_are_some(s.drop_last());
    }
}

} // verus!
