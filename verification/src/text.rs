//! Text: decimal notation, searching and comparing, and the two Unicode
//! operations taken from the standard library.

use vstd::prelude::*;
use vstd::string::StringExecFns;

verus! {

/// The character of a decimal digit.
pub open spec fn digit_char(d: nat) -> char {
    (('0' as nat) + d) as char
}

/// Decimal notation of a natural number, without leading zeros.
pub open spec fn decimal_digits(n: nat) -> Seq<char>
    decreases n,
{
    if n < 10 {
        seq![digit_char(n)]
    } else {
        decimal_digits(n / 10) + seq![digit_char(n % 10)]
    }
}

/// Appends one decimal digit.
pub fn push_digit(out: &mut String, d: u64)
    requires
        d < 10,
    ensures
        final(out)@ == old(out)@ + seq![digit_char(d as nat)],
{
    proof {
        reveal_strlit("0");
        reveal_strlit("1");
        reveal_strlit("2");
        reveal_strlit("3");
        reveal_strlit("4");
        reveal_strlit("5");
        reveal_strlit("6");
        reveal_strlit("7");
        reveal_strlit("8");
        reveal_strlit("9");
    }
    let s: &str = if d == 0 {
        "0"
    } else if d == 1 {
        "1"
    } else if d == 2 {
        "2"
    } else if d == 3 {
        "3"
    } else if d == 4 {
        "4"
    } else if d == 5 {
        "5"
    } else if d == 6 {
        "6"
    } else if d == 7 {
        "7"
    } else if d == 8 {
        "8"
    } else {
        "9"
    };
    assert(s@ =~= seq![digit_char(d as nat)]);
    out.append(s);
}

/// Decimal notation of `n`.
pub fn decimal(n: u64) -> (t: String)
    ensures
        t@ == decimal_digits(n as nat),
    decreases n,
{
    if n < 10 {
        let mut t = String::new();
        push_digit(&mut t, n);
        assert(t@ =~= decimal_digits(n as nat));
        t
    } else {
        let mut t = decimal(n / 10);
        push_digit(&mut t, n % 10);
        t
    }
}

/// Decimal notation of an integer, with a minus sign where it is negative.
pub open spec fn signed_digits(n: int) -> Seq<char> {
    if n < 0 {
        "-"@ + decimal_digits((-n) as nat)
    } else {
        decimal_digits(n as nat)
    }
}

/// Decimal notation of a signed number.
pub fn signed_decimal(n: i32) -> (t: String)
    ensures
        t@ == signed_digits(n as int),
{
    let wide: i64 = n as i64;
    if wide < 0 {
        let digits = decimal((-wide) as u64);
        String::from_str("-").concat(digits.as_str())
    } else {
        decimal(wide as u64)
    }
}

/// The character of a hexadecimal digit, in lower case.
pub open spec fn hex_char(d: nat) -> char {
    if d < 10 {
        (('0' as nat) + d) as char
    } else {
        (('a' as nat) + (d - 10)) as char
    }
}

/// Hexadecimal notation of a natural number, in lower case and without leading
/// zeros.
pub open spec fn hex_digits(n: nat) -> Seq<char>
    decreases n,
{
    if n < 16 {
        seq![hex_char(n)]
    } else {
        hex_digits(n / 16) + seq![hex_char(n % 16)]
    }
}

fn push_hex_digit(out: &mut String, d: u64)
    requires
        d < 16,
    ensures
        final(out)@ == old(out)@ + seq![hex_char(d as nat)],
{
    if d < 10 {
        push_digit(out, d);
        return;
    }
    proof {
        reveal_strlit("a");
        reveal_strlit("b");
        reveal_strlit("c");
        reveal_strlit("d");
        reveal_strlit("e");
        reveal_strlit("f");
    }
    let s: &str = if d == 10 {
        "a"
    } else if d == 11 {
        "b"
    } else if d == 12 {
        "c"
    } else if d == 13 {
        "d"
    } else if d == 14 {
        "e"
    } else {
        "f"
    };
    assert(s@ =~= seq![hex_char(d as nat)]);
    out.append(s);
}

/// Hexadecimal notation of `n`.
pub fn lower_hex(n: u64) -> (t: String)
    ensures
        t@ == hex_digits(n as nat),
    decreases n,
{
    if n < 16 {
        let mut t = String::new();
        push_hex_digit(&mut t, n);
        assert(t@ =~= hex_digits(n as nat));
        t
    } else {
        let mut t = lower_hex(n / 16);
        push_hex_digit(&mut t, n % 16);
        t
    }
}

/// Whether `p` stands in `s` from position `i` on.
pub open spec fn occurs_at(s: Seq<char>, p: Seq<char>, i: int) -> bool {
    0 <= i && i + p.len() <= s.len() && s.subrange(i, i + p.len()) == p
}

/// Whether `p` stands somewhere in `s`.
pub open spec fn occurs_in(s: Seq<char>, p: Seq<char>) -> bool {
    exists|i: int| occurs_at(s, p, i)
}

/// Whether `s` begins with `p`.
pub open spec fn begins_with(s: Seq<char>, p: Seq<char>) -> bool {
    occurs_at(s, p, 0)
}

/// A beginning stays a beginning when text is appended.
pub broadcast proof fn begins_with_append(s: Seq<char>, t: Seq<char>, p: Seq<char>)
    requires
        begins_with(s, p),
    ensures
        #[trigger] begins_with(s + t, p),
{
    assert((s + t).subrange(0, p.len() as int) =~= s.subrange(0, p.len() as int));
}

/// The characters of a string.
pub fn chars_of(s: &str) -> (v: Vec<char>)
    ensures
        v@ == s@,
{
    let mut v: Vec<char> = Vec::new();
    for c in it: s.chars()
        invariant
            it.seq() == s@,
            v@ == s@.take(it.index()),
    {
        assert(s@.take(it.index() + 1) =~= s@.take(it.index()).push(s@[it.index()]));
        v.push(c);
    }
    assert(s@.take(s@.len() as int) =~= s@);
    v
}

/// Whether the two strings hold the same characters.
pub fn same_text(a: &str, b: &str) -> (r: bool)
    ensures
        r == (a@ == b@),
{
    let x = chars_of(a);
    let y = chars_of(b);
    if x.len() != y.len() {
        return false;
    }
    let mut i: usize = 0;
    while i < x.len()
        invariant
            i <= x.len(),
            x.len() == y.len(),
            x@ == a@,
            y@ == b@,
            forall|k: int| 0 <= k < i ==> x@[k] == y@[k],
        decreases x.len() - i,
    {
        if x[i] != y[i] {
            assert(a@[i as int] != b@[i as int]);
            return false;
        }
        i += 1;
    }
    assert(a@ =~= b@);
    true
}

fn stands_at(s: &Vec<char>, p: &Vec<char>, at: usize) -> (r: bool)
    requires
        at + p@.len() <= s@.len(),
    ensures
        r == occurs_at(s@, p@, at as int),
{
    let n: usize = s.len();
    let mut i: usize = 0;
    while i < p.len()
        invariant
            i <= p.len(),
            n == s@.len(),
            at + p@.len() <= n,
            forall|k: int| 0 <= k < i ==> s@[at + k] == p@[k],
        decreases p.len() - i,
    {
        if s[at + i] != p[i] {
            assert(s@.subrange(at as int, at + p@.len())[i as int] != p@[i as int]);
            return false;
        }
        i += 1;
    }
    assert(s@.subrange(at as int, at + p@.len()) =~= p@);
    true
}

/// Whether `p` stands somewhere in `s`.
pub fn text_contains(s: &str, p: &str) -> (r: bool)
    ensures
        r == occurs_in(s@, p@),
{
    let hay = chars_of(s);
    let needle = chars_of(p);
    if needle.len() > hay.len() {
        return false;
    }
    let last: usize = hay.len() - needle.len();
    let mut at: usize = 0;
    while at < last
        invariant
            at <= last,
            last + needle.len() == hay.len(),
            hay@ == s@,
            needle@ == p@,
            forall|k: int| 0 <= k < at ==> !occurs_at(s@, p@, k),
        decreases last - at,
    {
        if stands_at(&hay, &needle, at) {
            return true;
        }
        at += 1;
    }
    stands_at(&hay, &needle, last)
}

/// Whether `s` begins with `p`.
pub fn text_begins_with(s: &str, p: &str) -> (r: bool)
    ensures
        r == begins_with(s@, p@),
{
    let hay = chars_of(s);
    let needle = chars_of(p);
    if needle.len() > hay.len() {
        return false;
    }
    stands_at(&hay, &needle, 0)
}

/// The text of an optional string.
pub open spec fn opt_text(o: Option<String>) -> Option<Seq<char>> {
    match o {
        Some(s) => Some(s@),
        None => None,
    }
}

/// The texts of a sequence of strings.
pub open spec fn texts(v: Seq<String>) -> Seq<Seq<char>> {
    v.map_values(|s: String| s@)
}

/// `s`, with `t` at its end where `present`.
pub open spec fn push_if(s: Seq<Seq<char>>, present: bool, t: Seq<char>) -> Seq<Seq<char>> {
    if present {
        s.push(t)
    } else {
        s
    }
}

/// Appends a string where `present`.
pub fn push_text_if(v: &mut Vec<String>, present: bool, t: &str)
    ensures
        texts(final(v)@) == push_if(texts(old(v)@), present, t@),
{
    if present {
        let s = String::from_str(t);
        let ghost before = v@;
        v.push(s);
        assert(texts(v@) =~= texts(before).push(t@));
    }
}

/// Whether a string is among others.
pub fn has_text(v: &[String], t: &str) -> (r: bool)
    ensures
        r == texts(v@).contains(t@),
{
    let mut i: usize = 0;
    while i < v.len()
        invariant
            i <= v@.len(),
            forall|k: int| 0 <= k < i ==> v@[k]@ != t@,
        decreases v@.len() - i,
    {
        if same_text(v[i].as_str(), t) {
            assert(texts(v@)[i as int] == t@);
            return true;
        }
        i += 1;
    }
    assert forall|k: int| 0 <= k < texts(v@).len() implies texts(v@)[k] != t@ by {
        assert(texts(v@)[k] == v@[k]@);
    }
    false
}

/// Whether every character is ASCII.
pub open spec fn all_ascii(s: Seq<char>) -> bool {
    forall|i: int| 0 <= i < s.len() ==> (#[trigger] s[i] as int) < 128
}

/// An ASCII letter in lower case; any other character as it is.
pub open spec fn ascii_lower(c: char) -> char {
    if 'A' <= c && c <= 'Z' {
        ((c as u32) + 32) as char
    } else {
        c
    }
}

/// Whether an ASCII character is white space: tab, the line and page breaks, or
/// a blank.
pub open spec fn ascii_blank(c: char) -> bool {
    (9 <= c as int && c as int <= 13) || c as int == 32
}

/// `s` without white space at either end, for ASCII text.
pub open spec fn ascii_trim(s: Seq<char>) -> Seq<char>
    decreases s.len(),
{
    if s.len() == 0 {
        s
    } else if ascii_blank(s[0]) {
        ascii_trim(s.drop_first())
    } else if ascii_blank(s.last()) {
        ascii_trim(s.drop_last())
    } else {
        s
    }
}

/// What `str::to_lowercase` returns.
pub uninterp spec fn lowercase(s: Seq<char>) -> Seq<char>;

/// What `str::trim` returns.
pub uninterp spec fn trimmed(s: Seq<char>) -> Seq<char>;

/// Calls `str::to_lowercase`. Claimed: the result depends on the text alone;
/// ASCII text is mapped letter by letter.
#[verifier::external_body]
pub(crate) fn to_lowercase(s: &str) -> (r: String)
    ensures
        r@ == lowercase(s@),
        all_ascii(s@) ==> r@ == Seq::new(s@.len(), |i: int| ascii_lower(s@[i])),
{
    s.to_lowercase()
}

/// Calls `str::trim`. Claimed: the result depends on the text alone; ASCII
/// text loses exactly the blanks, tabs and line or page breaks at its ends.
#[verifier::external_body]
pub(crate) fn trim(s: &str) -> (r: String)
    ensures
        r@ == trimmed(s@),
        all_ascii(s@) ==> r@ == ascii_trim(s@),
{
    s.trim().to_string()
}

/// To begin with a text is to be that text with something, or nothing, behind
/// it.
pub proof fn beginnings_are_prefixes(s: Seq<char>, p: Seq<char>, rest: Seq<char>)
    ensures
        begins_with(s, p) <==> p.is_prefix_of(s),
        begins_with(p + rest, p),
        begins_with(s, p) ==> s == p + s.skip(p.len() as int),
{
    assert((p + rest).subrange(0, p.len() as int) =~= p);
    if begins_with(s, p) {
        assert(s =~= s.subrange(0, p.len() as int) + s.skip(p.len() as int));
    }
}

/// A text occurs in another exactly where the other is that text with something,
/// or nothing, around it.
pub proof fn occurrences_are_parts(s: Seq<char>, before: Seq<char>, p: Seq<char>, after: Seq<char>)
    ensures
        occurs_in(before + p + after, p),
        occurs_in(s, p) ==> exists|a: Seq<char>, b: Seq<char>| s == #[trigger] (a + p + b),
        begins_with(s, p) ==> occurs_in(s, p),
{
    let whole = before + p + after;
    let n = before.len() as int;
    assert(whole.subrange(n, n + p.len()) =~= p);
    assert(occurs_at(whole, p, n));
    if occurs_in(s, p) {
        let i = choose|i: int| occurs_at(s, p, i);
        let a = s.subrange(0, i);
        let b = s.subrange(i + p.len(), s.len() as int);
        assert(s =~= a + p + b) by {
            assert(s.subrange(i, i + p.len()) == p);
        }
    }
    if begins_with(s, p) {
        assert(occurs_at(s, p, 0));
    }
}

/// What stands among texts after one more may have come.
pub proof fn push_if_adds(s: Seq<Seq<char>>, present: bool, t: Seq<char>, x: Seq<char>)
    ensures
        push_if(s, present, t).contains(x) <==> s.contains(x) || (present && x == t),
        push_if(s, present, t).len() == s.len() + (if present {
            1int
        } else {
            0int
        }),
{
    let r = push_if(s, present, t);
    if s.contains(x) {
        let i = choose|i: int| 0 <= i < s.len() && s[i] == x;
        assert(r[i] == x);
    }
    if present && x == t {
        assert(r[s.len() as int] == x);
    }
    if r.contains(x) {
        let i = choose|i: int| 0 <= i < r.len() && r[i] == x;
        if i < s.len() {
            assert(s[i] == x);
        }
    }
}

/// The number that decimal digits denote.
pub open spec fn number_of(digits: Seq<char>) -> int
    decreases digits.len(),
{
    if digits.len() == 0 {
        0
    } else {
        10 * number_of(digits.drop_last()) + (digits.last() as int - '0' as int)
    }
}

/// Decimal notation denotes its number and has no leading zero, except for zero
/// itself.
pub proof fn decimal_reads_back(n: nat)
    ensures
        number_of(decimal_digits(n)) == n,
        decimal_digits(n).len() > 0,
        n > 0 ==> decimal_digits(n)[0] != '0',
        forall|i: int|
            0 <= i < decimal_digits(n).len() ==> '0' <= #[trigger] decimal_digits(n)[i] <= '9',
    decreases n,
{
    reveal_with_fuel(number_of, 2);
    let d = decimal_digits(n);
    if n < 10 {
        assert(d.drop_last() =~= Seq::<char>::empty());
        assert(d.last() == digit_char(n));
    } else {
        decimal_reads_back(n / 10);
        assert(d.drop_last() =~= decimal_digits(n / 10));
        assert(d.last() == digit_char(n % 10));
        assert forall|i: int| 0 <= i < d.len() implies '0' <= #[trigger] d[i] <= '9' by {
            if i < decimal_digits(n / 10).len() {
                assert(d[i] == decimal_digits(n / 10)[i]);
            }
        }
    }
}

/// Two texts in a row begin with the first, and hold both.
pub proof fn joined_reads(a: Seq<char>, b: Seq<char>)
    ensures
        begins_with(a + b, a),
        occurs_in(a + b, a),
        occurs_in(a + b, b),
{
    beginnings_are_prefixes(a + b, a, b);
    occurrences_are_parts(a + b, Seq::empty(), a, b);
    occurrences_are_parts(a + b, a, b, Seq::empty());
    assert(Seq::<char>::empty() + a + b =~= a + b);
    assert(a + b + Seq::<char>::empty() =~= a + b);
}

/// The bytes of two texts in a row are those of the first and those of the
/// second.
pub proof fn encodings_join(a: Seq<char>, b: Seq<char>)
    ensures
        vstd::utf8::encode_utf8(a + b) == vstd::utf8::encode_utf8(a) + vstd::utf8::encode_utf8(b),
    decreases a.len(),
{
    if a.len() == 0 {
        assert(a + b =~= b);
        assert(vstd::utf8::encode_utf8(a) + vstd::utf8::encode_utf8(b)
            =~= vstd::utf8::encode_utf8(b));
    } else {
        encodings_join(a.drop_first(), b);
        assert((a + b).drop_first() =~= a.drop_first() + b);
        assert(vstd::utf8::encode_utf8(a + b) =~= vstd::utf8::encode_utf8(a)
            + vstd::utf8::encode_utf8(b));
    }
}

/// The value of digits of sixteen.
pub open spec fn hex_number_of(digits: Seq<char>) -> int
    decreases digits.len(),
{
    if digits.len() == 0 {
        0
    } else {
        16 * hex_number_of(digits.drop_last()) + crate::digest::hex_value(digits.last())
    }
}

/// A number written with digits of sixteen reads back as itself; one below zero
/// opens with a minus.
pub proof fn other_notations_read_back(n: nat, m: int)
    ensures
        hex_number_of(hex_digits(n)) == n,
        m >= 0 ==> number_of(signed_digits(m)) == m,
        m < 0 ==> signed_digits(m)[0] == '-' && number_of(signed_digits(m).drop_first()) == -m,
    decreases n,
{
    reveal_strlit("-");
    if m >= 0 {
        decimal_reads_back(m as nat);
    } else {
        decimal_reads_back((-m) as nat);
        assert(signed_digits(m).drop_first() =~= decimal_digits((-m) as nat));
    }
    if n < 16 {
        reveal_with_fuel(hex_number_of, 2);
        assert(hex_digits(n).drop_last() =~= Seq::<char>::empty());
    } else {
        other_notations_read_back(n / 16, m);
        assert(hex_digits(n).drop_last() =~= hex_digits(n / 16));
    }
}

/// Upper-case letters are lowered to the letter in the same place, nothing else
/// is; blanks are the space, the tab and the four line breaks.
pub proof fn letters_are_lowered(c: char)
    ensures
        'A' <= c <= 'Z' ==> 'a' <= ascii_lower(c) <= 'z' && ascii_lower(c) as int - 'a' as int
            == c as int - 'A' as int,
        !('A' <= c <= 'Z') ==> ascii_lower(c) == c,
        ascii_lower(ascii_lower(c)) == ascii_lower(c),
        ascii_blank(c) <==> c == ' ' || c == '\t' || c == '\n' || c as int == 11 || c as int == 12
            || c == '\r',
{
}

/// What is trimmed neither begins nor ends with a blank, and is what stood
/// between the blanks.
pub proof fn trimmed_texts_have_no_margin(s: Seq<char>)
    ensures
        ascii_trim(s).len() > 0 ==> !ascii_blank(ascii_trim(s)[0]) && !ascii_blank(
            ascii_trim(s).last(),
        ),
        exists|a: Seq<char>, b: Seq<char>|
            s == #[trigger] (a + ascii_trim(s) + b) && (forall|i: int|
                0 <= i < a.len() ==> ascii_blank(#[trigger] a[i])) && (forall|i: int|
                0 <= i < b.len() ==> ascii_blank(#[trigger] b[i])),
    decreases s.len(),
{
    let t = ascii_trim(s);
    let none = Seq::<char>::empty();
    if s.len() == 0 || (!ascii_blank(s[0]) && !ascii_blank(s.last())) {
        assert(s =~= none + t + none);
    } else if ascii_blank(s[0]) {
        let r = s.drop_first();
        trimmed_texts_have_no_margin(r);
        let (a, b) = choose|a: Seq<char>, b: Seq<char>|
            r == #[trigger] (a + t + b) && (forall|i: int|
                0 <= i < a.len() ==> ascii_blank(#[trigger] a[i])) && (forall|i: int|
                0 <= i < b.len() ==> ascii_blank(#[trigger] b[i]));
        let a1 = seq![s[0]] + a;
        assert forall|i: int| 0 <= i < a1.len() implies ascii_blank(#[trigger] a1[i]) by {
            if i > 0 {
                assert(a1[i] == a[i - 1]);
            }
        }
        assert(s =~= seq![s[0]] + r);
        assert(a1 + t + b =~= seq![s[0]] + (a + t + b));
        assert(s == a1 + t + b);
    } else {
        let r = s.drop_last();
        trimmed_texts_have_no_margin(r);
        let (a, b) = choose|a: Seq<char>, b: Seq<char>|
            r == #[trigger] (a + t + b) && (forall|i: int|
                0 <= i < a.len() ==> ascii_blank(#[trigger] a[i])) && (forall|i: int|
                0 <= i < b.len() ==> ascii_blank(#[trigger] b[i]));
        let b1 = b.push(s.last());
        assert forall|i: int| 0 <= i < b1.len() implies ascii_blank(#[trigger] b1[i]) by {
            if i < b.len() {
                assert(b1[i] == b[i]);
            }
        }
        assert(s =~= r.push(s.last()));
        assert(a + t + b1 =~= (a + t + b).push(s.last()));
        assert(s == a + t + b1);
    }
}

} // verus!
