//! Operations on text, counted in Unicode scalar values.
//!
//! Every contract here speaks of a string through its view, the sequence of
//! its characters, so a length is a number of characters and never of bytes.

use vstd::prelude::*;

verus! {

/// `needle` occurs in `hay` starting at position `at`.
pub open spec fn occurs_at(hay: Seq<char>, needle: Seq<char>, at: int) -> bool {
    &&& 0 <= at
    &&& at + needle.len() <= hay.len()
    &&& hay.subrange(at, at + needle.len()) == needle
}

/// `needle` occurs somewhere in `hay`. The empty text occurs in every text.
pub open spec fn contains_text(hay: Seq<char>, needle: Seq<char>) -> bool {
    exists|at: int| occurs_at(hay, needle, at)
}

/// `s` cut down to its first `limit` characters; unchanged when it has no more.
pub open spec fn truncated(s: Seq<char>, limit: nat) -> Seq<char> {
    if s.len() > limit {
        s.take(limit as int)
    } else {
        s
    }
}

/// The character that writes the digit `d`.
pub open spec fn digit_char(d: int) -> char {
    if d == 0 {
        '0'
    } else if d == 1 {
        '1'
    } else if d == 2 {
        '2'
    } else if d == 3 {
        '3'
    } else if d == 4 {
        '4'
    } else if d == 5 {
        '5'
    } else if d == 6 {
        '6'
    } else if d == 7 {
        '7'
    } else if d == 8 {
        '8'
    } else {
        '9'
    }
}

/// The decimal numeral of a natural number, without leading zeros.
pub open spec fn decimal_nat(n: nat) -> Seq<char>
    decreases n,
{
    if n < 10 {
        seq![digit_char(n as int)]
    } else {
        decimal_nat(n / 10).push(digit_char((n % 10) as int))
    }
}

/// The decimal numeral of an integer: a minus sign before a negative number.
pub open spec fn decimal(n: int) -> Seq<char> {
    if n < 0 {
        seq!['-'] + decimal_nat((-n) as nat)
    } else {
        decimal_nat(n as nat)
    }
}

/// The position of the first `sep` in `s`, or the length of `s` when it has none.
pub open spec fn first_index(s: Seq<char>, sep: char) -> int
    decreases s.len(),
{
    if s.len() == 0 {
        0
    } else if s[0] == sep {
        0
    } else {
        1 + first_index(s.skip(1), sep)
    }
}

/// The piece of `s` before its first `sep`; all of `s` when it has none.
pub open spec fn leading_segment(s: Seq<char>, sep: char) -> Seq<char> {
    s.take(first_index(s, sep))
}

/// Piece number `n`, counted from zero, of `s` split at every `sep`.
/// `None` when the split has fewer pieces.
pub open spec fn segment(s: Seq<char>, sep: char, n: nat) -> Option<Seq<char>>
    decreases n,
{
    let cut = first_index(s, sep);
    if n == 0 {
        Some(s.take(cut))
    } else if cut >= s.len() {
        None
    } else {
        segment(s.skip(cut + 1), sep, (n - 1) as nat)
    }
}

/// `a` comes strictly before `b` in dictionary order over scalar values.
pub open spec fn lex_less(a: Seq<char>, b: Seq<char>) -> bool
    decreases a.len(),
{
    if b.len() == 0 {
        false
    } else if a.len() == 0 {
        true
    } else if a[0] != b[0] {
        (a[0] as u32) < (b[0] as u32)
    } else {
        lex_less(a.skip(1), b.skip(1))
    }
}

/// The lower-case form that `str::to_lowercase` gives a text.
pub uninterp spec fn lowercase_of(s: Seq<char>) -> Seq<char>;

/// Calls `str::to_lowercase`. The result is the lower-case form of `s` as the
/// standard library's Unicode tables define it; nothing more is claimed.
#[verifier::external_body]
fn to_lowercase(s: &str) -> (r: String)
    ensures
        r@ == lowercase_of(s@),
{
    s.to_lowercase()
}

/// A position that holds `sep`, or the end, with no `sep` before it, is the
/// first index.
pub proof fn first_index_found(s: Seq<char>, sep: char, at: int)
    requires
        0 <= at <= s.len(),
        at < s.len() ==> s[at] == sep,
        forall|i: int| 0 <= i < at ==> s[i] != sep,
    ensures
        first_index(s, sep) == at,
    decreases s.len(),
{
    if s.len() > 0 && at > 0 {
        let t = s.skip(1);
        assert forall|i: int| 0 <= i < at - 1 implies t[i] != sep by {
            assert(t[i] == s[i + 1]);
        }
        first_index_found(t, sep, at - 1);
    }
}

/// Different characters have different scalar values.
proof fn scalar_values_differ(x: char, y: char)
    ensures
        x != y ==> (x as u32) != (y as u32),
{
}

/// No text comes before itself.
pub proof fn lex_less_irreflexive(a: Seq<char>)
    ensures
        !lex_less(a, a),
    decreases a.len(),
{
    if a.len() > 0 {
        lex_less_irreflexive(a.skip(1));
    }
}

/// Of two different texts one comes before the other.
pub proof fn lex_less_total(a: Seq<char>, b: Seq<char>)
    ensures
        lex_less(a, b) || lex_less(b, a) || a == b,
    decreases a.len(),
{
    if a.len() == 0 || b.len() == 0 {
        if a.len() == 0 && b.len() == 0 {
            assert(a =~= b);
        }
    } else if a[0] == b[0] {
        lex_less_total(a.skip(1), b.skip(1));
        if a.skip(1) == b.skip(1) {
            assert(a =~= seq![a[0]] + a.skip(1));
            assert(b =~= seq![b[0]] + b.skip(1));
        }
    } else {
        scalar_values_differ(a[0], b[0]);
    }
}

/// What comes before a text comes before all that the text comes before.
pub proof fn lex_less_transitive(a: Seq<char>, b: Seq<char>, c: Seq<char>)
    requires
        lex_less(a, b),
        lex_less(b, c),
    ensures
        lex_less(a, c),
    decreases a.len(),
{
    if a.len() > 0 && b.len() > 0 && c.len() > 0 {
        if a[0] == b[0] && b[0] == c[0] {
            lex_less_transitive(a.skip(1), b.skip(1), c.skip(1));
        }
    }
}

/// The characters of `s`, in order.
pub fn chars_of(s: &str) -> (v: Vec<char>)
    ensures
        v@ == s@,
{
    let mut v: Vec<char> = Vec::new();
    for c in it: s.chars()
        invariant
            v@ == it.seq().take(it.index() as int),
            it.seq() == s@,
    {
        v.push(c);
    }
    v
}

/// Whether `needle` occurs in `hay`, compared character by character.
pub fn contains(hay: &str, needle: &str) -> (found: bool)
    ensures
        found == contains_text(hay@, needle@),
{
    let h = chars_of(hay);
    let n = chars_of(needle);
    if n.len() > h.len() {
        return false;
    }
    let last: usize = h.len() - n.len();
    let mut at: usize = 0;
    while at <= last
        invariant
            h@ == hay@,
            n@ == needle@,
            n.len() <= h.len(),
            last == h.len() - n.len(),
            at <= last + 1,
            forall|k: int| 0 <= k < at ==> !occurs_at(hay@, needle@, k),
        decreases last + 1 - at,
    {
        let mut j: usize = 0;
        while j < n.len() && h[at + j] == n[j]
            invariant
                h@ == hay@,
                n@ == needle@,
                at + n.len() <= h.len(),
                j <= n.len(),
                forall|k: int| 0 <= k < j ==> h@[at + k] == n@[k],
            decreases n.len() - j,
        {
            j += 1;
        }
        if j == n.len() {
            assert(hay@.subrange(at as int, at + needle@.len()) =~= needle@);
            assert(occurs_at(hay@, needle@, at as int));
            return true;
        }
        assert(!occurs_at(hay@, needle@, at as int)) by {
            if occurs_at(hay@, needle@, at as int) {
                assert(hay@.subrange(at as int, at + needle@.len())[j as int] == needle@[j as int]);
            }
        }
        at += 1;
    }
    false
}

/// Whether `needle` occurs in `hay` once both are put in lower case.
pub fn contains_ignoring_case(hay: &str, needle: &str) -> (found: bool)
    ensures
        found == contains_text(lowercase_of(hay@), lowercase_of(needle@)),
{
    let h = to_lowercase(hay);
    let n = to_lowercase(needle);
    contains(h.as_str(), n.as_str())
}

/// Keeps the first `limit` characters of `s`.
pub fn truncate(s: String, limit: usize) -> (r: String)
    ensures
        r@ == truncated(s@, limit as nat),
        r@.len() <= limit,
{
    if s.as_str().unicode_len() > limit {
        let head = s.as_str().substring_char(0, limit);
        String::from_str(head)
    } else {
        s
    }
}

/// The one-character text that writes the digit `d`.
fn digit_text(d: u64) -> (t: &'static str)
    requires
        d < 10,
    ensures
        t@ == seq![digit_char(d as int)],
{
    proof {
        reveal_strlit("0");
        reveal_strlit("1");
        reveal_strlit("2");
        reveal_strlit("3");
        reveal_strlit("4");
        reveal_strlit("5");
        reveal_strlit("6");
        reveal_strlit("7");
        reveal_strlit("8");
        reveal_strlit("9");
    }
    let t = if d == 0 {
        "0"
    } else if d == 1 {
        "1"
    } else if d == 2 {
        "2"
    } else if d == 3 {
        "3"
    } else if d == 4 {
        "4"
    } else if d == 5 {
        "5"
    } else if d == 6 {
        "6"
    } else if d == 7 {
        "7"
    } else if d == 8 {
        "8"
    } else {
        "9"
    };
    assert(t@ =~= seq![digit_char(d as int)]);
    t
}

/// Appends the decimal numeral of `n` to `out`.
fn push_decimal_nat(out: &mut String, n: u64)
    ensures
        final(out)@ == old(out)@ + decimal_nat(n as nat),
    decreases n,
{
    if n >= 10 {
        push_decimal_nat(out, n / 10);
    }
    out.append(digit_text(n % 10));
}

/// Appends the decimal numeral of `n` to `out`.
pub fn push_decimal(out: &mut String, n: i64)
    ensures
        final(out)@ == old(out)@ + decimal(n as int),
{
    if n < 0 {
        proof {
            reveal_strlit("-");
        }
        out.append("-");
        assert("-"@ =~= seq!['-']);
        let magnitude: u64 = if n == i64::MIN {
            0x8000_0000_0000_0000u64
        } else {
            (-n) as u64
        };
        push_decimal_nat(out, magnitude);
    } else {
        push_decimal_nat(out, n as u64);
    }
}

/// The decimal numeral of `n`.
pub fn decimal_text(n: i64) -> (t: String)
    ensures
        t@ == decimal(n as int),
{
    let mut t = String::new();
    push_decimal(&mut t, n);
    t
}

/// Whether `a` comes strictly before `b` in dictionary order.
pub fn comes_before(a: &str, b: &str) -> (before: bool)
    ensures
        before == lex_less(a@, b@),
{
    let x = chars_of(a);
    let y = chars_of(b);
    let mut i: usize = 0;
    assert(a@.skip(0) =~= a@ && b@.skip(0) =~= b@);
    while i < x.len() && i < y.len() && x[i] == y[i]
        invariant
            x@ == a@,
            y@ == b@,
            i <= x.len(),
            i <= y.len(),
            lex_less(a@, b@) == lex_less(a@.skip(i as int), b@.skip(i as int)),
        decreases x.len() - i,
    {
        proof {
            let p = a@.skip(i as int);
            let q = b@.skip(i as int);
            assert(p[0] == q[0]);
            assert(p.skip(1) =~= a@.skip(i + 1));
            assert(q.skip(1) =~= b@.skip(i + 1));
        }
        i += 1;
    }
    proof {
        let p = a@.skip(i as int);
        let q = b@.skip(i as int);
        if i < x.len() && i < y.len() {
            assert(p[0] == x@[i as int]);
            assert(q[0] == y@[i as int]);
        }
    }
    if i >= y.len() {
        false
    } else if i >= x.len() {
        true
    } else {
        (x[i] as u32) < (y[i] as u32)
    }
}

/// Piece number `n`, counted from zero, of `s` split at every `sep`.
pub fn nth_segment(s: &str, sep: char, n: usize) -> (piece: Option<String>)
    ensures
        piece is Some == segment(s@, sep, n as nat) is Some,
        piece matches Some(p) ==> Some(p@) == segment(s@, sep, n as nat),
{
    let c = chars_of(s);
    let mut start: usize = 0;
    let mut left: usize = n;
    assert(s@.skip(0) =~= s@);
    loop
        invariant
            c@ == s@,
            start <= c.len(),
            left <= n,
            segment(s@, sep, n as nat) == segment(s@.skip(start as int), sep, left as nat),
        decreases left,
    {
        let mut end: usize = start;
        while end < c.len() && c[end] != sep
            invariant
                c@ == s@,
                start <= end <= c.len(),
                forall|k: int| start <= k < end ==> s@[k] != sep,
            decreases c.len() - end,
        {
            end += 1;
        }
        proof {
            let rest = s@.skip(start as int);
            assert forall|k: int| 0 <= k < end - start implies rest[k] != sep by {
                assert(rest[k] == s@[start + k]);
            }
            first_index_found(rest, sep, end - start);
            assert(rest.take(end - start) =~= s@.subrange(start as int, end as int));
            if end < c.len() {
                assert(rest.skip(end - start + 1) =~= s@.skip(end + 1));
            }
        }
        if left == 0 {
            let piece = s.substring_char(start, end);
            return Some(String::from_str(piece));
        }
        if end >= c.len() {
            return None;
        }
        start = end + 1;
        left -= 1;
    }
}

/// The piece of `s` before its first `sep`; all of `s` when it has none.
pub fn first_segment(s: &str, sep: char) -> (piece: String)
    ensures
        piece@ == leading_segment(s@, sep),
{
    match nth_segment(s, sep, 0) {
        Some(p) => p,
        None => String::new(),
    }
}

/// Whether two texts hold the same characters.
pub fn same_text(a: &str, b: &str) -> (same: bool)
    ensures
        same == (a@ == b@),
{
    let x = chars_of(a);
    let y = chars_of(b);
    if x.len() != y.len() {
        return false;
    }
    let mut i: usize = 0;
    while i < x.len()
        invariant
            x@ == a@,
            y@ == b@,
            x.len() == y.len(),
            i <= x.len(),
            forall|k: int| 0 <= k < i ==> a@[k] == b@[k],
        decreases x.len() - i,
    {
        if x[i] != y[i] {
            return false;
        }
        i += 1;
    }
    assert(a@ =~= b@);
    true
}

} // verus!
