//! Characters and strings: whitespace, trimming, and conversion between
//! strings and vectors of characters.

use vstd::prelude::*;

verus! {

/// `String::push` appends one character to the end of the string.
pub assume_specification[ String::push ](s: &mut String, c: char)
    ensures
        final(s)@ == old(s)@.push(c),
;

/// Whether `c` has the Unicode property `White_Space`.
pub open spec fn is_whitespace_spec(c: char) -> bool {
    let n = c as u32;
    ||| 0x09 <= n <= 0x0D
    ||| n == 0x20
    ||| n == 0x85
    ||| n == 0xA0
    ||| n == 0x1680
    ||| 0x2000 <= n <= 0x200A
    ||| n == 0x2028
    ||| n == 0x2029
    ||| n == 0x202F
    ||| n == 0x205F
    ||| n == 0x3000
}

/// `s` without its leading whitespace.
pub open spec fn trim_start(s: Seq<char>) -> Seq<char>
    decreases s.len(),
{
    if s.len() > 0 && is_whitespace_spec(s[0]) {
        trim_start(s.skip(1))
    } else {
        s
    }
}

/// `s` without its trailing whitespace.
pub open spec fn trim_end(s: Seq<char>) -> Seq<char>
    decreases s.len(),
{
    if s.len() > 0 && is_whitespace_spec(s.last()) {
        trim_end(s.drop_last())
    } else {
        s
    }
}

/// `s` without its leading and trailing whitespace.
pub open spec fn trim(s: Seq<char>) -> Seq<char> {
    trim_end(trim_start(s))
}

/// Whether `c` has the Unicode property `White_Space`.
pub fn is_whitespace(c: char) -> (b: bool)
    ensures
        b == is_whitespace_spec(c),
{
    let n: u32 = c as u32;
    (0x09 <= n && n <= 0x0D) || n == 0x20 || n == 0x85 || n == 0xA0 || n == 0x1680 || (0x2000 <= n
        && n <= 0x200A) || n == 0x2028 || n == 0x2029 || n == 0x202F || n == 0x205F || n == 0x3000
}

/// The characters of `s`, in order.
pub fn chars_of(s: &str) -> (v: Vec<char>)
    ensures
        v@ == s@,
{
    let mut v: Vec<char> = Vec::new();
    for c in it: s.chars()
        invariant
            v@ == it.seq().take(it.index() as int),
            it.seq() == s@,
    {
        v.push(c);
    }
    v
}

/// Whether `a` and `b` are the same text.
pub fn same_text(a: &str, b: &str) -> (same: bool)
    ensures
        same == (a@ == b@),
{
    let x = chars_of(a);
    let y = chars_of(b);
    if x.len() != y.len() {
        return false;
    }
    let mut i: usize = 0;
    while i < x.len()
        invariant
            i <= x.len() == y.len(),
            x@ == a@,
            y@ == b@,
            x@.take(i as int) == y@.take(i as int),
        decreases x.len() - i,
    {
        if x[i] != y[i] {
            return false;
        }
        assert(x@.take(i + 1) =~= x@.take(i as int).push(x@[i as int]));
        assert(y@.take(i + 1) =~= y@.take(i as int).push(y@[i as int]));
        i += 1;
    }
    assert(x@.take(i as int) =~= x@);
    assert(y@.take(i as int) =~= y@);
    true
}

/// The string made of the characters `v[from..to]`.
pub fn string_of(v: &Vec<char>, from: usize, to: usize) -> (s: String)
    requires
        from <= to <= v.len(),
    ensures
        s@ == v@.subrange(from as int, to as int),
{
    let mut s = String::new();
    let mut i: usize = from;
    while i < to
        invariant
            from <= i <= to <= v.len(),
            s@ == v@.subrange(from as int, i as int),
        decreases to - i,
    {
        s.push(v[i]);
        i += 1;
        assert(v@.subrange(from as int, i as int) =~= v@.subrange(from as int, i - 1).push(
            v@[i - 1],
        ));
    }
    s
}

/// The bounds of `v` without its leading and trailing whitespace.
pub fn trim_bounds(v: &Vec<char>) -> (bounds: (usize, usize))
    ensures
        bounds.0 <= bounds.1 <= v.len(),
        v@.subrange(bounds.0 as int, bounds.1 as int) == trim(v@),
{
    let n = v.len();
    let mut a: usize = 0;
    assert(v@.subrange(0, n as int) =~= v@);
    while a < n && is_whitespace(v[a])
        invariant
            a <= n == v.len(),
            trim_start(v@) == trim_start(v@.subrange(a as int, n as int)),
        decreases n - a,
    {
        assert(v@.subrange(a as int, n as int).skip(1) =~= v@.subrange(a + 1, n as int));
        a += 1;
    }
    let mut b: usize = n;
    while b > a && is_whitespace(v[b - 1])
        invariant
            a <= b <= n == v.len(),
            trim(v@) == trim_end(v@.subrange(a as int, b as int)),
        decreases b,
    {
        assert(v@.subrange(a as int, b as int).drop_last() =~= v@.subrange(a as int, b - 1));
        b -= 1;
    }
    (a, b)
}

} // verus!
