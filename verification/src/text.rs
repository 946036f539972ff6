//! Character-level text helpers: Unicode white space, trimming,
//! equality of string slices, and UTF-16 encoding.

use vstd::prelude::*;

verus! {

/// The Unicode `White_Space` property (PropList.txt), the set that
/// `char::is_whitespace` and `str::trim` go by.
pub open spec fn is_white_space(c: char) -> bool {
    let u = c as u32;
    ||| (0x09 <= u && u <= 0x0d)
    ||| u == 0x20
    ||| u == 0x85
    ||| u == 0xa0
    ||| u == 0x1680
    ||| (0x2000 <= u && u <= 0x200a)
    ||| u == 0x2028
    ||| u == 0x2029
    ||| u == 0x202f
    ||| u == 0x205f
    ||| u == 0x3000
}

/// Some character of `s` is white space.
pub open spec fn has_white_space(s: Seq<char>) -> bool {
    exists|i: int| 0 <= i < s.len() && is_white_space(#[trigger] s[i])
}

/// `s` without its leading white space.
pub open spec fn trim_start(s: Seq<char>) -> Seq<char>
    decreases s.len(),
{
    if s.len() > 0 && is_white_space(s[0]) {
        trim_start(s.drop_first())
    } else {
        s
    }
}

/// `s` without its trailing white space.
pub open spec fn trim_end(s: Seq<char>) -> Seq<char>
    decreases s.len(),
{
    if s.len() > 0 && is_white_space(s.last()) {
        trim_end(s.drop_last())
    } else {
        s
    }
}

/// `s` without its leading and trailing white space, as `str::trim` gives it.
pub open spec fn trim(s: Seq<char>) -> Seq<char> {
    trim_end(trim_start(s))
}

/// Dropping a white-space prefix does not change `trim_start`.
pub proof fn lemma_trim_start_skip(s: Seq<char>, i: int)
    requires
        0 <= i <= s.len(),
        forall|k: int| 0 <= k < i ==> is_white_space(#[trigger] s[k]),
    ensures
        trim_start(s) == trim_start(s.subrange(i, s.len() as int)),
    decreases i,
{
    if i == 0 {
        assert(s.subrange(0, s.len() as int) =~= s);
    } else {
        assert(is_white_space(s[0]));
        let t = s.drop_first();
        assert forall|k: int| 0 <= k < i - 1 implies is_white_space(#[trigger] t[k]) by {
            assert(t[k] == s[k + 1]);
        }
        lemma_trim_start_skip(t, i - 1);
        assert(t.subrange(i - 1, t.len() as int) =~= s.subrange(i, s.len() as int));
    }
}

/// Dropping a white-space suffix does not change `trim_end`.
pub proof fn lemma_trim_end_skip(s: Seq<char>, j: int)
    requires
        0 <= j <= s.len(),
        forall|k: int| j <= k < s.len() ==> is_white_space(#[trigger] s[k]),
    ensures
        trim_end(s) == trim_end(s.subrange(0, j)),
    decreases s.len() - j,
{
    if j == s.len() {
        assert(s.subrange(0, j) =~= s);
    } else {
        assert(is_white_space(s.last()));
        let t = s.drop_last();
        assert forall|k: int| j <= k < t.len() implies is_white_space(#[trigger] t[k]) by {
            assert(t[k] == s[k]);
        }
        lemma_trim_end_skip(t, j);
        assert(t.subrange(0, j) =~= s.subrange(0, j));
    }
}

/// A sequence of white space trims to nothing.
pub proof fn lemma_trim_start_all_white(s: Seq<char>)
    requires
        forall|k: int| 0 <= k < s.len() ==> is_white_space(#[trigger] s[k]),
    ensures
        trim_start(s).len() == 0,
{
    lemma_trim_start_skip(s, s.len() as int);
    assert(s.subrange(s.len() as int, s.len() as int) =~= Seq::<char>::empty());
}

/// White space after `s` does not change what trimming keeps of `s`.
pub proof fn lemma_trim_white_suffix(s: Seq<char>, q: Seq<char>)
    requires
        forall|k: int| 0 <= k < q.len() ==> is_white_space(#[trigger] q[k]),
    ensures
        trim(s + q) == trim(s),
    decreases s.len(),
{
    if s.len() == 0 {
        assert(s + q =~= q);
        lemma_trim_start_all_white(q);
        assert(trim_start(q) =~= Seq::<char>::empty());
        assert(trim_start(s) =~= Seq::<char>::empty());
    } else if is_white_space(s[0]) {
        assert((s + q).drop_first() =~= s.drop_first() + q);
        assert((s + q)[0] == s[0]);
        lemma_trim_white_suffix(s.drop_first(), q);
    } else {
        assert((s + q)[0] == s[0]);
        let sq = s + q;
        assert forall|k: int| s.len() <= k < sq.len() implies is_white_space(#[trigger] sq[k]) by {
            assert(sq[k] == q[k - s.len()]);
        }
        lemma_trim_end_skip(sq, s.len() as int);
        assert(sq.subrange(0, s.len() as int) =~= s);
    }
}

/// White space before and after `s` does not change what trimming keeps.
pub proof fn lemma_trim_white_padding(p: Seq<char>, s: Seq<char>, q: Seq<char>)
    requires
        forall|k: int| 0 <= k < p.len() ==> is_white_space(#[trigger] p[k]),
        forall|k: int| 0 <= k < q.len() ==> is_white_space(#[trigger] q[k]),
    ensures
        trim(p + s + q) == trim(s),
{
    let x = p + s + q;
    assert forall|k: int| 0 <= k < p.len() implies is_white_space(#[trigger] x[k]) by {
        assert(x[k] == p[k]);
    }
    lemma_trim_start_skip(x, p.len() as int);
    assert(x.subrange(p.len() as int, x.len() as int) =~= s + q);
    lemma_trim_white_suffix(s, q);
}

/// Whether `c` has the Unicode `White_Space` property.
pub fn is_whitespace(c: char) -> (res: bool)
    ensures
        res == is_white_space(c),
{
    let u: u32 = c as u32;
    (0x09 <= u && u <= 0x0d) || u == 0x20 || u == 0x85 || u == 0xa0 || u == 0x1680 || (0x2000
        <= u && u <= 0x200a) || u == 0x2028 || u == 0x2029 || u == 0x202f || u == 0x205f || u
        == 0x3000
}

/// The characters of `s`, in order.
pub fn chars_of(s: &str) -> (res: Vec<char>)
    ensures
        res@ == s@,
{
    let mut res: Vec<char> = Vec::new();
    for c in it: s.chars()
        invariant
            res@ == it.seq().take(it.index() as int),
    {
        res.push(c);
    }
    res
}


/// The bounds `(i, j)` of the part of `s` that `trim` keeps.
pub fn trimmed_bounds(s: &Vec<char>) -> (res: (usize, usize))
    ensures
        res.0 <= res.1 <= s@.len(),
        s@.subrange(res.0 as int, res.1 as int) == trim(s@),
{
    let n: usize = s.len();
    let mut i: usize = 0;
    while i < n && is_whitespace(s[i])
        invariant
            i <= n == s@.len(),
            forall|k: int| 0 <= k < i ==> is_white_space(#[trigger] s@[k]),
        decreases n - i,
    {
        i = i + 1;
    }
    proof {
        lemma_trim_start_skip(s@, i as int);
    }
    let ghost rest = s@.subrange(i as int, n as int);
    assert(trim_start(rest) == rest);
    let mut j: usize = n;
    while j > i && is_whitespace(s[j - 1])
        invariant
            i <= j <= n == s@.len(),
            forall|k: int| j <= k < n ==> is_white_space(#[trigger] s@[k]),
        decreases j - i,
    {
        j = j - 1;
    }
    proof {
        let r = rest;
        assert forall|k: int| j - i <= k < r.len() implies is_white_space(#[trigger] r[k]) by {
            assert(r[k] == s@[k + i]);
        }
        lemma_trim_end_skip(r, j - i);
        assert(r.subrange(0, j - i) =~= s@.subrange(i as int, j as int));
    }
    (i, j)
}

/// Whether some character of `s[from..to]` is white space.
pub fn any_whitespace(s: &Vec<char>, from: usize, to: usize) -> (res: bool)
    requires
        from <= to <= s@.len(),
    ensures
        res == has_white_space(s@.subrange(from as int, to as int)),
{
    let ghost t = s@.subrange(from as int, to as int);
    let mut k: usize = from;
    while k < to
        invariant
            from <= k <= to <= s@.len(),
            t == s@.subrange(from as int, to as int),
            forall|m: int| from <= m < k ==> !is_white_space(#[trigger] s@[m]),
        decreases to - k,
    {
        if is_whitespace(s[k]) {
            assert(t[k - from] == s@[k as int]);
            return true;
        }
        k = k + 1;
    }
    assert forall|m: int| 0 <= m < t.len() implies !is_white_space(#[trigger] t[m]) by {
        assert(t[m] == s@[m + from]);
    }
    false
}

/// Whether two string slices hold the same characters.
pub fn text_eq(a: &str, b: &str) -> (res: bool)
    ensures
        res == (a@ == b@),
{
    let x = chars_of(a);
    let y = chars_of(b);
    if x.len() != y.len() {
        return false;
    }
    let mut k: usize = 0;
    while k < x.len()
        invariant
            x@ == a@,
            y@ == b@,
            x@.len() == y@.len(),
            k <= x@.len(),
            forall|m: int| 0 <= m < k ==> x@[m] == y@[m],
        decreases x.len() - k,
    {
        if x[k] != y[k] {
            return false;
        }
        k = k + 1;
    }
    assert(x@ =~= y@);
    true
}

/// The UTF-16 code units of one character: itself below U+10000,
/// otherwise a high and a low surrogate.
pub open spec fn utf16_of_char(c: char) -> Seq<u16> {
    let u = c as u32;
    if u < 0x10000 {
        seq![u as u16]
    } else {
        let v = u - 0x10000;
        seq![(0xd800 + v / 0x400) as u16, (0xdc00 + v % 0x400) as u16]
    }
}

/// The UTF-16 encoding of `s`, as `str::encode_utf16` yields it.
pub open spec fn utf16_of(s: Seq<char>) -> Seq<u16>
    decreases s.len(),
{
    if s.len() == 0 {
        seq![]
    } else {
        utf16_of(s.drop_last()) + utf16_of_char(s.last())
    }
}

/// Text without NUL characters encodes to UTF-16 without zero units, so a
/// reader that stops at the first zero, as the clipboard's does, reads all
/// of it.
pub proof fn law_no_early_terminator(s: Seq<char>)
    requires
        forall|i: int| 0 <= i < s.len() ==> (#[trigger] s[i]) as u32 != 0,
    ensures
        forall|k: int| 0 <= k < utf16_of(s).len() ==> #[trigger] utf16_of(s)[k] != 0,
    decreases s.len(),
{
    if s.len() > 0 {
        let init = s.drop_last();
        assert forall|i: int| 0 <= i < init.len() implies (#[trigger] init[i]) as u32 != 0 by {
            assert(init[i] == s[i]);
        }
        law_no_early_terminator(init);
        let e = utf16_of(s);
        let a = utf16_of(init);
        let b = utf16_of_char(s.last());
        assert(e == a + b);
        assert(s.last() as u32 != 0);
        assert forall|k: int| 0 <= k < e.len() implies #[trigger] e[k] != 0 by {
            if k < a.len() {
                assert(e[k] == a[k]);
            } else {
                assert(e[k] == b[k - a.len()]);
                let u = s.last() as u32;
                vstd::utf8::char_is_scalar(s.last());
                if u < 0x10000 {
                    assert(b[0] == u as u16);
                } else {
                    let v = u - 0x10000;
                    assert(v / 0x400 < 0x400);
                    assert(v % 0x400 < 0x400);
                    assert(b[0] == (0xd800 + v / 0x400) as u16);
                    assert(b[1] == (0xdc00 + v % 0x400) as u16);
                }
            }
        }
    }
}

/// The UTF-16 encoding of `value`.
pub fn encode_utf16(value: &str) -> (res: Vec<u16>)
    ensures
        res@ == utf16_of(value@),
{
    let cs = chars_of(value);
    let mut res: Vec<u16> = Vec::new();
    let mut k: usize = 0;
    while k < cs.len()
        invariant
            cs@ == value@,
            k <= cs@.len(),
            res@ == utf16_of(cs@.take(k as int)),
        decreases cs.len() - k,
    {
        let c = cs[k];
        let u: u32 = c as u32;
        if u < 0x10000 {
            res.push(u as u16);
        } else {
            let v: u32 = u - 0x10000;
            res.push((0xd800 + v / 0x400) as u16);
            res.push((0xdc00 + v % 0x400) as u16);
        }
        assert(cs@.take(k + 1).drop_last() =~= cs@.take(k as int));
        k = k + 1;
    }
    assert(cs@.take(cs.len() as int) =~= cs@);
    res
}

/// The UTF-16 encoding of `value` followed by a terminating zero unit.
pub fn to_wide(value: &str) -> (res: Vec<u16>)
    ensures
        res@ == utf16_of(value@).push(0),
{
    let mut res = encode_utf16(value);
    res.push(0);
    res
}

/// Fills `target` with the UTF-16 encoding of `value`, cut to the length of
/// `target`, and zeros after it.
pub fn copy_wide(value: &str, target: &mut [u16])
    ensures
        final(target)@.len() == old(target)@.len(),
        forall|i: int|
            0 <= i < final(target)@.len() ==> #[trigger] final(target)@[i] == (if i < utf16_of(
                value@,
            ).len() {
                utf16_of(value@)[i]
            } else {
                0
            }),
{
    let encoded = encode_utf16(value);
    let n: usize = target.len();
    let mut k: usize = 0;
    while k < n
        invariant
            encoded@ == utf16_of(value@),
            n == target@.len() == old(target)@.len(),
            k <= n,
            forall|i: int|
                0 <= i < k ==> #[trigger] target@[i] == (if i < encoded@.len() {
                    encoded@[i]
                } else {
                    0
                }),
        decreases n - k,
    {
        if k < encoded.len() {
            target[k] = encoded[k];
        } else {
            target[k] = 0;
        }
        k = k + 1;
    }
}

/// Appends `c` to `s` with `String::push`.  The contract claims what the
/// standard library documents: `c` is added at the end.
#[verifier::external_body]
pub fn push_char(s: &mut String, c: char)
    ensures
        final(s)@ == old(s)@.push(c),
{
    s.push(c);
}

/// The low 16 bits of a message parameter.
pub fn loword(value: usize) -> (res: u16)
    ensures
        res == value % 0x10000,
{
    assert(value & 0xffff == value % 0x10000) by (bit_vector);
    (value & 0xffff) as u16
}

/// Bits 16 to 31 of a message parameter.
pub fn hiword(value: usize) -> (res: u16)
    ensures
        res == (value / 0x10000) % 0x10000,
{
    assert((value >> 16) & 0xffff == (value / 0x10000) % 0x10000) by (bit_vector);
    ((value >> 16) & 0xffff) as u16
}

} // verus!
