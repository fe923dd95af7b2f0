//! Character and string utilities shared by the key translator and the
//! response formatters: character classification, substring search over
//! character vectors, and decimal rendering of integers.

use vstd::prelude::*;
use vstd::string::*;

verus! {

// ---------------------------------------------------------------------------
// Whitespace
// ---------------------------------------------------------------------------

/// The Unicode `White_Space` characters, as `char::is_whitespace` accepts them.
pub open spec fn spec_is_whitespace(c: char) -> bool {
    c == ' ' || c == '\t' || c == '\n' || c == '\r' || c == '\u{b}' || c == '\u{c}'
        || c == '\u{85}' || c == '\u{a0}' || c == '\u{1680}' || ('\u{2000}' <= c && c
        <= '\u{200a}') || c == '\u{2028}' || c == '\u{2029}' || c == '\u{202f}' || c == '\u{205f}'
        || c == '\u{3000}'
}

pub fn is_whitespace_char(c: char) -> (r: bool)
    ensures
        r == spec_is_whitespace(c),
{
    c == ' ' || c == '\t' || c == '\n' || c == '\r' || c == '\u{b}' || c == '\u{c}' || c == '\u{85}'
        || c == '\u{a0}' || c == '\u{1680}' || ('\u{2000}' <= c && c <= '\u{200a}') || c
        == '\u{2028}' || c == '\u{2029}' || c == '\u{202f}' || c == '\u{205f}' || c == '\u{3000}'
}

// ---------------------------------------------------------------------------
// Collecting the characters of a string slice
// ---------------------------------------------------------------------------

/// Collect the characters of a string slice into a vector with the same view.
pub fn chars_of(s: &str) -> (r: Vec<char>)
    ensures
        r@ == s@,
{
    let n: usize = s.unicode_len();
    let mut v: Vec<char> = Vec::new();
    let mut i: usize = 0;
    while i < n
        invariant
            n == s@.len(),
            i <= n,
            v@ == s@.subrange(0, i as int),
        decreases n - i,
    {
        let c = s.get_char(i);
        v.push(c);
        proof {
            assert(s@.subrange(0, i as int).push(s@[i as int]) =~= s@.subrange(0, i + 1));
        }
        i = i + 1;
    }
    proof {
        assert(s@.subrange(0, n as int) =~= s@);
    }
    v
}

// ---------------------------------------------------------------------------
// Equality with a string slice
// ---------------------------------------------------------------------------

/// Whether the characters in `v` spell exactly the string `lit`.
pub fn eq_lit(v: &Vec<char>, lit: &str) -> (r: bool)
    ensures
        r == (v@ == lit@),
{
    let n: usize = lit.unicode_len();
    if v.len() != n {
        proof {
            assert(v@ != lit@) by {
                if v@ == lit@ {
                    assert(v@.len() == lit@.len());
                }
            }
        }
        return false;
    }
    let mut i: usize = 0;
    while i < n
        invariant
            n == lit@.len(),
            v@.len() == n,
            i <= n,
            forall|j: int| 0 <= j < i ==> v@[j] == lit@[j],
        decreases n - i,
    {
        if v[i] != lit.get_char(i) {
            proof {
                assert(v@ != lit@) by {
                    if v@ == lit@ {
                        assert(v@[i as int] == lit@[i as int]);
                    }
                }
            }
            return false;
        }
        i = i + 1;
    }
    proof {
        assert(v@ =~= lit@);
    }
    true
}

// ---------------------------------------------------------------------------
// Containment of a single character
// ---------------------------------------------------------------------------

pub fn contains_char(v: &Vec<char>, c: char) -> (r: bool)
    ensures
        r == v@.contains(c),
{
    let mut i: usize = 0;
    while i < v.len()
        invariant
            i <= v@.len(),
            forall|j: int| 0 <= j < i ==> v@[j] != c,
        decreases v@.len() - i,
    {
        if v[i] == c {
            return true;
        }
        i = i + 1;
    }
    false
}

// ---------------------------------------------------------------------------
// Counting occurrences of a character
// ---------------------------------------------------------------------------

pub open spec fn count_char(s: Seq<char>, c: char) -> nat
    decreases s.len(),
{
    if s.len() == 0 {
        0
    } else {
        (if s[0] == c {
            1nat
        } else {
            0nat
        }) + count_char(s.skip(1), c)
    }
}

/// A sequence without `c` has zero occurrences of `c`.
pub proof fn lemma_count_zero(s: Seq<char>, c: char)
    requires
        !s.contains(c),
    ensures
        count_char(s, c) == 0,
    decreases s.len(),
{
    if s.len() > 0 {
        assert(!s.skip(1).contains(c)) by {
            if s.skip(1).contains(c) {
                let i = choose|i: int| 0 <= i < s.skip(1).len() && s.skip(1)[i] == c;
                assert(s[i + 1] == c);
            }
        }
        lemma_count_zero(s.skip(1), c);
    }
}

pub fn count_char_exec(v: &Vec<char>, c: char) -> (r: usize)
    ensures
        r == count_char(v@, c),
{
    let mut cnt: usize = 0;
    let mut i: usize = 0;
    proof {
        assert(v@.skip(0) =~= v@);
    }
    while i < v.len()
        invariant
            i <= v@.len(),
            cnt <= i,
            count_char(v@, c) == cnt + count_char(v@.skip(i as int), c),
        decreases v@.len() - i,
    {
        proof {
            assert(v@.skip(i as int).len() > 0);
            assert(v@.skip(i as int)[0] == v@[i as int]);
            assert(v@.skip(i as int).skip(1) =~= v@.skip(i + 1));
        }
        if v[i] == c {
            cnt = cnt + 1;
        }
        i = i + 1;
    }
    proof {
        assert(v@.skip(v@.len() as int) =~= Seq::<char>::empty());
    }
    cnt
}

// ---------------------------------------------------------------------------
// Substring containment and prefixes
// ---------------------------------------------------------------------------

/// Whether `sub` occurs contiguously somewhere in `s`.
pub open spec fn has_sub(s: Seq<char>, sub: Seq<char>) -> bool {
    exists|i: int|
        0 <= i && i + sub.len() <= s.len() && #[trigger] s.subrange(i, i + sub.len() as int) == sub
}

/// Whether `p` is a prefix of `s`.
pub open spec fn has_prefix(s: Seq<char>, p: Seq<char>) -> bool {
    p.len() <= s.len() && s.subrange(0, p.len() as int) == p
}

/// A sequence that lacks a character of `sub` cannot contain `sub`.
pub proof fn lemma_no_sub_by_char(s: Seq<char>, sub: Seq<char>, bad: char)
    requires
        sub.contains(bad),
        !s.contains(bad),
    ensures
        !has_sub(s, sub),
{
    if has_sub(s, sub) {
        let i = choose|i: int|
            0 <= i && i + sub.len() <= s.len() && #[trigger] s.subrange(i, i + sub.len() as int)
                == sub;
        let j = choose|j: int| 0 <= j < sub.len() && sub[j] == bad;
        assert(s.subrange(i, i + sub.len() as int)[j] == sub[j]);
        assert(s[i + j] == bad);
    }
}

/// A sequence in which no valid start position carries the first character
/// of `sub` cannot contain `sub`.
pub proof fn lemma_no_sub_by_start(s: Seq<char>, sub: Seq<char>)
    requires
        sub.len() >= 1,
        forall|i: int| 0 <= i && i + sub.len() <= s.len() ==> s[i] != sub[0],
    ensures
        !has_sub(s, sub),
{
    if has_sub(s, sub) {
        let i = choose|i: int|
            0 <= i && i + sub.len() <= s.len() && #[trigger] s.subrange(i, i + sub.len() as int)
                == sub;
        assert(s.subrange(i, i + sub.len() as int)[0] == sub[0]);
        assert(s[i] == sub[0]);
    }
}

/// Whether the characters of `sub` occur contiguously at position `i` of `v`.
fn matches_at(v: &Vec<char>, sub: &Vec<char>, i: usize) -> (r: bool)
    requires
        i + sub@.len() <= v@.len(),
    ensures
        r == (v@.subrange(i as int, i + sub@.len()) == sub@),
{
    let m: usize = sub.len();
    let n: usize = v.len();
    let mut j: usize = 0;
    while j < m
        invariant
            m == sub@.len(),
            n == v@.len(),
            i + m <= v@.len(),
            j <= m,
            forall|k: int| 0 <= k < j ==> v@[i + k] == sub@[k],
        decreases m - j,
    {
        if v[i + j] != sub[j] {
            proof {
                assert(v@.subrange(i as int, i + sub@.len()) != sub@) by {
                    if v@.subrange(i as int, i + sub@.len()) == sub@ {
                        assert(v@.subrange(i as int, i + sub@.len())[j as int] == sub@[j as int]);
                    }
                }
            }
            return false;
        }
        j = j + 1;
    }
    proof {
        assert(v@.subrange(i as int, i + sub@.len()) =~= sub@);
    }
    true
}

/// Whether the string `sub` occurs contiguously in the characters of `v`.
pub fn contains_sub(v: &Vec<char>, sub: &str) -> (r: bool)
    ensures
        r == has_sub(v@, sub@),
{
    let subv = chars_of(sub);
    let m: usize = subv.len();
    if m == 0 {
        proof {
            assert(v@.subrange(0, 0 + sub@.len() as int) =~= sub@);
            assert(0 <= 0 && 0 + sub@.len() <= v@.len() && v@.subrange(0, 0 + sub@.len() as int)
                == sub@);
        }
        return true;
    }
    if m > v.len() {
        proof {
            assert(!has_sub(v@, sub@)) by {
                if has_sub(v@, sub@) {
                    let i = choose|i: int|
                        0 <= i && i + sub@.len() <= v@.len() && #[trigger] v@.subrange(
                            i,
                            i + sub@.len() as int,
                        ) == sub@;
                }
            }
        }
        return false;
    }
    let mut i: usize = 0;
    let last: usize = v.len() - m;
    while i <= last
        invariant
            subv@ == sub@,
            m == sub@.len(),
            1 <= m <= v@.len(),
            v@.len() <= usize::MAX,
            last == v@.len() - m,
            i <= last + 1,
            forall|k: int| 0 <= k < i ==> #[trigger] v@.subrange(k, k + sub@.len() as int) != sub@,
        decreases last + 1 - i,
    {
        if matches_at(v, &subv, i) {
            proof {
                assert(has_sub(v@, sub@)) by {
                    assert(0 <= i as int && i as int + sub@.len() <= v@.len() && v@.subrange(
                        i as int,
                        i as int + sub@.len() as int,
                    ) == sub@);
                }
            }
            return true;
        }
        i = i + 1;
    }
    proof {
        assert(!has_sub(v@, sub@)) by {
            if has_sub(v@, sub@) {
                let k = choose|k: int|
                    0 <= k && k + sub@.len() <= v@.len() && #[trigger] v@.subrange(
                        k,
                        k + sub@.len() as int,
                    ) == sub@;
                assert(k < i);
            }
        }
    }
    false
}

/// Whether the characters of `v` start with the string `p`.
pub fn starts_with_lit(v: &Vec<char>, p: &str) -> (r: bool)
    ensures
        r == has_prefix(v@, p@),
{
    let pv = chars_of(p);
    if pv.len() > v.len() {
        return false;
    }
    matches_at(v, &pv, 0)
}

// ---------------------------------------------------------------------------
// Decimal rendering
// ---------------------------------------------------------------------------

/// The decimal digit character for `d` (`d < 10`).
pub open spec fn digit_char(d: nat) -> char {
    ((48 + d) as u8) as char
}

/// The decimal rendering of `n`, most significant digit first.
pub open spec fn dec_str(n: nat) -> Seq<char>
    decreases n,
{
    if n < 10 {
        seq![digit_char(n)]
    } else {
        dec_str(n / 10) + seq![digit_char(n % 10)]
    }
}

/// Relies on `String::push`: appends the given character to the string.
#[verifier::external_body]
fn push_char(s: &mut String, c: char)
    ensures
        final(s)@ == old(s)@ + seq![c],
{
    s.push(c);
}

/// A one-character string.
pub fn string_of_char(c: char) -> (r: String)
    ensures
        r@ == seq![c],
{
    let mut s = String::new();
    push_char(&mut s, c);
    proof {
        assert(Seq::<char>::empty() + seq![c] =~= seq![c]);
    }
    s
}

fn digit_of(d: u64) -> (r: char)
    requires
        d < 10,
    ensures
        r == digit_char(d as nat),
{
    let b: u8 = 48 + (d as u8);
    b as char
}

/// Render `n` in decimal.
pub fn u64_to_string(n: u64) -> (r: String)
    ensures
        r@ == dec_str(n as nat),
    decreases n,
{
    if n < 10 {
        string_of_char(digit_of(n))
    } else {
        proof {
            assert(n / 10 < n) by (nonlinear_arith)
                requires
                    n >= 10,
            ;
        }
        let mut s = u64_to_string(n / 10);
        let d = string_of_char(digit_of(n % 10));
        s.append(d.as_str());
        s
    }
}

} // verus!
