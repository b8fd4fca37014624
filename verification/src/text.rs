//! Small text helpers: rendering a number in decimal, and trimming
//! surrounding blanks from user input.

use vstd::prelude::*;

verus! {

/// The character for one decimal digit.
pub open spec fn digit_char(d: int) -> char {
    if d == 0 {
        '0'
    } else if d == 1 {
        '1'
    } else if d == 2 {
        '2'
    } else if d == 3 {
        '3'
    } else if d == 4 {
        '4'
    } else if d == 5 {
        '5'
    } else if d == 6 {
        '6'
    } else if d == 7 {
        '7'
    } else if d == 8 {
        '8'
    } else {
        '9'
    }
}

/// The decimal digits of a number, most significant first.
pub open spec fn dec_digits(n: int) -> Seq<char>
    decreases n,
{
    if n < 10 {
        seq![digit_char(n)]
    } else {
        dec_digits(n / 10).push(digit_char(n % 10))
    }
}

/// The string of one decimal digit.
fn digit_str(d: u64) -> (r: String)
    requires
        d < 10,
    ensures
        r@ == seq![digit_char(d as int)],
{
    proof {
        reveal_strlit("0");
        reveal_strlit("1");
        reveal_strlit("2");
        reveal_strlit("3");
        reveal_strlit("4");
        reveal_strlit("5");
        reveal_strlit("6");
        reveal_strlit("7");
        reveal_strlit("8");
        reveal_strlit("9");
    }
    let r = if d == 0 {
        "0"
    } else if d == 1 {
        "1"
    } else if d == 2 {
        "2"
    } else if d == 3 {
        "3"
    } else if d == 4 {
        "4"
    } else if d == 5 {
        "5"
    } else if d == 6 {
        "6"
    } else if d == 7 {
        "7"
    } else if d == 8 {
        "8"
    } else {
        "9"
    };
    assert(r@ =~= seq![digit_char(d as int)]);
    r.to_owned()
}

/// Renders a number in decimal.
pub fn u64_to_string(n: u64) -> (r: String)
    ensures
        r@ == dec_digits(n as int),
    decreases n,
{
    if n < 10 {
        digit_str(n)
    } else {
        let mut s = u64_to_string(n / 10);
        let d = digit_str(n % 10);
        s.append(d.as_str());
        assert(s@ =~= dec_digits(n as int));
        s
    }
}

/// Renders a number in decimal.
pub fn u32_to_string(n: u32) -> (r: String)
    ensures
        r@ == dec_digits(n as int),
{
    u64_to_string(n as u64)
}

/// A blank character: space, tab, or line break.
pub open spec fn is_blank(c: char) -> bool {
    c == ' ' || c == '\t' || c == '\n' || c == '\r'
}

/// The first position at or after `k` holding a non-blank character, or
/// the length when there is none.
pub open spec fn skip_blank(s: Seq<char>, k: int) -> int
    decreases s.len() - k,
{
    if k < 0 || k >= s.len() {
        s.len() as int
    } else if is_blank(s[k]) {
        skip_blank(s, k + 1)
    } else {
        k
    }
}

/// One past the last non-blank character at or before position `k - 1`, or
/// zero when there is none.
pub open spec fn rskip_blank(s: Seq<char>, k: int) -> int
    decreases k,
{
    if k <= 0 || k > s.len() {
        0
    } else if is_blank(s[k - 1]) {
        rskip_blank(s, k - 1)
    } else {
        k
    }
}

/// A string with its surrounding blanks removed.
pub open spec fn trimmed(s: Seq<char>) -> Seq<char> {
    let lo = skip_blank(s, 0);
    let hi = rskip_blank(s, s.len() as int);
    if lo <= hi {
        s.subrange(lo, hi)
    } else {
        Seq::empty()
    }
}

proof fn lemma_skip_blank_bounds(s: Seq<char>, k: int)
    requires
        0 <= k <= s.len(),
    ensures
        k <= skip_blank(s, k) <= s.len(),
    decreases s.len() - k,
{
    if k < s.len() && is_blank(s[k]) {
        lemma_skip_blank_bounds(s, k + 1);
    }
}

proof fn lemma_rskip_blank_bounds(s: Seq<char>, k: int)
    requires
        0 <= k <= s.len(),
    ensures
        0 <= rskip_blank(s, k) <= k,
    decreases k,
{
    if k > 0 && is_blank(s[k - 1]) {
        lemma_rskip_blank_bounds(s, k - 1);
    }
}

/// Whether the character at position `i` is blank.
fn blank_at(s: &str, i: usize) -> (r: bool)
    requires
        i < s@.len(),
    ensures
        r == is_blank(s@[i as int]),
{
    let c = s.get_char(i);
    c == ' ' || c == '\t' || c == '\n' || c == '\r'
}

/// Removes blanks from both ends of a string.
pub fn trim_blanks(s: &str) -> (r: String)
    ensures
        r@ == trimmed(s@),
{
    let n = s.unicode_len();
    let ghost sm = s@;
    let mut lo: usize = 0;
    while lo < n && blank_at(s, lo)
        invariant
            0 <= lo <= n,
            n == sm.len(),
            sm == s@,
            skip_blank(sm, 0) == skip_blank(sm, lo as int),
        decreases n - lo,
    {
        lo += 1;
    }
    proof {
        assert(skip_blank(sm, 0) == lo as int);
    }
    let mut hi: usize = n;
    proof {
        lemma_rskip_blank_bounds(sm, n as int);
    }
    while hi > lo && blank_at(s, hi - 1)
        invariant
            lo <= hi <= n,
            n == sm.len(),
            sm == s@,
            lo as int == skip_blank(sm, 0),
            rskip_blank(sm, n as int) == rskip_blank(sm, hi as int),
            rskip_blank(sm, n as int) <= hi,
        decreases hi,
    {
        hi -= 1;
        proof {
            lemma_rskip_blank_bounds(sm, hi as int);
        }
    }
    proof {
        if hi > lo {
            assert(rskip_blank(sm, n as int) == hi as int);
        }
    }
    if hi <= lo {
        proof {
            assert(trimmed(sm) =~= Seq::<char>::empty());
        }
        String::new()
    } else {
        let sub = s.substring_char(lo, hi);
        assert(sub@ =~= trimmed(sm));
        sub.to_owned()
    }
}

} // verus!
