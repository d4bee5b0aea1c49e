//! Verified helpers for working with character sequences: white-space
//! trimming, equality of string slices, and decimal parsing/formatting.

use vstd::prelude::*;

verus! {

/// The characters that Rust's `char::is_whitespace` reports as white space
/// (the Unicode `White_Space` property).
pub open spec fn is_space_char(c: char) -> bool {
    (0x09 <= c as u32 && c as u32 <= 0x0d) || c as u32 == 0x20 || c as u32 == 0x85
        || c as u32 == 0xa0 || c as u32 == 0x1680
        || (0x2000 <= c as u32 && c as u32 <= 0x200a) || c as u32 == 0x2028
        || c as u32 == 0x2029 || c as u32 == 0x202f || c as u32 == 0x205f || c as u32 == 0x3000
}

pub fn is_space(c: char) -> (r: bool)
    ensures
        r == is_space_char(c),
{
    let u = c as u32;
    (0x09 <= u && u <= 0x0d) || u == 0x20 || u == 0x85 || u == 0xa0 || u == 0x1680
        || (0x2000 <= u && u <= 0x200a) || u == 0x2028 || u == 0x2029 || u == 0x202f
        || u == 0x205f || u == 0x3000
}

pub open spec fn trim_left_spec(s: Seq<char>) -> Seq<char>
    decreases s.len(),
{
    if s.len() > 0 && is_space_char(s[0]) {
        trim_left_spec(s.skip(1))
    } else {
        s
    }
}

pub open spec fn trim_right_spec(s: Seq<char>) -> Seq<char>
    decreases s.len(),
{
    if s.len() > 0 && is_space_char(s[s.len() - 1]) {
        trim_right_spec(s.take(s.len() - 1))
    } else {
        s
    }
}

/// What `str::trim` leaves: the input without leading and trailing white space.
pub open spec fn trim_spec(s: Seq<char>) -> Seq<char> {
    trim_right_spec(trim_left_spec(s))
}

/// A sequence without white space is left unchanged by trimming.
pub proof fn lemma_trim_no_space(s: Seq<char>)
    requires
        forall|i: int| 0 <= i < s.len() ==> !is_space_char(s[i]),
    ensures
        trim_spec(s) == s,
{
    assert(trim_left_spec(s) == s);
    assert(trim_right_spec(s) == s);
}

pub fn trim_str<'a>(s: &'a str) -> (r: &'a str)
    ensures
        r@ == trim_spec(s@),
{
    let n = s.unicode_len();
    let mut lo: usize = 0;
    proof {
        assert(s@.skip(0) =~= s@);
    }
    loop
        invariant
            lo <= n,
            n == s@.len(),
            trim_left_spec(s@) == trim_left_spec(s@.skip(lo as int)),
        ensures
            lo <= n,
            n == s@.len(),
            trim_left_spec(s@) == trim_left_spec(s@.skip(lo as int)),
            lo == n || !is_space_char(s@[lo as int]),
        decreases n - lo,
    {
        if lo >= n {
            break ;
        }
        let c = s.get_char(lo);
        if !is_space(c) {
            break ;
        }
        proof {
            assert(s@.skip(lo as int)[0] == s@[lo as int]);
            assert(s@.skip(lo as int).skip(1) =~= s@.skip(lo as int + 1));
        }
        lo = lo + 1;
    }
    let ghost t = s@.skip(lo as int);
    proof {
        if lo == n {
            assert(t =~= Seq::<char>::empty());
        } else {
            assert(t[0] == s@[lo as int]);
        }
        assert(trim_left_spec(t) == t);
    }
    let mut hi: usize = n;
    proof {
        assert(t.take(n - lo) =~= t);
    }
    loop
        invariant
            lo <= hi <= n,
            n == s@.len(),
            t == s@.skip(lo as int),
            trim_right_spec(t) == trim_right_spec(t.take(hi - lo)),
        ensures
            lo <= hi <= n,
            trim_right_spec(t) == trim_right_spec(t.take(hi - lo)),
            hi == lo || !is_space_char(t[hi - lo - 1]),
        decreases hi,
    {
        if hi <= lo {
            break ;
        }
        let c = s.get_char(hi - 1);
        proof {
            assert(t[hi - lo - 1] == s@[hi - 1]);
        }
        if !is_space(c) {
            break ;
        }
        proof {
            assert(t.take(hi - lo)[hi - lo - 1] == t[hi - lo - 1]);
            assert(t.take(hi - lo).take(hi - lo - 1) =~= t.take(hi - lo - 1));
        }
        hi = hi - 1;
    }
    proof {
        if hi > lo {
            assert(t.take(hi - lo)[hi - lo - 1] == t[hi - lo - 1]);
        }
        assert(trim_right_spec(t.take(hi - lo)) == t.take(hi - lo));
        assert(s@.subrange(lo as int, hi as int) =~= t.take(hi - lo));
    }
    s.substring_char(lo, hi)
}

/// Whether two string slices hold the same characters.
pub fn str_eq(a: &str, b: &str) -> (r: bool)
    ensures
        r == (a@ == b@),
{
    let sa: String = a.to_owned();
    let sb: String = b.to_owned();
    sa == sb
}

pub open spec fn dec_digit(d: int) -> char {
    if d == 0 {
        '0'
    } else if d == 1 {
        '1'
    } else if d == 2 {
        '2'
    } else if d == 3 {
        '3'
    } else if d == 4 {
        '4'
    } else if d == 5 {
        '5'
    } else if d == 6 {
        '6'
    } else if d == 7 {
        '7'
    } else if d == 8 {
        '8'
    } else {
        '9'
    }
}

/// The decimal notation of `n`, most significant digit first.
pub open spec fn dec_seq(n: nat) -> Seq<char>
    decreases n,
{
    if n < 10 {
        seq![dec_digit(n as int)]
    } else {
        dec_seq(n / 10).push(dec_digit((n % 10) as int))
    }
}

pub fn u32_to_string(n: u32) -> (r: String)
    ensures
        r@ == dec_seq(n as nat),
    decreases n,
{
    proof {
        reveal_strlit("0123456789");
    }
    let digits = "0123456789";
    let d = (n % 10) as usize;
    let last = digits.substring_char(d, d + 1);
    proof {
        assert(last@ =~= seq![dec_digit(d as int)]);
    }
    if n < 10 {
        last.to_owned()
    } else {
        let mut r = u32_to_string(n / 10);
        r.append(last);
        proof {
            assert(dec_seq((n / 10) as nat).push(dec_digit(d as int)) =~= dec_seq(
                (n / 10) as nat,
            ) + seq![dec_digit(d as int)]);
        }
        r
    }
}

pub open spec fn is_dec_digit(c: char) -> bool {
    0x30 <= c as u32 && c as u32 <= 0x39
}

pub open spec fn dec_val(c: char) -> int {
    c as u32 - 0x30
}

pub open spec fn all_dec_digits(s: Seq<char>) -> bool {
    forall|i: int| 0 <= i < s.len() ==> is_dec_digit(s[i])
}

/// The number the digit sequence `s` writes in decimal.
pub open spec fn digits_val(s: Seq<char>) -> int
    decreases s.len(),
{
    if s.len() == 0 {
        0
    } else {
        digits_val(s.take(s.len() - 1)) * 10 + dec_val(s[s.len() - 1])
    }
}

pub proof fn lemma_digits_val_nonneg(s: Seq<char>)
    requires
        all_dec_digits(s),
    ensures
        digits_val(s) >= 0,
    decreases s.len(),
{
    if s.len() > 0 {
        assert(all_dec_digits(s.take(s.len() - 1)));
        lemma_digits_val_nonneg(s.take(s.len() - 1));
    }
}

/// Appending further digits never shrinks the value a digit prefix writes.
pub proof fn lemma_digits_val_prefix(s: Seq<char>, k: int)
    requires
        all_dec_digits(s),
        0 <= k <= s.len(),
    ensures
        digits_val(s.take(k)) <= digits_val(s),
    decreases s.len() - k,
{
    if k < s.len() {
        assert(all_dec_digits(s.take(s.len() - 1)));
        assert(s.take(s.len() - 1).take(k) =~= s.take(k));
        lemma_digits_val_prefix(s.take(s.len() - 1), k);
        lemma_digits_val_nonneg(s.take(s.len() - 1));
    } else {
        assert(s.take(k) =~= s);
    }
}

/// What `str::parse::<u32>` yields: an optional leading plus sign, then at
/// least one decimal digit, writing a value that fits in 32 bits.
pub open spec fn parse_body_spec(s: Seq<char>) -> Seq<char> {
    if s.len() > 0 && s[0] == '+' {
        s.skip(1)
    } else {
        s
    }
}

pub open spec fn parse_u32_spec(s: Seq<char>) -> Option<u32> {
    let body = parse_body_spec(s);
    if body.len() > 0 && all_dec_digits(body) && digits_val(body) <= u32::MAX {
        Some(digits_val(body) as u32)
    } else {
        None
    }
}

pub fn parse_u32(s: &str) -> (r: Option<u32>)
    ensures
        r == parse_u32_spec(s@),
{
    let n = s.unicode_len();
    let start: usize = if n > 0 && s.get_char(0) == '+' {
        1
    } else {
        0
    };
    let ghost body = if start == 1 {
        s@.skip(1)
    } else {
        s@
    };
    proof {
        assert(s@.skip(0) =~= s@);
        assert(body == s@.skip(start as int));
        assert(body == parse_body_spec(s@));
    }
    if n == start {
        return None;
    }
    let mut acc: u64 = 0;
    let mut i: usize = start;
    proof {
        assert(body.take(0) =~= Seq::<char>::empty());
    }
    loop
        invariant
            start <= i <= n,
            n == s@.len(),
            body == s@.skip(start as int),
            body == parse_body_spec(s@),
            n > start,
            acc == digits_val(body.take(i - start)),
            acc <= u32::MAX,
            all_dec_digits(body.take(i - start)),
        ensures
            i == n,
            acc == digits_val(body),
            acc <= u32::MAX,
            all_dec_digits(body),
        decreases n - i,
    {
        if i >= n {
            proof {
                assert(body.take(i - start) =~= body);
            }
            break ;
        }
        let c = s.get_char(i);
        proof {
            assert(body[i - start] == s@[i as int]);
        }
        let u = c as u32;
        if !(0x30 <= u && u <= 0x39) {
            proof {
                assert(!is_dec_digit(body[i - start]));
                assert(!all_dec_digits(body));
                assert(parse_u32_spec(s@) is None);
            }
            return None;
        }
        let d: u64 = (u - 0x30) as u64;
        acc = acc * 10 + d;
        proof {
            assert(body.take(i + 1 - start).take(i - start) =~= body.take(i - start));
            assert(body.take(i + 1 - start)[i - start] == body[i - start]);
        }
        if acc > 0xffff_ffff {
            proof {
                assert(acc == digits_val(body.take(i + 1 - start)));
                if all_dec_digits(body) {
                    lemma_digits_val_prefix(body, i + 1 - start);
                    assert(digits_val(body) > u32::MAX);
                }
                assert(parse_u32_spec(s@) is None);
            }
            return None;
        }
        i = i + 1;
    }
    Some(acc as u32)
}

/// What `str::parse::<u32>` followed by `unwrap_or(0)` yields.
pub open spec fn parse_u32_or_zero_spec(s: Seq<char>) -> u32 {
    match parse_u32_spec(s) {
        Some(v) => v,
        None => 0,
    }
}

pub fn parse_u32_or_zero(s: &str) -> (r: u32)
    ensures
        r == parse_u32_or_zero_spec(s@),
{
    match parse_u32(s) {
        Some(v) => v,
        None => 0,
    }
}

/// An upper-case ASCII letter folded to its lower-case form; every other
/// character is kept as it is.
pub open spec fn ascii_lower_u32(u: u32) -> int {
    if 0x41 <= u && u <= 0x5a {
        u + 0x20
    } else {
        u as int
    }
}

/// Whether two character sequences agree once upper-case ASCII letters are
/// folded down.
pub open spec fn ascii_lower_eq(a: Seq<char>, b: Seq<char>) -> bool {
    a.len() == b.len() && forall|i: int|
        0 <= i < a.len() ==> ascii_lower_u32(a[i] as u32) == ascii_lower_u32(b[i] as u32)
}

pub fn str_eq_ignore_ascii_case(a: &str, b: &str) -> (r: bool)
    ensures
        r == ascii_lower_eq(a@, b@),
{
    let na = a.unicode_len();
    let nb = b.unicode_len();
    if na != nb {
        return false;
    }
    let mut i: usize = 0;
    loop
        invariant
            0 <= i <= na,
            na == a@.len(),
            na == b@.len(),
            forall|j: int|
                0 <= j < i ==> ascii_lower_u32(a@[j] as u32) == ascii_lower_u32(b@[j] as u32),
        ensures
            i == na,
            forall|j: int|
                0 <= j < i ==> ascii_lower_u32(a@[j] as u32) == ascii_lower_u32(b@[j] as u32),
        decreases na - i,
    {
        if i >= na {
            break ;
        }
        let ca = a.get_char(i) as u32;
        let cb = b.get_char(i) as u32;
        let fa = if 0x41 <= ca && ca <= 0x5a {
            ca + 0x20
        } else {
            ca
        };
        let fb = if 0x41 <= cb && cb <= 0x5a {
            cb + 0x20
        } else {
            cb
        };
        if fa != fb {
            proof {
                assert(ascii_lower_u32(a@[i as int] as u32) != ascii_lower_u32(b@[i as int] as u32));
            }
            return false;
        }
        i = i + 1;
    }
    true
}

} // verus!
