//! Character-level helpers on strings: decimal rendering and parsing of
//! integers, substring search and the segment after the last dash.
use vstd::prelude::*;

verus! {

/// The character of a decimal digit `d` (0 through 9).
pub open spec fn digit_char(d: int) -> char {
    ((48 + d) as u8) as char
}

/// Whether `c` is one of the ASCII digits `0`..`9`.
pub open spec fn is_digit(c: char) -> bool {
    '0' <= c && c <= '9'
}

/// The value of an ASCII digit.
pub open spec fn digit_value(c: char) -> int {
    c as int - 48
}

/// Decimal digits of a natural number, most significant first, no leading zeros.
pub open spec fn decimal_nat(n: nat) -> Seq<char>
    decreases n,
{
    if n < 10 {
        seq![digit_char(n as int)]
    } else {
        decimal_nat(n / 10).push(digit_char((n % 10) as int))
    }
}

/// Decimal rendering of an integer, with a leading `-` when negative.
pub open spec fn decimal(n: int) -> Seq<char> {
    if n < 0 {
        seq!['-'] + decimal_nat((-n) as nat)
    } else {
        decimal_nat(n as nat)
    }
}

/// Whether every character of `s` is an ASCII digit.
pub open spec fn all_digits(s: Seq<char>) -> bool {
    forall|i: int| 0 <= i < s.len() ==> is_digit(#[trigger] s[i])
}

/// The value of a string of decimal digits, read most significant first.
pub open spec fn digits_value(s: Seq<char>) -> int
    decreases s.len(),
{
    if s.len() == 0 {
        0
    } else {
        digits_value(s.drop_last()) * 10 + digit_value(s.last())
    }
}

/// What reading `s` as an `i64` gives: an optional sign, then one or more
/// digits, of a value within the range of `i64`.
pub open spec fn parse_i64_spec(s: Seq<char>) -> Option<int> {
    let neg = s.len() > 0 && s[0] == '-';
    let body = if s.len() > 0 && (s[0] == '+' || s[0] == '-') {
        s.drop_first()
    } else {
        s
    };
    let v = if neg {
        -digits_value(body)
    } else {
        digits_value(body)
    };
    if body.len() > 0 && all_digits(body) && i64::MIN <= v <= i64::MAX {
        Some(v)
    } else {
        None
    }
}

/// The characters after the last `-` of `s`; all of `s` when it has none.
pub open spec fn last_segment(s: Seq<char>) -> Seq<char>
    decreases s.len(),
{
    if s.len() == 0 {
        s
    } else if s.last() == '-' {
        Seq::empty()
    } else {
        last_segment(s.drop_last()).push(s.last())
    }
}

/// Whether `needle` occurs in `hay` as a contiguous run of characters.
pub open spec fn contains_seq(hay: Seq<char>, needle: Seq<char>) -> bool {
    exists|i: int|
        0 <= i && i + needle.len() <= hay.len() && #[trigger] hay.subrange(i, i + needle.len())
            == needle
}

/// Case folding as `str::to_lowercase` performs it.
pub uninterp spec fn lower_of(s: Seq<char>) -> Seq<char>;

/// Relies on `str::to_lowercase`: its result depends on the characters alone.
#[verifier::external_body]
pub(crate) fn to_lower(s: &str) -> (r: String)
    ensures
        r@ == lower_of(s@),
{
    s.to_lowercase()
}

fn digit_text(d: u128) -> (r: &'static str)
    requires
        d < 10,
    ensures
        r@ == seq![digit_char(d as int)],
{
    proof {
        reveal_strlit("0");
        reveal_strlit("1");
        reveal_strlit("2");
        reveal_strlit("3");
        reveal_strlit("4");
        reveal_strlit("5");
        reveal_strlit("6");
        reveal_strlit("7");
        reveal_strlit("8");
        reveal_strlit("9");
    }
    if d == 0 {
        "0"
    } else if d == 1 {
        "1"
    } else if d == 2 {
        "2"
    } else if d == 3 {
        "3"
    } else if d == 4 {
        "4"
    } else if d == 5 {
        "5"
    } else if d == 6 {
        "6"
    } else if d == 7 {
        "7"
    } else if d == 8 {
        "8"
    } else {
        "9"
    }
}

/// Decimal digits of `n`.
pub fn nat_text(n: u128) -> (r: String)
    ensures
        r@ == decimal_nat(n as nat),
    decreases n,
{
    if n < 10 {
        String::from_str(digit_text(n))
    } else {
        let mut s = nat_text(n / 10);
        s.append(digit_text(n % 10));
        s
    }
}

/// Decimal rendering of `n`, as `i128::to_string` gives it.
pub fn int_text(n: i128) -> (r: String)
    ensures
        r@ == decimal(n as int),
{
    if n < 0 {
        let m: u128 = if n == i128::MIN {
            0x8000_0000_0000_0000_0000_0000_0000_0000
        } else {
            (-n) as u128
        };
        let digits = nat_text(m);
        let mut s = String::from_str("-");
        proof {
            reveal_strlit("-");
        }
        s.append(digits.as_str());
        s
    } else {
        nat_text(n as u128)
    }
}

proof fn lemma_last_segment_split(s: Seq<char>, i: int)
    requires
        0 <= i <= s.len(),
        forall|j: int| i <= j < s.len() ==> s[j] != '-',
    ensures
        last_segment(s) == last_segment(s.subrange(0, i)) + s.subrange(i, s.len() as int),
    decreases s.len() - i,
{
    if i < s.len() {
        lemma_last_segment_split(s, i + 1);
        let t = s.subrange(0, i + 1);
        assert(t.drop_last() =~= s.subrange(0, i));
        assert(last_segment(t) == last_segment(s.subrange(0, i)).push(s[i]));
        assert(last_segment(s.subrange(0, i)) + s.subrange(i, s.len() as int) =~= last_segment(
            s.subrange(0, i),
        ).push(s[i]) + s.subrange(i + 1, s.len() as int));
    } else {
        assert(s.subrange(0, i) =~= s);
        assert(s.subrange(i, s.len() as int) =~= Seq::<char>::empty());
        assert(last_segment(s) + Seq::<char>::empty() =~= last_segment(s));
    }
}

/// The characters after the last `-` of `s` (all of `s` when it has none),
/// as `s.rsplit('-').next()` gives them.
pub fn last_dash_segment(s: &str) -> (r: &str)
    ensures
        r@ == last_segment(s@),
{
    let n = s.unicode_len();
    let mut i = n;
    while i > 0 && s.get_char(i - 1) != '-'
        invariant
            n == s@.len(),
            i <= n,
            forall|j: int| i <= j < n ==> s@[j] != '-',
        decreases i,
    {
        i = i - 1;
    }
    proof {
        lemma_last_segment_split(s@, i as int);
        if i > 0 {
            let t = s@.subrange(0, i as int);
            assert(t.last() == '-');
        } else {
            assert(s@.subrange(0, 0) =~= Seq::<char>::empty());
        }
        assert(last_segment(s@.subrange(0, i as int)) =~= Seq::<char>::empty());
        assert(Seq::<char>::empty() + s@.subrange(i as int, n as int) =~= s@.subrange(
            i as int,
            n as int,
        ));
    }
    s.substring_char(i, n)
}

/// Bound at which the running value of a digit string stops being tracked.
const DIGIT_CAP: i128 = 0x8000_0000_0000_0001;

proof fn lemma_digits_prefix(s: Seq<char>, k: int)
    requires
        0 <= k < s.len(),
    ensures
        digits_value(s.subrange(0, k + 1)) == digits_value(s.subrange(0, k)) * 10 + digit_value(
            s[k],
        ),
{
    assert(s.subrange(0, k + 1).drop_last() =~= s.subrange(0, k));
}

/// Reads `s` as an `i64` the way `str::parse::<i64>` does: an optional sign,
/// then decimal digits, within the range of the type.
pub fn parse_i64(s: &str) -> (r: Option<i64>)
    ensures
        match r {
            Some(v) => parse_i64_spec(s@) == Some(v as int),
            None => parse_i64_spec(s@) is None,
        },
{
    let n = s.unicode_len();
    let mut start: usize = 0;
    let mut neg = false;
    if n > 0 {
        let c = s.get_char(0);
        if c == '+' {
            start = 1;
        } else if c == '-' {
            start = 1;
            neg = true;
        }
    }
    let ghost body = if start == 1 {
        s@.drop_first()
    } else {
        s@
    };
    assert(start == 1 <==> (s@.len() > 0 && (s@[0] == '+' || s@[0] == '-')));
    assert(neg <==> (s@.len() > 0 && s@[0] == '-'));
    if start >= n {
        assert(body.len() == 0);
        return None;
    }
    let mut acc: i128 = 0;
    let mut i = start;
    while i < n
        invariant
            n == s@.len(),
            start <= i <= n,
            start == 0 || start == 1,
            start == 1 <==> (s@.len() > 0 && (s@[0] == '+' || s@[0] == '-')),
            neg <==> (s@.len() > 0 && s@[0] == '-'),
            body == (if start == 1 {
                s@.drop_first()
            } else {
                s@
            }),
            body == s@.subrange(start as int, n as int),
            all_digits(s@.subrange(start as int, i as int)),
            0 <= acc <= DIGIT_CAP,
            acc == DIGIT_CAP || acc == digits_value(s@.subrange(start as int, i as int)),
            acc == DIGIT_CAP ==> digits_value(s@.subrange(start as int, i as int)) >= DIGIT_CAP,
        decreases n - i,
    {
        let c = s.get_char(i);
        if !('0' <= c && c <= '9') {
            proof {
                assert(body[i - start] == c);
                assert(!is_digit(body[i - start]));
            }
            return None;
        }
        let d = (c as u32 - 48) as i128;
        let ghost pre = s@.subrange(start as int, i as int);
        let ghost next = s@.subrange(start as int, i + 1);
        proof {
            lemma_digits_prefix(s@.subrange(start as int, n as int), i - start);
            assert(s@.subrange(start as int, n as int).subrange(0, i - start + 1) =~= next);
            assert(s@.subrange(start as int, n as int).subrange(0, i - start) =~= pre);
            assert(digits_value(next) == digits_value(pre) * 10 + d);
            assert forall|j: int| 0 <= j < next.len() implies is_digit(#[trigger] next[j]) by {
                if j < pre.len() {
                    assert(next[j] == pre[j]);
                }
            }
        }
        if acc >= 0x0CCC_CCCC_CCCC_CCCD {
            proof {
                assert(digits_value(pre) >= 0x0CCC_CCCC_CCCC_CCCD);
                assert(digits_value(next) >= DIGIT_CAP) by (nonlinear_arith)
                    requires
                        digits_value(next) == digits_value(pre) * 10 + d,
                        digits_value(pre) >= 0x0CCC_CCCC_CCCC_CCCD,
                        d >= 0,
                ;
            }
            acc = DIGIT_CAP;
        } else {
            acc = acc * 10 + d;
            if acc > DIGIT_CAP {
                acc = DIGIT_CAP;
            }
        }
        i = i + 1;
    }
    proof {
        assert(s@.subrange(start as int, n as int) =~= body);
    }
    if neg {
        if acc <= 0x8000_0000_0000_0000 {
            Some((-acc) as i64)
        } else {
            None
        }
    } else {
        if acc <= 0x7FFF_FFFF_FFFF_FFFF {
            Some(acc as i64)
        } else {
            None
        }
    }
}

/// Whether `needle` matches `hay` at position `at`.
fn matches_at(hay: &str, hay_len: usize, needle: &str, needle_len: usize, at: usize) -> (r: bool)
    requires
        hay_len == hay@.len(),
        needle_len == needle@.len(),
        at + needle_len <= hay_len,
    ensures
        r == (hay@.subrange(at as int, at + needle_len) == needle@),
{
    let mut k: usize = 0;
    while k < needle_len
        invariant
            hay_len == hay@.len(),
            needle_len == needle@.len(),
            at + needle_len <= hay_len,
            k <= needle_len,
            forall|j: int| 0 <= j < k ==> hay@[at + j] == needle@[j],
        decreases needle_len - k,
    {
        if hay.get_char(at + k) != needle.get_char(k) {
            proof {
                let sub = hay@.subrange(at as int, at + needle_len);
                assert(sub[k as int] != needle@[k as int]);
            }
            return false;
        }
        k = k + 1;
    }
    proof {
        assert(hay@.subrange(at as int, at + needle_len) =~= needle@);
    }
    true
}

/// Whether `needle` occurs in `hay`, as `str::contains` answers it.
pub fn contains_text(hay: &str, needle: &str) -> (r: bool)
    ensures
        r == contains_seq(hay@, needle@),
{
    let h = hay.unicode_len();
    let m = needle.unicode_len();
    if m > h {
        return false;
    }
    if m == 0 {
        proof {
            assert(hay@.subrange(0, 0 + needle@.len() as int) =~= needle@);
        }
        return true;
    }
    let mut i: usize = 0;
    while i <= h - m
        invariant
            h == hay@.len(),
            m == needle@.len(),
            m <= h,
            0 < m <= h,
            i <= h - m + 1,
            forall|j: int| 0 <= j < i ==> #[trigger] hay@.subrange(j, j + m) != needle@,
        decreases h - m + 1 - i,
    {
        if matches_at(hay, h, needle, m, i) {
            return true;
        }
        i = i + 1;
    }
    false
}

/// `p` with every `{}` replaced by `t`, scanning from the left, as
/// `str::replace` does it.
pub open spec fn fill_placeholder(p: Seq<char>, t: Seq<char>) -> Seq<char>
    decreases p.len(),
{
    if p.len() == 0 {
        p
    } else if p.len() >= 2 && p[0] == '{' && p[1] == '}' {
        t + fill_placeholder(p.subrange(2, p.len() as int), t)
    } else {
        seq![p[0]] + fill_placeholder(p.drop_first(), t)
    }
}

/// Replaces every `{}` of `pattern` by `value`.
pub fn replace_placeholder(pattern: &str, value: &str) -> (r: String)
    ensures
        r@ == fill_placeholder(pattern@, value@),
{
    let n = pattern.unicode_len();
    let mut out = String::new();
    let mut i: usize = 0;
    proof {
        assert(pattern@.subrange(0, n as int) =~= pattern@);
        assert(out@ + fill_placeholder(pattern@, value@) =~= fill_placeholder(pattern@, value@));
    }
    while i < n
        invariant
            n == pattern@.len(),
            i <= n,
            fill_placeholder(pattern@, value@) == out@ + fill_placeholder(
                pattern@.subrange(i as int, n as int),
                value@,
            ),
        decreases n - i,
    {
        let ghost rest = pattern@.subrange(i as int, n as int);
        let ghost before = out@;
        if i + 1 < n && pattern.get_char(i) == '{' && pattern.get_char(i + 1) == '}' {
            proof {
                assert(rest.subrange(2, rest.len() as int) =~= pattern@.subrange(i + 2, n as int));
            }
            out.append(value);
            proof {
                let tail = fill_placeholder(pattern@.subrange(i + 2, n as int), value@);
                assert(before + (value@ + tail) =~= (before + value@) + tail);
            }
            i = i + 2;
        } else {
            proof {
                assert(rest.drop_first() =~= pattern@.subrange(i + 1, n as int));
            }
            let one = pattern.substring_char(i, i + 1);
            proof {
                assert(one@ =~= seq![rest[0]]);
                let tail = fill_placeholder(pattern@.subrange(i + 1, n as int), value@);
                assert(before + (seq![rest[0]] + tail) =~= (before + one@) + tail);
            }
            out.append(one);
            i = i + 1;
        }
    }
    proof {
        assert(pattern@.subrange(n as int, n as int) =~= Seq::<char>::empty());
        assert(out@ + Seq::<char>::empty() =~= out@);
    }
    out
}

/// Whether `a` and `b` hold the same characters.
pub fn same_text(a: &str, b: &str) -> (r: bool)
    ensures
        r == (a@ == b@),
{
    let n = a.unicode_len();
    if n != b.unicode_len() {
        return false;
    }
    let mut i: usize = 0;
    while i < n
        invariant
            n == a@.len(),
            n == b@.len(),
            i <= n,
            forall|j: int| 0 <= j < i ==> a@[j] == b@[j],
        decreases n - i,
    {
        if a.get_char(i) != b.get_char(i) {
            return false;
        }
        i = i + 1;
    }
    proof {
        assert(a@ =~= b@);
    }
    true
}

/// `s` without the `/` characters at its end.
pub open spec fn trim_end_slashes(s: Seq<char>) -> Seq<char>
    decreases s.len(),
{
    if s.len() > 0 && s.last() == '/' {
        trim_end_slashes(s.drop_last())
    } else {
        s
    }
}

/// A base URL without its trailing slashes, as `trim_end_matches('/')`
/// leaves it.
pub fn trim_trailing_slashes(s: &str) -> (r: String)
    ensures
        r@ == trim_end_slashes(s@),
{
    let n = s.unicode_len();
    let mut i = n;
    proof {
        assert(s@.subrange(0, n as int) =~= s@);
    }
    while i > 0 && s.get_char(i - 1) == '/'
        invariant
            n == s@.len(),
            i <= n,
            trim_end_slashes(s@) == trim_end_slashes(s@.subrange(0, i as int)),
        decreases i,
    {
        proof {
            assert(s@.subrange(0, i as int).drop_last() =~= s@.subrange(0, i - 1));
        }
        i = i - 1;
    }
    let kept = s.substring_char(0, i);
    String::from_str(kept)
}

} // verus!
