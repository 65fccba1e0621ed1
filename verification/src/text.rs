//! Text helpers over the character view of `str` and `String`.

use vstd::prelude::*;
use vstd::string::*;

verus! {

/// The Unicode `White_Space` property.
pub open spec fn white_space(c: char) -> bool {
    let u = c as u32;
    ||| 0x9 <= u <= 0xd
    ||| u == 0x20
    ||| u == 0x85
    ||| u == 0xa0
    ||| u == 0x1680
    ||| 0x2000 <= u <= 0x200a
    ||| u == 0x2028
    ||| u == 0x2029
    ||| u == 0x202f
    ||| u == 0x205f
    ||| u == 0x3000
}

/// `s` without its leading and trailing white space.
pub open spec fn trimmed(s: Seq<char>) -> Seq<char>
    decreases s.len(),
{
    if s.len() == 0 {
        s
    } else if white_space(s[0]) {
        trimmed(s.drop_first())
    } else if white_space(s.last()) {
        trimmed(s.drop_last())
    } else {
        s
    }
}

/// An ASCII capital letter as its small letter; every other character as is.
pub open spec fn ascii_lower(c: char) -> char {
    let u = c as u32;
    if 0x41 <= u <= 0x5a {
        (u + 0x20) as char
    } else {
        c
    }
}

/// `s` with its ASCII capitals lowered.
pub open spec fn lowered(s: Seq<char>) -> Seq<char> {
    s.map_values(|c: char| ascii_lower(c))
}

/// Whether `needle` occurs in `s` as a run of consecutive characters.
pub open spec fn has_text(s: Seq<char>, needle: Seq<char>) -> bool {
    exists|i: int|
        0 <= i && i + needle.len() <= s.len() && #[trigger] s.subrange(i, i + needle.len())
            == needle
}

/// The character for a decimal digit.
pub open spec fn digit_char(d: nat) -> char {
    (d + 0x30) as char
}

/// `n` in decimal, without leading zeros.
pub open spec fn decimal(n: nat) -> Seq<char>
    decreases n,
{
    if n < 10 {
        seq![digit_char(n)]
    } else {
        decimal(n / 10).push(digit_char(n % 10))
    }
}

/// Whether `c` is an ASCII decimal digit.
pub open spec fn is_digit(c: char) -> bool {
    0x30 <= c as u32 <= 0x39
}

/// The value of a run of decimal digits.
pub open spec fn digits_value(s: Seq<char>) -> nat
    decreases s.len(),
{
    if s.len() == 0 {
        0
    } else {
        (10 * digits_value(s.drop_last()) + (s.last() as u32 - 0x30)) as nat
    }
}

/// Every character is a decimal digit.
pub open spec fn all_digits(s: Seq<char>) -> bool {
    forall|i: int| 0 <= i < s.len() ==> is_digit(#[trigger] s[i])
}

/// `s` without its leading plus sign, if it has one.
pub open spec fn unsigned_part(s: Seq<char>) -> Seq<char> {
    if s.len() > 0 && s[0] == '+' {
        s.drop_first()
    } else {
        s
    }
}

/// The number that `s` spells: decimal digits behind an optional plus sign,
/// within 64 bits.
pub open spec fn spelled_u64(s: Seq<char>) -> Option<u64> {
    let digits = unsigned_part(s);
    if digits.len() > 0 && all_digits(digits) && digits_value(digits) <= u64::MAX {
        Some(digits_value(digits) as u64)
    } else {
        None
    }
}

/// `n` in decimal, with a minus sign where it is negative.
pub open spec fn signed_decimal(n: int) -> Seq<char> {
    if n < 0 {
        "-"@ + decimal((-n) as nat)
    } else {
        decimal(n as nat)
    }
}

pub fn is_white_space(c: char) -> (r: bool)
    ensures
        r == white_space(c),
{
    let u = c as u32;
    (0x9 <= u && u <= 0xd) || u == 0x20 || u == 0x85 || u == 0xa0 || u == 0x1680 || (0x2000 <= u
        && u <= 0x200a) || u == 0x2028 || u == 0x2029 || u == 0x202f || u == 0x205f || u == 0x3000
}

pub fn to_ascii_lower(c: char) -> (r: char)
    ensures
        r == ascii_lower(c),
{
    let u = c as u32;
    if 0x41 <= u && u <= 0x5a {
        let l: u8 = (u + 0x20) as u8;
        l as char
    } else {
        c
    }
}

proof fn lemma_trimmed_step_front(s: Seq<char>, from: int, to: int)
    requires
        0 <= from < to <= s.len(),
        white_space(s[from]),
    ensures
        trimmed(s.subrange(from, to)) == trimmed(s.subrange(from + 1, to)),
{
    let t = s.subrange(from, to);
    assert(t.drop_first() =~= s.subrange(from + 1, to));
}

proof fn lemma_trimmed_step_back(s: Seq<char>, from: int, to: int)
    requires
        0 <= from < to <= s.len(),
        !white_space(s[from]),
        white_space(s[to - 1]),
    ensures
        trimmed(s.subrange(from, to)) == trimmed(s.subrange(from, to - 1)),
{
    let t = s.subrange(from, to);
    assert(t.drop_last() =~= s.subrange(from, to - 1));
}

/// `s` without its leading and trailing white space.
pub fn trim<'a>(s: &'a str) -> (r: &'a str)
    ensures
        r@ == trimmed(s@),
{
    let n: usize = s.unicode_len();
    let mut from: usize = 0;
    assert(s@.subrange(0, n as int) =~= s@);
    while from < n && is_white_space(s.get_char(from))
        invariant
            n == s@.len(),
            from <= n,
            trimmed(s@) == trimmed(s@.subrange(from as int, n as int)),
        decreases n - from,
    {
        proof {
            lemma_trimmed_step_front(s@, from as int, n as int);
        }
        from = from + 1;
    }
    let mut to: usize = n;
    while to > from && is_white_space(s.get_char(to - 1))
        invariant
            n == s@.len(),
            from <= to <= n,
            from < to ==> !white_space(s@[from as int]),
            trimmed(s@) == trimmed(s@.subrange(from as int, to as int)),
        decreases to,
    {
        proof {
            lemma_trimmed_step_back(s@, from as int, to as int);
        }
        to = to - 1;
    }
    proof {
        let t = s@.subrange(from as int, to as int);
        if t.len() > 0 {
            assert(t[0] == s@[from as int]);
            assert(t.last() == s@[to - 1]);
        }
    }
    s.substring_char(from, to)
}

/// Whether two texts are the same, character by character.
pub fn same_text(a: &str, b: &str) -> (r: bool)
    ensures
        r == (a@ == b@),
{
    let n: usize = a.unicode_len();
    if b.unicode_len() != n {
        return false;
    }
    let mut i: usize = 0;
    while i < n
        invariant
            n == a@.len(),
            n == b@.len(),
            i <= n,
            forall|k: int| 0 <= k < i ==> a@[k] == b@[k],
        decreases n - i,
    {
        if a.get_char(i) != b.get_char(i) {
            assert(a@[i as int] != b@[i as int]);
            return false;
        }
        i = i + 1;
    }
    assert(a@ =~= b@);
    true
}

/// Whether `s` with its ASCII capitals lowered is exactly `key`.
pub fn lowered_is(s: &str, key: &str) -> (r: bool)
    ensures
        r == (lowered(s@) == key@),
{
    let n: usize = s.unicode_len();
    if key.unicode_len() != n {
        assert(lowered(s@).len() != key@.len());
        return false;
    }
    let mut i: usize = 0;
    while i < n
        invariant
            n == s@.len(),
            n == key@.len(),
            i <= n,
            forall|k: int| 0 <= k < i ==> ascii_lower(s@[k]) == key@[k],
        decreases n - i,
    {
        if to_ascii_lower(s.get_char(i)) != key.get_char(i) {
            assert(lowered(s@)[i as int] != key@[i as int]);
            return false;
        }
        i = i + 1;
    }
    assert(lowered(s@) =~= key@);
    true
}

/// Whether `s` with its ASCII capitals lowered holds `needle`.
pub fn lowered_has_text(s: &str, needle: &str) -> (r: bool)
    ensures
        r == has_text(lowered(s@), needle@),
{
    let n: usize = s.unicode_len();
    let m: usize = needle.unicode_len();
    let ghost low = lowered(s@);
    let mut i: usize = 0;
    while i <= n && m <= n - i
        invariant
            n == s@.len(),
            m == needle@.len(),
            low == lowered(s@),
            i <= n + 1,
            forall|k: int|
                0 <= k < i && k + m <= n ==> #[trigger] low.subrange(k, k + m) != needle@,
        decreases n + 1 - i,
    {
        let mut j: usize = 0;
        let mut same: bool = true;
        while j < m && same
            invariant
                n == s@.len(),
                m == needle@.len(),
                low == lowered(s@),
                i + m <= n,
                j <= m,
                same ==> forall|k: int| 0 <= k < j ==> low[i + k] == needle@[k],
                !same ==> exists|k: int| 0 <= k < m && low[i + k] != #[trigger] needle@[k],
            decreases m - j + (if same { 1int } else { 0 }),
        {
            if to_ascii_lower(s.get_char(i + j)) != needle.get_char(j) {
                same = false;
                assert(low[i + j] != needle@[j as int]);
            } else {
                j = j + 1;
            }
        }
        let ghost sub = low.subrange(i as int, i + m);
        if same {
            assert(sub =~= needle@);
            assert(has_text(low, needle@));
            return true;
        }
        assert(sub != needle@) by {
            let k = choose|k: int| 0 <= k < m && low[i + k] != #[trigger] needle@[k];
            assert(sub[k] == low[i + k]);
        }
        if i == n {
            assert(!has_text(low, needle@));
            return false;
        }
        i = i + 1;
    }
    false
}

proof fn lemma_digits_value_grows(s: Seq<char>, n: int)
    requires
        0 <= n <= s.len(),
        all_digits(s),
    ensures
        digits_value(s.take(n)) <= digits_value(s),
    decreases s.len() - n,
{
    if n < s.len() {
        let longer = s.take(n + 1);
        assert(longer.drop_last() =~= s.take(n));
        assert(is_digit(s[n]));
        lemma_digits_value_grows(s, n + 1);
    } else {
        assert(s.take(n) =~= s);
    }
}

/// The number that `s` spells, if it does.
pub fn parse_u64(s: &str) -> (r: Option<u64>)
    ensures
        r == spelled_u64(s@),
{
    let n: usize = s.unicode_len();
    let from: usize = if n > 0 && s.get_char(0) == '+' {
        1
    } else {
        0
    };
    let ghost digits = s@.subrange(from as int, n as int);
    proof {
        if from == 1 {
            assert(digits =~= s@.drop_first());
        } else {
            assert(digits =~= s@);
        }
    }
    if from == n {
        return None;
    }
    let mut value: u64 = 0;
    let mut i: usize = from;
    assert(digits.take(0) =~= Seq::<char>::empty());
    while i < n
        invariant
            n == s@.len(),
            from <= i <= n,
            from < n,
            digits == s@.subrange(from as int, n as int),
            digits == unsigned_part(s@),
            forall|k: int| 0 <= k < i - from ==> is_digit(#[trigger] digits[k]),
            value == digits_value(digits.take(i - from)),
        decreases n - i,
    {
        let c = s.get_char(i);
        let u = c as u32;
        let ghost k = i - from;
        assert(digits[k] == c);
        if u < 0x30 || u > 0x39 {
            assert(!is_digit(digits[k]));
            return None;
        }
        let d: u64 = (u - 0x30) as u64;
        proof {
            assert(digits.take(k + 1).drop_last() =~= digits.take(k));
            assert(digits_value(digits.take(k + 1)) == 10 * value + d);
        }
        if value > (u64::MAX - d) / 10 {
            proof {
                if all_digits(digits) {
                    lemma_digits_value_grows(digits, k + 1);
                }
            }
            return None;
        }
        value = value * 10 + d;
        i = i + 1;
    }
    assert(digits.take(digits.len() as int) =~= digits);
    Some(value)
}

fn digit_text(d: u64) -> (r: &'static str)
    requires
        d < 10,
    ensures
        r@ == seq![digit_char(d as nat)],
{
    proof {
        reveal_strlit("0");
        reveal_strlit("1");
        reveal_strlit("2");
        reveal_strlit("3");
        reveal_strlit("4");
        reveal_strlit("5");
        reveal_strlit("6");
        reveal_strlit("7");
        reveal_strlit("8");
        reveal_strlit("9");
    }
    let t = match d {
        0 => "0",
        1 => "1",
        2 => "2",
        3 => "3",
        4 => "4",
        5 => "5",
        6 => "6",
        7 => "7",
        8 => "8",
        _ => "9",
    };
    assert(t@ =~= seq![digit_char(d as nat)]);
    t
}

/// Append `n` in decimal.
pub fn append_decimal(out: &mut String, n: u64)
    ensures
        final(out)@ == old(out)@ + decimal(n as nat),
    decreases n,
{
    if n < 10 {
        out.append(digit_text(n));
    } else {
        append_decimal(out, n / 10);
        out.append(digit_text(n % 10));
        assert(old(out)@ + decimal(n as nat / 10) + seq![digit_char(n as nat % 10)] =~= old(out)@
            + decimal(n as nat));
    }
}

/// Append `n` in decimal.
pub fn append_signed_decimal(out: &mut String, n: i32)
    ensures
        final(out)@ == old(out)@ + signed_decimal(n as int),
{
    if n < 0 {
        out.append("-");
        append_decimal(out, (-(n as i64)) as u64);
        assert(old(out)@ + "-"@ + decimal((-n) as nat) =~= old(out)@ + signed_decimal(n as int));
    } else {
        append_decimal(out, n as u64);
    }
}

/// `pat` stands at `at` in `s`.
pub open spec fn stands_at(s: Seq<char>, pat: Seq<char>, at: int) -> bool {
    0 <= at && at + pat.len() <= s.len() && s.subrange(at, at + pat.len()) == pat
}

/// `s` from `at` on, with every occurrence of `pat`, from the left, replaced by
/// `with`.
pub open spec fn replaced_from(s: Seq<char>, pat: Seq<char>, with: Seq<char>, at: int) -> Seq<char>
    decreases s.len() - at,
{
    if at >= s.len() || pat.len() == 0 {
        Seq::empty()
    } else if stands_at(s, pat, at) {
        with + replaced_from(s, pat, with, at + pat.len())
    } else {
        seq![s[at]] + replaced_from(s, pat, with, at + 1)
    }
}

fn occurs_at(s: &str, pat: &str, at: usize) -> (r: bool)
    requires
        at <= s@.len(),
    ensures
        r == stands_at(s@, pat@, at as int),
{
    let n: usize = s.unicode_len();
    let m: usize = pat.unicode_len();
    if n - at < m {
        return false;
    }
    same_text(s.substring_char(at, at + m), pat)
}

/// `s` with every occurrence of `pat` replaced by `with`.
pub fn replace_all(s: &str, pat: &str, with: &str) -> (r: String)
    requires
        pat@.len() > 0,
    ensures
        r@ == replaced_from(s@, pat@, with@, 0),
{
    let n: usize = s.unicode_len();
    let m: usize = pat.unicode_len();
    let mut out = String::new();
    let mut at: usize = 0;
    let ghost whole = replaced_from(s@, pat@, with@, 0);
    assert(out@ + whole =~= whole);
    while at < n
        invariant
            n == s@.len(),
            m == pat@.len(),
            m > 0,
            at <= n,
            whole == out@ + replaced_from(s@, pat@, with@, at as int),
        decreases n - at,
    {
        let ghost before = out@;
        let ghost rest = replaced_from(s@, pat@, with@, at as int);
        if occurs_at(s, pat, at) {
            out.append(with);
            at = at + m;
            assert(before + rest =~= out@ + replaced_from(s@, pat@, with@, at as int));
        } else {
            out.append(s.substring_char(at, at + 1));
            assert(s@.subrange(at as int, at + 1) =~= seq![s@[at as int]]);
            at = at + 1;
            assert(before + rest =~= out@ + replaced_from(s@, pat@, with@, at as int));
        }
    }
    assert(out@ + Seq::<char>::empty() =~= out@);
    out
}

} // verus!
