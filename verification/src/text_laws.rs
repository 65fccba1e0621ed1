//! What holds of text, call by call.

use vstd::prelude::*;
use vstd::string::*;

use crate::text::{
    append_decimal, append_signed_decimal, is_white_space, lowered_has_text, lowered_is,
    parse_u64, replace_all, same_text, to_ascii_lower, trim,
};

verus! {

/// The digit of a number below ten.
pub open spec fn shows(c: char, digit: int) -> bool {
    0 <= digit < 10 && c as u32 == 48 + digit
}

/// A number is written behind what is there: one below ten as its digit, any other as
/// the number without its last digit and then that digit.
pub proof fn law_a_number_is_written_digit_by_digit(
    out: &mut String,
    n: u64,
    tens: &mut String,
    small: &mut String,
    digit: u64,
)
    requires
        call_ensures(append_decimal, (out, n), ()),
        n >= 10,
        call_ensures(append_decimal, (tens, n / 10), ()),
        old(tens)@ == old(out)@,
        call_ensures(append_decimal, (small, digit), ()),
        digit < 10,
    ensures
        final(out)@.len() == final(tens)@.len() + 1,
        final(out)@.drop_last() == final(tens)@,
        shows(final(out)@.last(), n as int % 10),
        final(small)@.len() == old(small)@.len() + 1,
        final(small)@.drop_last() == old(small)@,
        shows(final(small)@.last(), digit as int),
{
    let d = crate::text::decimal(n as nat);
    assert((n as nat) / 10 == (n / 10) as nat);
    assert(final(out)@.drop_last() =~= final(tens)@);
    assert(final(small)@.drop_last() =~= old(small)@);
}

/// A number that is negative has a minus sign, and then the digits of its size.
pub proof fn law_a_negative_number_has_a_sign(
    out: &mut String,
    n: i32,
    size: &mut String,
    magnitude: u64,
)
    requires
        call_ensures(append_signed_decimal, (out, n), ()),
        call_ensures(append_decimal, (size, magnitude), ()),
        magnitude == (if n < 0 {
            -n
        } else {
            n as int
        }),
        old(size)@ == old(out)@,
    ensures
        n >= 0 ==> final(out)@ == final(size)@,
        n < 0 ==> final(out)@.len() == final(size)@.len() + 1 && final(out)@[old(out)@.len() as int] == '-' && final(out)@.remove(old(out)@.len() as int) == final(size)@,
{
    reveal_strlit("-");
    if n < 0 {
        assert(final(out)@.remove(old(out)@.len() as int) =~= final(size)@);
    }
}

pub(crate) proof fn lemma_decimal(n: nat)
    ensures
        crate::text::decimal(n).len() > 0,
        crate::text::all_digits(crate::text::decimal(n)),
        crate::text::digits_value(crate::text::decimal(n)) == n,
    decreases n,
{
    let d = crate::text::decimal(n);
    reveal_with_fuel(crate::text::digits_value, 2);
    if n < 10 {
        assert(d.drop_last() =~= Seq::<char>::empty());
    } else {
        lemma_decimal(n / 10);
        assert(d.drop_last() =~= crate::text::decimal(n / 10));
        assert forall|i: int| 0 <= i < d.len() implies crate::text::is_digit(#[trigger] d[i]) by {
            if i < d.len() - 1 {
                assert(d[i] == crate::text::decimal(n / 10)[i]);
            }
        }
    }
}

pub(crate) proof fn lemma_decimal_is_read(n: u64)
    ensures
        crate::text::spelled_u64(crate::text::decimal(n as nat)) == Some(n),
{
    let d = crate::text::decimal(n as nat);
    lemma_decimal(n as nat);
    assert(crate::text::is_digit(d[0]));
}

/// A number is read back as it was written, and no two numbers are written alike.
pub proof fn law_a_number_is_read_as_it_is_written(
    out: &mut String,
    n: u64,
    other: &mut String,
    m: u64,
    text: &str,
    r: Option<u64>,
)
    requires
        call_ensures(append_decimal, (out, n), ()),
        old(out)@.len() == 0,
        text@ == final(out)@,
        call_ensures(parse_u64, (text,), r),
        call_ensures(append_decimal, (other, m), ()),
        old(other)@.len() == 0,
    ensures
        r == Some(n),
        final(out)@ == final(other)@ ==> n == m,
{
    assert(final(out)@ =~= crate::text::decimal(n as nat));
    assert(final(other)@ =~= crate::text::decimal(m as nat));
    lemma_decimal_is_read(n);
    lemma_decimal_is_read(m);
}

/// A number is read digit by digit: one more digit behind a text makes its number ten
/// times as large and the digit more, as far as it fits. One digit is its own number,
/// a plus sign in front changes nothing, and nothing else is a number.
pub proof fn law_a_number_is_read_digit_by_digit(
    text: &str,
    r: Option<u64>,
    more: &str,
    s: Option<u64>,
    digit: int,
)
    requires
        call_ensures(parse_u64, (text,), r),
        call_ensures(parse_u64, (more,), s),
    ensures
        r is Some && 0 <= digit < 10 && more@.len() == text@.len() + 1 && more@.drop_last()
            == text@ && shows(more@.last(), digit) && 10 * r->0 + digit <= u64::MAX ==> s is Some
            && s->0 == 10 * r->0 + digit,
        text@.len() == 1 && shows(text@[0], digit) ==> r is Some && r->0 == digit,
        r is Some ==> forall|i: int|
            0 <= i < text@.len() ==> 48 <= (#[trigger] text@[i]) as u32 <= 57 || i == 0 && text@[0]
                == '+' && text@.len() > 1,
        text@.len() == 0 ==> r is None,
        text@.len() > 0 && text@[0] != '+' && more@ == seq!['+'] + text@ ==> s == r,
{
    let t = text@;
    let m = more@;
    let dt = crate::text::unsigned_part(t);
    let dm = crate::text::unsigned_part(m);
    if r is Some {
        assert forall|i: int| 0 <= i < t.len() implies 48 <= (#[trigger] t[i]) as u32 <= 57 || i
            == 0 && t[0] == '+' && t.len() > 1 by {
            if t[0] == '+' {
                if i > 0 {
                    assert(dt[i - 1] == t[i]);
                    assert(crate::text::is_digit(dt[i - 1]));
                }
            } else {
                assert(crate::text::is_digit(dt[i]));
            }
        }
    }
    if r is Some && 0 <= digit < 10 && m.len() == t.len() + 1 && m.drop_last() == t && shows(
        m.last(),
        digit,
    ) {
        assert(m[0] == t[0]);
        assert(dm.drop_last() =~= dt);
        assert(dm.last() == m.last());
        assert forall|i: int| 0 <= i < dm.len() implies crate::text::is_digit(#[trigger] dm[i]) by {
            if i < dt.len() {
                assert(dm[i] == dt[i]);
            }
        }
    }
    if t.len() == 1 && shows(t[0], digit) {
        reveal_with_fuel(crate::text::digits_value, 2);
        assert(dt =~= t);
        assert(dt.drop_last() =~= Seq::<char>::empty());
    }
    if t.len() > 0 && t[0] != '+' && m == seq!['+'] + t {
        assert(dm =~= t);
    }
}

/// Of the ASCII characters the tab, the line ends, the form feed and the space are
/// white space; a letter, a digit or a sign is none. Beyond them white space is the next
/// line, the no-break and the Ogham space, the spaces from the en quad to the hair space,
/// the separators of lines and paragraphs, and the narrow, the mathematical and the
/// ideographic space.
pub proof fn law_white_space_is_known_by_its_code(c: char, r: bool)
    requires
        call_ensures(is_white_space, (c,), r),
    ensures
        (c as u32) < 128 ==> (r <==> c == ' ' || 9 <= c as u32 <= 13),
        (c as u32) >= 128 ==> (r <==> c as u32 == 133 || c as u32 == 160 || c as u32 == 5760
            || 8192 <= c as u32 <= 8202 || c as u32 == 8232 || c as u32 == 8233 || c as u32 == 8239
            || c as u32 == 8287 || c as u32 == 12288),
{
}

/// A trimmed text is what stands between the white space at its ends: it neither
/// starts nor ends with any.
pub proof fn law_a_trim_takes_the_ends_alone(s: &str, r: &str)
    requires
        call_ensures(trim, (s,), r),
    ensures
        exists|from: int| #[trigger] stands_between_white_space(s@, from, r@),
        r@.len() > 0 ==> !crate::text::white_space(r@[0]) && !crate::text::white_space(r@.last()),
{
    lemma_trimmed(s@);
}

/// `inner` stands in `s` from `from` on, with nothing but white space before and behind
/// it.
pub open spec fn stands_between_white_space(s: Seq<char>, from: int, inner: Seq<char>) -> bool {
    &&& 0 <= from <= from + inner.len() <= s.len()
    &&& s.subrange(from, from + inner.len()) == inner
    &&& forall|i: int|
        0 <= i < from || from + inner.len() <= i < s.len() ==> crate::text::white_space(
            #[trigger] s[i],
        )
}

proof fn lemma_trimmed(s: Seq<char>)
    ensures
        exists|from: int| #[trigger]
            stands_between_white_space(s, from, crate::text::trimmed(s)),
        crate::text::trimmed(s).len() > 0 ==> !crate::text::white_space(crate::text::trimmed(s)[0])
            && !crate::text::white_space(crate::text::trimmed(s).last()),
    decreases s.len(),
{
    let t = crate::text::trimmed(s);
    if s.len() > 0 && crate::text::white_space(s[0]) {
        let rest = s.drop_first();
        lemma_trimmed(rest);
        let from = choose|from: int| #[trigger] stands_between_white_space(rest, from, t);
        lemma_white_space_in_front(s, from, t);
    } else if s.len() > 0 && crate::text::white_space(s.last()) {
        let rest = s.drop_last();
        lemma_trimmed(rest);
        let from = choose|from: int| #[trigger] stands_between_white_space(rest, from, t);
        lemma_white_space_behind(s, from, t);
    } else {
        assert(s.subrange(0, s.len() as int) =~= s);
        assert(stands_between_white_space(s, 0, t));
    }
}

proof fn lemma_white_space_in_front(s: Seq<char>, from: int, t: Seq<char>)
    requires
        s.len() > 0,
        crate::text::white_space(s[0]),
        stands_between_white_space(s.drop_first(), from, t),
    ensures
        stands_between_white_space(s, from + 1, t),
{
    let rest = s.drop_first();
    assert(s.subrange(from + 1, from + 1 + t.len()) =~= rest.subrange(from, from + t.len()));
    assert forall|i: int|
        0 <= i < from + 1 || from + 1 + t.len() <= i < s.len() implies crate::text::white_space(
        #[trigger] s[i],
    ) by {
        if i > 0 {
            assert(s[i] == rest[i - 1]);
            assert(crate::text::white_space(rest[i - 1]));
        }
    }
}

proof fn lemma_white_space_behind(s: Seq<char>, from: int, t: Seq<char>)
    requires
        s.len() > 0,
        crate::text::white_space(s.last()),
        stands_between_white_space(s.drop_last(), from, t),
    ensures
        stands_between_white_space(s, from, t),
{
    let rest = s.drop_last();
    assert(s.subrange(from, from + t.len()) =~= rest.subrange(from, from + t.len()));
    assert forall|i: int|
        0 <= i < from || from + t.len() <= i < s.len() implies crate::text::white_space(
        #[trigger] s[i],
    ) by {
        if i < rest.len() {
            assert(s[i] == rest[i]);
            assert(crate::text::white_space(rest[i]));
        }
    }
}

/// `lower` is the lower case of `c`, as far as ASCII goes.
pub open spec fn is_lower_of(c: char, lower: char) -> bool {
    if 'A' <= c && c <= 'Z' {
        lower as u32 == c as u32 + 32
    } else {
        lower == c
    }
}

/// Lower case changes the 26 capital letters of ASCII and nothing else, and a
/// comparison or a search in lower case goes by it character by character.
pub proof fn law_lower_case_goes_letter_by_letter(
    c: char,
    r: char,
    s: &str,
    key: &str,
    same: bool,
    found: bool,
)
    requires
        call_ensures(to_ascii_lower, (c,), r),
        call_ensures(lowered_is, (s, key), same),
        call_ensures(lowered_has_text, (s, key), found),
    ensures
        is_lower_of(c, r),
        same <==> s@.len() == key@.len() && forall|i: int|
            0 <= i < s@.len() ==> is_lower_of(#[trigger] s@[i], key@[i]),
        found <==> exists|at: int| #[trigger] lowers_to_at(s@, at, key@),
{
    let l = crate::text::lowered(s@);
    if same {
        assert forall|i: int| 0 <= i < s@.len() implies is_lower_of(#[trigger] s@[i], key@[i]) by {
            assert(l[i] == crate::text::ascii_lower(s@[i]));
            lemma_lower_of(s@[i]);
        }
    }
    if s@.len() == key@.len() && forall|i: int|
        0 <= i < s@.len() ==> is_lower_of(#[trigger] s@[i], key@[i]) {
        assert forall|i: int| 0 <= i < s@.len() implies l[i] == key@[i] by {
            assert(is_lower_of(s@[i], key@[i]));
            lemma_one_lower(s@[i], l[i], key@[i]);
        }
        assert(l =~= key@);
    }
    if found {
        let at = choose|i: int|
            0 <= i && i + key@.len() <= l.len() && #[trigger] l.subrange(i, i + key@.len()) == key@;
        assert forall|k: int| 0 <= k < key@.len() implies is_lower_of(
            s@[at + k],
            #[trigger] key@[k],
        ) by {
            assert(l.subrange(at, at + key@.len())[k] == key@[k]);
            assert(l[at + k] == crate::text::ascii_lower(s@[at + k]));
            lemma_lower_of(s@[at + k]);
        }
        assert(lowers_to_at(s@, at, key@));
    }
    if exists|at: int| #[trigger] lowers_to_at(s@, at, key@) {
        let at = choose|at: int| #[trigger] lowers_to_at(s@, at, key@);
        assert forall|k: int| 0 <= k < key@.len() implies l.subrange(at, at + key@.len())[k]
            == key@[k] by {
            assert(is_lower_of(s@[at + k], key@[k]));
            lemma_one_lower(s@[at + k], l[at + k], key@[k]);
        }
        assert(l.subrange(at, at + key@.len()) =~= key@);
    }
}

/// `s` reads as `key` from `at` on, in lower case.
pub open spec fn lowers_to_at(s: Seq<char>, at: int, key: Seq<char>) -> bool {
    &&& 0 <= at
    &&& at + key.len() <= s.len()
    &&& forall|k: int| 0 <= k < key.len() ==> is_lower_of(s[at + k], #[trigger] key[k])
}

proof fn lemma_lower_of(c: char)
    ensures
        is_lower_of(c, crate::text::ascii_lower(c)),
{
}

proof fn lemma_one_lower(c: char, a: char, b: char)
    requires
        is_lower_of(c, b),
        a == crate::text::ascii_lower(c),
    ensures
        a == b,
{
}

/// Two texts are the same where they have the same characters in the same places.
pub proof fn law_same_texts_have_the_same_characters(a: &str, b: &str, r: bool)
    requires
        call_ensures(same_text, (a, b), r),
    ensures
        r <==> a@.len() == b@.len() && forall|i: int| 0 <= i < a@.len() ==> a@[i] == b@[i],
{
    if a@.len() == b@.len() && forall|i: int| 0 <= i < a@.len() ==> a@[i] == b@[i] {
        assert(a@ =~= b@);
    }
}

/// A replacement takes the first place of the pattern, puts the new text there, and
/// goes on behind it; a text without the pattern stays as it is.
pub proof fn law_a_replacement_goes_from_the_left(
    s: &str,
    pat: &str,
    with: &str,
    r: String,
    behind: &str,
    rest: String,
    at: int,
)
    requires
        pat@.len() > 0,
        call_ensures(replace_all, (s, pat, with), r),
        call_ensures(replace_all, (behind, pat, with), rest),
    ensures
        (forall|i: int|
            0 <= i && i + pat@.len() <= s@.len() ==> #[trigger] s@.subrange(i, i + pat@.len())
                != pat@) ==> r@ == s@,
        0 <= at && at + pat@.len() <= s@.len() && s@.subrange(at, at + pat@.len()) == pat@ && (
        forall|i: int|
            0 <= i < at ==> #[trigger] s@.subrange(i, i + pat@.len()) != pat@) && behind@
            == s@.subrange(at + pat@.len(), s@.len() as int) ==> r@ == s@.take(at) + with@ + rest@,
{
    if forall|i: int|
        0 <= i && i + pat@.len() <= s@.len() ==> #[trigger] s@.subrange(i, i + pat@.len())
            != pat@ {
        lemma_nothing_to_replace(s@, pat@, with@, 0);
        assert(s@.subrange(0, s@.len() as int) =~= s@);
    }
    if 0 <= at && at + pat@.len() <= s@.len() && s@.subrange(at, at + pat@.len()) == pat@ && (
    forall|i: int| 0 <= i < at ==> #[trigger] s@.subrange(i, i + pat@.len()) != pat@) && behind@
        == s@.subrange(at + pat@.len(), s@.len() as int) {
        lemma_replaced_up_to(s@, pat@, with@, 0, at);
        lemma_replaced_behind(s@, pat@, with@, at + pat@.len() as int, behind@, 0);
        assert(s@.subrange(0, at) =~= s@.take(at));
        assert(r@ =~= s@.take(at) + with@ + rest@);
    }
}

proof fn lemma_nothing_to_replace(s: Seq<char>, pat: Seq<char>, with: Seq<char>, at: int)
    requires
        0 <= at <= s.len(),
        pat.len() > 0,
        forall|i: int|
            0 <= i && i + pat.len() <= s.len() ==> #[trigger] s.subrange(i, i + pat.len()) != pat,
    ensures
        crate::text::replaced_from(s, pat, with, at) == s.subrange(at, s.len() as int),
    decreases s.len() - at,
{
    if at < s.len() {
        lemma_nothing_to_replace(s, pat, with, at + 1);
        assert(seq![s[at]] + s.subrange(at + 1, s.len() as int) =~= s.subrange(
            at,
            s.len() as int,
        ));
    } else {
        assert(s.subrange(at, s.len() as int) =~= Seq::<char>::empty());
    }
}

proof fn lemma_replaced_up_to(
    s: Seq<char>,
    pat: Seq<char>,
    with: Seq<char>,
    from: int,
    at: int,
)
    requires
        pat.len() > 0,
        0 <= from <= at,
        at + pat.len() <= s.len(),
        s.subrange(at, at + pat.len()) == pat,
        forall|i: int| 0 <= i < at ==> #[trigger] s.subrange(i, i + pat.len()) != pat,
    ensures
        crate::text::replaced_from(s, pat, with, from) == s.subrange(from, at) + with
            + crate::text::replaced_from(s, pat, with, at + pat.len()),
    decreases at - from,
{
    if from < at {
        lemma_replaced_up_to(s, pat, with, from + 1, at);
        assert(s.subrange(from, from + pat.len()) != pat);
        assert(seq![s[from]] + (s.subrange(from + 1, at) + with + crate::text::replaced_from(
            s,
            pat,
            with,
            at + pat.len(),
        )) =~= s.subrange(from, at) + with + crate::text::replaced_from(
            s,
            pat,
            with,
            at + pat.len(),
        ));
    } else {
        assert(crate::text::stands_at(s, pat, at));
        assert(s.subrange(from, at) + with =~= with);
    }
}

proof fn lemma_replaced_behind(
    s: Seq<char>,
    pat: Seq<char>,
    with: Seq<char>,
    skipped: int,
    behind: Seq<char>,
    at: int,
)
    requires
        pat.len() > 0,
        0 <= skipped <= s.len(),
        behind == s.subrange(skipped, s.len() as int),
        0 <= at,
    ensures
        crate::text::replaced_from(s, pat, with, skipped + at) == crate::text::replaced_from(
            behind,
            pat,
            with,
            at,
        ),
    decreases behind.len() - at,
{
    if at < behind.len() {
        if at + pat.len() <= behind.len() {
            assert(behind.subrange(at, at + pat.len()) =~= s.subrange(
                skipped + at,
                skipped + at + pat.len(),
            ));
        }
        if crate::text::stands_at(behind, pat, at) {
            lemma_replaced_behind(s, pat, with, skipped, behind, at + pat.len());
        } else {
            lemma_replaced_behind(s, pat, with, skipped, behind, at + 1);
        }
    }
}

} // verus!
