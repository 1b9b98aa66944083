//! What trimming, numbers and comparisons of text come to, character by character.
use vstd::prelude::*;

use crate::seqs::{copied, holds, position};
use crate::strings::{
    append_decimal, append_signed, chars_of, decimal, digit_char, digit_value, digits_value,
    eq_ignoring_case, joined, number, parse_i64, parse_u32, same_text, trim, trim_back, trim_front,
    trimmed,
};

verus! {

/// Whether the character is white space.
pub open spec fn is_blank(c: char) -> bool {
    let n = c as u32;
    ||| 9 <= n <= 13
    ||| n == 32
    ||| n == 0x85
    ||| n == 0xa0
    ||| n == 0x1680
    ||| 0x2000 <= n <= 0x200a
    ||| n == 0x2028
    ||| n == 0x2029
    ||| n == 0x202f
    ||| n == 0x205f
    ||| n == 0x3000
}

/// Whether `part` is `text` without the white space at its ends: it stands in it from
/// `from` on, all around it is white, and neither of its ends is.
pub open spec fn is_core(text: Seq<char>, part: Seq<char>, from: int) -> bool {
    let to = from + part.len();
    &&& 0 <= from && to <= text.len()
    &&& part == text.subrange(from, to)
    &&& forall|i: int| 0 <= i < from ==> is_blank(#[trigger] text[i])
    &&& forall|i: int| to <= i < text.len() ==> is_blank(#[trigger] text[i])
    &&& part.len() > 0 ==> !is_blank(part[0]) && !is_blank(part.last())
}

proof fn lemma_blank(c: char)
    ensures
        crate::strings::is_white(c) == is_blank(c),
{
}

proof fn lemma_trim_front(s: Seq<char>)
    ensures
        trim_front(s).len() <= s.len(),
        trim_front(s) == s.skip(s.len() - trim_front(s).len()),
        forall|i: int| 0 <= i < s.len() - trim_front(s).len() ==> is_blank(#[trigger] s[i]),
        trim_front(s).len() > 0 ==> !is_blank(trim_front(s)[0]),
    decreases s.len(),
{
    if s.len() > 0 {
        lemma_blank(s[0]);
    }
    if s.len() > 0 && crate::strings::is_white(s[0]) {
        let rest = s.drop_first();
        lemma_trim_front(rest);
        let n = rest.len() - trim_front(rest).len();
        assert(rest.skip(n) =~= s.skip(n + 1));
        assert forall|i: int| 0 <= i < n + 1 implies is_blank(#[trigger] s[i]) by {
            if i > 0 {
                assert(rest[i - 1] == s[i]);
            }
        }
    } else {
        assert(s.skip(0) =~= s);
    }
}

proof fn lemma_trim_back(s: Seq<char>)
    ensures
        trim_back(s).len() <= s.len(),
        trim_back(s) == s.take(trim_back(s).len() as int),
        forall|i: int| trim_back(s).len() <= i < s.len() ==> is_blank(#[trigger] s[i]),
        trim_back(s).len() > 0 ==> !is_blank(trim_back(s).last()),
    decreases s.len(),
{
    if s.len() > 0 {
        lemma_blank(s.last());
    }
    if s.len() > 0 && crate::strings::is_white(s.last()) {
        let rest = s.drop_last();
        lemma_trim_back(rest);
        let n = trim_back(rest).len() as int;
        assert(rest.take(n) =~= s.take(n));
        assert forall|i: int| n <= i < s.len() implies is_blank(#[trigger] s[i]) by {
            if i < rest.len() {
                assert(rest[i] == s[i]);
            }
        }
    } else {
        assert(s.take(s.len() as int) =~= s);
    }
}

pub proof fn lemma_trimmed(s: Seq<char>)
    ensures
        exists|from: int| is_core(s, trimmed(s), from),
{
    lemma_trim_front(s);
    let front = trim_front(s);
    lemma_trim_back(front);
    let part = trimmed(s);
    let from = s.len() - front.len();
    let to = from + part.len();
    assert(part =~= s.subrange(from, to));
    assert forall|i: int| to <= i < s.len() implies is_blank(#[trigger] s[i]) by {
        assert(s[i] == front[i - from]);
    }
    if part.len() > 0 {
        assert(part[0] == front[0]);
    }
    assert(is_core(s, part, from));
}

/// Trimming takes the white space off both ends and nothing else: what is left stands in
/// the text, all around it is white, and it neither starts nor ends with white space.
pub proof fn law_trimming_takes_the_white_ends_off(text: &str)
    ensures
        forall|r: &str| #[trigger]
            call_ensures(trim, (text,), r) ==> exists|from: int| is_core(text@, r@, from),
{
    lemma_trimmed(text@);
}

/// The digits of a number, by their codes.
pub proof fn law_digits_stand_in_code_order(d: nat)
    requires
        d < 10,
    ensures
        digit_char(d) as u32 == 48 + d,
        digit_value(digit_char(d)) == Some(d),
{
}

/// A number is written as its digits, the highest first and without leading zeros: one
/// digit stands for itself, and another digit behind a number is ten times that number
/// and the digit.
pub proof fn law_numbers_are_written_in_decimal(n: nat, d: nat)
    requires
        d < 10,
    ensures
        decimal(d).len() == 1 && decimal(d)[0] as u32 == 48 + d,
        n > 0 ==> decimal(n * 10 + d) == decimal(n).push(digit_char(d)),
        decimal(n).len() > 0,
        n > 0 ==> decimal(n)[0] as u32 > 48,
        forall|i: int| 0 <= i < decimal(n).len() ==> 48 <= #[trigger] decimal(n)[i] as u32 <= 57,
    decreases n,
{
    if n > 0 {
        assert((n * 10 + d) / 10 == n);
        assert((n * 10 + d) % 10 == d);
    }
    if n >= 10 {
        law_numbers_are_written_in_decimal(n / 10, n % 10);
        let front = decimal(n / 10);
        assert forall|
            i: int,
        | 0 <= i < decimal(n).len() implies 48 <= #[trigger] decimal(n)[i] as u32
            <= 57 by {
            if i < front.len() {
                assert(decimal(n)[i] == front[i]);
            }
        }
    }
}

/// As many zeros.
pub open spec fn zeros(k: nat) -> Seq<char> {
    Seq::new(k, |i: int| '0')
}

proof fn lemma_digits(s: Seq<char>)
    requires
        s.len() > 0,
        digits_value(s) is Some,
    ensures
        exists|k: nat| #[trigger] zeros(k) + decimal(digits_value(s)->0) == s,
    decreases s.len(),
{
    let front = s.drop_last();
    let d = digit_value(s.last())->0;
    let n = digits_value(s)->0;
    assert(s =~= front.push(s.last()));
    assert(digit_char(d) == s.last());
    if front.len() == 0 {
        assert(digits_value(front) == Some(0nat));
        assert(n == d);
        assert(zeros(0) + decimal(n) =~= s);
    } else {
        lemma_digits(front);
        let m = digits_value(front)->0;
        let k = choose|k: nat| #[trigger] zeros(k) + decimal(m) == front;
        if m == 0 {
            assert(decimal(0) =~= seq!['0']);
            assert(zeros(k + 1) + decimal(n) =~= s);
        } else {
            law_numbers_are_written_in_decimal(m, d);
            assert(n == m * 10 + d);
            assert(zeros(k) + decimal(n) =~= s);
        }
    }
}

proof fn lemma_zeros(k: nat, n: nat)
    ensures
        digits_value(zeros(k) + decimal(n)) == Some(n),
    decreases n, k,
{
    let s = zeros(k) + decimal(n);
    if n < 10 {
        assert(s.drop_last() =~= zeros(k));
        lemma_only_zeros(k);
        assert(s.last() == digit_char(n));
    } else {
        lemma_zeros(k, n / 10);
        assert(s.drop_last() =~= zeros(k) + decimal(n / 10));
        assert(s.last() == digit_char(n % 10));
    }
}

proof fn lemma_only_zeros(k: nat)
    ensures
        digits_value(zeros(k)) == Some(0nat),
    decreases k,
{
    if k > 0 {
        lemma_only_zeros((k - 1) as nat);
        assert(zeros(k).drop_last() =~= zeros((k - 1) as nat));
    }
}

/// Whether the text spells the number: its digits, with zeros before them or not.
pub open spec fn spells(text: Seq<char>, n: nat) -> bool {
    exists|k: nat| #[trigger] zeros(k) + decimal(n) == text
}

/// Whether the text spells the number, with a sign before the digits or not.
pub open spec fn spells_signed(text: Seq<char>, n: int) -> bool {
    ||| n >= 0 && spells(text, n as nat)
    ||| text.len() > 0 && text[0] == '+' && n >= 0 && spells(text.drop_first(), n as nat)
    ||| text.len() > 0 && text[0] == '-' && n <= 0 && spells(text.drop_first(), (-n) as nat)
}

proof fn lemma_spells(text: Seq<char>, n: nat)
    ensures
        spells(text, n) <==> text.len() > 0 && digits_value(text) == Some(n),
        spells(text, n) ==> text[0] != '-' && text[0] != '+',
{
    if text.len() > 0 && digits_value(text) == Some(n) {
        lemma_digits(text);
    }
    if spells(text, n) {
        let k = choose|k: nat| #[trigger] zeros(k) + decimal(n) == text;
        lemma_zeros(k, n);
        law_numbers_are_written_in_decimal(n, 0);
        if k == 0 {
            assert(text[0] == decimal(n)[0]);
        } else {
            assert(text[0] == '0');
        }
    }
}

/// A natural number is read from a text that spells it, with a plus sign before it or
/// not, and from no other; one that is too large is not read.
pub proof fn law_natural_numbers_are_read_as_spelt(text: &str, r: Option<u32>)
    requires
        call_ensures(parse_u32, (text,), r),
    ensures
        r matches Some(n) ==> spells_signed(text@, n as int) && text@[0] != '-',
        r is None ==> forall|n: u32|
            !(#[trigger] spells_signed(text@, n as int) && text@[0] != '-'),
{
    lemma_number(text@, false);
}

/// A whole number is read from a text that spells it, with a sign before it or not, and
/// from no other.
pub proof fn law_whole_numbers_are_read_as_spelt(text: &str, r: Option<i64>)
    requires
        call_ensures(parse_i64, (text,), r),
    ensures
        r matches Some(n) ==> spells_signed(text@, n as int),
        r is None ==> forall|n: i64| !#[trigger] spells_signed(text@, n as int),
{
    lemma_number(text@, true);
}

proof fn lemma_number(text: Seq<char>, minus: bool)
    ensures
        forall|n: int| #[trigger]
            spells_signed(text, n) && (minus || text[0] != '-') <==> number(text, minus) == Some(n),
{
    assert forall|n: int| #[trigger]
        spells_signed(text, n) && (minus || text[0] != '-') <==> number(text, minus) == Some(n) by {
        if n >= 0 {
            lemma_spells(text, n as nat);
            lemma_spells(text.drop_first(), n as nat);
        }
        if n <= 0 {
            lemma_spells(text.drop_first(), (-n) as nat);
        }
        if text.len() > 0 && text[0] == '-' {
            if digits_value(text) is Some {
                lemma_spells(text, digits_value(text)->0);
            }
            if digits_value(text.drop_first()) is Some {
                lemma_spells(text.drop_first(), digits_value(text.drop_first())->0);
            }
        }
        if text.len() > 0 && text[0] == '+' {
            if digits_value(text) is Some {
                lemma_spells(text, digits_value(text)->0);
            }
        }
        if text.len() == 0 {
            if n >= 0 && spells(text, n as nat) {
                assert(text.len() > 0);
            }
        }
    }
}

/// Whether two characters are the same but for the case of an ASCII letter.
pub open spec fn is_same_letter(a: char, b: char) -> bool {
    let x = a as u32;
    let y = b as u32;
    ||| x == y
    ||| 65 <= x <= 90 && y == x + 32
    ||| 65 <= y <= 90 && x == y + 32
}

/// Texts are the same but for case where they are, character for character.
pub proof fn law_case_is_ignored_letter_by_letter(a: &str, b: &str, r: bool)
    requires
        call_ensures(eq_ignoring_case, (a, b), r),
    ensures
        r <==> a@.len() == b@.len() && forall|i: int|
            0 <= i < a@.len() ==> is_same_letter(#[trigger] a@[i], b@[i]),
{
    assert forall|x: char, y: char|
        #![trigger crate::strings::lower(x), crate::strings::lower(y)]
        crate::strings::lower(x) == crate::strings::lower(y) <==> is_same_letter(x, y) by {
        lemma_lower(x, y);
    }
    if r {
        assert forall|i: int| 0 <= i < a@.len() implies is_same_letter(#[trigger] a@[i], b@[i]) by {
            assert(crate::strings::lower(a@[i]) == crate::strings::lower(b@[i]));
        }
    }
    if a@.len() == b@.len() && forall|i: int|
        0 <= i < a@.len() ==> is_same_letter(#[trigger] a@[i], b@[i]) {
        assert forall|i: int| 0 <= i < a@.len() implies crate::strings::lower(#[trigger] a@[i])
            == crate::strings::lower(b@[i]) by {
            assert(is_same_letter(a@[i], b@[i]));
        }
    }
}

pub proof fn lemma_lower(x: char, y: char)
    ensures
        crate::strings::lower(x) == crate::strings::lower(y) <==> is_same_letter(x, y),
{
    let a = crate::strings::lower(x);
    let b = crate::strings::lower(y);
    assert(a as u32 == (if 65 <= x as u32 <= 90 {
        (x as u32 + 32) as u32
    } else {
        x as u32
    }));
    assert(b as u32 == (if 65 <= y as u32 <= 90 {
        (y as u32 + 32) as u32
    } else {
        y as u32
    }));
}

/// Texts and lists are copied, joined, searched and compared as they are.
pub proof fn law_plain_helpers(a: &str, b: &str, v: Vec<u64>, x: u64)
    ensures
        forall|r: Vec<char>| #[trigger] call_ensures(chars_of, (a,), r) ==> r@ == a@,
        forall|r: bool| #[trigger] call_ensures(same_text, (a, b), r) ==> (r <==> a@ == b@),
        forall|r: String| #[trigger] call_ensures(joined, (a, b), r) ==> r@ == a@ + b@,
        forall|s: &mut String, n: u128| #[trigger]
            call_ensures(append_decimal, (s, n), ()) ==> (*final(s))@ == (*s)@ + decimal(n as nat),
        forall|s: &mut String, n: i64| #[trigger]
            call_ensures(append_signed, (s, n), ()) ==> (*final(s))@ == (*s)@ + (if n < 0 {
                "-"@ + decimal((-n) as nat)
            } else {
                decimal(n as nat)
            }),
        forall|r: bool| #[trigger] call_ensures(holds, (&v, x), r) ==> (r <==> v@.contains(x)),
        forall|r: Vec<u64>| #[trigger] call_ensures(copied, (&v,), r) ==> r@ == v@,
        forall|r: Option<usize>| #[trigger]
            call_ensures(position, (&v, x), r) ==> {
                &&& r matches Some(i) ==> v@.len() > i && v@[i as int] == x && forall|j: int|
                    0 <= j < i ==> #[trigger] v@[j] != x
                &&& r is None ==> !v@.contains(x)
            },
{
    crate::seqs::lemma_first_index(v@, x);
}

} // verus!
