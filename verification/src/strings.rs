//! Text as the editor handles it: trimming, numbers in decimal, comparison.
use vstd::prelude::*;
use vstd::string::StringExecFns;

verus! {

broadcast use vstd::string::group_string_axioms;

/// The characters that trimming removes: those with the White_Space property.
pub open spec fn is_white(c: char) -> bool {
    ||| '\u{9}' <= c <= '\u{d}'
    ||| c == ' '
    ||| c == '\u{85}'
    ||| c == '\u{a0}'
    ||| c == '\u{1680}'
    ||| '\u{2000}' <= c <= '\u{200a}'
    ||| c == '\u{2028}'
    ||| c == '\u{2029}'
    ||| c == '\u{202f}'
    ||| c == '\u{205f}'
    ||| c == '\u{3000}'
}

fn white(c: char) -> (r: bool)
    ensures
        r == is_white(c),
{
    ('\u{9}' <= c && c <= '\u{d}') || c == ' ' || c == '\u{85}' || c == '\u{a0}' || c == '\u{1680}'
        || ('\u{2000}' <= c && c <= '\u{200a}') || c == '\u{2028}' || c == '\u{2029}' || c
        == '\u{202f}' || c == '\u{205f}' || c == '\u{3000}'
}

/// `s` without the white space at its front.
pub open spec fn trim_front(s: Seq<char>) -> Seq<char>
    decreases s.len(),
{
    if s.len() > 0 && is_white(s[0]) {
        trim_front(s.drop_first())
    } else {
        s
    }
}

/// `s` without the white space at its back.
pub open spec fn trim_back(s: Seq<char>) -> Seq<char>
    decreases s.len(),
{
    if s.len() > 0 && is_white(s.last()) {
        trim_back(s.drop_last())
    } else {
        s
    }
}

/// `s` without the white space around it.
pub open spec fn trimmed(s: Seq<char>) -> Seq<char> {
    trim_back(trim_front(s))
}

/// The characters of `s`.
pub fn chars_of(s: &str) -> (r: Vec<char>)
    ensures
        r@ == s@,
{
    let mut out: Vec<char> = Vec::new();
    for c in it: s.chars()
        invariant
            it.seq() == s@,
            out@ == s@.take(it.index()),
    {
        out.push(c);
        assert(s@.take(it.index() + 1) =~= s@.take(it.index()).push(c));
    }
    assert(s@.take(s@.len() as int) =~= s@);
    out
}

/// `s` without the white space around it.
pub fn trim(s: &str) -> (r: &str)
    ensures
        r@ == trimmed(s@),
{
    let v = chars_of(s);
    let mut from: usize = 0;
    assert(v@.skip(0) =~= v@);
    while from < v.len() && white(v[from])
        invariant
            from <= v@.len(),
            v@ == s@,
            trim_front(s@) == trim_front(v@.skip(from as int)),
        decreases v.len() - from,
    {
        assert(v@.skip(from as int).drop_first() =~= v@.skip(from + 1));
        from = from + 1;
    }
    let ghost front = v@.skip(from as int);
    assert(trim_front(s@) == front);
    let mut to: usize = v.len();
    assert(front.take(to - from) =~= front);
    while from < to && white(v[to - 1])
        invariant
            from <= to <= v@.len(),
            front == v@.skip(from as int),
            trim_back(front) == trim_back(front.take(to - from)),
        decreases to - from,
    {
        assert(front.take(to - from).last() == v@[to - 1]);
        assert(front.take(to - from).drop_last() =~= front.take(to - 1 - from));
        to = to - 1;
    }
    assert(to > from ==> front.take(to - from).last() == v@[to - 1]);
    assert(s@.subrange(from as int, to as int) =~= front.take(to - from));
    s.substring_char(from, to)
}

/// Whether two texts are the same.
pub fn same_text(a: &str, b: &str) -> (r: bool)
    ensures
        r == (a@ == b@),
{
    let x = chars_of(a);
    let y = chars_of(b);
    if x.len() != y.len() {
        return false;
    }
    let mut i: usize = 0;
    while i < x.len()
        invariant
            i <= x@.len(),
            x@.len() == y@.len(),
            x@ == a@,
            y@ == b@,
            forall|j: int| 0 <= j < i ==> x@[j] == y@[j],
        decreases x.len() - i,
    {
        if x[i] != y[i] {
            assert(x@[i as int] != y@[i as int]);
            return false;
        }
        i = i + 1;
    }
    assert(x@ =~= y@);
    true
}

/// The digit `d` as a character.
pub open spec fn digit_char(d: nat) -> char {
    if d == 0 {
        '0'
    } else if d == 1 {
        '1'
    } else if d == 2 {
        '2'
    } else if d == 3 {
        '3'
    } else if d == 4 {
        '4'
    } else if d == 5 {
        '5'
    } else if d == 6 {
        '6'
    } else if d == 7 {
        '7'
    } else if d == 8 {
        '8'
    } else {
        '9'
    }
}

/// `n` written in decimal.
pub open spec fn decimal(n: nat) -> Seq<char>
    decreases n,
{
    if n < 10 {
        seq![digit_char(n)]
    } else {
        decimal(n / 10).push(digit_char(n % 10))
    }
}

fn digit_text(d: u64) -> (r: &'static str)
    requires
        d < 10,
    ensures
        r@ == seq![digit_char(d as nat)],
{
    proof {
        reveal_strlit("0");
        reveal_strlit("1");
        reveal_strlit("2");
        reveal_strlit("3");
        reveal_strlit("4");
        reveal_strlit("5");
        reveal_strlit("6");
        reveal_strlit("7");
        reveal_strlit("8");
        reveal_strlit("9");
    }
    let r = if d == 0 {
        "0"
    } else if d == 1 {
        "1"
    } else if d == 2 {
        "2"
    } else if d == 3 {
        "3"
    } else if d == 4 {
        "4"
    } else if d == 5 {
        "5"
    } else if d == 6 {
        "6"
    } else if d == 7 {
        "7"
    } else if d == 8 {
        "8"
    } else {
        "9"
    };
    assert(r@ =~= seq![digit_char(d as nat)]);
    r
}

/// Appends `n` in decimal.
pub fn append_decimal(out: &mut String, n: u128)
    ensures
        final(out)@ == old(out)@ + decimal(n as nat),
    decreases n,
{
    let ghost start = out@;
    if n >= 10 {
        append_decimal(out, n / 10);
        out.append(digit_text((n % 10) as u64));
        assert(out@ =~= start + decimal(n as nat));
    } else {
        out.append(digit_text(n as u64));
    }
}

/// `n` written in decimal, with a minus where it is negative.
pub open spec fn signed(n: int) -> Seq<char> {
    if n < 0 {
        "-"@ + decimal((-n) as nat)
    } else {
        decimal(n as nat)
    }
}

/// Appends `n` in decimal, with a minus where it is negative.
pub fn append_signed(out: &mut String, n: i64)
    ensures
        final(out)@ == old(out)@ + signed(n as int),
{
    let ghost start = out@;
    if n < 0 {
        out.append("-");
        let positive: i128 = -(n as i128);
        append_decimal(out, positive as u128);
        assert(out@ =~= start + signed(n as int));
    } else {
        append_decimal(out, n as u128);
    }
}

/// The value of the character `c` as a decimal digit.
pub open spec fn digit_value(c: char) -> Option<nat> {
    if '0' <= c <= '9' {
        Some((c as u32 - '0' as u32) as nat)
    } else {
        None
    }
}

/// The number that a row of digits stands for.
pub open spec fn digits_value(s: Seq<char>) -> Option<nat>
    decreases s.len(),
{
    if s.len() == 0 {
        Some(0)
    } else {
        match (digits_value(s.drop_last()), digit_value(s.last())) {
            (Some(high), Some(low)) => Some(high * 10 + low),
            _ => None,
        }
    }
}

/// The number that `s` stands for: a sign where one is allowed, then at least
/// one digit.
pub open spec fn number(s: Seq<char>, signed: bool) -> Option<int> {
    if s.len() > 0 && s[0] == '-' && signed {
        match digits_value(s.drop_first()) {
            Some(n) if s.len() > 1 => Some(-(n as int)),
            _ => None,
        }
    } else if s.len() > 0 && s[0] == '+' {
        match digits_value(s.drop_first()) {
            Some(n) if s.len() > 1 => Some(n as int),
            _ => None,
        }
    } else {
        match digits_value(s) {
            Some(n) if s.len() > 0 => Some(n as int),
            _ => None,
        }
    }
}

proof fn lemma_digits_prefix(s: Seq<char>, i: int)
    requires
        0 <= i <= s.len(),
    ensures
        match digits_value(s) {
            Some(n) => digits_value(s.take(i)) matches Some(m) && m <= n,
            None => true,
        },
    decreases s.len() - i,
{
    if i < s.len() {
        lemma_digits_prefix(s, i + 1);
        assert(s.take(i + 1).drop_last() =~= s.take(i));
    } else {
        assert(s.take(i) =~= s);
    }
}

/// What reading a row of digits gives.
enum Digits {
    /// It is no row of digits.
    Bad,
    /// It is larger than the limit.
    Large,
    Value(u64),
}

/// Reads the digits of `v` from `from` on; no more than `limit` is told apart.
fn read_digits(v: &Vec<char>, from: usize, limit: u64) -> (r: Digits)
    requires
        from <= v@.len(),
        limit <= 0x8000_0000_0000_0000,
    ensures
        match r {
            Digits::Bad => digits_value(v@.skip(from as int)) is None,
            Digits::Large => digits_value(v@.skip(from as int)) matches Some(n) ==> n > limit,
            Digits::Value(n) => digits_value(v@.skip(from as int)) == Some(n as nat) && n <= limit,
        },
{
    let ghost s = v@.skip(from as int);
    let mut i: usize = from;
    let mut n: u64 = 0;
    assert(s.take(0) =~= Seq::<char>::empty());
    while i < v.len()
        invariant
            from <= i <= v@.len(),
            s == v@.skip(from as int),
            limit <= 0x8000_0000_0000_0000,
            n <= limit,
            digits_value(s.take(i - from)) == Some(n as nat),
        decreases v.len() - i,
    {
        let c = v[i];
        let ghost k = i - from;
        assert(s.take(k + 1).drop_last() =~= s.take(k));
        assert(s.take(k + 1).last() == c);
        proof {
            lemma_digits_prefix(s, k + 1);
        }
        if c < '0' || c > '9' {
            return Digits::Bad;
        }
        let d: u64 = (c as u32 - '0' as u32) as u64;
        let wide: u128 = (n as u128) * 10 + (d as u128);
        if wide > limit as u128 {
            return Digits::Large;
        }
        n = wide as u64;
        i = i + 1;
    }
    assert(s.take(i - from) =~= s);
    Digits::Value(n)
}

/// The unsigned number that `s` stands for, where it fits.
pub fn parse_u32(s: &str) -> (r: Option<u32>)
    ensures
        r == (match number(s@, false) {
            Some(n) if n <= u32::MAX => Some(n as u32),
            _ => None,
        }),
{
    let v = chars_of(s);
    let plus = v.len() > 0 && v[0] == '+';
    let from: usize = if plus {
        1
    } else {
        0
    };
    assert(v@.skip(0) =~= v@);
    assert(plus ==> v@.skip(1) =~= v@.drop_first());
    if from == v.len() {
        return None;
    }
    match read_digits(&v, from, u32::MAX as u64) {
        Digits::Value(n) => Some(n as u32),
        _ => None,
    }
}

/// The signed number that `s` stands for, where it fits.
pub fn parse_i64(s: &str) -> (r: Option<i64>)
    ensures
        r == (match number(s@, true) {
            Some(n) if i64::MIN <= n <= i64::MAX => Some(n as i64),
            _ => None,
        }),
{
    let v = chars_of(s);
    let minus = v.len() > 0 && v[0] == '-';
    let plus = v.len() > 0 && v[0] == '+';
    let from: usize = if plus || minus {
        1
    } else {
        0
    };
    assert(v@.skip(0) =~= v@);
    assert(plus || minus ==> v@.skip(1) =~= v@.drop_first());
    if from == v.len() {
        return None;
    }
    let limit: u64 = if minus {
        0x8000_0000_0000_0000
    } else {
        0x7fff_ffff_ffff_ffff
    };
    match read_digits(&v, from, limit) {
        Digits::Value(n) => if minus {
            if n == 0x8000_0000_0000_0000 {
                Some(i64::MIN)
            } else {
                Some(-(n as i64))
            }
        } else {
            Some(n as i64)
        },
        _ => None,
    }
}

/// `c` in lower case, where it is an ASCII letter.
pub open spec fn lower(c: char) -> char {
    if 'A' <= c <= 'Z' {
        ((c as u32 + 32) as u32) as char
    } else {
        c
    }
}

/// Whether two texts agree but for the case of ASCII letters.
pub open spec fn same_but_case(a: Seq<char>, b: Seq<char>) -> bool {
    a.len() == b.len() && forall|i: int| 0 <= i < a.len() ==> lower(#[trigger] a[i]) == lower(b[i])
}

fn lower_code(c: char) -> (r: u32)
    ensures
        r == lower(c) as u32,
{
    if 'A' <= c && c <= 'Z' {
        c as u32 + 32
    } else {
        c as u32
    }
}

/// Whether two texts agree but for the case of ASCII letters.
pub fn eq_ignoring_case(a: &str, b: &str) -> (r: bool)
    ensures
        r == same_but_case(a@, b@),
{
    let x = chars_of(a);
    let y = chars_of(b);
    if x.len() != y.len() {
        return false;
    }
    let mut i: usize = 0;
    while i < x.len()
        invariant
            i <= x@.len(),
            x@.len() == y@.len(),
            x@ == a@,
            y@ == b@,
            forall|j: int| 0 <= j < i ==> lower(#[trigger] x@[j]) == lower(y@[j]),
        decreases x.len() - i,
    {
        if lower_code(x[i]) != lower_code(y[i]) {
            assert(lower(x@[i as int]) != lower(y@[i as int]));
            return false;
        }
        assert(lower(x@[i as int]) as u32 == lower(y@[i as int]) as u32);
        i = i + 1;
    }
    true
}

/// A text that starts `a` and goes on with `b`.
pub fn joined(a: &str, b: &str) -> (r: String)
    ensures
        r@ == a@ + b@,
{
    let mut out = a.to_owned();
    out.append(b);
    out
}

} // verus!
