//! Character and string helpers shared by the rest of the crate.

use vstd::prelude::*;
use vstd::string::*;

verus! {

/// The Unicode `White_Space` property, which `char::is_whitespace` and
/// `str::trim` follow.
pub open spec fn is_white_space(c: char) -> bool {
    let u = c as u32;
    ||| 0x09 <= u <= 0x0d
    ||| u == 0x20
    ||| u == 0x85
    ||| u == 0xa0
    ||| u == 0x1680
    ||| 0x2000 <= u <= 0x200a
    ||| u == 0x2028
    ||| u == 0x2029
    ||| u == 0x202f
    ||| u == 0x205f
    ||| u == 0x3000
}

/// Whether `c` is white space in the sense of [`is_white_space`].
pub fn is_white_space_char(c: char) -> (r: bool)
    ensures
        r == is_white_space(c),
{
    let u = c as u32;
    (0x09 <= u && u <= 0x0d) || u == 0x20 || u == 0x85 || u == 0xa0 || u == 0x1680 || (0x2000
        <= u && u <= 0x200a) || u == 0x2028 || u == 0x2029 || u == 0x202f || u == 0x205f || u
        == 0x3000
}

/// `s` without its leading white space.
pub open spec fn trim_front(s: Seq<char>) -> Seq<char>
    decreases s.len(),
{
    if s.len() > 0 && is_white_space(s[0]) {
        trim_front(s.drop_first())
    } else {
        s
    }
}

/// `s` without its trailing white space.
pub open spec fn trim_back(s: Seq<char>) -> Seq<char>
    decreases s.len(),
{
    if s.len() > 0 && is_white_space(s.last()) {
        trim_back(s.drop_last())
    } else {
        s
    }
}

/// `s` without leading and trailing white space, as `str::trim` gives it.
pub open spec fn trimmed(s: Seq<char>) -> Seq<char> {
    trim_back(trim_front(s))
}

proof fn lemma_trim_front_skip(s: Seq<char>, i: int)
    requires
        0 <= i <= s.len(),
        forall|j: int| 0 <= j < i ==> is_white_space(#[trigger] s[j]),
    ensures
        trim_front(s) == trim_front(s.skip(i)),
    decreases i,
{
    if i > 0 {
        assert(s.drop_first().skip(i - 1) =~= s.skip(i));
        lemma_trim_front_skip(s.drop_first(), i - 1);
    } else {
        assert(s.skip(0) =~= s);
    }
}

/// Without leading white space, `s` starts at its first character that is
/// not white space.
pub(crate) proof fn lemma_trim_front_at(s: Seq<char>, i: int)
    requires
        0 <= i <= s.len(),
        forall|j: int| 0 <= j < i ==> is_white_space(#[trigger] s[j]),
        i == s.len() || !is_white_space(s[i]),
    ensures
        trim_front(s) == s.skip(i),
{
    lemma_trim_front_skip(s, i);
    if i < s.len() {
        assert(!is_white_space(s.skip(i)[0]));
    }
}

proof fn lemma_trim_back_take(s: Seq<char>, i: int)
    requires
        0 <= i <= s.len(),
        forall|j: int| i <= j < s.len() ==> is_white_space(#[trigger] s[j]),
    ensures
        trim_back(s) == trim_back(s.take(i)),
    decreases s.len() - i,
{
    if i < s.len() {
        assert(s.drop_last().take(i) =~= s.take(i));
        lemma_trim_back_take(s.drop_last(), i);
    } else {
        assert(s.take(i) =~= s);
    }
}

/// `s` without leading and trailing white space (`str::trim`).
pub fn trim(s: &str) -> (r: String)
    ensures
        r@ == trimmed(s@),
{
    let n = s.unicode_len();
    let mut a: usize = 0;
    while a < n && is_white_space_char(s.get_char(a))
        invariant
            n == s@.len(),
            a <= n,
            forall|j: int| 0 <= j < a ==> is_white_space(#[trigger] s@[j]),
        decreases n - a,
    {
        a = a + 1;
    }
    proof {
        lemma_trim_front_at(s@, a as int);
    }
    let mut b: usize = n;
    while b > a && is_white_space_char(s.get_char(b - 1))
        invariant
            n == s@.len(),
            a <= b <= n,
            forall|j: int| b <= j < n ==> is_white_space(#[trigger] s@[j]),
        decreases b,
    {
        b = b - 1;
    }
    proof {
        let f = s@.skip(a as int);
        assert(trim_front(s@) == f);
        lemma_trim_back_take(f, b - a);
        assert(f.take(b - a) =~= s@.subrange(a as int, b as int));
        if b > a {
            assert(!is_white_space(f.take(b - a).last()));
        }
    }
    String::from_str(s.substring_char(a, b))
}


/// Number of bytes of the UTF-8 encoding of `s`, which `str::len` returns.
pub open spec fn byte_len(s: Seq<char>) -> nat {
    vstd::utf8::encode_utf8(s).len()
}

/// Number of bytes of the UTF-8 encoding of `s` (`str::len`).
pub fn byte_length(s: &str) -> (r: usize)
    ensures
        r == byte_len(s@),
{
    s.as_bytes().len()
}

/// The ASCII digit for `d` (`0 <= d < 10`).
pub open spec fn digit_char(d: nat) -> char {
    (48 + d) as char
}

/// Decimal digits of `n`, most significant first, without leading zeros.
pub open spec fn digits(n: nat) -> Seq<char>
    decreases n,
{
    if n < 10 {
        seq![digit_char(n)]
    } else {
        digits(n / 10).push(digit_char(n % 10))
    }
}

/// `n` written in decimal, with a leading `-` when negative, as `format!("{n}")`
/// writes an integer.
pub open spec fn decimal(n: int) -> Seq<char> {
    if n < 0 {
        seq!['-'] + digits((-n) as nat)
    } else {
        digits(n as nat)
    }
}

/// `String::push`: appends one character.
#[verifier::external_body]
pub(crate) fn push_char(s: &mut String, c: char)
    ensures
        final(s)@ == old(s)@.push(c),
{
    s.push(c);
}

fn push_digits(s: &mut String, m: u64)
    ensures
        final(s)@ == old(s)@ + digits(m as nat),
    decreases m,
{
    let ghost s0 = s@;
    if m >= 10 {
        push_digits(s, m / 10);
    }
    let d: u8 = (m % 10) as u8;
    let c: char = (48u8 + d) as char;
    assert(c == digit_char((m % 10) as nat));
    push_char(s, c);
    proof {
        if m >= 10 {
            assert(s@ =~= s0 + digits(m as nat));
        } else {
            assert(s@ =~= s0 + digits(m as nat));
        }
    }
}

/// Appends `n` in decimal to `s`.
pub fn push_decimal(s: &mut String, n: i64)
    ensures
        final(s)@ == old(s)@ + decimal(n as int),
{
    if n < 0 {
        push_char(s, '-');
        let m: u64 = ((-(n + 1)) as u64) + 1;
        push_digits(s, m);
        assert(s@ =~= old(s)@ + decimal(n as int));
    } else {
        push_digits(s, n as u64);
    }
}

/// `n` in decimal (`n.to_string()`).
pub fn decimal_string(n: i64) -> (r: String)
    ensures
        r@ == decimal(n as int),
{
    let mut s = String::new();
    push_decimal(&mut s, n);
    assert(s@ =~= decimal(n as int));
    s
}

/// The upper-case mapping of a character, as `char::to_uppercase` yields it.
pub uninterp spec fn uppercase_of(c: char) -> Seq<char>;

/// `char::to_uppercase`, collected into a `String`. Its documentation
/// promises one or more characters; for ASCII input the mapping is the
/// ASCII one, which the contract states. For other characters it says only
/// that the result is `uppercase_of(c)`: the Unicode case tables are not
/// written out here.
#[verifier::external_body]
pub(crate) fn char_to_uppercase(c: char) -> (r: String)
    ensures
        r@ == uppercase_of(c),
        'a' <= c <= 'z' ==> r@ == seq![((c as u32) - 32) as char],
        (c as u32) < 128 && !('a' <= c <= 'z') ==> r@ == seq![c],
{
    c.to_uppercase().to_string()
}


/// An ASCII decimal digit.
pub open spec fn is_ascii_digit(c: char) -> bool {
    '0' <= c <= '9'
}

/// Whether every character of `s` is an ASCII decimal digit.
pub open spec fn all_digits(s: Seq<char>) -> bool {
    forall|i: int| 0 <= i < s.len() ==> is_ascii_digit(#[trigger] s[i])
}

/// The number that the ASCII digits `s` write in decimal.
pub open spec fn digits_value(s: Seq<char>) -> int
    decreases s.len(),
{
    if s.len() == 0 {
        0
    } else {
        10 * digits_value(s.drop_last()) + (s.last() as int - 48)
    }
}

/// `s` split into whether it starts with `-`, and what follows an optional
/// leading `+` or `-`.
pub open spec fn sign_split(s: Seq<char>) -> (bool, Seq<char>) {
    if s.len() > 0 && s[0] == '-' {
        (true, s.drop_first())
    } else if s.len() > 0 && s[0] == '+' {
        (false, s.drop_first())
    } else {
        (false, s)
    }
}

/// What `s.parse::<i32>()` gives: an optional sign, then one or more ASCII
/// digits whose value fits in an `i32`; anything else is refused.
pub open spec fn parsed_i32(s: Seq<char>) -> Option<i32> {
    let (negative, body) = sign_split(s);
    if body.len() == 0 || !all_digits(body) {
        None
    } else {
        let v = if negative {
            -digits_value(body)
        } else {
            digits_value(body)
        };
        if i32::MIN <= v <= i32::MAX {
            Some(v as i32)
        } else {
            None
        }
    }
}

proof fn lemma_digits_value_nonneg(s: Seq<char>)
    requires
        all_digits(s),
    ensures
        digits_value(s) >= 0,
    decreases s.len(),
{
    if s.len() > 0 {
        lemma_digits_value_nonneg(s.drop_last());
        assert(is_ascii_digit(s[s.len() - 1]));
    }
}

proof fn lemma_digits_value_grows(s: Seq<char>, k: int)
    requires
        all_digits(s),
        0 <= k <= s.len(),
    ensures
        digits_value(s) >= digits_value(s.take(k)),
    decreases s.len(),
{
    if k == s.len() {
        assert(s.take(k) =~= s);
    } else {
        let p = s.drop_last();
        assert(p.take(k) =~= s.take(k));
        lemma_digits_value_grows(p, k);
        lemma_digits_value_nonneg(p);
        assert(is_ascii_digit(s[s.len() - 1]));
    }
}

/// `s.parse::<i32>().ok()`.
pub fn parse_i32(s: &str) -> (r: Option<i32>)
    ensures
        r == parsed_i32(s@),
{
    let n = s.unicode_len();
    let ghost sv = s@;
    let mut start: usize = 0;
    let mut negative = false;
    if n > 0 {
        let c = s.get_char(0);
        if c == '-' {
            negative = true;
            start = 1;
        } else if c == '+' {
            start = 1;
        }
    }
    let ghost body = sign_split(sv).1;
    assert(body =~= sv.skip(start as int));
    if start >= n {
        return None;
    }
    let mut acc: i64 = 0;
    let mut i: usize = start;
    while i < n
        invariant
            n == sv.len(),
            sv == s@,
            start <= i <= n,
            body =~= sv.skip(start as int),
            body == sign_split(sv).1,
            negative == sign_split(sv).0,
            all_digits(body.take(i - start)),
            acc == digits_value(body.take(i - start)),
            0 <= acc <= 0x8000_0000,
        decreases n - i,
    {
        let c = s.get_char(i);
        proof {
            assert(body.take(i - start + 1).drop_last() =~= body.take(i - start));
            assert(body[i - start] == c);
        }
        if !('0' <= c && c <= '9') {
            assert(!all_digits(body));
            return None;
        }
        let d = (c as u32 - 48) as i64;
        acc = acc * 10 + d;
        i = i + 1;
        if acc > 0x8000_0000 {
            proof {
                if all_digits(body) {
                    lemma_digits_value_grows(body, i - start);
                }
            }
            return None;
        }
    }
    assert(body.take(n - start) =~= body);
    if negative {
        Some((-acc) as i32)
    } else if acc <= 0x7fff_ffff {
        Some(acc as i32)
    } else {
        None
    }
}

proof fn lemma_digits_read_back(m: nat)
    ensures
        all_digits(digits(m)),
        digits(m).len() > 0,
        digits_value(digits(m)) == m,
    decreases m,
{
    assert(digit_char(m % 10) as int == 48 + m % 10);
    if m >= 10 {
        lemma_digits_read_back(m / 10);
        assert(digits(m).drop_last() =~= digits(m / 10));
        assert(digits(m).last() == digit_char(m % 10));
        assert(m == 10 * (m / 10) + m % 10);
        assert(digits_value(digits(m)) == 10 * digits_value(digits(m / 10)) + (digits(m).last() as int - 48));
        assert forall|i: int| 0 <= i < digits(m).len() implies is_ascii_digit(
            #[trigger] digits(m)[i],
        ) by {
            if i < digits(m).len() - 1 {
                assert(digits(m)[i] == digits(m / 10)[i]);
            }
        }
    } else {
        assert(digits(m).drop_last() =~= Seq::<char>::empty());
        assert(digits_value(digits(m)) == 10 * digits_value(Seq::<char>::empty()) + (digits(m).last() as int - 48));
    }
}

/// A law of decimal text: reading back what `decimal` writes for an `i32`
/// gives the number again.
pub proof fn law_decimal_parses_back(n: i32)
    ensures
        parsed_i32(decimal(n as int)) == Some(n),
{
    if n < 0 {
        lemma_digits_read_back((-n) as nat);
        assert((seq!['-'] + digits((-n) as nat)).drop_first() =~= digits((-n) as nat));
    } else {
        lemma_digits_read_back(n as nat);
        assert(is_ascii_digit(digits(n as nat)[0]));
    }
}

/// A law of trimming: trimming twice is trimming once.
pub proof fn law_trim_idempotent(s: Seq<char>)
    ensures
        trimmed(trimmed(s)) == trimmed(s),
{
    lemma_trim_front_stops(s);
    lemma_trim_back_keeps_front(trim_front(s));
    lemma_trim_back_stops(trim_front(s));
}

proof fn lemma_trim_front_stops(s: Seq<char>)
    ensures
        trim_front(s).len() == 0 || !is_white_space(trim_front(s)[0]),
    decreases s.len(),
{
    if s.len() > 0 && is_white_space(s[0]) {
        lemma_trim_front_stops(s.drop_first());
    }
}

proof fn lemma_trim_back_stops(s: Seq<char>)
    ensures
        trim_back(s).len() == 0 || !is_white_space(trim_back(s).last()),
    decreases s.len(),
{
    if s.len() > 0 && is_white_space(s.last()) {
        lemma_trim_back_stops(s.drop_last());
    }
}

proof fn lemma_trim_back_keeps_front(s: Seq<char>)
    requires
        s.len() == 0 || !is_white_space(s[0]),
    ensures
        trim_back(s).len() == 0 || !is_white_space(trim_back(s)[0]),
        trim_front(trim_back(s)) == trim_back(s),
    decreases s.len(),
{
    if s.len() > 0 && is_white_space(s.last()) {
        let p = s.drop_last();
        if p.len() > 0 {
            assert(p[0] == s[0]);
        }
        lemma_trim_back_keeps_front(p);
    }
}

} // verus!
