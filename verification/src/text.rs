//! Character-level helpers: classification of characters, searching in a
//! line, decimal and hexadecimal rendering, and conversion between strings
//! and character vectors.

use vstd::prelude::*;

verus! {

/// `String::push` appends one character to the end of the string and leaves
/// the characters before it as they were.
pub assume_specification[ String::push ](s: &mut String, ch: char)
    ensures
        final(s)@ == old(s)@.push(ch),
;

/// Whether `c` is white space as Unicode defines it (`White_Space`).
pub open spec fn is_whitespace(c: char) -> bool {
    let v = c as u32;
    ||| 0x09 <= v <= 0x0D
    ||| v == 0x20
    ||| v == 0x85
    ||| v == 0xA0
    ||| v == 0x1680
    ||| 0x2000 <= v <= 0x200A
    ||| v == 0x2028
    ||| v == 0x2029
    ||| v == 0x202F
    ||| v == 0x205F
    ||| v == 0x3000
}

/// Whether `c` is one of the ASCII digits `0` to `9`.
pub open spec fn is_digit(c: char) -> bool {
    '0' <= c <= '9'
}

/// The value of an ASCII digit.
pub open spec fn digit_value(c: char) -> nat
    recommends
        is_digit(c),
{
    (c as u32 - 48) as nat
}

/// The number that a run of ASCII digits spells in base ten; 0 for an empty
/// run.
pub open spec fn decimal_value(digits: Seq<char>) -> nat
    decreases digits.len(),
{
    if digits.len() == 0 {
        0
    } else {
        decimal_value(digits.drop_last()) * 10 + digit_value(digits.last())
    }
}

/// The character for a digit below sixteen: `0`-`9`, then `A`-`F`.
pub open spec fn digit_char(d: nat) -> char
    recommends
        d < 16,
{
    if d < 10 {
        (d + 48) as char
    } else {
        (d + 55) as char
    }
}

/// `n` written in base ten without leading zeros.
pub open spec fn decimal(n: nat) -> Seq<char>
    decreases n,
{
    if n < 10 {
        seq![digit_char(n)]
    } else {
        decimal(n / 10).push(digit_char(n % 10))
    }
}

/// `n` written in base sixteen with upper-case letters and without leading
/// zeros.
pub open spec fn hexadecimal(n: nat) -> Seq<char>
    decreases n,
{
    if n < 16 {
        seq![digit_char(n)]
    } else {
        hexadecimal(n / 16).push(digit_char(n % 16))
    }
}

/// `n` written in base sixteen with upper-case letters, padded with zeros on
/// the left to at least four characters.
pub open spec fn hexadecimal_4(n: nat) -> Seq<char> {
    let digits = hexadecimal(n);
    if digits.len() >= 4 {
        digits
    } else {
        Seq::new((4 - digits.len()) as nat, |i: int| '0') + digits
    }
}

/// The length of the longest prefix of `s` that does not hold `c`: the index
/// of the first `c`, or the length of `s` where there is none.
pub open spec fn position(s: Seq<char>, c: char) -> int
    decreases s.len(),
{
    if s.len() == 0 {
        0
    } else if s[0] == c {
        0
    } else {
        1 + position(s.drop_first(), c)
    }
}

/// Whether a `//` starts at index `i` of `s`.
pub open spec fn comment_at(s: Seq<char>, i: int) -> bool {
    0 <= i && i + 1 < s.len() && s[i] == '/' && s[i + 1] == '/'
}

/// The index at which the first `//` of `s` starts, or the length of `s`
/// where there is none.
pub open spec fn comment_start(s: Seq<char>) -> int
    decreases s.len(),
{
    if s.len() < 2 {
        s.len() as int
    } else if s[0] == '/' && s[1] == '/' {
        0
    } else {
        1 + comment_start(s.drop_first())
    }
}

/// The number of ASCII digits that `s` begins with.
pub open spec fn leading_digits(s: Seq<char>) -> int
    decreases s.len(),
{
    if s.len() == 0 {
        0
    } else if !is_digit(s[0]) {
        0
    } else {
        1 + leading_digits(s.drop_first())
    }
}

/// `s` without its white space.
pub open spec fn without_whitespace(s: Seq<char>) -> Seq<char> {
    s.filter(|c: char| !is_whitespace(c))
}

/// `position(s, c)` is the least index that holds `c`, or the length of `s`
/// where no index does.
pub proof fn lemma_position(s: Seq<char>, c: char)
    ensures
        0 <= position(s, c) <= s.len(),
        forall|j: int| 0 <= j < position(s, c) ==> s[j] != c,
        position(s, c) < s.len() ==> s[position(s, c)] == c,
        position(s, c) == s.len() <==> !s.contains(c),
    decreases s.len(),
{
    if s.len() == 0 {
    } else if s[0] == c {
    } else {
        let t = s.drop_first();
        lemma_position(t, c);
        assert forall|j: int| 0 <= j < position(s, c) implies s[j] != c by {
            if j > 0 {
                assert(t[j - 1] == s[j]);
            }
        }
        if position(s, c) < s.len() {
            assert(t[position(t, c)] == s[position(s, c)]);
        }
        if s.contains(c) {
            let k = choose|k: int| 0 <= k < s.len() && s[k] == c;
            assert(t[k - 1] == c);
        }
        if t.contains(c) {
            let k = choose|k: int| 0 <= k < t.len() && t[k] == c;
            assert(s[k + 1] == c);
        }
    }
}

/// An index that holds `c` and has no `c` before it is `position(s, c)`; so
/// is the length of an `s` that holds no `c`.
pub proof fn lemma_position_unique(s: Seq<char>, c: char, p: int)
    requires
        0 <= p <= s.len(),
        forall|j: int| 0 <= j < p ==> s[j] != c,
        p < s.len() ==> s[p] == c,
    ensures
        position(s, c) == p,
{
    lemma_position(s, c);
    let q = position(s, c);
    if q < p {
        assert(s[q] != c);
    } else if p < q {
        assert(s[p] != c);
    }
}

/// `comment_start(s)` is the least index at which `//` starts, or the length
/// of `s`.
pub proof fn lemma_comment_start(s: Seq<char>)
    ensures
        0 <= comment_start(s) <= s.len(),
        forall|j: int| 0 <= j < comment_start(s) ==> !#[trigger] comment_at(s, j),
        comment_start(s) < s.len() ==> comment_at(s, comment_start(s)),
    decreases s.len(),
{
    if s.len() < 2 {
    } else if s[0] == '/' && s[1] == '/' {
    } else {
        let t = s.drop_first();
        lemma_comment_start(t);
        assert forall|j: int| 0 <= j < comment_start(s) implies !#[trigger] comment_at(s, j) by {
            if j > 0 {
                assert(!comment_at(t, j - 1));
                assert(t[j - 1] == s[j]);
                if j + 1 < s.len() {
                    assert(t[j] == s[j + 1]);
                }
            }
        }
        if comment_start(s) < s.len() {
            assert(comment_at(t, comment_start(t)));
            assert(t[comment_start(t)] == s[comment_start(s)]);
            assert(t[comment_start(t) + 1] == s[comment_start(s) + 1]);
        }
    }
}

/// An index at which `//` starts, with no `//` starting before it, is
/// `comment_start(s)`; so is the length of an `s` without `//`.
pub proof fn lemma_comment_start_unique(s: Seq<char>, p: int)
    requires
        0 <= p <= s.len(),
        forall|j: int| 0 <= j < p ==> !#[trigger] comment_at(s, j),
        p < s.len() ==> comment_at(s, p),
    ensures
        comment_start(s) == p,
{
    lemma_comment_start(s);
    let q = comment_start(s);
    if q < p {
        assert(!comment_at(s, q));
    } else if p < q {
        assert(!comment_at(s, p));
    }
}

/// `leading_digits(s)` is the length of the longest prefix of digits.
pub proof fn lemma_leading_digits(s: Seq<char>)
    ensures
        0 <= leading_digits(s) <= s.len(),
        forall|j: int| 0 <= j < leading_digits(s) ==> is_digit(s[j]),
        leading_digits(s) < s.len() ==> !is_digit(s[leading_digits(s)]),
    decreases s.len(),
{
    if s.len() == 0 {
    } else if !is_digit(s[0]) {
    } else {
        let t = s.drop_first();
        lemma_leading_digits(t);
        assert forall|j: int| 0 <= j < leading_digits(s) implies is_digit(s[j]) by {
            if j > 0 {
                assert(t[j - 1] == s[j]);
            }
        }
        if leading_digits(s) < s.len() {
            assert(t[leading_digits(t)] == s[leading_digits(s)]);
        }
    }
}

/// A prefix of digits that ends at a non-digit, or at the end of `s`, has
/// the length `leading_digits(s)`.
pub proof fn lemma_leading_digits_unique(s: Seq<char>, p: int)
    requires
        0 <= p <= s.len(),
        forall|j: int| 0 <= j < p ==> is_digit(s[j]),
        p < s.len() ==> !is_digit(s[p]),
    ensures
        leading_digits(s) == p,
{
    lemma_leading_digits(s);
    let q = leading_digits(s);
    if q < p {
        assert(is_digit(s[q]));
    } else if p < q {
        assert(is_digit(s[p]));
    }
}

/// Taking up one more digit in 16-bit wrapping arithmetic gives the number
/// with that digit, reduced to 16 bits.
pub proof fn lemma_accumulate_wraps(before: nat, digit: nat)
    requires
        digit < 10,
    ensures
        ({
            let value = (before % 0x10000) as u16;
            value.wrapping_mul(10).wrapping_add(digit as u16) == (before * 10 + digit) % 0x10000
        }),
{
    let value = (before % 0x10000) as u16;
    let product = value.wrapping_mul(10);
    assert(product == (value * 10) % 0x10000);
    assert(((before % 0x10000) * 10) % 0x10000 == (before * 10) % 0x10000) by (nonlinear_arith);
    assert((((before * 10) % 0x10000) + digit) % 0x10000 == (before * 10 + digit) % 0x10000)
        by (nonlinear_arith);
}

/// Tells white space from other characters.
pub fn char_is_whitespace(c: char) -> (r: bool)
    ensures
        r == is_whitespace(c),
{
    let v: u32 = c as u32;
    (0x09 <= v && v <= 0x0D) || v == 0x20 || v == 0x85 || v == 0xA0 || v == 0x1680 || (0x2000 <= v
        && v <= 0x200A) || v == 0x2028 || v == 0x2029 || v == 0x202F || v == 0x205F || v == 0x3000
}

/// The value of `c` where it is an ASCII digit.
pub fn char_digit(c: char) -> (r: Option<u16>)
    ensures
        r is Some <==> is_digit(c),
        r is Some ==> r->0 == digit_value(c) && r->0 < 10,
{
    let v: u32 = c as u32;
    if 48 <= v && v <= 57 {
        Some((v - 48) as u16)
    } else {
        None
    }
}

/// The characters of `text`, in order.
pub fn chars_of(text: &str) -> (r: Vec<char>)
    ensures
        r@ == text@,
{
    let mut out: Vec<char> = Vec::new();
    for c in it: text.chars()
        invariant
            it.seq() == text@,
            out@ == text@.take(it.index() as int),
    {
        out.push(c);
    }
    out
}

/// The string that `chars` spells.
pub fn string_of(chars: &[char]) -> (r: String)
    ensures
        r@ == chars@,
{
    let mut out = String::new();
    let n = chars.len();
    let mut i: usize = 0;
    while i < n
        invariant
            n == chars@.len(),
            i <= n,
            out@ == chars@.take(i as int),
        decreases n - i,
    {
        out.push(chars[i]);
        assert(chars@.take(i as int + 1) == chars@.take(i as int).push(chars@[i as int]));
        i = i + 1;
    }
    assert(chars@.take(n as int) == chars@);
    out
}

/// The index of the first `c` in `chars`, or the length of `chars` where
/// there is none.
pub fn find_char(chars: &[char], c: char) -> (r: usize)
    ensures
        r == position(chars@, c),
        r <= chars@.len(),
{
    let n = chars.len();
    let mut i: usize = 0;
    while i < n
        invariant
            n == chars@.len(),
            i <= n,
            forall|j: int| 0 <= j < i ==> chars@[j] != c,
        decreases n - i,
    {
        if chars[i] == c {
            proof {
                lemma_position_unique(chars@, c, i as int);
            }
            return i;
        }
        i = i + 1;
    }
    proof {
        lemma_position_unique(chars@, c, n as int);
    }
    n
}

/// The index at which the first `//` of `chars` starts, or the length of
/// `chars` where there is none.
pub fn find_comment(chars: &[char]) -> (r: usize)
    ensures
        r == comment_start(chars@),
        r <= chars@.len(),
{
    let n = chars.len();
    let mut i: usize = 0;
    while i < n
        invariant
            n == chars@.len(),
            i <= n,
            forall|j: int| 0 <= j < i ==> !#[trigger] comment_at(chars@, j),
        decreases n - i,
    {
        if i + 1 < n && chars[i] == '/' && chars[i + 1] == '/' {
            proof {
                lemma_comment_start_unique(chars@, i as int);
            }
            return i;
        }
        i = i + 1;
    }
    proof {
        lemma_comment_start_unique(chars@, n as int);
    }
    n
}

/// The number of ASCII digits that `chars` begins with.
pub fn count_leading_digits(chars: &[char]) -> (r: usize)
    ensures
        r == leading_digits(chars@),
        r <= chars@.len(),
{
    let n = chars.len();
    let mut i: usize = 0;
    while i < n
        invariant
            n == chars@.len(),
            i <= n,
            forall|j: int| 0 <= j < i ==> is_digit(chars@[j]),
        decreases n - i,
    {
        if char_digit(chars[i]).is_none() {
            proof {
                lemma_leading_digits_unique(chars@, i as int);
            }
            return i;
        }
        i = i + 1;
    }
    proof {
        lemma_leading_digits_unique(chars@, n as int);
    }
    n
}

/// The number that the run of digits `digits` spells, reduced to 16 bits.
pub fn parse_decimal(digits: &[char]) -> (r: u16)
    requires
        forall|j: int| 0 <= j < digits@.len() ==> is_digit(digits@[j]),
    ensures
        r == decimal_value(digits@) % 0x10000,
{
    let n = digits.len();
    let mut value: u16 = 0;
    let mut i: usize = 0;
    assert(digits@.take(0) == Seq::<char>::empty());
    while i < n
        invariant
            n == digits@.len(),
            i <= n,
            value == decimal_value(digits@.take(i as int)) % 0x10000,
            forall|j: int| 0 <= j < digits@.len() ==> is_digit(digits@[j]),
        decreases n - i,
    {
        let digit: u16 = match char_digit(digits[i]) {
            Some(d) => d,
            None => 0,
        };
        proof {
            let before = decimal_value(digits@.take(i as int));
            let d = digit_value(digits@[i as int]);
            assert(digits@.take(i + 1).drop_last() == digits@.take(i as int));
            assert(digits@.take(i + 1).last() == digits@[i as int]);
            assert(decimal_value(digits@.take(i + 1)) == before * 10 + d);
            lemma_accumulate_wraps(before, digit as nat);
        }
        value = value.wrapping_mul(10).wrapping_add(digit);
        i = i + 1;
    }
    assert(digits@.take(n as int) == digits@);
    value
}

/// Appends `n` in base ten to `out`.
pub fn push_decimal(out: &mut String, n: usize)
    ensures
        final(out)@ == old(out)@ + decimal(n as nat),
    decreases n,
{
    if n >= 10 {
        push_decimal(out, n / 10);
    }
    let ghost before = out@;
    out.push(digit_to_char(n % 10));
    proof {
        if n >= 10 {
            assert(before.push(digit_char((n % 10) as nat)) == old(out)@ + decimal(n as nat));
        } else {
            assert(before.push(digit_char(n as nat)) == old(out)@ + decimal(n as nat));
        }
    }
}

/// Appends `n` in upper-case base sixteen, without padding, to `out`.
fn push_hexadecimal(out: &mut String, n: usize)
    ensures
        final(out)@ == old(out)@ + hexadecimal(n as nat),
    decreases n,
{
    if n >= 16 {
        push_hexadecimal(out, n / 16);
    }
    let ghost before = out@;
    out.push(digit_to_char(n % 16));
    proof {
        if n >= 16 {
            assert(before.push(digit_char((n % 16) as nat)) == old(out)@ + hexadecimal(n as nat));
        } else {
            assert(before.push(digit_char(n as nat)) == old(out)@ + hexadecimal(n as nat));
        }
    }
}

/// Appends `n` in upper-case base sixteen to `out`, with zeros on the left
/// where it has fewer than four digits.
pub fn push_hexadecimal_4(out: &mut String, n: usize)
    ensures
        final(out)@ == old(out)@ + hexadecimal_4(n as nat),
{
    proof {
        lemma_hexadecimal_len(n as nat);
    }
    let ghost pad: Seq<char> = Seq::empty();
    if n < 0x1000 {
        out.push('0');
        proof {
            pad = pad.push('0');
        }
    }
    if n < 0x100 {
        out.push('0');
        proof {
            pad = pad.push('0');
        }
    }
    if n < 0x10 {
        out.push('0');
        proof {
            pad = pad.push('0');
        }
    }
    assert(out@ == old(out)@ + pad);
    push_hexadecimal(out, n);
    proof {
        let digits = hexadecimal(n as nat);
        if digits.len() < 4 {
            assert(pad == Seq::new((4 - digits.len()) as nat, |i: int| '0'));
        } else {
            assert(pad == Seq::<char>::empty());
        }
        assert(old(out)@ + pad + digits == old(out)@ + (pad + digits));
        assert(Seq::<char>::empty() + digits == digits);
    }
}

/// The number of base-sixteen digits of the numbers below 0x10000.
proof fn lemma_hexadecimal_len(n: nat)
    ensures
        n < 0x10 ==> hexadecimal(n).len() == 1,
        0x10 <= n < 0x100 ==> hexadecimal(n).len() == 2,
        0x100 <= n < 0x1000 ==> hexadecimal(n).len() == 3,
        0x1000 <= n ==> hexadecimal(n).len() >= 4,
    decreases n,
{
    if n >= 16 {
        lemma_hexadecimal_len(n / 16);
    }
}

/// The character for a digit below sixteen.
fn digit_to_char(d: usize) -> (c: char)
    requires
        d < 16,
    ensures
        c == digit_char(d as nat),
{
    if d == 0 {
        '0'
    } else if d == 1 {
        '1'
    } else if d == 2 {
        '2'
    } else if d == 3 {
        '3'
    } else if d == 4 {
        '4'
    } else if d == 5 {
        '5'
    } else if d == 6 {
        '6'
    } else if d == 7 {
        '7'
    } else if d == 8 {
        '8'
    } else if d == 9 {
        '9'
    } else if d == 10 {
        'A'
    } else if d == 11 {
        'B'
    } else if d == 12 {
        'C'
    } else if d == 13 {
        'D'
    } else if d == 14 {
        'E'
    } else {
        'F'
    }
}

} // verus!
