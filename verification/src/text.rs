//! Decimal text of integers, as Rust's `{}` and zero-padded `{:0w}` formats write it,
//! and comparison of strings.

use vstd::prelude::*;

verus! {

/// The character of the decimal digit `d` (`0 <= d < 10`).
pub open spec fn digit_char(d: int) -> char {
    seq!['0', '1', '2', '3', '4', '5', '6', '7', '8', '9'][d]
}

/// The decimal text of a natural number, without leading zeros.
pub open spec fn decimal(n: nat) -> Seq<char>
    decreases n,
{
    if n < 10 {
        seq![digit_char(n as int)]
    } else {
        decimal(n / 10).push(digit_char((n % 10) as int))
    }
}

/// `count` zero characters.
pub open spec fn zeros(count: int) -> Seq<char> {
    Seq::new(if count > 0 { count as nat } else { 0 }, |i: int| '0')
}

/// The decimal text of `n`, padded on the left with zeros to at least `width` characters.
pub open spec fn zero_padded(n: nat, width: int) -> Seq<char> {
    zeros(width - decimal(n).len()) + decimal(n)
}

/// The decimal text of an integer: a minus sign before the digits of a negative one.
pub open spec fn signed_decimal(n: int) -> Seq<char> {
    if n < 0 {
        seq!['-'] + decimal((-n) as nat)
    } else {
        decimal(n as nat)
    }
}

/// The text that the format `{:0w}` writes for an integer: the sign counts towards the
/// width, and the zeros stand between the sign and the digits.
pub open spec fn signed_zero_padded(n: int, width: int) -> Seq<char> {
    if n < 0 {
        seq!['-'] + zero_padded((-n) as nat, width - 1)
    } else {
        zero_padded(n as nat, width)
    }
}

/// The text of one decimal digit.
fn digit_text(d: u64) -> (t: &'static str)
    requires
        d < 10,
    ensures
        t@ == seq![digit_char(d as int)],
{
    proof {
        reveal_strlit("0");
        reveal_strlit("1");
        reveal_strlit("2");
        reveal_strlit("3");
        reveal_strlit("4");
        reveal_strlit("5");
        reveal_strlit("6");
        reveal_strlit("7");
        reveal_strlit("8");
        reveal_strlit("9");
    }
    if d == 0 {
        "0"
    } else if d == 1 {
        "1"
    } else if d == 2 {
        "2"
    } else if d == 3 {
        "3"
    } else if d == 4 {
        "4"
    } else if d == 5 {
        "5"
    } else if d == 6 {
        "6"
    } else if d == 7 {
        "7"
    } else if d == 8 {
        "8"
    } else {
        "9"
    }
}

/// Appends the decimal text of `n`.
pub fn push_decimal(out: &mut String, n: u64)
    ensures
        final(out)@ == old(out)@ + decimal(n as nat),
    decreases n,
{
    if n >= 10 {
        push_decimal(out, n / 10);
    }
    out.append(digit_text(n % 10));
    proof {
        if n >= 10 {
            assert(decimal(n as nat) == decimal((n / 10) as nat).push(digit_char((n % 10) as int)));
        }
        assert(final(out)@ =~= old(out)@ + decimal(n as nat));
    }
}

/// The number of digits in the decimal text of `n`.
pub fn decimal_len(n: u64) -> (len: usize)
    ensures
        len == decimal(n as nat).len(),
        1 <= len <= 20,
    decreases n,
{
    if n < 10 {
        1
    } else {
        proof {
            reveal_with_fuel(pow10, 20);
            assert(pow10(19) == 10_000_000_000_000_000_000);
            lemma_decimal_len_below((n / 10) as nat, 19);
        }
        decimal_len(n / 10) + 1
    }
}

/// Ten to the power `k`.
pub open spec fn pow10(k: nat) -> nat
    decreases k,
{
    if k == 0 {
        1
    } else {
        10 * pow10((k - 1) as nat)
    }
}

/// A number below `10^k` has at most `k` digits (`k >= 1`).
pub proof fn lemma_decimal_len_below(n: nat, k: nat)
    requires
        k >= 1,
        n < pow10(k),
    ensures
        decimal(n).len() <= k,
    decreases n,
{
    if n >= 10 {
        assert(pow10(0) == 1);
        if k == 1 {
            assert(pow10(1) == 10);
        } else {
            let p = pow10((k - 1) as nat);
            assert(pow10(k) == 10 * p);
            assert(n / 10 < p) by (nonlinear_arith)
                requires
                    n < 10 * p,
            ;
            lemma_decimal_len_below(n / 10, (k - 1) as nat);
        }
    }
}

/// Appends `count` zero characters.
fn push_zeros(out: &mut String, count: usize)
    ensures
        final(out)@ == old(out)@ + zeros(count as int),
{
    let mut i: usize = 0;
    while i < count
        invariant
            i <= count,
            out@ == old(out)@ + zeros(i as int),
        decreases count - i,
    {
        proof {
            reveal_strlit("0");
        }
        out.append("0");
        i = i + 1;
        assert(out@ =~= old(out)@ + zeros(i as int));
    }
}

/// Appends the decimal text of `n`, padded on the left with zeros to `width` characters.
pub fn push_zero_padded(out: &mut String, n: u64, width: usize)
    ensures
        final(out)@ == old(out)@ + zero_padded(n as nat, width as int),
{
    let len = decimal_len(n);
    if len < width {
        push_zeros(out, width - len);
    } else {
        push_zeros(out, 0);
    }
    push_decimal(out, n);
    assert(final(out)@ =~= old(out)@ + zero_padded(n as nat, width as int));
}

/// The magnitude of an `i64`, which always fits in a `u64`.
fn magnitude(n: i64) -> (m: u64)
    ensures
        m == if n < 0 { -n } else { n as int },
{
    if n < 0 {
        let wide: i128 = n as i128;
        (-wide) as u64
    } else {
        n as u64
    }
}

/// Appends the text that `{}` writes for `n`.
pub fn push_signed_decimal(out: &mut String, n: i64)
    ensures
        final(out)@ == old(out)@ + signed_decimal(n as int),
{
    proof {
        reveal_strlit("-");
    }
    let m = magnitude(n);
    if n < 0 {
        out.append("-");
    }
    push_decimal(out, m);
    assert(final(out)@ =~= old(out)@ + signed_decimal(n as int));
}

/// Appends the text that `{:0w}` writes for `n`, `w` being `width` (at least 1).
pub fn push_signed_zero_padded(out: &mut String, n: i64, width: usize)
    requires
        width >= 1,
    ensures
        final(out)@ == old(out)@ + signed_zero_padded(n as int, width as int),
{
    proof {
        reveal_strlit("-");
    }
    let m = magnitude(n);
    if n < 0 {
        out.append("-");
        push_zero_padded(out, m, width - 1);
    } else {
        push_zero_padded(out, m, width);
    }
    assert(final(out)@ =~= old(out)@ + signed_zero_padded(n as int, width as int));
}

/// Whether two strings hold the same characters.
pub fn same_text(a: &str, b: &str) -> (same: bool)
    ensures
        same == (a@ == b@),
{
    let len = a.unicode_len();
    if len != b.unicode_len() {
        return false;
    }
    let mut i: usize = 0;
    while i < len
        invariant
            len == a@.len(),
            len == b@.len(),
            i <= len,
            forall|j: int| 0 <= j < i ==> a@[j] == b@[j],
        decreases len - i,
    {
        if a.get_char(i) != b.get_char(i) {
            return false;
        }
        i = i + 1;
    }
    assert(a@ =~= b@);
    true
}

/// The value of a decimal digit character.
pub open spec fn digit_value(c: char) -> int {
    (c as int) - ('0' as int)
}

/// The number that a string of decimal digits reads as.
pub open spec fn digits_value(s: Seq<char>) -> int
    decreases s.len(),
{
    if s.len() == 0 {
        0
    } else {
        digits_value(s.drop_last()) * 10 + digit_value(s.last())
    }
}

proof fn lemma_digit_value(d: int)
    requires
        0 <= d < 10,
    ensures
        digit_value(digit_char(d)) == d,
{
    let digits = seq!['0', '1', '2', '3', '4', '5', '6', '7', '8', '9'];
    assert(digits[d] == digit_char(d));
    if d == 0 {} else if d == 1 {} else if d == 2 {} else if d == 3 {} else if d == 4 {}
    else if d == 5 {} else if d == 6 {} else if d == 7 {} else if d == 8 {} else {}
}

/// The decimal text of `n` reads back as `n`.
pub proof fn lemma_decimal_value(n: nat)
    ensures
        digits_value(decimal(n)) == n,
    decreases n,
{
    if n < 10 {
        lemma_digit_value(n as int);
        let t = decimal(n);
        assert(t.drop_last() =~= Seq::<char>::empty());
        assert(digits_value(t) == digits_value(t.drop_last()) * 10 + digit_value(t.last()));
    } else {
        lemma_decimal_value(n / 10);
        lemma_digit_value((n % 10) as int);
        let t = decimal(n);
        assert(t.drop_last() =~= decimal(n / 10));
        assert(t.last() == digit_char((n % 10) as int));
        assert(digits_value(t) == digits_value(decimal(n / 10)) * 10 + digit_value(t.last()));
        assert(n == (n / 10) * 10 + n % 10);
    }
}

/// Leading zeros do not change what digits read as.
pub proof fn lemma_leading_zeros_value(count: int, s: Seq<char>)
    ensures
        digits_value(zeros(count) + s) == digits_value(s),
    decreases s.len(),
{
    if s.len() == 0 {
        lemma_zeros_value(count);
        assert(zeros(count) + s =~= zeros(count));
    } else {
        lemma_leading_zeros_value(count, s.drop_last());
        assert((zeros(count) + s).drop_last() =~= zeros(count) + s.drop_last());
    }
}

proof fn lemma_zeros_value(count: int)
    ensures
        digits_value(zeros(count)) == 0,
    decreases if count > 0 { count } else { 0 },
{
    if count > 0 {
        lemma_zeros_value(count - 1);
        assert(zeros(count).drop_last() =~= zeros(count - 1));
        assert(digit_value('0') == 0);
    }
}

/// A zero-padded decimal text reads back as its number.
pub proof fn lemma_zero_padded_value(n: nat, width: int)
    ensures
        digits_value(zero_padded(n, width)) == n,
{
    lemma_leading_zeros_value(width - decimal(n).len(), decimal(n));
    lemma_decimal_value(n);
}

/// A number below `10^width` fills exactly `width` characters when zero-padded.
pub proof fn lemma_zero_padded_len(n: nat, width: nat)
    requires
        width >= 1,
        n < pow10(width),
    ensures
        zero_padded(n, width as int).len() == width,
{
    lemma_decimal_len_below(n, width);
}

/// Whether `a` sorts at or before `b` character by character, a prefix first: the
/// order in which SQLite compares text by default (UTF-8 byte order follows code points).
pub open spec fn text_le(a: Seq<char>, b: Seq<char>) -> bool
    decreases a.len(),
{
    if a.len() == 0 {
        true
    } else if b.len() == 0 {
        false
    } else if (a[0] as int) < (b[0] as int) {
        true
    } else if a[0] == b[0] {
        text_le(a.drop_first(), b.drop_first())
    } else {
        false
    }
}

/// Two texts of the same length that sort each before the other are the same.
pub proof fn lemma_text_le_antisymmetric(a: Seq<char>, b: Seq<char>)
    requires
        a.len() == b.len(),
        text_le(a, b),
        text_le(b, a),
    ensures
        a == b,
    decreases a.len(),
{
    if a.len() == 0 {
        assert(a =~= b);
    } else {
        assert(a[0] == b[0]);
        lemma_text_le_antisymmetric(a.drop_first(), b.drop_first());
        assert(a =~= seq![a[0]] + a.drop_first());
        assert(b =~= seq![b[0]] + b.drop_first());
    }
}

/// Comparing texts whose first parts have the same length: the first parts decide unless
/// they are equal, and then the rests decide.
pub proof fn lemma_text_le_concat(x1: Seq<char>, y1: Seq<char>, x2: Seq<char>, y2: Seq<char>)
    requires
        x1.len() == x2.len(),
    ensures
        text_le(x1 + y1, x2 + y2) == if x1 == x2 { text_le(y1, y2) } else { text_le(x1, x2) },
    decreases x1.len(),
{
    if x1.len() == 0 {
        assert(x1 + y1 =~= y1);
        assert(x2 + y2 =~= y2);
        assert(x1 =~= x2);
    } else {
        assert((x1 + y1)[0] == x1[0]);
        assert((x2 + y2)[0] == x2[0]);
        assert((x1 + y1).drop_first() =~= x1.drop_first() + y1);
        assert((x2 + y2).drop_first() =~= x2.drop_first() + y2);
        lemma_text_le_concat(x1.drop_first(), y1, x2.drop_first(), y2);
        if x1[0] == x2[0] {
            if x1.drop_first() == x2.drop_first() {
                assert(x1 =~= seq![x1[0]] + x1.drop_first());
                assert(x2 =~= seq![x2[0]] + x2.drop_first());
            } else {
                assert(x1 != x2);
            }
        }
    }
}

/// The two characters of a zero-padded number below 100.
pub proof fn lemma_two_digits(n: nat)
    requires
        n < 100,
    ensures
        zero_padded(n, 2) == seq![digit_char((n / 10) as int), digit_char((n % 10) as int)],
{
    if n < 10 {
        assert(zero_padded(n, 2) =~= seq!['0', digit_char(n as int)]);
        assert(digit_char(0) == '0');
    } else {
        assert(decimal(n / 10) == seq![digit_char((n / 10) as int)]);
        assert(zero_padded(n, 2) =~= seq![digit_char((n / 10) as int), digit_char((n % 10) as int)]);
    }
}

/// Zero-padded numbers below 100 sort as the numbers do.
pub proof fn lemma_two_digits_order(a: nat, b: nat)
    requires
        a < 100,
        b < 100,
    ensures
        text_le(zero_padded(a, 2), zero_padded(b, 2)) == (a <= b),
        (zero_padded(a, 2) == zero_padded(b, 2)) == (a == b),
{
    lemma_two_digits(a);
    lemma_two_digits(b);
    lemma_digit_value((a / 10) as int);
    lemma_digit_value((a % 10) as int);
    lemma_digit_value((b / 10) as int);
    lemma_digit_value((b % 10) as int);
    let sa = zero_padded(a, 2);
    let sb = zero_padded(b, 2);
    assert(sa.drop_first() =~= seq![digit_char((a % 10) as int)]);
    assert(sb.drop_first() =~= seq![digit_char((b % 10) as int)]);
    assert(sa.drop_first().drop_first() =~= Seq::<char>::empty());
    assert(sb.drop_first().drop_first() =~= Seq::<char>::empty());
    reveal_with_fuel(text_le, 3);
    assert(a == (a / 10) * 10 + a % 10);
    assert(b == (b / 10) * 10 + b % 10);
    if sa == sb {
        assert(sa[0] == sb[0] && sa[1] == sb[1]);
    }
}

} // verus!
