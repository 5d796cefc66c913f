//! Integers written in decimal.

use vstd::prelude::*;
use vstd::string::*;

verus! {

/// The character of a decimal digit.
pub open spec fn digit(d: int) -> char {
    if d == 0 {
        '0'
    } else if d == 1 {
        '1'
    } else if d == 2 {
        '2'
    } else if d == 3 {
        '3'
    } else if d == 4 {
        '4'
    } else if d == 5 {
        '5'
    } else if d == 6 {
        '6'
    } else if d == 7 {
        '7'
    } else if d == 8 {
        '8'
    } else {
        '9'
    }
}

/// The digit that a character stands for; 10 for any other character.
pub open spec fn digit_value(c: char) -> int {
    if c == '0' {
        0
    } else if c == '1' {
        1
    } else if c == '2' {
        2
    } else if c == '3' {
        3
    } else if c == '4' {
        4
    } else if c == '5' {
        5
    } else if c == '6' {
        6
    } else if c == '7' {
        7
    } else if c == '8' {
        8
    } else if c == '9' {
        9
    } else {
        10
    }
}

/// A natural number in decimal, without leading zeros.
pub open spec fn decimal(n: nat) -> Seq<char>
    decreases n,
{
    if n < 10 {
        seq![digit(n as int)]
    } else {
        decimal(n / 10).push(digit((n % 10) as int))
    }
}

/// An integer in decimal: a minus sign before the digits of a negative one.
pub open spec fn signed_decimal(v: int) -> Seq<char> {
    if v < 0 {
        seq!['-'] + decimal((-v) as nat)
    } else {
        decimal(v as nat)
    }
}

/// The number that a sequence of digits writes.
pub open spec fn digits_value(s: Seq<char>) -> int
    decreases s.len(),
{
    if s.len() == 0 {
        0
    } else {
        10 * digits_value(s.drop_last()) + digit_value(s.last())
    }
}

/// Reading what was written gives the number back, and what is written is
/// digits only.
pub proof fn lemma_decimal_reads_back(n: nat)
    ensures
        digits_value(decimal(n)) == n,
        decimal(n).len() >= 1,
        forall|i: int| 0 <= i < decimal(n).len() ==> digit_value(#[trigger] decimal(n)[i]) < 10,
    decreases n,
{
    if n < 10 {
        let s = seq![digit(n as int)];
        assert(s.drop_last() =~= Seq::<char>::empty());
        assert(digits_value(s.drop_last()) == 0);
    } else {
        lemma_decimal_reads_back(n / 10);
        let s = decimal(n / 10).push(digit((n % 10) as int));
        assert(s.drop_last() =~= decimal(n / 10));
    }
}

/// Two numbers are written alike only if they are the same number.
pub proof fn lemma_decimal_injective(a: nat, b: nat)
    requires
        decimal(a) == decimal(b),
    ensures
        a == b,
{
    lemma_decimal_reads_back(a);
    lemma_decimal_reads_back(b);
}

/// Two integers are written alike only if they are the same integer.
pub proof fn lemma_signed_decimal_injective(a: int, b: int)
    requires
        signed_decimal(a) == signed_decimal(b),
    ensures
        a == b,
{
    if a < 0 {
        let da = decimal((-a) as nat);
        lemma_decimal_reads_back((-a) as nat);
        assert(signed_decimal(a)[0] == '-');
        if b < 0 {
            let db = decimal((-b) as nat);
            assert((seq!['-'] + da).subrange(1, 1 + da.len() as int) =~= da);
            assert((seq!['-'] + db).subrange(1, 1 + db.len() as int) =~= db);
            lemma_decimal_reads_back((-b) as nat);
            assert(da.len() == db.len()) by {
                assert((seq!['-'] + da).len() == (seq!['-'] + db).len());
            }
            lemma_decimal_injective((-a) as nat, (-b) as nat);
        } else {
            lemma_decimal_reads_back(b as nat);
            assert(digit_value(decimal(b as nat)[0]) < 10);
            assert(false);
        }
    } else {
        lemma_decimal_reads_back(a as nat);
        if b < 0 {
            assert(signed_decimal(b)[0] == '-');
            assert(digit_value(decimal(a as nat)[0]) < 10);
            assert(false);
        } else {
            lemma_decimal_injective(a as nat, b as nat);
        }
    }
}

/// The text of one digit.
fn digit_text(d: u64) -> (t: &'static str)
    requires
        d < 10,
    ensures
        t@ == seq![digit(d as int)],
{
    proof {
        reveal_strlit("0");
        reveal_strlit("1");
        reveal_strlit("2");
        reveal_strlit("3");
        reveal_strlit("4");
        reveal_strlit("5");
        reveal_strlit("6");
        reveal_strlit("7");
        reveal_strlit("8");
        reveal_strlit("9");
    }
    let t: &'static str = if d == 0 {
        "0"
    } else if d == 1 {
        "1"
    } else if d == 2 {
        "2"
    } else if d == 3 {
        "3"
    } else if d == 4 {
        "4"
    } else if d == 5 {
        "5"
    } else if d == 6 {
        "6"
    } else if d == 7 {
        "7"
    } else if d == 8 {
        "8"
    } else {
        "9"
    };
    assert(t@ =~= seq![digit(d as int)]);
    t
}

/// Writes a natural number at the end of a text.
fn push_decimal(out: &mut String, n: u64)
    ensures
        final(out)@ == old(out)@ + decimal(n as nat),
    decreases n,
{
    if n >= 10 {
        push_decimal(out, n / 10);
    }
    out.append(digit_text(n % 10));
    assert(out@ =~= old(out)@ + decimal(n as nat));
}

/// An integer in decimal.
pub fn to_decimal(v: i64) -> (text: String)
    ensures
        text@ == signed_decimal(v as int),
{
    let mut text = String::new();
    if v < 0 {
        proof {
            reveal_strlit("-");
        }
        text.append("-");
        assert(text@ =~= seq!['-']);
        let magnitude: u64 = (-(v + 1)) as u64 + 1;
        push_decimal(&mut text, magnitude);
    } else {
        push_decimal(&mut text, v as u64);
        assert(text@ =~= decimal(v as nat));
    }
    text
}

/// Whether a text is made of decimal digits only.
pub open spec fn all_digits(s: Seq<char>) -> bool {
    forall|i: int| 0 <= i < s.len() ==> digit_value(#[trigger] s[i]) < 10
}

/// The 32-bit integer that a text writes in decimal: digits, at least one,
/// after at most one sign, `+` or `-`. Nothing where the text is not of this
/// form or the integer does not fit in 32 bits.
pub open spec fn i32_of(s: Seq<char>) -> Option<i32> {
    if s.len() == 0 {
        None
    } else {
        let digits = if s[0] == '-' || s[0] == '+' {
            s.subrange(1, s.len() as int)
        } else {
            s
        };
        let value = if s[0] == '-' {
            -digits_value(digits)
        } else {
            digits_value(digits)
        };
        if digits.len() == 0 || !all_digits(digits) || value < i32::MIN || value > i32::MAX {
            None
        } else {
            Some(value as i32)
        }
    }
}

/// The digits that were read so far write no more than all of them.
pub proof fn lemma_digits_prefix(s: Seq<char>, j: int)
    requires
        all_digits(s),
        0 <= j <= s.len(),
    ensures
        0 <= digits_value(s.take(j)) <= digits_value(s),
    decreases s.len() - j,
{
    if j == s.len() {
        assert(s.take(j) =~= s);
        lemma_digits_nonnegative(s);
    } else {
        lemma_digits_prefix(s, j + 1);
        assert(s.take(j + 1).drop_last() =~= s.take(j));
        assert(s.take(j + 1).last() == s[j]);
        lemma_digits_nonnegative(s.take(j));
        assert(all_digits(s.take(j))) by {
            assert forall|i: int| 0 <= i < s.take(j).len() implies digit_value(
                #[trigger] s.take(j)[i],
            ) < 10 by {
                assert(s.take(j)[i] == s[i]);
            }
        }
    }
}

/// Digits write a number that is not negative.
pub proof fn lemma_digits_nonnegative(s: Seq<char>)
    ensures
        digits_value(s) >= 0,
    decreases s.len(),
{
    if s.len() > 0 {
        lemma_digits_nonnegative(s.drop_last());
    }
}

/// What was written in decimal reads back as the same integer.
pub proof fn lemma_i32_reads_back(n: i32)
    ensures
        i32_of(signed_decimal(n as int)) == Some(n),
{
    let s = signed_decimal(n as int);
    if n < 0 {
        let d = decimal((-n) as nat);
        lemma_decimal_reads_back((-n) as nat);
        assert(s.subrange(1, s.len() as int) =~= d);
        assert(s[0] == '-');
    } else {
        lemma_decimal_reads_back(n as nat);
        assert(digit_value(s[0]) < 10);
    }
}

/// The digit that a character stands for, if it stands for one.
pub fn digit_of(c: char) -> (d: Option<i64>)
    ensures
        d is Some <==> digit_value(c) < 10,
        d matches Some(v) ==> v == digit_value(c),
{
    if c == '0' {
        Some(0)
    } else if c == '1' {
        Some(1)
    } else if c == '2' {
        Some(2)
    } else if c == '3' {
        Some(3)
    } else if c == '4' {
        Some(4)
    } else if c == '5' {
        Some(5)
    } else if c == '6' {
        Some(6)
    } else if c == '7' {
        Some(7)
    } else if c == '8' {
        Some(8)
    } else if c == '9' {
        Some(9)
    } else {
        None
    }
}

/// Reads a 32-bit integer in decimal.
pub fn parse_i32(text: &str) -> (r: Option<i32>)
    ensures
        r == i32_of(text@),
{
    let n: usize = text.unicode_len();
    if n == 0 {
        return None;
    }
    let first: char = text.get_char(0);
    let negative: bool = first == '-';
    let start: usize = if first == '-' || first == '+' {
        1
    } else {
        0
    };
    if start == n {
        return None;
    }
    let ghost digits = text@.subrange(start as int, n as int);
    proof {
        if start == 0 {
            assert(digits =~= text@);
        }
    }
    let mut acc: i64 = 0;
    let mut i: usize = start;
    assert(digits.take(0) =~= Seq::<char>::empty());
    while i < n
        invariant
            start <= i <= n,
            n == text@.len(),
            n > 0,
            negative == (text@[0] == '-'),
            digits == if text@[0] == '-' || text@[0] == '+' {
                text@.subrange(1, n as int)
            } else {
                text@
            },
            digits.len() == n - start,
            digits.len() > 0,
            forall|k: int| 0 <= k < digits.len() ==> digits[k] == text@[k + start],
            all_digits(digits.take(i - start)),
            acc == digits_value(digits.take(i - start)),
            0 <= acc <= 2147483648,
        decreases n - i,
    {
        let c: char = text.get_char(i);
        let ghost seen = digits.take(i - start);
        let ghost next = digits.take(i - start + 1);
        proof {
            assert(next.drop_last() =~= seen);
            assert(next.last() == c);
        }
        match digit_of(c) {
            None => {
                assert(!all_digits(digits)) by {
                    assert(digits[i - start] == c);
                }
                return None;
            },
            Some(d) => {
                acc = acc * 10 + d;
                proof {
                    assert forall|k: int| 0 <= k < next.len() implies digit_value(
                        #[trigger] next[k],
                    ) < 10 by {
                        if k < seen.len() {
                            assert(next[k] == seen[k]);
                        }
                    }
                }
                if acc > 2147483648 {
                    proof {
                        if all_digits(digits) {
                            lemma_digits_prefix(digits, i - start + 1);
                        }
                    }
                    return None;
                }
            },
        }
        i = i + 1;
    }
    assert(digits.take(n - start) =~= digits);
    if negative {
        Some((-acc) as i32)
    } else if acc <= 2147483647 {
        Some(acc as i32)
    } else {
        None
    }
}

} // verus!
