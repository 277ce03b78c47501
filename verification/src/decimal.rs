//! Decimal notation of integers: writing a number as text and reading the
//! text of a score back as a number.

use vstd::prelude::*;

verus! {

/// Appending one character to a `String` (`String::push` of std) extends its
/// view by that character.
pub assume_specification[ String::push ](text: &mut String, c: char)
    ensures
        final(text)@ == old(text)@.push(c),
;

/// The character that stands for the digit `d`, for `0 <= d <= 9`.
pub open spec fn digit_char(d: int) -> char {
    ('0' as int + d) as char
}

/// Whether `c` is one of the ten ASCII digits.
pub open spec fn is_digit(c: char) -> bool {
    '0' <= c <= '9'
}

/// The number that the ASCII digit `c` stands for.
pub open spec fn digit_value(c: char) -> int {
    c as int - '0' as int
}

/// Whether every character of `s` is an ASCII digit.
pub open spec fn all_digits(s: Seq<char>) -> bool {
    forall|i: int| 0 <= i < s.len() ==> is_digit(#[trigger] s[i])
}

/// The digits of `n` in base ten, most significant first, without leading
/// zeros; zero is the single digit `0`.
pub open spec fn digits(n: nat) -> Seq<char>
    decreases n,
{
    if n < 10 {
        seq![digit_char(n as int)]
    } else {
        digits(n / 10).push(digit_char((n % 10) as int))
    }
}

/// The decimal notation of `n`: its digits, after a minus sign if `n` is
/// negative.
pub open spec fn decimal(n: int) -> Seq<char> {
    if n < 0 {
        seq!['-'] + digits((-n) as nat)
    } else {
        digits(n as nat)
    }
}

/// The number that a sequence of digits denotes in base ten; leading zeros
/// count for nothing and the empty sequence denotes zero.
pub open spec fn digits_value(s: Seq<char>) -> nat
    decreases s.len(),
{
    if s.len() == 0 {
        0
    } else {
        (digits_value(s.drop_last()) * 10 + digit_value(s.last())) as nat
    }
}

/// The length of the sign that `s` starts with: one for a leading `+` or `-`,
/// zero otherwise.
pub open spec fn sign_len(s: Seq<char>) -> int {
    if s.len() > 0 && (s[0] == '-' || s[0] == '+') {
        1
    } else {
        0
    }
}

/// What is left of `s` once a leading `+` or `-` is taken away.
pub open spec fn unsigned_part(s: Seq<char>) -> Seq<char> {
    s.subrange(sign_len(s), s.len() as int)
}

/// The integer that `s` denotes: an optional `+` or `-`, then one or more
/// ASCII digits and nothing else. Any other text denotes no integer.
pub open spec fn parse_decimal(s: Seq<char>) -> Option<int> {
    let body = unsigned_part(s);
    if body.len() == 0 || !all_digits(body) {
        None
    } else if s[0] == '-' {
        Some(-(digits_value(body) as int))
    } else {
        Some(digits_value(body) as int)
    }
}

/// The score that the text of a score cell denotes: the integer it denotes in
/// decimal notation, provided that a signed 32-bit integer can hold it.
pub open spec fn score_value(s: Seq<char>) -> Option<int> {
    match parse_decimal(s) {
        Some(v) if i32::MIN <= v <= i32::MAX => Some(v),
        _ => None,
    }
}

/// The digits of a number are digits, at least one of them, and denote that
/// number.
pub proof fn lemma_digits_value(n: nat)
    ensures
        digits(n).len() >= 1,
        all_digits(digits(n)),
        digits_value(digits(n)) == n,
    decreases n,
{
    if n < 10 {
        let s = digits(n);
        assert(s.drop_last() =~= Seq::<char>::empty());
        assert(digits_value(s.drop_last()) == 0);
        assert(s.last() == digit_char(n as int));
    } else {
        lemma_digits_value(n / 10);
        let s = digits(n);
        assert(s.drop_last() =~= digits(n / 10));
        assert(s.last() == digit_char((n % 10) as int));
        assert forall|i: int| 0 <= i < s.len() implies is_digit(#[trigger] s[i]) by {
            if i < s.len() - 1 {
                assert(s[i] == digits(n / 10)[i]);
            }
        }
    }
}

/// Reading back the decimal notation of an integer gives that integer, and
/// as a score too where a signed 32-bit integer can hold it.
pub proof fn lemma_parse_decimal_of_decimal(n: int)
    ensures
        parse_decimal(decimal(n)) == Some(n),
        i32::MIN <= n <= i32::MAX ==> score_value(decimal(n)) == Some(n),
{
    if n < 0 {
        let m = (-n) as nat;
        lemma_digits_value(m);
        let s = decimal(n);
        assert(s[0] == '-');
        assert(unsigned_part(s) =~= digits(m));
    } else {
        lemma_digits_value(n as nat);
        let s = decimal(n);
        assert(is_digit(s[0]));
        assert(unsigned_part(s) =~= s);
    }
}

/// One more digit at the end multiplies what the digits denote by ten and
/// adds the digit.
pub proof fn lemma_digits_value_push(s: Seq<char>, c: char)
    requires
        all_digits(s),
        is_digit(c),
    ensures
        digits_value(s.push(c)) == digits_value(s) * 10 + digit_value(c),
        all_digits(s.push(c)),
{
    let longer = s.push(c);
    assert(longer.drop_last() =~= s);
    assert(longer.last() == c);
    assert forall|i: int| 0 <= i < longer.len() implies is_digit(#[trigger] longer[i]) by {
        if i < s.len() {
            assert(longer[i] == s[i]);
        }
    }
}

/// A number's first digits denote no more than all of its digits do.
pub proof fn lemma_digits_value_grows(s: Seq<char>, k: int)
    requires
        all_digits(s),
        0 <= k <= s.len(),
    ensures
        digits_value(s.take(k)) <= digits_value(s),
    decreases s.len(),
{
    if k == s.len() {
        assert(s.take(k) =~= s);
    } else {
        let shorter = s.drop_last();
        assert(is_digit(s.last()));
        assert(all_digits(shorter)) by {
            assert forall|i: int| 0 <= i < shorter.len() implies is_digit(#[trigger] shorter[i]) by {
                assert(shorter[i] == s[i]);
            }
        }
        lemma_digits_value_grows(shorter, k);
        assert(shorter.take(k) =~= s.take(k));
    }
}

/// The character of one decimal digit.
fn digit_to_char(d: u64) -> (c: char)
    requires
        d < 10,
    ensures
        c == digit_char(d as int),
{
    match d {
        0 => '0',
        1 => '1',
        2 => '2',
        3 => '3',
        4 => '4',
        5 => '5',
        6 => '6',
        7 => '7',
        8 => '8',
        _ => '9',
    }
}

/// Appends the digits of `n` to `out`.
pub fn push_digits(out: &mut String, n: u64)
    ensures
        final(out)@ == old(out)@ + digits(n as nat),
    decreases n,
{
    if n >= 10 {
        push_digits(out, n / 10);
    }
    out.push(digit_to_char(n % 10));
}

/// Appends the decimal notation of `n` to `out`.
pub fn push_decimal(out: &mut String, n: i64)
    ensures
        final(out)@ == old(out)@ + decimal(n as int),
{
    if n < 0 {
        out.push('-');
        let magnitude: u64 = if n == i64::MIN {
            9223372036854775808
        } else {
            (-n) as u64
        };
        push_digits(out, magnitude);
        assert(final(out)@ =~= old(out)@ + decimal(n as int));
    } else {
        push_digits(out, n as u64);
    }
}

/// Reads the text of a score cell as a signed 32-bit integer in decimal
/// notation: an optional `+` or `-`, then digits only. Text that is empty,
/// holds anything else, or denotes a number out of range gives `None`.
pub fn parse_score(text: &str) -> (score: Option<i32>)
    ensures
        match score {
            Some(v) => score_value(text@) == Some(v as int),
            None => score_value(text@) is None,
        },
{
    let ghost body = unsigned_part(text@);
    let ghost start = sign_len(text@);
    let ghost mut pos: int = 0;
    let mut first = true;
    let mut negative = false;
    let mut any = false;
    let mut total: i64 = 0;
    for c in it: text.chars()
        invariant
            it.seq() == text@,
            pos == it.index(),
            body == unsigned_part(text@),
            start == sign_len(text@),
            first == (it.index() == 0),
            negative == (it.index() > 0 && text@[0] == '-'),
            any == (it.index() > start),
            !first ==> it.index() >= start,
            0 <= total <= 2147483648,
            first ==> total == 0,
            !first ==> total == digits_value(text@.subrange(start, it.index())),
            !first ==> all_digits(text@.subrange(start, it.index())),
    {
        let ghost k = it.index();
        assert(c == text@[k]);
        if first && (c == '-' || c == '+') {
            negative = c == '-';
            assert(text@.subrange(start, k + 1) =~= Seq::<char>::empty());
        } else if c >= '0' && c <= '9' {
            let digit: i64 = (c as u32 - '0' as u32) as i64;
            let ghost earlier = text@.subrange(start, k);
            let ghost seen = text@.subrange(start, k + 1);
            proof {
                assert(is_digit(c));
                assert(digit == digit_value(c));
                assert(seen =~= earlier.push(c));
                if first {
                    assert(earlier =~= Seq::<char>::empty());
                    assert(digits_value(earlier) == 0);
                    assert(all_digits(earlier));
                }
                assert(digits_value(earlier) == total);
                lemma_digits_value_push(earlier, c);
                assert(digits_value(seen) == total * 10 + digit);
                assert(all_digits(seen));
            }
            total = total * 10 + digit;
            any = true;
            if total > 2147483648 {
                proof {
                    assert(seen =~= body.take(k + 1 - start));
                    if all_digits(body) {
                        lemma_digits_value_grows(body, k + 1 - start);
                    }
                }
                return None;
            }
        } else {
            proof {
                assert(body[k - start] == c);
                assert(!is_digit(c));
            }
            return None;
        }
        first = false;
        proof {
            pos = pos + 1;
        }
    }
    proof {
        assert(pos == text@.len());
        if !first {
            assert(text@.subrange(start, text@.len() as int) =~= body);
        }
    }
    if !any {
        None
    } else if negative {
        Some((-total) as i32)
    } else if total <= 2147483647 {
        Some(total as i32)
    } else {
        None
    }
}

} // verus!
