//! Text helpers: comparison, decimal numbers and placeholder substitution.

use vstd::prelude::*;
use vstd::string::StringExecFns;
use vstd::string::StrSliceExecFns;

verus! {

/// The texts of a list of strings.
pub open spec fn texts(list: Seq<String>) -> Seq<Seq<char>> {
    Seq::new(list.len(), |i: int| list[i]@)
}

/// Whether `c` is one of the ten decimal digits.
pub open spec fn is_digit(c: char) -> bool {
    '0' <= c && c <= '9'
}

/// The number a decimal digit stands for.
pub open spec fn digit_value(c: char) -> nat {
    (c as nat - '0' as nat) as nat
}

/// Whether every character of `s` is a decimal digit.
pub open spec fn all_digits(s: Seq<char>) -> bool {
    forall|i: int| 0 <= i < s.len() ==> is_digit(#[trigger] s[i])
}

/// The number that the digits of `s` write in base ten; 0 for no digits.
pub open spec fn decimal_value(s: Seq<char>) -> nat
    decreases s.len(),
{
    if s.len() == 0 {
        0
    } else {
        decimal_value(s.drop_last()) * 10 + digit_value(s.last())
    }
}

/// `s` without one leading plus sign.
pub open spec fn unsigned_digits(s: Seq<char>) -> Seq<char> {
    if s.len() > 0 && s[0] == '+' {
        s.drop_first()
    } else {
        s
    }
}

/// The number written by `s`, an optional plus sign and at least one digit,
/// when it is at most `max`.
pub open spec fn parsed_unsigned(s: Seq<char>, max: nat) -> Option<nat> {
    let digits = unsigned_digits(s);
    if digits.len() > 0 && all_digits(digits) && decimal_value(digits) <= max {
        Some(decimal_value(digits))
    } else {
        None
    }
}

/// Whether `s` writes a 32-bit signed integer: an optional sign, at least one
/// digit, and a value from -2147483648 to 2147483647.
pub open spec fn is_i32_text(s: Seq<char>) -> bool {
    if s.len() > 0 && s[0] == '-' {
        let digits = s.drop_first();
        digits.len() > 0 && all_digits(digits) && decimal_value(digits) <= 2147483648
    } else {
        parsed_unsigned(s, 2147483647).is_some()
    }
}

/// Reads the digits of `text` from position `from` on as a number of at most
/// `max`.
fn parse_digits(text: &str, from: usize, max: u64) -> (value: Option<u64>)
    requires
        from <= text@.len(),
    ensures
        ({
            let digits = text@.subrange(from as int, text@.len() as int);
            value == if digits.len() > 0 && all_digits(digits) && decimal_value(digits) <= max {
                Some(decimal_value(digits) as u64)
            } else {
                None
            }
        }),
{
    let len = text.unicode_len();
    if from == len {
        return None;
    }
    let ghost digits = text@.subrange(from as int, len as int);
    let mut i: usize = from;
    let mut acc: u64 = 0;
    let mut too_big = false;
    while i < len
        invariant
            from <= i <= len,
            len == text@.len(),
            digits == text@.subrange(from as int, len as int),
            all_digits(digits.take(i - from)),
            !too_big ==> acc == decimal_value(digits.take(i - from)) && acc <= max,
            too_big ==> decimal_value(digits.take(i - from)) > max,
        decreases len - i,
    {
        let c = text.get_char(i);
        let ghost seen = digits.take(i - from);
        let ghost next = digits.take(i - from + 1);
        proof {
            assert(next.drop_last() =~= seen);
            assert(next.last() == c);
        }
        if !(c >= '0' && c <= '9') {
            assert(!is_digit(digits[i - from]));
            return None;
        }
        let d: u64 = (c as u32 - '0' as u32) as u64;
        assert(d == digit_value(c));
        if !too_big {
            if d > max || acc > (max - d) / 10 {
                too_big = true;
            } else {
                acc = acc * 10 + d;
            }
        }
        assert(all_digits(next)) by {
            assert forall|j: int| 0 <= j < next.len() implies is_digit(#[trigger] next[j]) by {
                if j < seen.len() {
                    assert(next[j] == seen[j]);
                }
            }
        }
        i += 1;
    }
    assert(digits.take(len - from) =~= digits);
    if too_big {
        None
    } else {
        Some(acc)
    }
}

/// Reads `text` as an unsigned decimal number of at most `max`: an optional
/// plus sign followed by at least one digit and nothing else.
pub fn parse_unsigned(text: &str, max: u64) -> (value: Option<u64>)
    ensures
        value.is_some() == parsed_unsigned(text@, max as nat).is_some(),
        value.is_some() ==> parsed_unsigned(text@, max as nat) == Some(value.unwrap() as nat),
{
    let len = text.unicode_len();
    let from: usize = if len > 0 && text.get_char(0) == '+' {
        1
    } else {
        0
    };
    assert(text@.subrange(from as int, len as int) =~= unsigned_digits(text@));
    parse_digits(text, from, max)
}

/// Whether `text` writes a 32-bit signed integer.
pub fn is_i32(text: &str) -> (yes: bool)
    ensures
        yes == is_i32_text(text@),
{
    let len = text.unicode_len();
    if len > 0 && text.get_char(0) == '-' {
        assert(text@.subrange(1, len as int) =~= text@.drop_first());
        parse_digits(text, 1, 2147483648).is_some()
    } else {
        parse_unsigned(text, 2147483647).is_some()
    }
}

/// The character that writes a value below ten.
pub open spec fn digit_char(d: nat) -> char {
    if d == 0 {
        '0'
    } else if d == 1 {
        '1'
    } else if d == 2 {
        '2'
    } else if d == 3 {
        '3'
    } else if d == 4 {
        '4'
    } else if d == 5 {
        '5'
    } else if d == 6 {
        '6'
    } else if d == 7 {
        '7'
    } else if d == 8 {
        '8'
    } else {
        '9'
    }
}

/// `n` in base ten without leading zeros; "0" for zero.
pub open spec fn decimal_text(n: nat) -> Seq<char>
    decreases n,
{
    if n < 10 {
        seq![digit_char(n)]
    } else {
        decimal_text(n / 10).push(digit_char(n % 10))
    }
}

fn digit_text(d: u64) -> (text: &'static str)
    requires
        d < 10,
    ensures
        text@ == seq![digit_char(d as nat)],
{
    proof {
        reveal_strlit("0");
        reveal_strlit("1");
        reveal_strlit("2");
        reveal_strlit("3");
        reveal_strlit("4");
        reveal_strlit("5");
        reveal_strlit("6");
        reveal_strlit("7");
        reveal_strlit("8");
        reveal_strlit("9");
    }
    let text = if d == 0 {
        "0"
    } else if d == 1 {
        "1"
    } else if d == 2 {
        "2"
    } else if d == 3 {
        "3"
    } else if d == 4 {
        "4"
    } else if d == 5 {
        "5"
    } else if d == 6 {
        "6"
    } else if d == 7 {
        "7"
    } else if d == 8 {
        "8"
    } else {
        "9"
    };
    assert(text@ =~= seq![digit_char(d as nat)]);
    text
}

/// Appends `n`, written in base ten, to `out`.
pub fn push_decimal(out: &mut String, n: u64)
    ensures
        final(out)@ == old(out)@ + decimal_text(n as nat),
    decreases n,
{
    if n >= 10 {
        push_decimal(out, n / 10);
    }
    let ghost before = out@;
    out.append(digit_text(n % 10));
    proof {
        if n >= 10 {
            assert(out@ =~= old(out)@ + decimal_text((n / 10) as nat).push(
                digit_char((n % 10) as nat),
            ));
        } else {
            assert(out@ =~= old(out)@ + seq![digit_char(n as nat)]);
        }
    }
}

/// `template` with every occurrence of `placeholder` replaced by `value`,
/// scanning from the left and resuming behind each occurrence.
pub open spec fn substituted(template: Seq<char>, placeholder: Seq<char>, value: Seq<char>) -> Seq<
    char,
>
    decreases template.len(),
{
    if placeholder.len() == 0 || template.len() < placeholder.len() {
        template
    } else if template.take(placeholder.len() as int) == placeholder {
        value + substituted(template.skip(placeholder.len() as int), placeholder, value)
    } else {
        seq![template[0]] + substituted(template.skip(1), placeholder, value)
    }
}

/// Whether `pattern` stands in `text` at position `at`.
fn occurs_at(text: &str, at: usize, pattern: &str) -> (yes: bool)
    requires
        at + pattern@.len() <= text@.len() <= usize::MAX,
    ensures
        yes == (text@.skip(at as int).take(pattern@.len() as int) == pattern@),
{
    let n = pattern.unicode_len();
    let ghost window = text@.skip(at as int).take(n as int);
    let mut k: usize = 0;
    while k < n
        invariant
            k <= n,
            n == pattern@.len(),
            at + n <= text@.len() <= usize::MAX,
            window == text@.skip(at as int).take(n as int),
            forall|j: int| 0 <= j < k ==> window[j] == pattern@[j],
        decreases n - k,
    {
        if text.get_char(at + k) != pattern.get_char(k) {
            assert(window[k as int] != pattern@[k as int]);
            return false;
        }
        k += 1;
    }
    assert(window =~= pattern@);
    true
}

/// Replaces every occurrence of `placeholder` in `template` by `value`.
pub fn substitute(template: &str, placeholder: &str, value: &str) -> (text: String)
    ensures
        text@ == substituted(template@, placeholder@, value@),
{
    let len = template.unicode_len();
    let n = placeholder.unicode_len();
    if n == 0 {
        return String::from_str(template);
    }
    let mut text = String::new();
    let mut i: usize = 0;
    assert(template@.skip(0) =~= template@);
    assert(text@ + substituted(template@, placeholder@, value@) =~= substituted(
        template@,
        placeholder@,
        value@,
    ));
    while i < len && len - i >= n
        invariant
            i <= len,
            len == template@.len(),
            n == placeholder@.len(),
            n > 0,
            text@ + substituted(template@.skip(i as int), placeholder@, value@) == substituted(
                template@,
                placeholder@,
                value@,
            ),
        decreases len - i,
    {
        let ghost rest = template@.skip(i as int);
        if occurs_at(template, i, placeholder) {
            let ghost before = text@;
            text.append(value);
            proof {
                assert(rest.skip(n as int) =~= template@.skip(i + n));
                assert((before + value@) + substituted(rest.skip(n as int), placeholder@, value@)
                    =~= before + (value@ + substituted(
                    rest.skip(n as int),
                    placeholder@,
                    value@,
                )));
            }
            i += n;
        } else {
            let ghost before = text@;
            text.append(template.substring_char(i, i + 1));
            proof {
                assert(template@.subrange(i as int, i + 1) =~= seq![rest[0]]);
                assert(rest.skip(1) =~= template@.skip(i + 1));
                assert((before + seq![rest[0]]) + substituted(rest.skip(1), placeholder@, value@)
                    =~= before + (seq![rest[0]] + substituted(rest.skip(1), placeholder@, value@)));
            }
            i += 1;
        }
    }
    let ghost before = text@;
    text.append(template.substring_char(i, len));
    proof {
        assert(template@.subrange(i as int, len as int) =~= template@.skip(i as int));
    }
    text
}

/// Whether two texts are the same.
pub fn equal(a: &str, b: &str) -> (same: bool)
    ensures
        same == (a@ == b@),
{
    let n = a.unicode_len();
    if n != b.unicode_len() {
        return false;
    }
    assert(a@.skip(0).take(n as int) =~= a@);
    occurs_at(a, 0, b)
}

/// `n` in base ten, with a minus sign in front when it is negative.
pub open spec fn signed_text(n: int) -> Seq<char> {
    if n < 0 {
        seq!['-'] + decimal_text((-n) as nat)
    } else {
        decimal_text(n as nat)
    }
}

/// Appends `n`, written in base ten with its sign, to `out`.
pub fn push_signed(out: &mut String, n: i64)
    ensures
        final(out)@ == old(out)@ + signed_text(n as int),
{
    if n < 0 {
        proof {
            reveal_strlit("-");
        }
        out.append("-");
        let size: u64 = if n == i64::MIN {
            9223372036854775808
        } else {
            (-n) as u64
        };
        push_decimal(out, size);
        assert(out@ =~= old(out)@ + signed_text(n as int));
    } else {
        push_decimal(out, n as u64);
    }
}

} // verus!
