//! Small helpers on text that the commands share.

use crate::classes::is_digit;
use vstd::prelude::*;
use vstd::string::StringExecFns;

verus! {

/// `String::push` appends one character to the end of the string.
pub assume_specification[ String::push ](text: &mut String, c: char)
    ensures
        final(text)@ == old(text)@.push(c),
;

/// `==` on `str` holds exactly of two texts with the same characters in the
/// same order.
pub assume_specification[ <str as PartialEq>::eq ](a: &str, b: &str) -> (same: bool)
    ensures
        same == (a@ == b@),
;

/// The decimal digit for `d`, which is below ten.
pub open spec fn digit(d: nat) -> char {
    ('0' as nat + d) as char
}

/// `n` written in decimal, without leading zeros.
pub open spec fn decimal(n: nat) -> Seq<char>
    decreases n,
{
    if n < 10 {
        seq![digit(n)]
    } else {
        decimal(n / 10).push(digit(n % 10))
    }
}

/// Writes `n` in decimal.
pub fn to_decimal(n: u64) -> (s: String)
    ensures
        s@ == decimal(n as nat),
{
    let mut low_first: Vec<char> = Vec::new();
    let mut rest = n;
    while rest >= 10
        invariant
            decimal(n as nat) == decimal(rest as nat) + low_first@.reverse(),
        decreases rest,
    {
        let d = (rest % 10) as u8;
        let c = ('0' as u8 + d) as char;
        proof {
            assert(c == digit((rest % 10) as nat));
            assert(decimal(rest as nat) == decimal((rest / 10) as nat).push(c));
            assert(low_first@.push(c).reverse() =~= seq![c] + low_first@.reverse());
            assert(decimal(rest as nat) + low_first@.reverse() =~= decimal((rest / 10) as nat) + (
            seq![c] + low_first@.reverse()));
        }
        low_first.push(c);
        rest = rest / 10;
    }
    let lead = ('0' as u8 + rest as u8) as char;
    assert(decimal(rest as nat) == seq![lead]);
    let mut s = String::new();
    s.push(lead);
    let mut k = low_first.len();
    while k > 0
        invariant
            k <= low_first@.len(),
            s@ == seq![lead] + low_first@.reverse().take(low_first@.len() - k),
        decreases k,
    {
        k -= 1;
        s.push(low_first[k]);
        assert(s@ =~= seq![lead] + low_first@.reverse().take(low_first@.len() - k));
    }
    assert(low_first@.reverse().take(low_first@.len() as int) =~= low_first@.reverse());
    s
}

/// `n` written in decimal, with a minus sign in front where it is negative.
pub open spec fn signed_decimal(n: int) -> Seq<char> {
    if n < 0 {
        seq!['-'] + decimal((-n) as nat)
    } else {
        decimal(n as nat)
    }
}

/// Writes `n` in decimal, with a minus sign in front where it is negative.
pub fn to_signed_decimal(n: i64) -> (s: String)
    ensures
        s@ == signed_decimal(n as int),
{
    if n < 0 {
        let magnitude: u64 = if n == i64::MIN {
            9223372036854775808u64
        } else {
            (-n) as u64
        };
        let mut s = String::new();
        s.push('-');
        let digits = to_decimal(magnitude);
        s.append(digits.as_str());
        assert(s@ =~= seq!['-'] + decimal((-n) as nat));
        s
    } else {
        to_decimal(n as u64)
    }
}

/// The number that the decimal digits `s` write.
pub open spec fn digits_value(s: Seq<char>) -> nat
    decreases s.len(),
{
    if s.len() == 0 {
        0
    } else {
        digits_value(s.drop_last()) * 10 + (s.last() as nat - '0' as nat) as nat
    }
}

/// Whether `s` holds decimal digits only.
pub open spec fn all_digits(s: Seq<char>) -> bool {
    forall|i: int| 0 <= i < s.len() ==> is_digit(#[trigger] s[i])
}

/// The number that `s` writes: an optional sign, `+` or `-`, and then
/// decimal digits, at least one, and nothing else. `None` where `s` is not of
/// that form or the number does not fit.
pub open spec fn parsed_i64(s: Seq<char>) -> Option<i64> {
    let signed = s.len() > 0 && (s[0] == '-' || s[0] == '+');
    let digits = if signed {
        s.drop_first()
    } else {
        s
    };
    let value = if signed && s[0] == '-' {
        -(digits_value(digits) as int)
    } else {
        digits_value(digits) as int
    };
    if digits.len() == 0 || !all_digits(digits) || value < i64::MIN || value > i64::MAX {
        None
    } else {
        Some(value as i64)
    }
}

/// Adding digits never makes the number smaller.
proof fn lemma_digits_value_grows(s: Seq<char>, k: int)
    requires
        0 <= k <= s.len(),
    ensures
        digits_value(s.take(k)) <= digits_value(s),
    decreases s.len() - k,
{
    if k < s.len() {
        lemma_digits_value_grows(s, k + 1);
        assert(s.take(k + 1).drop_last() =~= s.take(k));
    } else {
        assert(s.take(k) =~= s);
    }
}

/// Reads a number written in decimal with an optional sign.
#[verifier::loop_isolation(false)]
pub fn parse_i64(text: &str) -> (r: Option<i64>)
    ensures
        r == parsed_i64(text@),
{
    let chars = chars_of(text);
    if chars.len() == 0 {
        return None;
    }
    let negative = chars[0] == '-';
    let first: usize = if chars[0] == '-' || chars[0] == '+' {
        1
    } else {
        0
    };
    let ghost digits = chars@.subrange(first as int, chars@.len() as int);
    assert(digits =~= if first == 1 {
        chars@.drop_first()
    } else {
        chars@
    });
    if first == chars.len() {
        return None;
    }
    let mut value: u64 = 0;
    let mut i = first;
    while i < chars.len()
        invariant
            first <= i <= chars@.len(),
            digits == chars@.subrange(first as int, chars@.len() as int),
            all_digits(digits.take(i - first)),
            value == digits_value(digits.take(i - first)),
            value <= 9223372036854775808u64,
        decreases chars@.len() - i,
    {
        let c = chars[i];
        assert(c == digits[i - first]);
        if !('0' <= c && c <= '9') {
            assert(!is_digit(digits[i - first]));
            return None;
        }
        let d = (c as u8 - '0' as u8) as u64;
        proof {
            assert(digits.take(i - first + 1).drop_last() =~= digits.take(i - first));
            assert(digits_value(digits.take(i - first + 1)) == value * 10 + d);
            lemma_digits_value_grows(digits, i - first + 1);
            assert forall|j: int| 0 <= j < i - first + 1 implies is_digit(
                #[trigger] digits.take(i - first + 1)[j],
            ) by {
                if j < i - first {
                    assert(digits.take(i - first)[j] == digits[j]);
                }
            }
        }
        if value > 922337203685477580u64 {
            // ten times the value is beyond every number that fits
            proof {
                if all_digits(digits) {
                    assert(digits_value(digits) >= value * 10 + d);
                }
            }
            return None;
        }
        value = value * 10 + d;
        if value > 9223372036854775808u64 {
            proof {
                if all_digits(digits) {
                    assert(digits_value(digits) >= value);
                }
            }
            return None;
        }
        i += 1;
    }
    assert(digits.take(i - first) =~= digits);
    if negative {
        if value == 9223372036854775808u64 {
            Some(i64::MIN)
        } else {
            Some(-(value as i64))
        }
    } else if value > 9223372036854775807u64 {
        None
    } else {
        Some(value as i64)
    }
}

/// The texts of `parts` in order, with one space between neighbours.
pub open spec fn spaced(parts: Seq<Seq<char>>) -> Seq<char>
    decreases parts.len(),
{
    if parts.len() == 0 {
        Seq::empty()
    } else if parts.len() == 1 {
        parts[0]
    } else {
        spaced(parts.drop_last()).push(' ') + parts.last()
    }
}

/// Joins `parts` with one space between neighbours.
pub fn join_with_spaces(parts: &Vec<String>) -> (text: String)
    ensures
        text@ == spaced(parts.deep_view()),
{
    let mut text = String::new();
    let mut i: usize = 0;
    while i < parts.len()
        invariant
            i <= parts@.len(),
            text@ == spaced(parts.deep_view().take(i as int)),
        decreases parts@.len() - i,
    {
        let ghost shorter = parts.deep_view().take(i as int);
        let ghost longer = parts.deep_view().take(i + 1);
        proof {
            assert(longer.drop_last() =~= shorter);
            assert(longer.last() == parts@[i as int]@);
        }
        if i > 0 {
            text.push(' ');
        }
        text.append(parts[i].as_str());
        proof {
            if i == 0 {
                assert(text@ =~= parts@[0]@);
            }
        }
        i += 1;
    }
    assert(parts.deep_view().take(parts@.len() as int) =~= parts.deep_view());
    text
}

/// `c` is white space as Unicode defines it (the property `White_Space`).
pub open spec fn is_whitespace(c: char) -> bool {
    ||| '\u{9}' <= c <= '\u{d}'
    ||| c == ' '
    ||| c == '\u{85}'
    ||| c == '\u{a0}'
    ||| c == '\u{1680}'
    ||| '\u{2000}' <= c <= '\u{200a}'
    ||| c == '\u{2028}'
    ||| c == '\u{2029}'
    ||| c == '\u{202f}'
    ||| c == '\u{205f}'
    ||| c == '\u{3000}'
}

/// Decides whether `c` is white space.
pub fn whitespace(c: char) -> (b: bool)
    ensures
        b == is_whitespace(c),
{
    ('\u{9}' <= c && c <= '\u{d}') || c == ' ' || c == '\u{85}' || c == '\u{a0}' || c
        == '\u{1680}' || ('\u{2000}' <= c && c <= '\u{200a}') || c == '\u{2028}' || c
        == '\u{2029}' || c == '\u{202f}' || c == '\u{205f}' || c == '\u{3000}'
}

/// Number of white-space characters at the start of `s`.
pub open spec fn leading_space(s: Seq<char>) -> nat
    decreases s.len(),
{
    if s.len() > 0 && is_whitespace(s.first()) {
        1 + leading_space(s.drop_first())
    } else {
        0
    }
}

/// Number of white-space characters at the end of `s`.
pub open spec fn trailing_space(s: Seq<char>) -> nat
    decreases s.len(),
{
    if s.len() > 0 && is_whitespace(s.last()) {
        1 + trailing_space(s.drop_last())
    } else {
        0
    }
}

/// `s` without the white space at its start and at its end.
pub open spec fn trimmed(s: Seq<char>) -> Seq<char> {
    if leading_space(s) == s.len() {
        Seq::empty()
    } else {
        s.subrange(leading_space(s) as int, s.len() - trailing_space(s))
    }
}

/// A run of white space at the start of `s` that ends before a character
/// which is none is the leading white space of `s`.
proof fn lemma_leading_space_is(s: Seq<char>, n: nat)
    requires
        n <= s.len(),
        forall|i: int| 0 <= i < n ==> is_whitespace(s[i]),
        n < s.len() ==> !is_whitespace(s[n as int]),
    ensures
        leading_space(s) == n,
    decreases n,
{
    if n > 0 {
        let rest = s.drop_first();
        assert forall|i: int| 0 <= i < n - 1 implies is_whitespace(rest[i]) by {
            assert(rest[i] == s[i + 1]);
        }
        lemma_leading_space_is(rest, (n - 1) as nat);
    }
}

/// A run of white space at the end of `s` that begins behind a character
/// which is none is the trailing white space of `s`.
proof fn lemma_trailing_space_is(s: Seq<char>, n: nat)
    requires
        n <= s.len(),
        forall|i: int| s.len() - n <= i < s.len() ==> is_whitespace(s[i]),
        n < s.len() ==> !is_whitespace(s[s.len() - n - 1]),
    ensures
        trailing_space(s) == n,
    decreases n,
{
    if n > 0 {
        let rest = s.drop_last();
        assert forall|i: int| rest.len() - (n - 1) <= i < rest.len() implies is_whitespace(
            rest[i],
        ) by {
            assert(rest[i] == s[i]);
        }
        lemma_trailing_space_is(rest, (n - 1) as nat);
    }
}

/// The characters of `text`, one by one.
pub fn chars_of(text: &str) -> (chars: Vec<char>)
    ensures
        chars@ == text@,
{
    let mut chars: Vec<char> = Vec::new();
    for c in it: text.chars()
        invariant
            it.seq() == text@,
            chars@ == text@.take(it.index() as int),
    {
        chars.push(c);
    }
    chars
}

/// The text made of `chars[from..to]`.
pub fn text_of(chars: &Vec<char>, from: usize, to: usize) -> (text: String)
    requires
        from <= to <= chars@.len(),
    ensures
        text@ == chars@.subrange(from as int, to as int),
{
    let mut text = String::new();
    let mut i = from;
    while i < to
        invariant
            from <= i <= to <= chars@.len(),
            text@ == chars@.subrange(from as int, i as int),
        decreases to - i,
    {
        text.push(chars[i]);
        assert(text@ =~= chars@.subrange(from as int, i + 1));
        i += 1;
    }
    text
}

/// Removes the white space at the start and at the end of `text`.
pub fn trim(text: &str) -> (inner: String)
    ensures
        inner@ == trimmed(text@),
{
    let chars = chars_of(text);
    let mut start: usize = 0;
    while start < chars.len() && whitespace(chars[start])
        invariant
            start <= chars@.len(),
            forall|i: int| 0 <= i < start ==> is_whitespace(chars@[i]),
        decreases chars@.len() - start,
    {
        start += 1;
    }
    proof {
        lemma_leading_space_is(chars@, start as nat);
    }
    if start == chars.len() {
        return String::new();
    }
    let mut end: usize = chars.len();
    while end > start && whitespace(chars[end - 1])
        invariant
            start <= end <= chars@.len(),
            start < chars@.len(),
            !is_whitespace(chars@[start as int]),
            forall|i: int| end <= i < chars@.len() ==> is_whitespace(chars@[i]),
        decreases end,
    {
        end -= 1;
    }
    proof {
        lemma_trailing_space_is(chars@, (chars@.len() - end) as nat);
    }
    text_of(&chars, start, end)
}

/// `text` in lowercase, as `str::to_lowercase` maps it.
pub uninterp spec fn lowercased(text: Seq<char>) -> Seq<char>;

/// Calls `str::to_lowercase`, which maps each character to its lowercase
/// form as Unicode defines it. The result is a function of the text alone.
#[verifier::external_body]
pub(crate) fn lowercase(text: &str) -> (lower: String)
    ensures
        lower@ == lowercased(text@),
{
    text.to_lowercase()
}

/// An answer as it is compared: without the white space around it, in lowercase.
pub open spec fn normalized(answer: Seq<char>) -> Seq<char> {
    lowercased(trimmed(answer))
}

/// Prepares an answer for comparison.
pub fn normalize(answer: &str) -> (plain: String)
    ensures
        plain@ == normalized(answer@),
{
    let inner = trim(answer);
    lowercase(inner.as_str())
}

/// Whether `answer` says yes with the single letter `y`, in either case and
/// with any white space around it.
pub fn is_yes(answer: &str) -> (yes: bool)
    ensures
        yes == (normalized(answer@) == "y"@),
{
    let plain = normalize(answer);
    *plain.as_str() == *"y"
}

} // verus!
