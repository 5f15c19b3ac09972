//! A mathematical model of the string operations this library relies on,
//! together with the standard-library calls that implement them.
//!
//! Strings are viewed as `Seq<char>`. Every specification function here is a
//! direct statement of what the corresponding `str` method is documented to
//! do; the executable wrappers at the end of the file are the only places
//! where that correspondence is taken on trust.

use vstd::prelude::*;

verus! {

/// Whether `c` carries the Unicode `White_Space` property, the notion of
/// whitespace used by `char::is_whitespace` and `str::trim`.
pub open spec fn is_whitespace(c: char) -> bool {
    let n: int = c as int;
    ||| 0x09 <= n <= 0x0D
    ||| n == 0x20
    ||| n == 0x85
    ||| n == 0xA0
    ||| n == 0x1680
    ||| 0x2000 <= n <= 0x200A
    ||| n == 0x2028
    ||| n == 0x2029
    ||| n == 0x202F
    ||| n == 0x205F
    ||| n == 0x3000
}

/// `s` without its leading whitespace.
pub open spec fn trim_start_ws(s: Seq<char>) -> Seq<char>
    decreases s.len(),
{
    if s.len() > 0 && is_whitespace(s[0]) {
        trim_start_ws(s.skip(1))
    } else {
        s
    }
}

/// `s` without its trailing whitespace.
pub open spec fn trim_end_ws(s: Seq<char>) -> Seq<char>
    decreases s.len(),
{
    if s.len() > 0 && is_whitespace(s.last()) {
        trim_end_ws(s.drop_last())
    } else {
        s
    }
}

/// `s` without leading and trailing whitespace.
pub open spec fn trim_ws(s: Seq<char>) -> Seq<char> {
    trim_end_ws(trim_start_ws(s))
}

/// A value is blank when nothing is left of it after trimming.
pub open spec fn is_blank(s: Seq<char>) -> bool {
    trim_ws(s).len() == 0
}

/// `s` without any trailing occurrences of `c`.
pub open spec fn strip_trailing(s: Seq<char>, c: char) -> Seq<char>
    decreases s.len(),
{
    if s.len() > 0 && s.last() == c {
        strip_trailing(s.drop_last(), c)
    } else {
        s
    }
}

/// Whether `pat` occurs in `s` starting at index 0.
pub open spec fn starts_with(s: Seq<char>, pat: Seq<char>) -> bool {
    pat.len() <= s.len() && s.subrange(0, pat.len() as int) == pat
}

/// `s` with every non-overlapping occurrence of `from`, found left to right,
/// replaced by `to`. Meaningful for a non-empty `from`.
pub open spec fn replace_all(s: Seq<char>, from: Seq<char>, to: Seq<char>) -> Seq<char>
    decreases s.len(),
{
    if from.len() == 0 || s.len() == 0 {
        s
    } else if starts_with(s, from) {
        to + replace_all(s.skip(from.len() as int), from, to)
    } else {
        seq![s[0]] + replace_all(s.skip(1), from, to)
    }
}

/// The decimal digit character for `d`, for `0 <= d <= 9`.
pub open spec fn digit_char(d: int) -> char {
    ('0' as int + d) as char
}

/// The decimal digits of a natural number, most significant first.
pub open spec fn decimal_nat(n: nat) -> Seq<char>
    decreases n,
{
    if n < 10 {
        seq![digit_char(n as int)]
    } else {
        decimal_nat(n / 10).push(digit_char((n % 10) as int))
    }
}

/// The decimal rendering of an integer: a minus sign for negative values,
/// then the digits of the magnitude.
pub open spec fn decimal(n: int) -> Seq<char> {
    if n < 0 {
        seq!['-'] + decimal_nat((-n) as nat)
    } else {
        decimal_nat(n as nat)
    }
}

/// Trimming keeps a contiguous piece of its input.
pub proof fn lemma_trim_start_is_suffix(s: Seq<char>)
    ensures
        trim_start_ws(s).len() <= s.len(),
        trim_start_ws(s) == s.skip(s.len() - trim_start_ws(s).len()),
    decreases s.len(),
{
    if s.len() > 0 && is_whitespace(s[0]) {
        let t = s.skip(1);
        lemma_trim_start_is_suffix(t);
        let k: int = t.len() - trim_start_ws(t).len();
        assert(t.skip(k) == s.skip(k + 1));
    } else {
        assert(s.skip(0) == s);
    }
}

/// Trimming keeps a contiguous piece of its input.
pub proof fn lemma_trim_end_is_prefix(s: Seq<char>)
    ensures
        trim_end_ws(s).len() <= s.len(),
        trim_end_ws(s) == s.take(trim_end_ws(s).len() as int),
    decreases s.len(),
{
    if s.len() > 0 && is_whitespace(s.last()) {
        let t = s.drop_last();
        lemma_trim_end_is_prefix(t);
        assert(t.take(trim_end_ws(t).len() as int) == s.take(trim_end_ws(t).len() as int));
    } else {
        assert(s.take(s.len() as int) == s);
    }
}

/// Every character of a trimmed string is a character of the untrimmed one.
pub proof fn lemma_trim_chars_from_input(s: Seq<char>, i: int)
    requires
        0 <= i < trim_ws(s).len(),
    ensures
        exists|j: int| 0 <= j < s.len() && s[j] == #[trigger] trim_ws(s)[i],
{
    let a = trim_start_ws(s);
    lemma_trim_start_is_suffix(s);
    lemma_trim_end_is_prefix(a);
    let off: int = s.len() - a.len();
    assert(trim_ws(s)[i] == a[i]);
    assert(a[i] == s[off + i]);
}

/// Returns `s` without leading and trailing whitespace.
///
/// Trusted: this is `str::trim`, which removes leading and trailing characters
/// that have the Unicode `White_Space` property.
#[verifier::external_body]
pub(crate) fn str_trim(s: &str) -> (r: &str)
    ensures
        r@ == trim_ws(s@),
{
    s.trim()
}

/// Returns `s` without any trailing `c`.
///
/// Trusted: this is `str::trim_end_matches` with a `char` pattern, which
/// removes every suffix that matches the pattern, repeatedly.
#[verifier::external_body]
pub(crate) fn str_trim_end_matches(s: &str, c: char) -> (r: &str)
    ensures
        r@ == strip_trailing(s@, c),
{
    s.trim_end_matches(c)
}

/// Returns `s` with every match of `from` replaced by `to`.
///
/// Trusted: this is `str::replace` with a `&str` pattern, which replaces all
/// non-overlapping matches, searching from the left.
#[verifier::external_body]
pub(crate) fn str_replace(s: &str, from: &str, to: &str) -> (r: String)
    requires
        from@.len() > 0,
    ensures
        r@ == replace_all(s@, from@, to@),
{
    s.replace(from, to)
}

/// Appends one character to `s`.
///
/// Trusted: this is `String::push`.
#[verifier::external_body]
pub(crate) fn string_push(s: &mut String, c: char)
    ensures
        final(s)@ == old(s)@.push(c),
{
    s.push(c)
}

/// Renders `n` in decimal.
///
/// Trusted: this is `ToString::to_string` on an integer, whose `Display`
/// output is the decimal digits, preceded by `-` for a negative value.
#[verifier::external_body]
pub(crate) fn int_to_string(n: i128) -> (r: String)
    ensures
        r@ == decimal(n as int),
{
    n.to_string()
}

} // verus!
