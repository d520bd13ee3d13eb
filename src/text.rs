//! Character-level string building with contracts over `Seq<char>`:
//! decimal numbers, padding, repetition and truncation.

use vstd::prelude::*;
use vstd::string::StrSliceExecFns;
use vstd::string::StringExecFns;

verus! {

/// The character of a decimal digit.
pub open spec fn digit_char(d: int) -> char {
    if d == 0 {
        '0'
    } else if d == 1 {
        '1'
    } else if d == 2 {
        '2'
    } else if d == 3 {
        '3'
    } else if d == 4 {
        '4'
    } else if d == 5 {
        '5'
    } else if d == 6 {
        '6'
    } else if d == 7 {
        '7'
    } else if d == 8 {
        '8'
    } else {
        '9'
    }
}

/// Decimal digits of `n`, most significant first, without leading zeros.
pub open spec fn decimal(n: nat) -> Seq<char>
    decreases n,
{
    if n < 10 {
        seq![digit_char(n as int)]
    } else {
        decimal(n / 10).push(digit_char((n % 10) as int))
    }
}

pub open spec fn abs(n: int) -> nat {
    if n < 0 {
        (-n) as nat
    } else {
        n as nat
    }
}

/// `n` characters `c`.
pub open spec fn run_of(c: char, n: int) -> Seq<char> {
    Seq::new(if n > 0 { n as nat } else { 0 }, |i: int| c)
}

/// An integer as `{:0width$}` writes it: the sign, then zeros up to
/// `width` characters in all, then the digits.
pub open spec fn zero_padded(n: int, width: nat) -> Seq<char> {
    let sign: Seq<char> = if n < 0 { seq!['-'] } else { seq![] };
    let digits = decimal(abs(n));
    sign + run_of('0', width - sign.len() - digits.len()) + digits
}

/// `s` right-justified to `width` characters with `fill` in front.
pub open spec fn justify_right(s: Seq<char>, width: int, fill: char) -> Seq<char> {
    run_of(fill, width - s.len()) + s
}

/// `s` left-justified to `width` characters with `fill` behind.
pub open spec fn justify_left(s: Seq<char>, width: int, fill: char) -> Seq<char> {
    s + run_of(fill, width - s.len())
}

/// `s` written `times` times in a row.
pub open spec fn repeated(s: Seq<char>, times: nat) -> Seq<char>
    decreases times,
{
    if times == 0 {
        seq![]
    } else {
        repeated(s, (times - 1) as nat) + s
    }
}

/// The first `max_len` characters of `s`, or `s` when it is shorter.
pub open spec fn prefix_of(s: Seq<char>, max_len: int) -> Seq<char> {
    if s.len() <= max_len {
        s
    } else {
        s.subrange(0, max_len)
    }
}

/// The padding character of a helper argument: its first character, or a
/// space when it is empty.
pub open spec fn fill_char(fill: Seq<char>) -> char {
    if fill.len() > 0 {
        fill[0]
    } else {
        ' '
    }
}

/// An amount in hundredths as `{:.2}` writes the amount: the sign when it
/// is below zero, the whole units, a point and two digits.
pub open spec fn money_text(cents: int) -> Seq<char> {
    let sign: Seq<char> = if cents < 0 { seq!['-'] } else { seq![] };
    sign + decimal(abs(cents) / 100) + seq!['.'] + zero_padded((abs(cents) % 100) as int, 2)
}

/// Relies on `String::push`: appends one character.
#[verifier::external_body]
pub(crate) fn push_char(s: &mut String, c: char)
    ensures
        final(s)@ == old(s)@.push(c),
{
    s.push(c)
}

fn digit(d: u64) -> (c: char)
    requires
        d < 10,
    ensures
        c == digit_char(d as int),
{
    if d == 0 {
        '0'
    } else if d == 1 {
        '1'
    } else if d == 2 {
        '2'
    } else if d == 3 {
        '3'
    } else if d == 4 {
        '4'
    } else if d == 5 {
        '5'
    } else if d == 6 {
        '6'
    } else if d == 7 {
        '7'
    } else if d == 8 {
        '8'
    } else {
        '9'
    }
}

/// Appends the decimal digits of `n`.
pub(crate) fn push_decimal(out: &mut String, n: u64)
    ensures
        final(out)@ == old(out)@ + decimal(n as nat),
    decreases n,
{
    if n >= 10 {
        push_decimal(out, n / 10);
    }
    push_char(out, digit(n % 10));
}

/// Appends `n` copies of `c`.
pub(crate) fn push_run(out: &mut String, c: char, n: u64)
    ensures
        final(out)@ == old(out)@ + run_of(c, n as int),
{
    let mut i: u64 = 0;
    while i < n
        invariant
            i <= n,
            out@ == old(out)@ + run_of(c, i as int),
        decreases n - i,
    {
        push_char(out, c);
        i += 1;
        assert(out@ =~= old(out)@ + run_of(c, i as int));
    }
}

/// Appends `n` written as `{:0width$}` writes it.
pub(crate) fn push_zero_padded(out: &mut String, n: i64, width: u64)
    requires
        n > i64::MIN,
    ensures
        final(out)@ == old(out)@ + zero_padded(n as int, width as nat),
{
    let magnitude: u64 = if n < 0 { (-n) as u64 } else { n as u64 };
    let mut digits = String::new();
    push_decimal(&mut digits, magnitude);
    let len = digits.unicode_len() as u64;
    let sign_len: u64 = if n < 0 { 1 } else { 0 };
    if n < 0 {
        push_char(out, '-');
    }
    if len <= width && sign_len <= width - len {
        push_run(out, '0', width - len - sign_len);
    } else {
        push_run(out, '0', 0);
    }
    out.append(digits.as_str());
    assert(out@ =~= old(out)@ + zero_padded(n as int, width as nat));
}

/// Appends an amount in hundredths with two decimals.
pub(crate) fn push_money(out: &mut String, cents: i64)
    ensures
        final(out)@ == old(out)@ + money_text(cents as int),
{
    let magnitude: u64 = if cents < 0 { (-(cents + 1)) as u64 + 1 } else { cents as u64 };
    if cents < 0 {
        push_char(out, '-');
    }
    push_decimal(out, magnitude / 100);
    push_char(out, '.');
    push_zero_padded(out, (magnitude % 100) as i64, 2);
    assert(out@ =~= old(out)@ + money_text(cents as int));
}

/// An amount in hundredths with two decimals, as a string.
pub(crate) fn money_string(cents: i64) -> (r: String)
    ensures
        r@ == money_text(cents as int),
{
    let mut out = String::new();
    push_money(&mut out, cents);
    out
}

/// Appends `s` right-justified to `width` characters with `fill`.
pub(crate) fn push_justified_right(out: &mut String, s: &str, width: u64, fill: char)
    ensures
        final(out)@ == old(out)@ + justify_right(s@, width as int, fill),
{
    let len = s.unicode_len() as u64;
    if len < width {
        push_run(out, fill, width - len);
    } else {
        push_run(out, fill, 0);
    }
    out.append(s);
    assert(out@ =~= old(out)@ + justify_right(s@, width as int, fill));
}

/// Appends `s` left-justified to `width` characters with `fill`.
pub(crate) fn push_justified_left(out: &mut String, s: &str, width: u64, fill: char)
    ensures
        final(out)@ == old(out)@ + justify_left(s@, width as int, fill),
{
    out.append(s);
    let len = s.unicode_len() as u64;
    if len < width {
        push_run(out, fill, width - len);
    } else {
        push_run(out, fill, 0);
    }
    assert(out@ =~= old(out)@ + justify_left(s@, width as int, fill));
}

fn first_or_space(fill: &str) -> (c: char)
    ensures
        c == fill_char(fill@),
{
    if fill.unicode_len() > 0 {
        fill.get_char(0)
    } else {
        ' '
    }
}

/// Whether two strings hold the same characters.
pub fn same_text(a: &str, b: &str) -> (r: bool)
    ensures
        r == (a@ == b@),
{
    let n = a.unicode_len();
    if n != b.unicode_len() {
        return false;
    }
    let mut i: usize = 0;
    while i < n
        invariant
            n == a@.len() == b@.len(),
            i <= n,
            a@.subrange(0, i as int) == b@.subrange(0, i as int),
        decreases n - i,
    {
        if a.get_char(i) != b.get_char(i) {
            assert(a@[i as int] != b@[i as int]);
            return false;
        }
        assert(a@.subrange(0, i + 1) =~= a@.subrange(0, i as int).push(a@[i as int]));
        assert(b@.subrange(0, i + 1) =~= b@.subrange(0, i as int).push(b@[i as int]));
        i += 1;
    }
    assert(a@ =~= a@.subrange(0, n as int));
    assert(b@ =~= b@.subrange(0, n as int));
    true
}

/// The `eq` helper's test: both arguments are strings with the same
/// characters, or neither is a string.
pub fn strings_match(a: Option<&str>, b: Option<&str>) -> (r: bool)
    ensures
        r == match (a, b) {
            (Some(x), Some(y)) => x@ == y@,
            (None, None) => true,
            _ => false,
        },
{
    match (a, b) {
        (Some(x), Some(y)) => same_text(x, y),
        (None, None) => true,
        _ => false,
    }
}

/// The `pad_left` helper: `s` right-justified to `width` characters, padded
/// in front with the first character of `fill` (a space when `fill` is
/// empty). Lengths count characters, not bytes.
pub fn pad_left(s: &str, width: u64, fill: &str) -> (r: String)
    ensures
        r@ == justify_right(s@, width as int, fill_char(fill@)),
{
    let mut out = String::new();
    push_justified_right(&mut out, s, width, first_or_space(fill));
    out
}

/// The `pad_right` helper: `s` left-justified to `width` characters, padded
/// behind with the first character of `fill` (a space when `fill` is empty);
/// unchanged when it already has `width` characters or more.
pub fn pad_right(s: &str, width: u64, fill: &str) -> (r: String)
    ensures
        r@ == justify_left(s@, width as int, fill_char(fill@)),
{
    let mut out = String::new();
    push_justified_left(&mut out, s, width, first_or_space(fill));
    out
}

/// The `repeat` helper: `s` concatenated `times` times.
pub fn repeat(s: &str, times: u64) -> (r: String)
    ensures
        r@ == repeated(s@, times as nat),
{
    let mut out = String::new();
    let mut i: u64 = 0;
    while i < times
        invariant
            i <= times,
            out@ == repeated(s@, i as nat),
        decreases times - i,
    {
        out.append(s);
        i += 1;
    }
    out
}

/// The `truncate` helper: the first `max_len` characters of `s` (not
/// bytes), or `s` itself when it is no longer.
pub fn truncate(s: &str, max_len: u64) -> (r: String)
    ensures
        r@ == prefix_of(s@, max_len as int),
{
    let len = s.unicode_len();
    if (len as u64) <= max_len {
        String::from_str(s)
    } else {
        String::from_str(s.substring_char(0, max_len as usize))
    }
}

} // verus!
