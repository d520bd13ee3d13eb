//! Lexical pieces with contracts: Unicode whitespace, trimming, splitting
//! into words, and the syntax of decimal numbers.

use vstd::prelude::*;
use vstd::string::StrSliceExecFns;
use vstd::string::StringExecFns;
use crate::text::push_char;

verus! {

/// The Unicode `White_Space` characters, as `char::is_whitespace` tests.
pub open spec fn is_white(c: char) -> bool {
    let u = c as u32;
    (9 <= u && u <= 13) || u == 32 || u == 0x85 || u == 0xA0 || u == 0x1680 || (0x2000 <= u && u
        <= 0x200A) || u == 0x2028 || u == 0x2029 || u == 0x202F || u == 0x205F || u == 0x3000
}

pub fn white(c: char) -> (r: bool)
    ensures
        r == is_white(c),
{
    let u = c as u32;
    (9 <= u && u <= 13) || u == 32 || u == 0x85 || u == 0xA0 || u == 0x1680 || (0x2000 <= u && u
        <= 0x200A) || u == 0x2028 || u == 0x2029 || u == 0x202F || u == 0x205F || u == 0x3000
}

pub open spec fn trim_start(s: Seq<char>) -> Seq<char>
    decreases s.len(),
{
    if s.len() > 0 && is_white(s[0]) {
        trim_start(s.drop_first())
    } else {
        s
    }
}

pub open spec fn trim_end(s: Seq<char>) -> Seq<char>
    decreases s.len(),
{
    if s.len() > 0 && is_white(s.last()) {
        trim_end(s.drop_last())
    } else {
        s
    }
}

/// `s` without whitespace at either end, as `str::trim` leaves it.
pub open spec fn trimmed(s: Seq<char>) -> Seq<char> {
    trim_end(trim_start(s))
}

/// The whitespace-separated words of `s`, in order, none empty, as
/// `str::split_whitespace` gives them.
pub open spec fn words_of(s: Seq<char>) -> Seq<Seq<char>>
    decreases s.len(),
{
    if s.len() == 0 {
        seq![]
    } else {
        let w = words_of(s.drop_last());
        let c = s.last();
        if is_white(c) {
            w
        } else if s.len() > 1 && !is_white(s[s.len() - 2]) {
            w.drop_last().push(w.last().push(c))
        } else {
            w.push(seq![c])
        }
    }
}

/// The characters of each string of `v`.
pub open spec fn views(v: Seq<String>) -> Seq<Seq<char>> {
    v.map_values(|x: String| x@)
}

/// Index of the first `c` in `s`, or the length of `s` when there is none.
pub open spec fn first_of(s: Seq<char>, c: char) -> int
    decreases s.len(),
{
    if s.len() == 0 || s[0] == c {
        0
    } else {
        1 + first_of(s.drop_first(), c)
    }
}

pub open spec fn is_exp_marker(c: char) -> bool {
    c == 'e' || c == 'E'
}

/// Index of the first exponent marker of `s`, or the length of `s`.
pub open spec fn first_exp(s: Seq<char>) -> int
    decreases s.len(),
{
    if s.len() == 0 || is_exp_marker(s[0]) {
        0
    } else {
        1 + first_exp(s.drop_first())
    }
}

pub proof fn lemma_first_of(s: Seq<char>, c: char)
    ensures
        0 <= first_of(s, c) <= s.len(),
        first_of(s, c) < s.len() ==> s[first_of(s, c)] == c,
        forall|i: int| 0 <= i < first_of(s, c) ==> #[trigger] s[i] != c,
    decreases s.len(),
{
    if s.len() > 0 && s[0] != c {
        lemma_first_of(s.drop_first(), c);
        assert forall|i: int| 0 <= i < first_of(s, c) implies #[trigger] s[i] != c by {
            if i > 0 {
                assert(s[i] == s.drop_first()[i - 1]);
            }
        }
    }
}

pub proof fn lemma_first_exp(s: Seq<char>)
    ensures
        0 <= first_exp(s) <= s.len(),
    decreases s.len(),
{
    if s.len() > 0 && !is_exp_marker(s[0]) {
        lemma_first_exp(s.drop_first());
    }
}

pub open spec fn is_digit(c: char) -> bool {
    48 <= c as u32 && c as u32 <= 57
}

pub open spec fn all_digits(s: Seq<char>) -> bool {
    forall|i: int| 0 <= i < s.len() ==> is_digit(#[trigger] s[i])
}

/// `s` without one leading `+` or `-`.
pub open spec fn unsigned_part(s: Seq<char>) -> Seq<char> {
    if s.len() > 0 && (s[0] == '+' || s[0] == '-') {
        s.drop_first()
    } else {
        s
    }
}

/// `Digit+`, `Digit+ '.' Digit*` or `Digit* '.' Digit+`.
pub open spec fn mantissa_ok(m: Seq<char>) -> bool {
    let d = first_of(m, '.');
    if d == m.len() {
        m.len() > 0 && all_digits(m)
    } else {
        m.len() > 1 && all_digits(m.subrange(0, d)) && all_digits(m.subrange(d + 1, m.len() as int))
    }
}

/// `Sign? Digit+`, what follows the exponent marker.
pub open spec fn exponent_ok(x: Seq<char>) -> bool {
    unsigned_part(x).len() > 0 && all_digits(unsigned_part(x))
}

/// A mantissa, then optionally an exponent marker and an exponent.
pub open spec fn number_ok(b: Seq<char>) -> bool {
    let e = first_exp(b);
    mantissa_ok(b.subrange(0, e)) && (e == b.len() || exponent_ok(b.subrange(e + 1, b.len() as int)))
}

/// `s` spells `word`, letter by letter in either case.
pub open spec fn spells(s: Seq<char>, lower: Seq<char>, upper: Seq<char>) -> bool {
    s.len() == lower.len() && s.len() == upper.len() && forall|i: int|
        0 <= i < s.len() ==> (#[trigger] s[i] == lower[i] || s[i] == upper[i])
}

/// The text that the standard library's floating-point parser accepts:
/// an optional sign, then `inf`, `infinity` or `nan` in any case, or a
/// decimal number with an optional exponent. Surrounding whitespace is not
/// accepted.
pub open spec fn is_decimal_number(s: Seq<char>) -> bool {
    let b = unsigned_part(s);
    spells(b, "inf"@, "INF"@) || spells(b, "infinity"@, "INFINITY"@) || spells(b, "nan"@, "NAN"@)
        || number_ok(b)
}

/// Characters of `s` from `from` to `to`.
pub(crate) fn slice_string(s: &str, from: usize, to: usize) -> (r: String)
    requires
        from <= to <= s@.len(),
    ensures
        r@ == s@.subrange(from as int, to as int),
{
    String::from_str(s.substring_char(from, to))
}

fn find_char(s: &str, c: char) -> (r: usize)
    ensures
        r == first_of(s@, c),
{
    let n = s.unicode_len();
    let mut i: usize = 0;
    assert(s@.subrange(0, n as int) =~= s@);
    while i < n && s.get_char(i) != c
        invariant
            n == s@.len(),
            i <= n,
            first_of(s@, c) == i + first_of(s@.subrange(i as int, n as int), c),
        decreases n - i,
    {
        assert(s@.subrange(i as int, n as int).drop_first() =~= s@.subrange(i + 1, n as int));
        i += 1;
    }
    i
}

/// Index of the first space of `s`, or its length.
pub(crate) fn find_space(s: &str) -> (r: usize)
    ensures
        r == first_of(s@, ' '),
{
    find_char(s, ' ')
}

fn find_exp(s: &str) -> (r: usize)
    ensures
        r == first_exp(s@),
{
    let n = s.unicode_len();
    let mut i: usize = 0;
    assert(s@.subrange(0, n as int) =~= s@);
    while i < n && s.get_char(i) != 'e' && s.get_char(i) != 'E'
        invariant
            n == s@.len(),
            i <= n,
            first_exp(s@) == i + first_exp(s@.subrange(i as int, n as int)),
        decreases n - i,
    {
        assert(s@.subrange(i as int, n as int).drop_first() =~= s@.subrange(i + 1, n as int));
        i += 1;
    }
    i
}

fn digits_only(s: &str) -> (r: bool)
    ensures
        r == all_digits(s@),
{
    let n = s.unicode_len();
    let mut i: usize = 0;
    while i < n
        invariant
            n == s@.len(),
            i <= n,
            forall|k: int| 0 <= k < i ==> is_digit(#[trigger] s@[k]),
        decreases n - i,
    {
        let u = s.get_char(i) as u32;
        if u < 48 || u > 57 {
            return false;
        }
        i += 1;
    }
    true
}

fn without_sign(s: &str) -> (r: String)
    ensures
        r@ == unsigned_part(s@),
{
    let n = s.unicode_len();
    if n > 0 && (s.get_char(0) == '+' || s.get_char(0) == '-') {
        let r = slice_string(s, 1, n);
        assert(r@ =~= s@.drop_first());
        r
    } else {
        let r = String::from_str(s);
        r
    }
}

fn spells_word(s: &str, lower: &str, upper: &str) -> (r: bool)
    ensures
        r == spells(s@, lower@, upper@),
{
    let n = s.unicode_len();
    if n != lower.unicode_len() || n != upper.unicode_len() {
        return false;
    }
    let mut i: usize = 0;
    while i < n
        invariant
            n == s@.len() == lower@.len() == upper@.len(),
            i <= n,
            forall|k: int| 0 <= k < i ==> (#[trigger] s@[k] == lower@[k] || s@[k] == upper@[k]),
        decreases n - i,
    {
        let c = s.get_char(i);
        if c != lower.get_char(i) && c != upper.get_char(i) {
            return false;
        }
        i += 1;
    }
    true
}

fn mantissa_valid(m: &str) -> (r: bool)
    ensures
        r == mantissa_ok(m@),
{
    let n = m.unicode_len();
    let d = find_char(m, '.');
    proof {
        lemma_first_of(m@, '.');
    }
    if d == n {
        n > 0 && digits_only(m)
    } else {
        n > 1 && digits_only(slice_string(m, 0, d).as_str()) && digits_only(
            slice_string(m, d + 1, n).as_str(),
        )
    }
}

/// Whether `s` is text that the standard library's floating-point parser
/// accepts.
pub fn decimal_number(s: &str) -> (r: bool)
    ensures
        r == is_decimal_number(s@),
{
    let b = without_sign(s);
    let b = b.as_str();
    if spells_word(b, "inf", "INF") || spells_word(b, "infinity", "INFINITY") || spells_word(
        b,
        "nan",
        "NAN",
    ) {
        return true;
    }
    let n = b.unicode_len();
    let e = find_exp(b);
    proof {
        lemma_first_exp(b@);
    }
    if !mantissa_valid(slice_string(b, 0, e).as_str()) {
        return false;
    }
    if e == n {
        return true;
    }
    let x = without_sign(slice_string(b, e + 1, n).as_str());
    x.unicode_len() > 0 && digits_only(x.as_str())
}

/// `s` without leading and trailing whitespace.
pub fn trim(s: &str) -> (r: String)
    ensures
        r@ == trimmed(s@),
{
    let n = s.unicode_len();
    let mut i: usize = 0;
    assert(s@.subrange(0, n as int) =~= s@);
    while i < n && white(s.get_char(i))
        invariant
            n == s@.len(),
            i <= n,
            trim_start(s@) == trim_start(s@.subrange(i as int, n as int)),
        decreases n - i,
    {
        assert(s@.subrange(i as int, n as int).drop_first() =~= s@.subrange(i + 1, n as int));
        i += 1;
    }
    assert(trim_start(s@) == s@.subrange(i as int, n as int));
    let mut j: usize = n;
    while j > i && white(s.get_char(j - 1))
        invariant
            n == s@.len(),
            i <= j <= n,
            trim_end(s@.subrange(i as int, n as int)) == trim_end(s@.subrange(i as int, j as int)),
        decreases j,
    {
        assert(s@.subrange(i as int, j as int).drop_last() =~= s@.subrange(i as int, j - 1));
        j -= 1;
    }
    slice_string(s, i, j)
}

/// The words of `s`, as `str::split_whitespace` gives them.
pub fn split_words(s: &str) -> (r: Vec<String>)
    ensures
        views(r@) == words_of(s@),
{
    let n = s.unicode_len();
    let mut words: Vec<String> = Vec::new();
    let mut current = String::new();
    let mut in_word = false;
    let mut i: usize = 0;
    while i < n
        invariant
            n == s@.len(),
            i <= n,
            in_word == (i > 0 && !is_white(s@[i - 1])),
            in_word ==> words_of(s@.subrange(0, i as int)) == views(words@).push(current@),
            !in_word ==> words_of(s@.subrange(0, i as int)) == views(words@),
        decreases n - i,
    {
        let c = s.get_char(i);
        let ghost prefix = s@.subrange(0, i as int);
        let ghost next = s@.subrange(0, i + 1);
        assert(next.drop_last() =~= prefix);
        assert(next.last() == c);
        if white(c) {
            if in_word {
                let ghost before = words@;
                let ghost word = current@;
                words.push(current);
                current = String::new();
                assert(views(words@) =~= views(before).push(word));
            }
        } else {
            if in_word {
                assert(next[next.len() - 2] == s@[i - 1]);
                push_char(&mut current, c);
                assert(views(words@).push(current@) =~= words_of(prefix).drop_last().push(
                    words_of(prefix).last().push(c),
                ));
            } else {
                current = String::new();
                push_char(&mut current, c);
                assert(current@ =~= seq![c]);
                if i > 0 {
                    assert(next[next.len() - 2] == s@[i - 1]);
                }
            }
        }
        i += 1;
        in_word = !white(c);
    }
    assert(s@.subrange(0, n as int) =~= s@);
    if in_word {
        let ghost before = words@;
        words.push(current);
        assert(views(words@) =~= views(before).push(words@.last()@));
    }
    words
}

} // verus!
