//! Text scanning for the control files: white space, words, lines and
//! decimal numbers, each with its mathematical meaning over `Seq<char>`.

use crate::error::ParseFailure;
use vstd::prelude::*;
use vstd::string::StringExecFns;

verus! {

/// Whether `c` is white space: one of the code points that Unicode classes
/// as `White_Space`.
pub open spec fn is_space(c: char) -> bool {
    ||| '\u{9}' <= c <= '\u{D}'
    ||| c == ' '
    ||| c == '\u{85}'
    ||| c == '\u{A0}'
    ||| c == '\u{1680}'
    ||| '\u{2000}' <= c <= '\u{200A}'
    ||| c == '\u{2028}'
    ||| c == '\u{2029}'
    ||| c == '\u{202F}'
    ||| c == '\u{205F}'
    ||| c == '\u{3000}'
}

/// `s` without its leading white space.
pub open spec fn trim_start(s: Seq<char>) -> Seq<char>
    decreases s.len(),
{
    if s.len() > 0 && is_space(s.first()) {
        trim_start(s.drop_first())
    } else {
        s
    }
}

/// `s` without its trailing white space.
pub open spec fn trim_end(s: Seq<char>) -> Seq<char>
    decreases s.len(),
{
    if s.len() > 0 && is_space(s.last()) {
        trim_end(s.drop_last())
    } else {
        s
    }
}

/// `s` without leading and trailing white space.
pub open spec fn trim(s: Seq<char>) -> Seq<char> {
    trim_end(trim_start(s))
}

/// The length of the longest prefix of `s` that holds no white space.
pub open spec fn word_len(s: Seq<char>) -> nat
    decreases s.len(),
{
    if s.len() == 0 || is_space(s.first()) {
        0
    } else {
        1 + word_len(s.drop_first())
    }
}

/// The words of `s`: its maximal runs of characters that are not white space,
/// from left to right. No word is empty.
pub open spec fn words(s: Seq<char>) -> Seq<Seq<char>>
    decreases s.len(),
{
    if s.len() == 0 {
        Seq::empty()
    } else if is_space(s.first()) {
        words(s.drop_first())
    } else {
        proof {
            lemma_word_len_bounds(s);
        }
        seq![s.take(word_len(s) as int)] + words(s.skip(word_len(s) as int))
    }
}

/// A word's length is at most that of the text, and positive where the text
/// starts with a character that is not white space.
pub proof fn lemma_word_len_bounds(s: Seq<char>)
    ensures
        word_len(s) <= s.len(),
        s.len() > 0 && !is_space(s.first()) ==> word_len(s) >= 1,
    decreases s.len(),
{
    if s.len() > 0 && !is_space(s.first()) {
        lemma_word_len_bounds(s.drop_first());
    }
}

/// The length of the first line of `s`: the number of characters before its
/// first line feed.
pub open spec fn line_len(s: Seq<char>) -> nat
    decreases s.len(),
{
    if s.len() == 0 || s.first() == '\n' {
        0
    } else {
        1 + line_len(s.drop_first())
    }
}

/// The lines of `s`: the runs of characters between its line feeds, from left
/// to right. A line feed at the very end begins no further line.
pub open spec fn lines(s: Seq<char>) -> Seq<Seq<char>>
    decreases s.len(),
{
    if s.len() == 0 {
        Seq::empty()
    } else if line_len(s) >= s.len() {
        seq![s]
    } else {
        seq![s.take(line_len(s) as int)] + lines(s.skip(line_len(s) as int + 1))
    }
}

/// The decimal digit for `d`, which is below ten.
pub open spec fn digit_char(d: int) -> char {
    if d == 0 {
        '0'
    } else if d == 1 {
        '1'
    } else if d == 2 {
        '2'
    } else if d == 3 {
        '3'
    } else if d == 4 {
        '4'
    } else if d == 5 {
        '5'
    } else if d == 6 {
        '6'
    } else if d == 7 {
        '7'
    } else if d == 8 {
        '8'
    } else {
        '9'
    }
}

/// The decimal numeral of `n`, without sign or leading zeros.
pub open spec fn decimal(n: nat) -> Seq<char>
    decreases n,
{
    if n < 10 {
        seq![digit_char(n as int)]
    } else {
        decimal(n / 10).push(digit_char((n % 10) as int))
    }
}

/// Whether `c` is a decimal digit.
pub open spec fn is_digit(c: char) -> bool {
    '0' <= c <= '9'
}

/// The number that the decimal digit `c` stands for.
pub open spec fn digit_value(c: char) -> nat {
    (c as int - '0' as int) as nat
}

/// Whether `s` holds decimal digits only.
pub open spec fn all_digits(s: Seq<char>) -> bool {
    forall|i: int| 0 <= i < s.len() ==> is_digit(#[trigger] s[i])
}

/// The number that the decimal digits `s` stand for.
pub open spec fn digits_value(s: Seq<char>) -> nat
    decreases s.len(),
{
    if s.len() == 0 {
        0
    } else {
        digits_value(s.drop_last()) * 10 + digit_value(s.last())
    }
}

/// What is left of `s` after one leading plus sign, if it has one.
pub open spec fn unsigned_part(s: Seq<char>) -> Seq<char> {
    if s.len() > 0 && s.first() == '+' {
        s.drop_first()
    } else {
        s
    }
}

/// Whether `s` is a number: decimal digits, at least one, after at most one
/// plus sign. White space is not accepted anywhere.
pub open spec fn is_number(s: Seq<char>) -> bool {
    unsigned_part(s).len() > 0 && all_digits(unsigned_part(s))
}

/// The value of the number `s`.
pub open spec fn number_value(s: Seq<char>) -> nat {
    digits_value(unsigned_part(s))
}

/// What parsing `s` as a number of 32 bits gives.
pub open spec fn parsed_u32(s: Seq<char>) -> Result<u32, ParseFailure> {
    if s.len() == 0 {
        Err(ParseFailure::Empty)
    } else if !is_number(s) {
        Err(ParseFailure::InvalidDigit)
    } else if number_value(s) > u32::MAX {
        Err(ParseFailure::Overflow)
    } else {
        Ok(number_value(s) as u32)
    }
}

/// The views of a sequence of strings.
pub open spec fn texts(v: Seq<String>) -> Seq<Seq<char>> {
    v.map_values(|s: String| s@)
}

/// Tells whether `c` is white space.
pub fn is_whitespace(c: char) -> (b: bool)
    ensures
        b == is_space(c),
{
    ('\u{9}' <= c && c <= '\u{D}') || c == ' ' || c == '\u{85}' || c == '\u{A0}' || c
        == '\u{1680}' || ('\u{2000}' <= c && c <= '\u{200A}') || c == '\u{2028}' || c
        == '\u{2029}' || c == '\u{202F}' || c == '\u{205F}' || c == '\u{3000}'
}

/// The characters of `s`, one by one.
pub fn to_chars(s: &str) -> (out: Vec<char>)
    ensures
        out@ == s@,
{
    let mut out: Vec<char> = Vec::new();
    for c in it: s.chars()
        invariant
            it.seq() == s@,
            out@ == it.seq().take(it.index()),
    {
        out.push(c);
    }
    assert(out@ == s@);
    out
}

/// The bounds of `trim(cs@)` inside `cs`: its first index and the index after
/// its last.
pub fn trim_bounds(cs: &Vec<char>) -> (bounds: (usize, usize))
    ensures
        bounds.0 <= bounds.1 <= cs.len(),
        cs@.subrange(bounds.0 as int, bounds.1 as int) == trim(cs@),
{
    let n = cs.len();
    let mut a: usize = 0;
    assert(cs@.subrange(0, n as int) == cs@);
    while a < n && is_whitespace(cs[a])
        invariant
            a <= n,
            n == cs.len(),
            trim_start(cs@) == trim_start(cs@.subrange(a as int, n as int)),
        decreases n - a,
    {
        proof {
            let rest = cs@.subrange(a as int, n as int);
            assert(rest.drop_first() == cs@.subrange(a + 1, n as int));
        }
        a += 1;
    }
    assert(trim_start(cs@) == cs@.subrange(a as int, n as int));
    let mut b: usize = n;
    while b > a && is_whitespace(cs[b - 1])
        invariant
            a <= b <= n,
            n == cs.len(),
            trim(cs@) == trim_end(cs@.subrange(a as int, b as int)),
        decreases b,
    {
        proof {
            let rest = cs@.subrange(a as int, b as int);
            assert(rest.drop_last() == cs@.subrange(a as int, b - 1));
        }
        b -= 1;
    }
    (a, b)
}

/// Tells whether the characters of `cs` from `from` up to `to` spell `word`.
pub fn range_is(cs: &Vec<char>, from: usize, to: usize, word: &str) -> (b: bool)
    requires
        from <= to <= cs.len(),
    ensures
        b == (cs@.subrange(from as int, to as int) == word@),
{
    let ws = to_chars(word);
    if ws.len() != to - from {
        return false;
    }
    let ghost part = cs@.subrange(from as int, to as int);
    let mut i: usize = 0;
    while i < ws.len()
        invariant
            from <= to <= cs.len(),
            ws.len() == to - from,
            i <= ws.len(),
            ws@ == word@,
            part == cs@.subrange(from as int, to as int),
            part.take(i as int) == ws@.take(i as int),
        decreases ws.len() - i,
    {
        if cs[from + i] != ws[i] {
            assert(part[i as int] != ws@[i as int]);
            return false;
        }
        assert(part.take(i + 1) == part.take(i as int).push(part[i as int]));
        assert(ws@.take(i + 1) == ws@.take(i as int).push(ws@[i as int]));
        i += 1;
    }
    assert(part.take(i as int) == part);
    assert(ws@.take(i as int) == ws@);
    true
}

/// Splits `s` at white space and returns its words in order.
pub fn split_whitespace(s: &str) -> (out: Vec<String>)
    ensures
        texts(out@) == words(s@),
{
    let cs = to_chars(s);
    let n = cs.len();
    let mut out: Vec<String> = Vec::new();
    let mut i: usize = 0;
    assert(cs@.skip(0) == cs@);
    assert(texts(out@) == Seq::<Seq<char>>::empty());
    while i < n
        invariant
            i <= n,
            n == cs.len(),
            cs@ == s@,
            texts(out@) + words(cs@.skip(i as int)) == words(cs@),
        decreases n - i,
    {
        let ghost rest = cs@.skip(i as int);
        if is_whitespace(cs[i]) {
            assert(rest.drop_first() == cs@.skip(i + 1));
            i += 1;
        } else {
            let mut j: usize = i;
            while j < n && !is_whitespace(cs[j])
                invariant
                    i <= j <= n,
                    n == cs.len(),
                    word_len(rest) == (j - i) + word_len(cs@.skip(j as int)),
                    rest == cs@.skip(i as int),
                decreases n - j,
            {
                assert(cs@.skip(j as int).drop_first() == cs@.skip(j + 1));
                j += 1;
            }
            assert(word_len(rest) == j - i);
            assert(rest.take(j - i) == cs@.subrange(i as int, j as int));
            assert(rest.skip(j - i) == cs@.skip(j as int));
            let word = s.substring_char(i, j).to_owned();
            let ghost before = out@;
            out.push(word);
            assert(texts(out@) == texts(before) + seq![word@]);
            i = j;
        }
    }
    assert(words(cs@.skip(n as int)) == Seq::<Seq<char>>::empty());
    out
}

/// Splits `s` at its line feeds and returns its lines in order.
pub fn split_lines(s: &str) -> (out: Vec<String>)
    ensures
        texts(out@) == lines(s@),
{
    let cs = to_chars(s);
    let n = cs.len();
    let mut out: Vec<String> = Vec::new();
    let mut i: usize = 0;
    assert(cs@.skip(0) == cs@);
    assert(texts(out@) == Seq::<Seq<char>>::empty());
    while i < n
        invariant
            i <= n,
            n == cs.len(),
            cs@ == s@,
            texts(out@) + lines(cs@.skip(i as int)) == lines(cs@),
        decreases n - i,
    {
        let ghost rest = cs@.skip(i as int);
        let mut j: usize = i;
        while j < n && cs[j] != '\n'
            invariant
                i <= j <= n,
                n == cs.len(),
                line_len(rest) == (j - i) + line_len(cs@.skip(j as int)),
                rest == cs@.skip(i as int),
            decreases n - j,
        {
            assert(cs@.skip(j as int).drop_first() == cs@.skip(j + 1));
            j += 1;
        }
        assert(line_len(rest) == j - i);
        assert(rest.take(j - i) == cs@.subrange(i as int, j as int));
        let line = s.substring_char(i, j).to_owned();
        let ghost before = out@;
        out.push(line);
        assert(texts(out@) == texts(before) + seq![line@]);
        if j < n {
            assert(rest.skip(j - i + 1) == cs@.skip(j + 1));
            i = j + 1;
        } else {
            assert(rest.take(j - i) == rest);
            assert(lines(cs@.skip(n as int)) == Seq::<Seq<char>>::empty());
            i = n;
        }
    }
    assert(lines(cs@.skip(n as int)) == Seq::<Seq<char>>::empty());
    out
}

/// The text of one decimal digit.
fn digit_text(d: u32) -> (text: &'static str)
    requires
        d < 10,
    ensures
        text@ == seq![digit_char(d as int)],
{
    proof {
        reveal_strlit("0");
        reveal_strlit("1");
        reveal_strlit("2");
        reveal_strlit("3");
        reveal_strlit("4");
        reveal_strlit("5");
        reveal_strlit("6");
        reveal_strlit("7");
        reveal_strlit("8");
        reveal_strlit("9");
    }
    let text = if d == 0 {
        "0"
    } else if d == 1 {
        "1"
    } else if d == 2 {
        "2"
    } else if d == 3 {
        "3"
    } else if d == 4 {
        "4"
    } else if d == 5 {
        "5"
    } else if d == 6 {
        "6"
    } else if d == 7 {
        "7"
    } else if d == 8 {
        "8"
    } else {
        "9"
    };
    assert(text@ =~= seq![digit_char(d as int)]);
    text
}

/// Appends the decimal numeral of `n` to `out`.
pub fn push_decimal(out: &mut String, n: u32)
    ensures
        final(out)@ == old(out)@ + decimal(n as nat),
    decreases n,
{
    if n >= 10 {
        push_decimal(out, n / 10);
    }
    out.append(digit_text(n % 10));
}

/// The decimal numeral of `n`.
pub fn u32_to_string(n: u32) -> (out: String)
    ensures
        out@ == decimal(n as nat),
{
    let mut out = String::new();
    push_decimal(&mut out, n);
    out
}

/// The value of a prefix of decimal digits is at most the value of the whole.
pub proof fn lemma_digits_value_prefix(s: Seq<char>, k: int)
    requires
        0 <= k <= s.len(),
    ensures
        digits_value(s.take(k)) <= digits_value(s),
    decreases s.len(),
{
    if k == s.len() {
        assert(s.take(k) == s);
    } else {
        lemma_digits_value_prefix(s.drop_last(), k);
        assert(s.drop_last().take(k) == s.take(k));
    }
}

/// Parses `s` as a number of 32 bits: decimal digits, at least one, after at
/// most one plus sign.
pub fn parse_u32(s: &str) -> (r: Result<u32, ParseFailure>)
    ensures
        r == parsed_u32(s@),
{
    let cs = to_chars(s);
    let n = cs.len();
    if n == 0 {
        return Err(ParseFailure::Empty);
    }
    let start: usize = if cs[0] == '+' {
        1
    } else {
        0
    };
    let ghost digits = unsigned_part(cs@);
    assert(digits == cs@.skip(start as int));
    if start == n {
        return Err(ParseFailure::InvalidDigit);
    }
    let mut k: usize = start;
    while k < n
        invariant
            start <= k <= n,
            0 < n == cs.len(),
            cs@ == s@,
            digits == unsigned_part(cs@),
            digits == cs@.skip(start as int),
            forall|i: int| start <= i < k ==> is_digit(#[trigger] cs@[i]),
        decreases n - k,
    {
        if !('0' <= cs[k] && cs[k] <= '9') {
            assert(!is_digit(digits[k - start]));
            return Err(ParseFailure::InvalidDigit);
        }
        k += 1;
    }
    assert(all_digits(digits));
    let mut value: u64 = 0;
    let mut i: usize = start;
    assert(digits.take(0).len() == 0);
    while i < n
        invariant
            start <= i <= n,
            start < n == cs.len(),
            cs@ == s@,
            digits == unsigned_part(cs@),
            digits == cs@.skip(start as int),
            all_digits(digits),
            value == digits_value(digits.take(i - start)),
            value <= u32::MAX,
        decreases n - i,
    {
        let c = cs[i];
        assert(is_digit(digits[i - start]));
        let d: u64 = (c as u64) - ('0' as u64);
        let next: u64 = value * 10 + d;
        proof {
            let upto = digits.take(i - start + 1);
            assert(upto.drop_last() == digits.take(i - start));
            assert(upto.last() == c);
            assert(next == digits_value(upto));
            lemma_digits_value_prefix(digits, i - start + 1);
        }
        if next > 0xffff_ffff {
            return Err(ParseFailure::Overflow);
        }
        value = next;
        i += 1;
    }
    assert(digits.take(n - start) == digits);
    Ok(value as u32)
}

} // verus!
