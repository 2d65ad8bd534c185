//! Character-level helpers with exact specifications: decimal rendering of
//! unsigned integers, unsigned parsing, whitespace trimming and line splitting.

use vstd::prelude::*;
use vstd::string::*;

verus! {

/// `String::push`: appends one character to the end of the string.
#[verifier::external_body]
pub(crate) fn string_push(s: &mut String, c: char)
    ensures
        final(s)@ == old(s)@.push(c),
{
    s.push(c);
}

/// The characters of a string slice, in order, read in one pass.
pub fn chars_of(s: &str) -> (out: Vec<char>)
    ensures
        out@ == s@,
{
    broadcast use vstd::string::group_string_axioms;

    let mut out: Vec<char> = Vec::new();
    for c in it: s.chars()
        invariant
            it.seq() == s@,
            out@ == it.seq().take(it.index()),
    {
        out.push(c);
        assert(out@ =~= it.seq().take(it.index() + 1));
    }
    assert(out@ =~= s@);
    out
}

/// A string made of the given characters.
pub fn string_of_chars(cs: &Vec<char>, start: usize, end: usize) -> (out: String)
    requires
        start <= end <= cs@.len(),
    ensures
        out@ == cs@.subrange(start as int, end as int),
{
    let mut out = String::new();
    let mut i: usize = start;
    while i < end
        invariant
            start <= i <= end <= cs@.len(),
            out@ == cs@.subrange(start as int, i as int),
        decreases end - i,
    {
        string_push(&mut out, cs[i]);
        i = i + 1;
        assert(out@ =~= cs@.subrange(start as int, i as int));
    }
    out
}

/// The decimal digit character for `d < 10`.
pub open spec fn digit_char(d: nat) -> char {
    if d == 0 { '0' }
    else if d == 1 { '1' }
    else if d == 2 { '2' }
    else if d == 3 { '3' }
    else if d == 4 { '4' }
    else if d == 5 { '5' }
    else if d == 6 { '6' }
    else if d == 7 { '7' }
    else if d == 8 { '8' }
    else { '9' }
}

/// The shortest decimal rendering of `n`, as `Display` for unsigned integers writes it.
pub open spec fn decimal(n: nat) -> Seq<char>
    decreases n,
{
    if n < 10 {
        seq![digit_char(n)]
    } else {
        decimal(n / 10).push(digit_char(n % 10))
    }
}

fn digit_to_char(d: u8) -> (c: char)
    requires
        d < 10,
    ensures
        c == digit_char(d as nat),
{
    if d == 0 { '0' }
    else if d == 1 { '1' }
    else if d == 2 { '2' }
    else if d == 3 { '3' }
    else if d == 4 { '4' }
    else if d == 5 { '5' }
    else if d == 6 { '6' }
    else if d == 7 { '7' }
    else if d == 8 { '8' }
    else { '9' }
}

/// Renders `n` in decimal, without sign or leading zeros.
pub fn u128_to_decimal(n: u128) -> (s: String)
    ensures
        s@ == decimal(n as nat),
    decreases n,
{
    if n < 10 {
        let mut s = String::new();
        string_push(&mut s, digit_to_char(n as u8));
        assert(s@ =~= decimal(n as nat));
        s
    } else {
        let mut s = u128_to_decimal(n / 10);
        string_push(&mut s, digit_to_char((n % 10) as u8));
        s
    }
}

/// Renders `n` in decimal, without sign or leading zeros.
pub fn u32_to_decimal(n: u32) -> (s: String)
    ensures
        s@ == decimal(n as nat),
{
    u128_to_decimal(n as u128)
}


/// Whether `c` is an ASCII decimal digit.
pub open spec fn is_digit(c: char) -> bool {
    '0' <= c && c <= '9'
}

/// The value of an ASCII decimal digit.
pub open spec fn digit_value(c: char) -> nat {
    (c as int - '0' as int) as nat
}

/// Whether every character of `s` is an ASCII decimal digit.
pub open spec fn all_digits(s: Seq<char>) -> bool {
    forall|i: int| 0 <= i < s.len() ==> is_digit(#[trigger] s[i])
}

/// The number that a string of decimal digits denotes.
pub open spec fn digits_value(s: Seq<char>) -> nat
    decreases s.len(),
{
    if s.len() == 0 {
        0
    } else {
        digits_value(s.drop_last()) * 10 + digit_value(s.last())
    }
}

/// `s` without one leading `+`, if it has one.
pub open spec fn unsigned_body(s: Seq<char>) -> Seq<char> {
    if s.len() > 0 && s[0] == '+' { s.drop_first() } else { s }
}

/// What `str::parse::<u32>` gives back: an optional `+`, then one or more
/// decimal digits whose value fits in 32 bits; `None` on any other input.
pub open spec fn parse_u32_spec(s: Seq<char>) -> Option<u32> {
    let d = unsigned_body(s);
    if d.len() > 0 && all_digits(d) && digits_value(d) <= u32::MAX {
        Some(digits_value(d) as u32)
    } else {
        None
    }
}

proof fn lemma_digits_value_monotone(s: Seq<char>, k: int)
    requires
        0 <= k <= s.len(),
    ensures
        digits_value(s.subrange(0, k)) <= digits_value(s),
    decreases s.len() - k,
{
    if k < s.len() {
        lemma_digits_value_monotone(s, k + 1);
        assert(s.subrange(0, k + 1).drop_last() =~= s.subrange(0, k));
    } else {
        assert(s.subrange(0, k) =~= s);
    }
}

/// Parses `cs[start..end]` as `str::parse::<u32>` parses a string.
pub fn parse_u32_chars(cs: &Vec<char>, start: usize, end: usize) -> (r: Option<u32>)
    requires
        start <= end <= cs@.len(),
    ensures
        r == parse_u32_spec(cs@.subrange(start as int, end as int)),
{
    let ghost s = cs@.subrange(start as int, end as int);
    let mut i: usize = start;
    if start < end && cs[start] == '+' {
        i = start + 1;
    }
    let ghost d = unsigned_body(s);
    assert(d =~= cs@.subrange(i as int, end as int));
    if i == end {
        return None;
    }
    let first = i;
    let mut value: u64 = 0;
    while i < end
        invariant
            first <= i <= end <= cs@.len(),
            s == cs@.subrange(start as int, end as int),
            d == unsigned_body(s),
            d == cs@.subrange(first as int, end as int),
            all_digits(cs@.subrange(first as int, i as int)),
            value == digits_value(cs@.subrange(first as int, i as int)),
            value <= u32::MAX,
        decreases end - i,
    {
        let c = cs[i];
        if !('0' <= c && c <= '9') {
            assert(d[i - first] == c);
            assert(!is_digit(d[i - first]));
            return None;
        }
        let dv = (c as u32 - '0' as u32) as u64;
        let next = value * 10 + dv;
        assert(cs@.subrange(first as int, i + 1).drop_last() =~= cs@.subrange(first as int, i as int));
        assert(all_digits(cs@.subrange(first as int, i + 1)));
        assert(next == digits_value(cs@.subrange(first as int, i + 1)));
        if next > 0xffff_ffff {
            proof {
                if all_digits(d) {
                    assert(cs@.subrange(first as int, i + 1) =~= d.subrange(0, (i + 1 - first) as int));
                    lemma_digits_value_monotone(d, (i + 1 - first) as int);
                }
            }
            return None;
        }
        value = next;
        i = i + 1;
    }
    Some(value as u32)
}

/// Parses an unsigned 32-bit decimal number as `str::parse::<u32>` does.
pub fn parse_u32(s: &str) -> (r: Option<u32>)
    ensures
        r == parse_u32_spec(s@),
{
    let cs = chars_of(s);
    assert(cs@.subrange(0, cs@.len() as int) =~= s@);
    parse_u32_chars(&cs, 0, cs.len())
}

proof fn lemma_digit_char(d: nat)
    requires
        d < 10,
    ensures
        is_digit(digit_char(d)),
        digit_value(digit_char(d)) == d,
        digit_char(d) != '+',
        digit_char(d) != '.',
{
}

/// Parsing the decimal rendering of a number gives the number back.
pub proof fn lemma_decimal_roundtrip(n: nat)
    ensures
        decimal(n).len() > 0,
        all_digits(decimal(n)),
        digits_value(decimal(n)) == n,
        decimal(n)[0] != '+',
        forall|i: int| 0 <= i < decimal(n).len() ==> #[trigger] decimal(n)[i] != '.',
    decreases n,
{
    if n < 10 {
        lemma_digit_char(n);
        assert(decimal(n).drop_last() =~= Seq::<char>::empty());
        assert(digits_value(Seq::<char>::empty()) == 0);
        assert(digits_value(decimal(n)) == digits_value(decimal(n).drop_last()) * 10 + digit_value(decimal(n).last()));
    } else {
        lemma_decimal_roundtrip(n / 10);
        lemma_digit_char(n % 10);
        assert(decimal(n).drop_last() =~= decimal(n / 10));
        assert(decimal(n).last() == digit_char(n % 10));
        assert((n / 10) * 10 + n % 10 == n);
        assert(digits_value(decimal(n)) == digits_value(decimal(n).drop_last()) * 10 + digit_value(decimal(n).last()));
        assert forall|i: int| 0 <= i < decimal(n).len() implies is_digit(#[trigger] decimal(n)[i]) && decimal(n)[i] != '.' by {
            if i < decimal(n / 10).len() {
                assert(decimal(n)[i] == decimal(n / 10)[i]);
            }
        }
    }
}

/// `parse_u32` reads back every 32-bit number that `u32_to_decimal` writes.
pub proof fn lemma_parse_u32_decimal(n: u32)
    ensures
        parse_u32_spec(decimal(n as nat)) == Some(n),
{
    lemma_decimal_roundtrip(n as nat);
}

/// Whether `c` has the Unicode `White_Space` property, which is what
/// `char::is_whitespace` tests.
pub open spec fn is_white_space(c: char) -> bool {
    let u = c as u32;
    ||| 0x9 <= u <= 0xd
    ||| u == 0x20
    ||| u == 0x85
    ||| u == 0xa0
    ||| u == 0x1680
    ||| 0x2000 <= u <= 0x200a
    ||| u == 0x2028
    ||| u == 0x2029
    ||| u == 0x202f
    ||| u == 0x205f
    ||| u == 0x3000
}

fn white_space(c: char) -> (b: bool)
    ensures
        b == is_white_space(c),
{
    let u = c as u32;
    (0x9 <= u && u <= 0xd) || u == 0x20 || u == 0x85 || u == 0xa0 || u == 0x1680
        || (0x2000 <= u && u <= 0x200a) || u == 0x2028 || u == 0x2029 || u == 0x202f
        || u == 0x205f || u == 0x3000
}

/// Index of the first character at or after `i` that is not white space.
pub open spec fn first_non_white(s: Seq<char>, i: int) -> int
    decreases s.len() - i,
{
    if i >= s.len() {
        s.len() as int
    } else if !is_white_space(s[i]) {
        i
    } else {
        first_non_white(s, i + 1)
    }
}

/// One past the last character before `j` that is not white space, or 0.
pub open spec fn end_non_white(s: Seq<char>, j: int) -> int
    decreases j,
{
    if j <= 0 {
        0
    } else if !is_white_space(s[j - 1]) {
        j
    } else {
        end_non_white(s, j - 1)
    }
}

/// `s` without leading and trailing white space, as `str::trim` gives it.
pub open spec fn trimmed(s: Seq<char>) -> Seq<char> {
    let a = first_non_white(s, 0);
    let b = end_non_white(s, s.len() as int);
    if a < b {
        s.subrange(a, b)
    } else {
        Seq::empty()
    }
}

/// Removes leading and trailing white space, as `str::trim` does.
pub fn trim_chars(cs: &Vec<char>, start: usize, end: usize) -> (out: String)
    requires
        start <= end <= cs@.len(),
    ensures
        out@ == trimmed(cs@.subrange(start as int, end as int)),
{
    let ghost s = cs@.subrange(start as int, end as int);
    let mut a: usize = start;
    while a < end && white_space(cs[a])
        invariant
            start <= a <= end <= cs@.len(),
            s == cs@.subrange(start as int, end as int),
            first_non_white(s, (a - start) as int) == first_non_white(s, 0),
        decreases end - a,
    {
        assert(s[a - start] == cs@[a as int]);
        a = a + 1;
    }
    if a < end {
        assert(s[a - start] == cs@[a as int]);
    }
    let mut b: usize = end;
    while b > a && white_space(cs[b - 1])
        invariant
            start <= a <= b <= end <= cs@.len(),
            s == cs@.subrange(start as int, end as int),
            end_non_white(s, (b - start) as int) == end_non_white(s, s.len() as int),
            first_non_white(s, 0) == (a - start) as int,
        decreases b - a,
    {
        assert(s[b - 1 - start] == cs@[b - 1]);
        b = b - 1;
    }
    proof {
        let ai = (a - start) as int;
        let bi = (b - start) as int;
        if b > a {
            assert(s[bi - 1] == cs@[b - 1]);
            assert(end_non_white(s, bi) == bi);
            assert(s.subrange(ai, bi) =~= cs@.subrange(a as int, b as int));
        } else {
            lemma_end_non_white_le(s, bi);
        }
    }
    string_of_chars(cs, a, b)
}

proof fn lemma_end_non_white_le(s: Seq<char>, j: int)
    requires
        0 <= j <= s.len(),
    ensures
        end_non_white(s, j) <= j,
    decreases j,
{
    if j > 0 && is_white_space(s[j - 1]) {
        lemma_end_non_white_le(s, j - 1);
    }
}

/// Removes leading and trailing white space, as `str::trim` does.
pub fn trim(s: &str) -> (out: String)
    ensures
        out@ == trimmed(s@),
{
    let cs = chars_of(s);
    assert(cs@.subrange(0, cs@.len() as int) =~= s@);
    trim_chars(&cs, 0, cs.len())
}


/// Index of the first `'\n'` at or after `i`, or the length of `s`.
pub open spec fn line_end(s: Seq<char>, i: int) -> int
    decreases s.len() - i,
{
    if i >= s.len() {
        s.len() as int
    } else if s[i] == '\n' {
        i
    } else {
        line_end(s, i + 1)
    }
}

/// `line` without one trailing carriage return.
pub open spec fn strip_cr(line: Seq<char>) -> Seq<char> {
    if line.len() > 0 && line.last() == '\r' {
        line.drop_last()
    } else {
        line
    }
}

/// `line_end` stays within the text and stops at a newline.
pub proof fn lemma_line_end_bounds(s: Seq<char>, i: int)
    requires
        0 <= i,
    ensures
        i <= s.len() ==> i <= line_end(s, i) <= s.len(),
        line_end(s, i) < s.len() ==> s[line_end(s, i)] == '\n',
    decreases s.len() - i,
{
    if i < s.len() && s[i] != '\n' {
        lemma_line_end_bounds(s, i + 1);
    }
}

/// The lines of `s` from position `i` on, as `str::lines` yields them: split at
/// `'\n'`, a `'\r'` just before a `'\n'` dropped, no empty line after a final `'\n'`.
pub open spec fn lines_from(s: Seq<char>, i: int) -> Seq<Seq<char>>
    decreases s.len() - i,
{
    if i < 0 || i >= s.len() {
        Seq::empty()
    } else {
        let e = line_end(s, i);
        proof {
            lemma_line_end_bounds(s, i);
        }
        if e < s.len() {
            seq![strip_cr(s.subrange(i, e))] + lines_from(s, e + 1)
        } else {
            seq![s.subrange(i, e)]
        }
    }
}

/// The lines of `s`, as `str::lines` yields them.
pub open spec fn text_lines(s: Seq<char>) -> Seq<Seq<char>> {
    lines_from(s, 0)
}

proof fn lemma_line_end_at(s: Seq<char>, i: int, j: int)
    requires
        0 <= i <= j <= s.len(),
        forall|k: int| i <= k < j ==> s[k] != '\n',
        j == s.len() || s[j] == '\n',
    ensures
        line_end(s, i) == j,
    decreases j - i,
{
    if i < j {
        lemma_line_end_at(s, i + 1, j);
    }
}

/// Start and end positions of the lines of `cs`, as `str::lines` splits it;
/// each end excludes the line terminator.
pub fn line_bounds(cs: &Vec<char>) -> (out: Vec<(usize, usize)>)
    ensures
        out@.len() == text_lines(cs@).len(),
        forall|k: int| 0 <= k < out@.len() ==> {
            &&& (#[trigger] out@[k]).0 <= out@[k].1 <= cs@.len()
            &&& cs@.subrange(out@[k].0 as int, out@[k].1 as int) == text_lines(cs@)[k]
        },
{
    let n = cs.len();
    let mut out: Vec<(usize, usize)> = Vec::new();
    let mut start: usize = 0;
    let mut j: usize = 0;
    let ghost s = cs@;
    while j < n
        invariant
            s == cs@,
            n == s.len(),
            start <= j <= n,
            forall|k: int| start <= k < j ==> s[k] != '\n',
            out@.len() + lines_from(s, start as int).len() == text_lines(s).len(),
            forall|k: int| 0 <= k < out@.len() ==> {
                &&& (#[trigger] out@[k]).0 <= out@[k].1 <= s.len()
                &&& s.subrange(out@[k].0 as int, out@[k].1 as int) == text_lines(s)[k]
            },
            forall|k: int| 0 <= k < lines_from(s, start as int).len() ==>
                #[trigger] lines_from(s, start as int)[k] == text_lines(s)[out@.len() + k],
        decreases n - j,
    {
        if cs[j] == '\n' {
            proof {
                lemma_line_end_at(s, start as int, j as int);
            }
            let mut e = j;
            if e > start && cs[e - 1] == '\r' {
                e = e - 1;
            }
            assert(strip_cr(s.subrange(start as int, j as int)) =~= s.subrange(start as int, e as int));
            let ghost old_out = out@;
            let ghost rest = lines_from(s, (j + 1) as int);
            assert(lines_from(s, start as int) == seq![s.subrange(start as int, e as int)] + rest);
            assert(lines_from(s, start as int)[0] == text_lines(s)[old_out.len() as int]);
            out.push((start, e));
            assert forall|k: int| 0 <= k < rest.len() implies
                #[trigger] rest[k] == text_lines(s)[out@.len() + k] by {
                assert(lines_from(s, start as int)[k + 1] == rest[k]);
            }
            start = j + 1;
        }
        j = j + 1;
    }
    if start < n {
        proof {
            lemma_line_end_at(s, start as int, n as int);
        }
        assert(lines_from(s, start as int) == seq![s.subrange(start as int, n as int)]);
        assert(lines_from(s, start as int)[0] == text_lines(s)[out@.len() as int]);
        out.push((start, n));
    }
    out
}

/// The lines of `text`, as `str::lines` yields them.
pub fn split_lines(text: &str) -> (out: Vec<String>)
    ensures
        out@.len() == text_lines(text@).len(),
        forall|k: int| 0 <= k < out@.len() ==> (#[trigger] out@[k])@ == text_lines(text@)[k],
{
    let cs = chars_of(text);
    let bounds = line_bounds(&cs);
    let mut out: Vec<String> = Vec::new();
    let mut k: usize = 0;
    while k < bounds.len()
        invariant
            cs@ == text@,
            k <= bounds@.len(),
            bounds@.len() == text_lines(cs@).len(),
            forall|i: int| 0 <= i < bounds@.len() ==> {
                &&& (#[trigger] bounds@[i]).0 <= bounds@[i].1 <= cs@.len()
                &&& cs@.subrange(bounds@[i].0 as int, bounds@[i].1 as int) == text_lines(cs@)[i]
            },
            out@.len() == k,
            forall|i: int| 0 <= i < k ==> (#[trigger] out@[i])@ == text_lines(text@)[i],
        decreases bounds@.len() - k,
    {
        let (a, b) = bounds[k];
        let line = string_of_chars(&cs, a, b);
        out.push(line);
        k = k + 1;
    }
    out
}

} // verus!
