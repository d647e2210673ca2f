//! Finding a loaded library's base address in the lines of `/proc/self/maps`.
//!
//! A maps line looks like `7f12a000-7f12b000 r-xp 00000000 fd:01 123 /path/libX.so`.
//! The base of a library is the start of the address range on the first line that
//! names it and whose range start reads as a hexadecimal number.
use vstd::prelude::*;
use crate::text::{
    before_char, chars_of, contains_chars, find_in, has_substring, lemma_find_some,
};

verus! {

/// Unicode white space, as `char::is_whitespace` decides it.
pub open spec fn is_white(c: char) -> bool {
    ||| '\u{9}' <= c <= '\u{D}'
    ||| c == ' '
    ||| c == '\u{85}'
    ||| c == '\u{A0}'
    ||| c == '\u{1680}'
    ||| '\u{2000}' <= c <= '\u{200A}'
    ||| c == '\u{2028}'
    ||| c == '\u{2029}'
    ||| c == '\u{202F}'
    ||| c == '\u{205F}'
    ||| c == '\u{3000}'
}

/// `s[a..b]` is the first white-space separated field of `s`.
pub open spec fn first_field_bounds(s: Seq<char>, a: int, b: int) -> bool {
    &&& 0 <= a < b <= s.len()
    &&& forall|i: int| 0 <= i < a ==> is_white(#[trigger] s[i])
    &&& forall|i: int| a <= i < b ==> !is_white(#[trigger] s[i])
    &&& (b == s.len() || is_white(s[b]))
}

/// The first white-space separated field of `s`, if it has one
/// (`s.split_whitespace().next()`).
pub open spec fn first_field(s: Seq<char>) -> Option<Seq<char>> {
    if exists|a: int, b: int| first_field_bounds(s, a, b) {
        let (a, b) = choose|a: int, b: int| first_field_bounds(s, a, b);
        Some(s.subrange(a, b))
    } else {
        None
    }
}

/// A hexadecimal digit, either case.
pub open spec fn is_hex_digit(c: char) -> bool {
    ||| '0' <= c <= '9'
    ||| 'a' <= c <= 'f'
    ||| 'A' <= c <= 'F'
}

/// The value of a hexadecimal digit.
pub open spec fn hex_digit_value(c: char) -> int {
    if '0' <= c <= '9' {
        c as int - '0' as int
    } else if 'a' <= c <= 'f' {
        c as int - 'a' as int + 10
    } else {
        c as int - 'A' as int + 10
    }
}

/// The value of a string of hexadecimal digits, most significant first.
pub open spec fn hex_value(s: Seq<char>) -> int
    decreases s.len(),
{
    if s.len() == 0 {
        0
    } else {
        hex_value(s.drop_last()) * 16 + hex_digit_value(s.last())
    }
}

/// The digits of a number: `s` without one leading '+'.
pub open spec fn unsigned_digits(s: Seq<char>) -> Seq<char> {
    if s.len() > 0 && s[0] == '+' {
        s.drop_first()
    } else {
        s
    }
}

/// `s` read as a hexadecimal `usize` (`usize::from_str_radix(s, 16)`): an optional
/// '+', then one or more hexadecimal digits whose value fits in a `usize`.
pub open spec fn spec_parse_hex(s: Seq<char>) -> Option<usize> {
    let digits = unsigned_digits(s);
    if digits.len() > 0 && (forall|i: int| 0 <= i < digits.len() ==> is_hex_digit(#[trigger] digits[i]))
        && hex_value(digits) <= usize::MAX {
        Some(hex_value(digits) as usize)
    } else {
        None
    }
}

/// The base that one maps line gives for `lib`: it must name `lib`, and the start
/// of its address range (its first field up to the first '-') must read as hex.
pub open spec fn line_base(line: Seq<char>, lib: Seq<char>) -> Option<usize> {
    if has_substring(line, lib) {
        match first_field(line) {
            Some(f) => spec_parse_hex(before_char(f, '-')),
            None => None,
        }
    } else {
        None
    }
}

/// The base of `lib` in `lines`: that of the first line that gives one, or 0.
pub open spec fn maps_base(lines: Seq<Seq<char>>, lib: Seq<char>) -> usize
    decreases lines.len(),
{
    if lines.len() == 0 {
        0
    } else {
        match line_base(lines[0], lib) {
            Some(b) => b,
            None => maps_base(lines.drop_first(), lib),
        }
    }
}

/// The characters of each line.
pub open spec fn lines_view(lines: Seq<String>) -> Seq<Seq<char>> {
    lines.map_values(|l: String| l@)
}

/// Whether `c` is Unicode white space.
pub fn is_white_char(c: char) -> (b: bool)
    ensures
        b == is_white(c),
{
    ('\u{9}' <= c && c <= '\u{D}') || c == ' ' || c == '\u{85}' || c == '\u{A0}' || c == '\u{1680}'
        || ('\u{2000}' <= c && c <= '\u{200A}') || c == '\u{2028}' || c == '\u{2029}' || c
        == '\u{202F}' || c == '\u{205F}' || c == '\u{3000}'
}

/// The value of a hexadecimal digit, or `None` for any other character.
fn hex_digit(c: char) -> (r: Option<usize>)
    ensures
        match r {
            Some(d) => is_hex_digit(c) && d == hex_digit_value(c) && d < 16,
            None => !is_hex_digit(c),
        },
{
    if '0' <= c && c <= '9' {
        Some(((c as u32) - ('0' as u32)) as usize)
    } else if 'a' <= c && c <= 'f' {
        Some(((c as u32) - ('a' as u32) + 10) as usize)
    } else if 'A' <= c && c <= 'F' {
        Some(((c as u32) - ('A' as u32) + 10) as usize)
    } else {
        None
    }
}

/// The value of a digit string never falls when digits are added at the end.
proof fn lemma_hex_value_prefix(s: Seq<char>, k: int)
    requires
        0 <= k <= s.len(),
        forall|i: int| 0 <= i < s.len() ==> is_hex_digit(#[trigger] s[i]),
    ensures
        0 <= hex_value(s.take(k)) <= hex_value(s),
    decreases s.len() - k,
{
    if k == s.len() {
        assert(s.take(k) =~= s);
        lemma_hex_value_nonneg(s);
    } else {
        lemma_hex_value_prefix(s, k + 1);
        assert(s.take(k + 1).drop_last() =~= s.take(k));
        lemma_hex_value_nonneg(s.take(k));
        assert(is_hex_digit(s[k]));
    }
}

/// Digit strings have non-negative values.
proof fn lemma_hex_value_nonneg(s: Seq<char>)
    requires
        forall|i: int| 0 <= i < s.len() ==> is_hex_digit(#[trigger] s[i]),
    ensures
        hex_value(s) >= 0,
    decreases s.len(),
{
    if s.len() > 0 {
        let t = s.drop_last();
        assert forall|i: int| 0 <= i < t.len() implies is_hex_digit(#[trigger] t[i]) by {
            assert(t[i] == s[i]);
        }
        lemma_hex_value_nonneg(t);
        assert(is_hex_digit(s[s.len() - 1]));
    }
}

/// Reads `s` as a hexadecimal `usize`, as `usize::from_str_radix(s, 16)` does.
pub fn parse_hex_usize(s: &Vec<char>) -> (r: Option<usize>)
    ensures
        r == spec_parse_hex(s@),
{
    let start: usize = if s.len() > 0 && s[0] == '+' {
        1
    } else {
        0
    };
    let ghost digits = unsigned_digits(s@);
    assert(digits =~= s@.subrange(start as int, s@.len() as int));
    if start == s.len() {
        return None;
    }
    let mut acc: usize = 0;
    let mut i: usize = start;
    while i < s.len()
        invariant
            start <= i <= s.len(),
            start < s.len(),
            digits == unsigned_digits(s@),
            digits == s@.subrange(start as int, s@.len() as int),
            forall|j: int| 0 <= j < i - start ==> is_hex_digit(#[trigger] digits[j]),
            acc == hex_value(digits.take(i - start)),
        decreases s.len() - i,
    {
        let ghost k = i - start;
        assert(digits[k] == s@[i as int]);
        match hex_digit(s[i]) {
            None => {
                assert(!is_hex_digit(digits[k]));
                return None;
            },
            Some(d) => {
                assert(digits.take(k + 1).drop_last() =~= digits.take(k));
                assert(digits.take(k + 1).last() == digits[k]);
                let next = match acc.checked_mul(16) {
                    Some(m) => m.checked_add(d),
                    None => None,
                };
                match next {
                    Some(n) => {
                        acc = n;
                    },
                    None => {
                        proof {
                            assert(hex_value(digits.take(k + 1)) == acc * 16 + d);
                            assert(hex_value(digits.take(k + 1)) > usize::MAX);
                            if forall|j: int| 0 <= j < digits.len() ==> is_hex_digit(
                                #[trigger] digits[j],
                            ) {
                                lemma_hex_value_prefix(digits, k + 1);
                            }
                        }
                        return None;
                    },
                }
            },
        }
        i = i + 1;
    }
    assert(digits.take(digits.len() as int) =~= digits);
    Some(acc)
}

/// The first white-space separated field of `s`, as a vector of characters.
pub fn first_field_of(s: &Vec<char>) -> (r: Option<Vec<char>>)
    ensures
        match r {
            Some(f) => first_field(s@) == Some(f@),
            None => first_field(s@) == None::<Seq<char>>,
        },
{
    let mut a: usize = 0;
    while a < s.len() && is_white_char(s[a])
        invariant
            a <= s.len(),
            forall|i: int| 0 <= i < a ==> is_white(#[trigger] s@[i]),
        decreases s.len() - a,
    {
        a = a + 1;
    }
    if a == s.len() {
        proof {
            if exists|x: int, y: int| first_field_bounds(s@, x, y) {
                let (x, y) = choose|x: int, y: int| first_field_bounds(s@, x, y);
                assert(is_white(s@[x]));
                assert(!is_white(s@[x]));
            }
        }
        return None;
    }
    let mut b: usize = a + 1;
    let mut f: Vec<char> = Vec::new();
    f.push(s[a]);
    while b < s.len() && !is_white_char(s[b])
        invariant
            a < b <= s.len(),
            !is_white(s@[a as int]),
            forall|i: int| a <= i < b ==> !is_white(#[trigger] s@[i]),
            f@ == s@.subrange(a as int, b as int),
        decreases s.len() - b,
    {
        f.push(s[b]);
        b = b + 1;
        assert(f@ =~= s@.subrange(a as int, b as int));
    }
    proof {
        assert(first_field_bounds(s@, a as int, b as int));
        let (x, y) = choose|x: int, y: int| first_field_bounds(s@, x, y);
        if x < a {
            assert(is_white(s@[x]));
        }
        if a < x {
            assert(is_white(s@[a as int]));
        }
        if y < b {
            assert(!is_white(s@[y]));
        }
        if b < y {
            assert(!is_white(s@[b as int]));
        }
        assert(x == a && y == b);
    }
    Some(f)
}

/// The base address that one maps line gives for `lib`, if any.
pub fn base_in_line(line: &str, lib: &str) -> (r: Option<usize>)
    ensures
        r == line_base(line@, lib@),
{
    let v = chars_of(line);
    let l = chars_of(lib);
    if !contains_chars(&v, &l) {
        return None;
    }
    match first_field_of(&v) {
        None => None,
        Some(field) => {
            let mut start = field;
            let dash: Vec<char> = vec!['-'];
            assert(dash@ =~= seq!['-']);
            match find_in(&start, &dash) {
                Some(k) => {
                    proof {
                        lemma_find_some(start@, dash@);
                    }
                    start.truncate(k);
                },
                None => {},
            }
            parse_hex_usize(&start)
        },
    }
}

/// The base address of `lib_name` in the lines of `/proc/self/maps`: the range
/// start of the first line that names it and whose range start reads as hex,
/// or 0 when no line does.
pub fn module_base_in_maps(lines: &Vec<String>, lib_name: &str) -> (r: usize)
    ensures
        r == maps_base(lines_view(lines@), lib_name@),
{
    let ghost all = lines_view(lines@);
    let mut i: usize = 0;
    assert(all.skip(0) =~= all);
    while i < lines.len()
        invariant
            i <= lines.len(),
            all == lines_view(lines@),
            maps_base(all, lib_name@) == maps_base(all.skip(i as int), lib_name@),
        decreases lines.len() - i,
    {
        let ghost rest = all.skip(i as int);
        assert(rest[0] == lines@[i as int]@);
        assert(rest.drop_first() =~= all.skip(i + 1));
        match base_in_line(lines[i].as_str(), lib_name) {
            Some(b) => {
                return b;
            },
            None => {},
        }
        i = i + 1;
    }
    assert(all.skip(i as int).len() == 0);
    0
}

/// The digit values: '0'..'9' are 0..9, 'a'..'f' and 'A'..'F' are 10..15, the
/// two cases agree, and every digit is below 16.
pub proof fn lemma_hex_digit_values(c: char)
    ensures
        hex_digit_value('0') == 0,
        hex_digit_value('9') == 9,
        hex_digit_value('a') == 10,
        hex_digit_value('f') == 15,
        hex_digit_value('A') == 10,
        hex_digit_value('F') == 15,
        is_hex_digit(c) ==> 0 <= hex_digit_value(c) < 16,
        'a' <= c <= 'f' ==> hex_digit_value(c) == hex_digit_value(((c as u32) - 32) as char),
{
}

/// Reading hex: no digits reads as nothing; one digit reads as its value; a
/// leading '+' changes nothing; and one more digit at the end multiplies by 16
/// and adds the digit, while the result fits.
pub proof fn lemma_hex_reading(d: Seq<char>, c: char, v: usize)
    ensures
        spec_parse_hex(Seq::empty()) is None,
        spec_parse_hex(seq!['+']) is None,
        is_hex_digit(c) ==> spec_parse_hex(seq![c]) == Some(hex_digit_value(c) as usize),
        !is_hex_digit(c) && c != '+' ==> spec_parse_hex(seq![c]) is None,
        d.len() > 0 && d[0] != '+' ==> spec_parse_hex(seq!['+'] + d) == spec_parse_hex(d),
        spec_parse_hex(d) == Some(v) && d[0] != '+' && is_hex_digit(c) && v * 16
            + hex_digit_value(c) <= usize::MAX ==> spec_parse_hex(d.push(c)) == Some(
            (v * 16 + hex_digit_value(c)) as usize,
        ),
        spec_parse_hex(d) == Some(v) && d[0] != '+' && is_hex_digit(c) && v * 16
            + hex_digit_value(c) > usize::MAX ==> spec_parse_hex(d.push(c)) is None,
{
    let one = seq![c];
    assert(one.drop_last() =~= Seq::<char>::empty());
    if is_hex_digit(c) {
        assert(one[0] == c);
        assert(unsigned_digits(one) == one);
        assert(one.last() == c);
        assert(hex_value(one) == hex_value(one.drop_last()) * 16 + hex_digit_value(c));
        assert(hex_value(one) == hex_digit_value(c));
        assert(forall|i: int| 0 <= i < one.len() ==> is_hex_digit(#[trigger] one[i]));
    }
    if d.len() > 0 && d[0] != '+' {
        assert((seq!['+'] + d).drop_first() =~= d);
    }
    if spec_parse_hex(d) == Some(v) && d[0] != '+' && is_hex_digit(c) {
        let e = d.push(c);
        assert(e.drop_last() =~= d);
        assert(e[0] == d[0]);
        assert(unsigned_digits(d) == d);
        assert(d.len() > 0);
        lemma_hex_value_nonneg(d);
        assert(hex_value(d) == v);
        assert(unsigned_digits(e) == e);
        assert(e.last() == c);
        assert(hex_value(e) == hex_value(d) * 16 + hex_digit_value(c));
        assert forall|i: int| 0 <= i < e.len() implies is_hex_digit(#[trigger] e[i]) by {
            if i < d.len() {
                assert(e[i] == d[i]);
                assert(is_hex_digit(d[i]));
            }
        }
        if hex_value(e) <= usize::MAX {
            assert(spec_parse_hex(e) == Some(hex_value(e) as usize));
        } else {
            assert(spec_parse_hex(e) is None);
        }
    }
}

/// A maps line that does not name the library gives no base.
pub proof fn lemma_line_must_name_library(line: Seq<char>, lib: Seq<char>)
    ensures
        !has_substring(line, lib) ==> line_base(line, lib) is None,
{
}

/// The first line that gives a base decides: lines before it that give none are
/// skipped, and no line after it matters. With no such line the base is 0.
pub proof fn lemma_first_giving_line_decides(
    skipped: Seq<Seq<char>>,
    line: Seq<char>,
    rest: Seq<Seq<char>>,
    lib: Seq<char>,
)
    requires
        forall|i: int| 0 <= i < skipped.len() ==> line_base(#[trigger] skipped[i], lib) is None,
    ensures
        line_base(line, lib) matches Some(b) ==> maps_base(skipped + seq![line] + rest, lib) == b,
        maps_base(skipped, lib) == 0,
    decreases skipped.len(),
{
    if skipped.len() > 0 {
        let tail = skipped.drop_first();
        assert forall|i: int| 0 <= i < tail.len() implies line_base(#[trigger] tail[i], lib) is None by {
            assert(tail[i] == skipped[i + 1]);
        }
        assert(line_base(skipped[0], lib) is None);
        lemma_first_giving_line_decides(tail, line, rest, lib);
        assert((skipped + seq![line] + rest).drop_first() =~= tail + seq![line] + rest);
        assert((skipped + seq![line] + rest)[0] == skipped[0]);
    } else {
        assert(skipped + seq![line] + rest =~= seq![line] + rest);
    }
}

} // verus!
