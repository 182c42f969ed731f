//! Text building blocks: numerals, trimming, integer parsing and joining.
//!
//! Everything here is stated over `Seq<char>`, the view of a `str` or `String`.

use vstd::prelude::*;

verus! {

// ---------------------------------------------------------------------------
// Numerals
// ---------------------------------------------------------------------------

/// The character that stands for the digit `d` in a base of at most sixteen.
pub open spec fn digit_char(d: nat) -> char {
    if d < 10 {
        ((48 + d) as u8) as char
    } else {
        ((87 + d) as u8) as char
    }
}

/// The numeral of `n` in `base`, most significant digit first, without leading zeros.
pub open spec fn numeral(n: nat, base: nat) -> Seq<char>
    decreases n,
{
    if base < 2 || n < base {
        seq![digit_char(n)]
    } else {
        proof {
            assert(n / base < n) by (nonlinear_arith)
                requires
                    2 <= base <= n,
            ;
        }
        numeral(n / base, base).push(digit_char(n % base))
    }
}

/// The decimal numeral of `n`.
pub open spec fn decimal(n: nat) -> Seq<char> {
    numeral(n, 10)
}

/// The decimal numeral of an integer, with a minus sign in front of a negative one.
pub open spec fn signed_decimal(n: int) -> Seq<char> {
    if n < 0 {
        seq!['-'] + decimal((-n) as nat)
    } else {
        decimal(n as nat)
    }
}

/// `s`, with as many zeros in front of it as it is short of `width` characters.
pub open spec fn zero_padded(s: Seq<char>, width: nat) -> Seq<char> {
    if s.len() >= width {
        s
    } else {
        Seq::new((width - s.len()) as nat, |i: int| '0') + s
    }
}

/// The text of a single digit below sixteen.
fn digit_text(d: u64) -> (text: &'static str)
    requires
        d < 16,
    ensures
        text@ == seq![digit_char(d as nat)],
{
    proof {
        reveal_strlit("0");
        reveal_strlit("1");
        reveal_strlit("2");
        reveal_strlit("3");
        reveal_strlit("4");
        reveal_strlit("5");
        reveal_strlit("6");
        reveal_strlit("7");
        reveal_strlit("8");
        reveal_strlit("9");
        reveal_strlit("a");
        reveal_strlit("b");
        reveal_strlit("c");
        reveal_strlit("d");
        reveal_strlit("e");
        reveal_strlit("f");
    }
    if d == 0 {
        "0"
    } else if d == 1 {
        "1"
    } else if d == 2 {
        "2"
    } else if d == 3 {
        "3"
    } else if d == 4 {
        "4"
    } else if d == 5 {
        "5"
    } else if d == 6 {
        "6"
    } else if d == 7 {
        "7"
    } else if d == 8 {
        "8"
    } else if d == 9 {
        "9"
    } else if d == 10 {
        "a"
    } else if d == 11 {
        "b"
    } else if d == 12 {
        "c"
    } else if d == 13 {
        "d"
    } else if d == 14 {
        "e"
    } else {
        "f"
    }
}

/// Writes `n` in `base`.
pub(crate) fn numeral_text(n: u64, base: u64) -> (text: String)
    requires
        2 <= base <= 16,
    ensures
        text@ == numeral(n as nat, base as nat),
    decreases n,
{
    if n < base {
        String::from_str(digit_text(n))
    } else {
        assert(n / base < n) by (nonlinear_arith)
            requires
                2 <= base <= n,
        ;
        let mut text = numeral_text(n / base, base);
        assert(n % base < base) by (nonlinear_arith)
            requires
                2 <= base,
        ;
        text.append(digit_text(n % base));
        text
    }
}

/// Writes a signed integer in decimal.
pub(crate) fn signed_decimal_text(n: i32) -> (text: String)
    ensures
        text@ == signed_decimal(n as int),
{
    if n < 0 {
        proof {
            reveal_strlit("-");
        }
        let magnitude: i64 = -(n as i64);
        let mut text = String::from_str("-");
        let digits = numeral_text(magnitude as u64, 10);
        text.append(digits.as_str());
        text
    } else {
        numeral_text(n as u64, 10)
    }
}

/// Writes `n` in lower-case hexadecimal, padded with zeros to eight digits.
pub(crate) fn hex8_text(n: u32) -> (text: String)
    ensures
        text@ == zero_padded(numeral(n as nat, 16), 8),
{
    let mut text = numeral_text(n as u64, 16);
    let mut length: usize = text.as_str().unicode_len();
    while length < 8
        invariant
            length == text@.len(),
            zero_padded(text@, 8) == zero_padded(numeral(n as nat, 16), 8),
        decreases 8 - length,
    {
        proof {
            reveal_strlit("0");
        }
        let padded = concat2("0", text.as_str());
        assert(zero_padded(padded@, 8) =~= zero_padded(text@, 8));
        text = padded;
        length = length + 1;
    }
    text
}

// ---------------------------------------------------------------------------
// Joining and comparing
// ---------------------------------------------------------------------------

/// The characters of each text of a list.
pub open spec fn texts(list: Seq<String>) -> Seq<Seq<char>> {
    list.map_values(|text: String| text@)
}

/// Joins two texts.
pub(crate) fn concat2(a: &str, b: &str) -> (text: String)
    ensures
        text@ == a@ + b@,
{
    let mut text = String::from_str(a);
    text.append(b);
    text
}

/// Joins three texts.
pub(crate) fn concat3(a: &str, b: &str, c: &str) -> (text: String)
    ensures
        text@ == a@ + b@ + c@,
{
    let mut text = concat2(a, b);
    text.append(c);
    text
}

/// The characters of a text.
pub(crate) fn chars_of(s: &str) -> (chars: Vec<char>)
    ensures
        chars@ == s@,
{
    let mut chars: Vec<char> = Vec::new();
    for c in it: s.chars()
        invariant
            chars@ == it.seq().take(it.index()),
            it.seq() == s@,
    {
        chars.push(c);
    }
    assert(s@.take(s@.len() as int) == s@);
    chars
}

/// Whether `s` begins with `prefix`.
pub open spec fn has_prefix(s: Seq<char>, prefix: Seq<char>) -> bool {
    s.len() >= prefix.len() && s.take(prefix.len() as int) == prefix
}

/// Tests whether a text begins with another.
pub(crate) fn starts_with(s: &str, prefix: &str) -> (found: bool)
    ensures
        found == has_prefix(s@, prefix@),
{
    let chars = chars_of(s);
    let expected = chars_of(prefix);
    if chars.len() < expected.len() {
        return false;
    }
    let mut i: usize = 0;
    while i < expected.len()
        invariant
            i <= expected.len() <= chars.len(),
            chars@ == s@,
            expected@ == prefix@,
            forall|j: int| 0 <= j < i ==> s@[j] == prefix@[j],
        decreases expected.len() - i,
    {
        if chars[i] != expected[i] {
            assert(s@.take(prefix@.len() as int)[i as int] != prefix@[i as int]);
            return false;
        }
        i = i + 1;
    }
    assert(s@.take(prefix@.len() as int) =~= prefix@);
    true
}

// ---------------------------------------------------------------------------
// Trimming
// ---------------------------------------------------------------------------

/// Whether `c` has the Unicode property `White_Space`.
pub open spec fn is_white_space(c: char) -> bool {
    ||| '\u{9}' <= c <= '\u{d}'
    ||| c == ' '
    ||| c == '\u{85}'
    ||| c == '\u{a0}'
    ||| c == '\u{1680}'
    ||| '\u{2000}' <= c <= '\u{200a}'
    ||| c == '\u{2028}'
    ||| c == '\u{2029}'
    ||| c == '\u{202f}'
    ||| c == '\u{205f}'
    ||| c == '\u{3000}'
}

/// `s` without the white space at its start.
pub open spec fn trim_start(s: Seq<char>) -> Seq<char>
    decreases s.len(),
{
    if s.len() > 0 && is_white_space(s.first()) {
        trim_start(s.drop_first())
    } else {
        s
    }
}

/// `s` without the white space at its end.
pub open spec fn trim_end(s: Seq<char>) -> Seq<char>
    decreases s.len(),
{
    if s.len() > 0 && is_white_space(s.last()) {
        trim_end(s.drop_last())
    } else {
        s
    }
}

/// `s` without the white space at its start and at its end.
pub open spec fn trim(s: Seq<char>) -> Seq<char> {
    trim_end(trim_start(s))
}

fn white_space(c: char) -> (found: bool)
    ensures
        found == is_white_space(c),
{
    ('\u{9}' <= c && c <= '\u{d}') || c == ' ' || c == '\u{85}' || c == '\u{a0}'
        || c == '\u{1680}' || ('\u{2000}' <= c && c <= '\u{200a}') || c == '\u{2028}'
        || c == '\u{2029}' || c == '\u{202f}' || c == '\u{205f}' || c == '\u{3000}'
}

/// The bounds of what is left of `chars` when it is trimmed.
fn trim_bounds(chars: &Vec<char>) -> (bounds: (usize, usize))
    ensures
        bounds.0 <= bounds.1 <= chars.len(),
        chars@.subrange(bounds.0 as int, bounds.1 as int) == trim(chars@),
{
    let mut start: usize = 0;
    assert(chars@.skip(0) =~= chars@);
    while start < chars.len() && white_space(chars[start])
        invariant
            start <= chars.len(),
            trim_start(chars@.skip(start as int)) == trim_start(chars@),
        decreases chars.len() - start,
    {
        assert(chars@.skip(start as int).drop_first() =~= chars@.skip(start + 1));
        start = start + 1;
    }
    assert(trim_start(chars@) == chars@.skip(start as int));
    let mut end: usize = chars.len();
    assert(chars@.subrange(start as int, end as int) =~= chars@.skip(start as int));
    while start < end && white_space(chars[end - 1])
        invariant
            start <= end <= chars.len(),
            trim_end(chars@.subrange(start as int, end as int)) == trim(chars@),
        decreases end,
    {
        assert(chars@.subrange(start as int, end as int).drop_last() =~= chars@.subrange(
            start as int,
            end - 1,
        ));
        end = end - 1;
    }
    (start, end)
}

/// Takes the white space off both ends of a text.
pub(crate) fn trim_text(s: &str) -> (text: &str)
    ensures
        text@ == trim(s@),
{
    let chars = chars_of(s);
    let (start, end) = trim_bounds(&chars);
    s.substring_char(start, end)
}

// ---------------------------------------------------------------------------
// Reading numbers
// ---------------------------------------------------------------------------

/// Whether `c` is one of the ten ASCII digits.
pub open spec fn is_digit(c: char) -> bool {
    '0' <= c <= '9'
}

/// Whether `s` consists of ASCII digits alone.
pub open spec fn all_digits(s: Seq<char>) -> bool {
    forall|i: int| 0 <= i < s.len() ==> is_digit(#[trigger] s[i])
}

/// The number that a sequence of decimal digits denotes.
pub open spec fn digits_value(s: Seq<char>) -> nat
    decreases s.len(),
{
    if s.len() == 0 {
        0
    } else {
        (digits_value(s.drop_last()) * 10 + (s.last() as int - '0' as int)) as nat
    }
}

/// The number that `s` spells: an optional plus sign and one or more decimal digits, with nothing
/// else around them.
pub open spec fn spelled_number(s: Seq<char>) -> Option<int> {
    let digits = if s.len() > 0 && s[0] == '+' {
        s.skip(1)
    } else {
        s
    };
    if digits.len() == 0 || !all_digits(digits) {
        None
    } else {
        Some(digits_value(digits) as int)
    }
}

/// The number that `s` spells, if it lies between `low` and `high`.
pub open spec fn number_in_range(s: Seq<char>, low: int, high: int) -> Option<int> {
    match spelled_number(s) {
        Some(n) => if low <= n <= high {
            Some(n)
        } else {
            None
        },
        None => None,
    }
}

/// Reads the number that the trimmed text spells, if it lies between `low` and `high`.
pub(crate) fn parse_number(s: &str, low: i64, high: i64) -> (value: Option<i64>)
    requires
        0 <= low <= high <= 0x1_0000_0000,
    ensures
        match value {
            Some(n) => number_in_range(trim(s@), low as int, high as int) == Some(n as int),
            None => number_in_range(trim(s@), low as int, high as int) is None,
        },
{
    let chars = chars_of(s);
    let (start, end) = trim_bounds(&chars);
    let ghost t = trim(s@);
    assert(t.len() == end - start);
    assert(forall|i: int| 0 <= i < t.len() ==> t[i] == chars@[start + i]);
    if start == end {
        return None;
    }
    let first: usize = if chars[start] == '+' {
        start + 1
    } else {
        start
    };
    let ghost digits = if first == start {
        t
    } else {
        t.skip(1)
    };
    assert(digits =~= chars@.subrange(first as int, end as int));
    if first == end {
        return None;
    }
    let mut value: i64 = 0;
    let mut large: bool = false;
    let mut i: usize = first;
    assert(digits.take(0).len() == 0);
    while i < end
        invariant
            start <= first <= i <= end <= chars.len(),
            !all_digits(digits) ==> spelled_number(trim(s@)) is None,
            digits == chars@.subrange(first as int, end as int),
            all_digits(digits.take(i - first)),
            0 <= value <= 0x20_0000_0000,
            !large ==> value == digits_value(digits.take(i - first)),
            large ==> digits_value(digits.take(i - first)) > 0x1_0000_0000,
        decreases end - i,
    {
        let c = chars[i];
        assert(digits[i - first] == c);
        let ghost k = i - first;
        if c < '0' || '9' < c {
            assert(!is_digit(digits[k]));
            return None;
        }
        assert(digits.take(k + 1).drop_last() =~= digits.take(k));
        assert(digits.take(k + 1).last() == c);
        assert forall|j: int| 0 <= j < k + 1 implies is_digit(#[trigger] digits.take(k + 1)[j]) by {
            if j < k {
                assert(is_digit(digits.take(k)[j]));
            }
        }
        let digit: u32 = (c as u32) - ('0' as u32);
        if large || value > 0x1_0000_0000 {
            large = true;
        } else {
            value = value * 10 + digit as i64;
        }
        i = i + 1;
    }
    assert(digits.take(end - first) =~= digits);
    if large || value > 0x1_0000_0000 {
        return None;
    }
    if low <= value && value <= high {
        Some(value)
    } else {
        None
    }
}

// ---------------------------------------------------------------------------
// Laws
// ---------------------------------------------------------------------------

/// The number that a digit stands for, in a base of at most sixteen.
pub open spec fn digit_value(c: char) -> int {
    if '0' <= c <= '9' {
        c as int - '0' as int
    } else if 'a' <= c <= 'f' {
        c as int - 'a' as int + 10
    } else {
        16
    }
}

/// The number that digits denote in `base`, the most significant one first.
pub open spec fn value_in(s: Seq<char>, base: int) -> int
    decreases s.len(),
{
    if s.len() == 0 {
        0
    } else {
        value_in(s.drop_last(), base) * base + digit_value(s.last())
    }
}

/// The numeral of a number, however large, denotes that number: it consists of digits of its base,
/// their places give the number back, and no zero stands in front. There is no other such numeral.
pub proof fn law_a_numeral_denotes_its_number(n: nat, base: nat)
    requires
        2 <= base <= 16,
    ensures
        numeral(n, base).len() > 0,
        forall|i: int|
            0 <= i < numeral(n, base).len() ==> 0 <= digit_value(#[trigger] numeral(n, base)[i])
                < base,
        value_in(numeral(n, base), base as int) == n,
        n > 0 ==> numeral(n, base)[0] != '0',
        n == 0 ==> numeral(n, base) == seq!['0'],
        decimal(n) == numeral(n, 10),
    decreases n,
{
    let s = numeral(n, base);
    if n < base {
        assert(s.drop_last() =~= Seq::<char>::empty());
        assert(digit_value(digit_char(n)) == n);
        assert(value_in(s.drop_last(), base as int) == 0);
        assert(0 * base == 0) by (nonlinear_arith);
    } else {
        let m = n / base;
        let d = n % base;
        assert(0 < m < n && d < base && m * base + d == n) by (nonlinear_arith)
            requires
                2 <= base <= n,
                m == n / base,
                d == n % base,
        ;
        law_a_numeral_denotes_its_number(m, base);
        assert(s.drop_last() =~= numeral(m, base));
        assert(digit_value(digit_char(d)) == d);
        assert forall|i: int| 0 <= i < s.len() implies 0 <= digit_value(#[trigger] s[i]) < base by {
            if i < s.len() - 1 {
                assert(s[i] == numeral(m, base)[i]);
            }
        }
        assert(s[0] == numeral(m, base)[0]);
    }
}

/// A negative number is written as a minus sign and the number without it, any other as it is.
pub proof fn law_a_minus_sign_stands_before_a_negative_number(n: nat)
    ensures
        signed_decimal(n as int) == decimal(n),
        n > 0 ==> signed_decimal(-n) == seq!['-'] + decimal(n),
{
}

/// Padding puts zeros in front, as many as are missing, and changes nothing else.
pub proof fn law_padding_puts_zeros_in_front(s: Seq<char>, width: nat)
    ensures
        zero_padded(s, width).len() == if s.len() < width {
            width
        } else {
            s.len()
        },
        zero_padded(s, width).skip(zero_padded(s, width).len() - s.len()) == s,
        forall|i: int|
            0 <= i < zero_padded(s, width).len() - s.len() ==> zero_padded(s, width)[i] == '0',
{
    assert(zero_padded(s, width).skip(zero_padded(s, width).len() - s.len()) =~= s);
}

/// A text begins with another exactly if something can be put behind the other to give it.
pub proof fn law_a_prefix_can_be_continued(prefix: Seq<char>, rest: Seq<char>, s: Seq<char>)
    ensures
        has_prefix(prefix + rest, prefix),
        has_prefix(s, prefix) ==> s == prefix + s.skip(prefix.len() as int),
{
    assert((prefix + rest).take(prefix.len() as int) =~= prefix);
    if has_prefix(s, prefix) {
        assert(s =~= s.take(prefix.len() as int) + s.skip(prefix.len() as int));
    }
}

/// The texts of a list are those of its members, in their places.
pub proof fn law_texts_are_those_of_the_members(list: Seq<String>)
    ensures
        texts(list).len() == list.len(),
        forall|i: int| 0 <= i < list.len() ==> texts(list)[i] == #[trigger] list[i]@,
{
}

/// No character beyond the ideographic space is white space.
pub proof fn law_white_space_lies_low(c: char)
    ensures
        is_white_space(c) ==> c as int <= 0x3000,
{
}

/// Whether a text is white space alone.
pub open spec fn is_blank(s: Seq<char>) -> bool {
    forall|i: int| 0 <= i < s.len() ==> is_white_space(#[trigger] s[i])
}

/// Trimming takes the white space around a text away, however much there is, and nothing else.
pub proof fn law_trimming_takes_white_space_away(before: Seq<char>, s: Seq<char>, after: Seq<char>)
    requires
        is_blank(before),
        is_blank(after),
        s.len() > 0 ==> !is_white_space(s.first()) && !is_white_space(s.last()),
    ensures
        trim(before + s + after) == s,
{
    lemma_blank_start(before, s + after);
    assert(before + s + after =~= before + (s + after));
    if s.len() > 0 {
        assert((s + after).first() == s.first());
        lemma_blank_end(s, after);
    } else {
        lemma_blank_start(after, Seq::empty());
        assert(s + after =~= after + Seq::<char>::empty());
        assert(s =~= Seq::<char>::empty());
    }
}

/// White space in front of a text is taken away.
proof fn lemma_blank_start(blank: Seq<char>, s: Seq<char>)
    requires
        is_blank(blank),
    ensures
        trim_start(blank + s) == trim_start(s),
    decreases blank.len(),
{
    if blank.len() > 0 {
        assert(is_white_space(blank[0]));
        assert((blank + s).first() == blank[0]);
        assert((blank + s).drop_first() =~= blank.drop_first() + s);
        assert forall|i: int| 0 <= i < blank.drop_first().len() implies is_white_space(
            #[trigger] blank.drop_first()[i],
        ) by {
            assert(is_white_space(blank[i + 1]));
        }
        lemma_blank_start(blank.drop_first(), s);
    } else {
        assert(blank + s =~= s);
    }
}

/// White space behind a text is taken away.
proof fn lemma_blank_end(s: Seq<char>, blank: Seq<char>)
    requires
        is_blank(blank),
    ensures
        trim_end(s + blank) == trim_end(s),
    decreases blank.len(),
{
    if blank.len() > 0 {
        assert(is_white_space(blank[blank.len() - 1]));
        assert((s + blank).last() == blank.last());
        assert((s + blank).drop_last() =~= s + blank.drop_last());
        assert forall|i: int| 0 <= i < blank.drop_last().len() implies is_white_space(
            #[trigger] blank.drop_last()[i],
        ) by {
            assert(is_white_space(blank[i]));
        }
        lemma_blank_end(s, blank.drop_last());
    } else {
        assert(s + blank =~= s);
    }
}

/// The text of a number that is written with a plus sign or without one, with any number of zeros
/// in front.
pub open spec fn spelling(plus: bool, zeros: nat, n: nat) -> Seq<char> {
    (if plus {
        seq!['+']
    } else {
        seq![]
    }) + Seq::new(zeros, |i: int| '0') + decimal(n)
}

/// A number is read from each of its spellings, however large it is, and a range lets through
/// exactly the numbers that lie in it.
pub proof fn law_a_spelled_number_is_read(plus: bool, zeros: nat, n: nat, low: int, high: int)
    ensures
        spelled_number(spelling(plus, zeros, n)) == Some(n as int),
        low <= n <= high ==> number_in_range(spelling(plus, zeros, n), low, high) == Some(n as int),
        !(low <= n <= high) ==> number_in_range(spelling(plus, zeros, n), low, high) is None,
{
    let padding = Seq::new(zeros, |i: int| '0');
    let digits = padding + decimal(n);
    let s = spelling(plus, zeros, n);
    law_a_numeral_denotes_its_number(n, 10);
    assert forall|i: int| 0 <= i < digits.len() implies is_digit(#[trigger] digits[i]) by {
        if i >= zeros {
            assert(digit_value(decimal(n)[i - zeros]) < 10);
        }
    }
    lemma_digits_value(decimal(n));
    lemma_zeros_in_front(zeros, decimal(n));
    if plus {
        assert(s[0] == '+');
        assert(s.skip(1) =~= digits);
    } else {
        assert(s =~= digits);
        assert(is_digit(digits[0]));
    }
}

/// What is read as a number consists of digits, with one plus sign in front of them at most.
pub proof fn law_only_digits_spell_a_number(s: Seq<char>, low: int, high: int)
    ensures
        number_in_range(s, low, high) is Some ==> spelled_number(s) is Some,
        spelled_number(s) is Some ==> {
            &&& s.len() > 0
            &&& is_digit(s.last())
            &&& forall|i: int| 0 <= i < s.len() ==> is_digit(#[trigger] s[i]) || (i == 0 && s[i]
                == '+')
        },
{
    if spelled_number(s) is Some {
        if s[0] == '+' {
            let digits = s.skip(1);
            assert(is_digit(digits[digits.len() - 1]));
            assert forall|i: int| 0 <= i < s.len() implies is_digit(#[trigger] s[i]) || (i == 0
                && s[i] == '+') by {
                if i > 0 {
                    assert(is_digit(digits[i - 1]));
                }
            }
        }
    }
}

/// Decimal digits denote the same by either reckoning.
proof fn lemma_digits_value(s: Seq<char>)
    requires
        forall|i: int| 0 <= i < s.len() ==> 0 <= digit_value(#[trigger] s[i]) < 10,
    ensures
        digits_value(s) == value_in(s, 10),
    decreases s.len(),
{
    if s.len() > 0 {
        assert(0 <= digit_value(s[s.len() - 1]) < 10);
        assert forall|i: int| 0 <= i < s.drop_last().len() implies 0 <= digit_value(
            #[trigger] s.drop_last()[i],
        ) < 10 by {
            assert(0 <= digit_value(s[i]) < 10);
        }
        lemma_digits_value(s.drop_last());
    }
}

/// Zeros in front of digits do not change what they denote in any base.
pub proof fn lemma_zeros_keep_the_value(zeros: nat, s: Seq<char>, base: int)
    ensures
        value_in(Seq::new(zeros, |i: int| '0') + s, base) == value_in(s, base),
    decreases zeros + s.len(),
{
    let padding = Seq::new(zeros, |i: int| '0');
    let all = padding + s;
    if s.len() > 0 {
        lemma_zeros_keep_the_value(zeros, s.drop_last(), base);
        assert(all.drop_last() =~= padding + s.drop_last());
        assert(all.last() == s.last());
    } else if zeros > 0 {
        lemma_zeros_keep_the_value((zeros - 1) as nat, s, base);
        assert(all.drop_last() =~= Seq::new((zeros - 1) as nat, |i: int| '0') + s);
        assert(all.last() == '0');
        assert(0 * base == 0) by (nonlinear_arith);
    } else {
        assert(all =~= s);
    }
}

/// Zeros in front of digits do not change what they denote.
proof fn lemma_zeros_in_front(zeros: nat, s: Seq<char>)
    ensures
        digits_value(Seq::new(zeros, |i: int| '0') + s) == digits_value(s),
    decreases zeros + s.len(),
{
    let padding = Seq::new(zeros, |i: int| '0');
    let all = padding + s;
    if s.len() > 0 {
        lemma_zeros_in_front(zeros, s.drop_last());
        assert(all.drop_last() =~= padding + s.drop_last());
        assert(all.last() == s.last());
    } else if zeros > 0 {
        lemma_zeros_in_front((zeros - 1) as nat, s);
        assert(all.drop_last() =~= Seq::new((zeros - 1) as nat, |i: int| '0') + s);
        assert(all.last() == '0');
    } else {
        assert(all =~= s);
    }
}

} // verus!
