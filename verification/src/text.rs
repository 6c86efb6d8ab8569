//! Text as the rest of the crate reads and writes it: sequences of characters.
use vstd::prelude::*;

verus! {

/// `String::push` appends one character at the end of the string and changes nothing else.
pub assume_specification[ String::push ](s: &mut String, c: char)
    ensures
        final(s)@ == old(s)@.push(c),
;

/// The ASCII digit that stands for `d`.
pub open spec fn digit_char(d: nat) -> char {
    (48 + d) as char
}

/// The decimal digits of `n`, most significant first, without leading zeros.
pub open spec fn decimal_text(n: nat) -> Seq<char>
    decreases n,
{
    if n < 10 {
        seq![digit_char(n)]
    } else {
        decimal_text(n / 10).push(digit_char(n % 10))
    }
}

/// Writes `n` in decimal.
pub fn decimal(n: u64) -> (text: String)
    ensures
        text@ == decimal_text(n as nat),
    decreases n,
{
    let mut text = if n < 10 {
        String::new()
    } else {
        decimal(n / 10)
    };
    let digit: u8 = (n % 10) as u8;
    text.push((48 + digit) as char);
    text
}

/// `i` in decimal, with a sign if it is negative.
pub open spec fn integer_text(i: int) -> Seq<char> {
    if i < 0 {
        "-"@ + decimal_text((-i) as nat)
    } else {
        decimal_text(i as nat)
    }
}

/// Writes `i` in decimal.
pub fn integer(i: i64) -> (text: String)
    ensures
        text@ == integer_text(i as int),
{
    if i < 0 {
        let mut text = String::new();
        text.append("-");
        text.append(decimal((-(i as i128)) as u64).as_str());
        assert(text@ == "-"@ + decimal_text((-i) as nat));
        text
    } else {
        decimal(i as u64)
    }
}

/// The characters of `s`, in order.
pub fn chars_of(s: &str) -> (chars: Vec<char>)
    ensures
        chars@ == s@,
{
    let mut chars: Vec<char> = Vec::new();
    for c in it: s.chars()
        invariant
            chars@ == it.seq().take(it.index()),
            it.seq() == s@,
    {
        chars.push(c);
    }
    chars
}

/// The characters with the Unicode property `White_Space`.
pub open spec fn is_white_space(c: char) -> bool {
    let u = c as u32;
    ||| 0x9 <= u <= 0xd
    ||| u == 0x20
    ||| u == 0x85
    ||| u == 0xa0
    ||| u == 0x1680
    ||| 0x2000 <= u <= 0x200a
    ||| u == 0x2028
    ||| u == 0x2029
    ||| u == 0x202f
    ||| u == 0x205f
    ||| u == 0x3000
}

/// Is `c` white space?
pub fn white_space(c: char) -> (yes: bool)
    ensures
        yes == is_white_space(c),
{
    let u: u32 = c as u32;
    (0x9 <= u && u <= 0xd) || u == 0x20 || u == 0x85 || u == 0xa0 || u == 0x1680 || (0x2000 <= u
        && u <= 0x200a) || u == 0x2028 || u == 0x2029 || u == 0x202f || u == 0x205f || u == 0x3000
}

/// `s` without the white space it starts with.
pub open spec fn trim_start(s: Seq<char>) -> Seq<char>
    decreases s.len(),
{
    if s.len() > 0 && is_white_space(s[0]) {
        trim_start(s.skip(1))
    } else {
        s
    }
}

/// `s` without the white space it ends with.
pub open spec fn trim_end(s: Seq<char>) -> Seq<char>
    decreases s.len(),
{
    if s.len() > 0 && is_white_space(s.last()) {
        trim_end(s.drop_last())
    } else {
        s
    }
}

/// `s` without the white space around it.
pub open spec fn trimmed(s: Seq<char>) -> Seq<char> {
    trim_end(trim_start(s))
}

/// Narrows the span `from..to` of `chars` to what is left of it without the white space around it.
pub fn trim(chars: &Vec<char>, from: usize, to: usize) -> (span: (usize, usize))
    requires
        from <= to <= chars.len(),
    ensures
        from <= span.0 <= span.1 <= to,
        chars@.subrange(span.0 as int, span.1 as int) == trimmed(
            chars@.subrange(from as int, to as int),
        ),
{
    let ghost whole = chars@.subrange(from as int, to as int);
    let mut start: usize = from;
    assert(chars@.subrange(start as int, to as int) == whole);
    while start < to && white_space(chars[start])
        invariant
            from <= start <= to <= chars.len(),
            whole == chars@.subrange(from as int, to as int),
            trim_start(chars@.subrange(start as int, to as int)) == trim_start(whole),
        decreases to - start,
    {
        assert(chars@.subrange(start as int, to as int).skip(1) == chars@.subrange(
            start + 1,
            to as int,
        ));
        start = start + 1;
    }
    let ghost front = chars@.subrange(start as int, to as int);
    assert(front == trim_start(whole));
    let mut end: usize = to;
    while start < end && white_space(chars[end - 1])
        invariant
            from <= start <= end <= to <= chars.len(),
            trim_end(chars@.subrange(start as int, end as int)) == trim_end(front),
        decreases end - start,
    {
        assert(chars@.subrange(start as int, end as int).drop_last() == chars@.subrange(
            start as int,
            end - 1,
        ));
        end = end - 1;
    }
    (start, end)
}

/// Is `c` one of the ten ASCII digits?
pub open spec fn is_digit(c: char) -> bool {
    48 <= c as u32 <= 57
}

/// The number that the digits of `s` spell in decimal.
pub open spec fn decimal_value(s: Seq<char>) -> nat
    decreases s.len(),
{
    if s.len() == 0 {
        0
    } else {
        (decimal_value(s.drop_last()) * 10 + (s.last() as u32 - 48)) as nat
    }
}

/// `s` without one leading `+`.
pub open spec fn without_plus(s: Seq<char>) -> Seq<char> {
    if s.len() > 0 && s[0] == '+' {
        s.skip(1)
    } else {
        s
    }
}

/// What `s` reads as: an optional `+` sign, then only digits, at least one of them, with a value
/// that fits in 32 bits.
pub open spec fn u32_text(s: Seq<char>) -> Option<u32> {
    let digits = without_plus(s);
    if digits.len() > 0 && (forall|i: int| 0 <= i < digits.len() ==> is_digit(#[trigger] digits[i]))
        && decimal_value(digits) <= u32::MAX {
        Some(decimal_value(digits) as u32)
    } else {
        None
    }
}

proof fn lemma_decimal_value_grows(s: Seq<char>, n: int)
    requires
        0 <= n <= s.len(),
        forall|i: int| 0 <= i < s.len() ==> is_digit(#[trigger] s[i]),
    ensures
        decimal_value(s.take(n)) <= decimal_value(s),
    decreases s.len() - n,
{
    if n == s.len() {
        assert(s.take(n) == s);
    } else {
        lemma_decimal_value_grows(s, n + 1);
        assert(s.take(n + 1).drop_last() == s.take(n));
        assert(is_digit(s[n]));
    }
}

/// Reads the span `from..to` of `chars` as a 32-bit number.
pub fn read_u32(chars: &Vec<char>, from: usize, to: usize) -> (value: Option<u32>)
    requires
        from <= to <= chars.len(),
    ensures
        value == u32_text(chars@.subrange(from as int, to as int)),
{
    let ghost whole = chars@.subrange(from as int, to as int);
    let start: usize = if from < to && chars[from] == '+' {
        from + 1
    } else {
        from
    };
    let ghost digits = without_plus(whole);
    assert(digits == chars@.subrange(start as int, to as int));
    if start == to {
        return None;
    }
    let mut at: usize = start;
    let mut value: u64 = 0;
    while at < to
        invariant
            start <= at <= to <= chars.len(),
            start < to,
            whole == chars@.subrange(from as int, to as int),
            digits == chars@.subrange(start as int, to as int),
            digits == without_plus(whole),
            value <= u32::MAX,
            forall|i: int| 0 <= i < at - start ==> is_digit(#[trigger] digits[i]),
            value == decimal_value(digits.take(at - start)),
        decreases to - at,
    {
        let u: u32 = chars[at] as u32;
        assert(digits[at - start] == chars[at as int]);
        if u < 48 || 57 < u {
            assert(!is_digit(digits[at - start]));
            return None;
        }
        value = value * 10 + (u - 48) as u64;
        assert(digits.take(at - start + 1).drop_last() == digits.take(at - start));
        if value > u32::MAX as u64 {
            proof {
                if forall|i: int| 0 <= i < digits.len() ==> is_digit(#[trigger] digits[i]) {
                    lemma_decimal_value_grows(digits, at - start + 1);
                }
            }
            return None;
        }
        at = at + 1;
    }
    assert(digits.take(to - start) == digits);
    Some(value as u32)
}

/// Reading back the decimal digits of a 32-bit number gives the number.
pub proof fn decimal_reads_back(n: u32)
    ensures
        u32_text(decimal_text(n as nat)) == Some(n),
        forall|i: int|
            0 <= i < decimal_text(n as nat).len() ==> is_digit(#[trigger] decimal_text(n as nat)[i]),
{
    lemma_decimal_text(n as nat);
    assert(is_digit(decimal_text(n as nat)[0]));
}

proof fn lemma_decimal_text(n: nat)
    ensures
        decimal_text(n).len() > 0,
        forall|i: int| 0 <= i < decimal_text(n).len() ==> is_digit(#[trigger] decimal_text(n)[i]),
        decimal_value(decimal_text(n)) == n,
    decreases n,
{
    if n < 10 {
        reveal_with_fuel(decimal_value, 2);
    } else {
        lemma_decimal_text(n / 10);
        let text = decimal_text(n);
        assert(text.drop_last() == decimal_text(n / 10));
        assert forall|i: int| 0 <= i < text.len() implies is_digit(#[trigger] text[i]) by {
            if i < text.len() - 1 {
                assert(text[i] == decimal_text(n / 10)[i]);
            }
        }
    }
}

/// The lower-case letter that an ASCII upper-case letter maps to; any other character itself.
pub open spec fn ascii_lower_char(c: char) -> char {
    if 65 <= c as u32 <= 90 {
        (c as u32 + 32) as char
    } else {
        c
    }
}

/// `s` with every ASCII letter in lower case.
pub open spec fn ascii_lower(s: Seq<char>) -> Seq<char> {
    s.map_values(|c: char| ascii_lower_char(c))
}

/// Maps every ASCII letter of `s` to lower case and leaves the other characters unchanged.
pub fn to_ascii_lower(s: &str) -> (lower: String)
    ensures
        lower@ == ascii_lower(s@),
{
    let mut lower = String::new();
    for c in it: s.chars()
        invariant
            lower@ == ascii_lower(it.seq().take(it.index())),
            it.seq() == s@,
    {
        let u: u32 = c as u32;
        let ghost before = it.seq().take(it.index());
        assert(it.seq().take(it.index() + 1) == before.push(c));
        if 65 <= u && u <= 90 {
            lower.push((u as u8 + 32) as char);
        } else {
            lower.push(c);
        }
        assert(lower@ == ascii_lower(before.push(c)));
    }
    lower
}

/// How `{:?}` shows a string: quoted, with the characters escaped that the standard library
/// escapes.
pub uninterp spec fn debug_text(s: Seq<char>) -> Seq<char>;

/// Formats `s` with `{:?}`, through the standard library's `Debug` implementation of `str`.
/// Claimed is only that the outcome depends on nothing but the characters of `s`.
#[verifier::external_body]
pub(crate) fn debug_quoted(s: &str) -> (text: String)
    ensures
        text@ == debug_text(s@),
{
    format!("{s:?}")
}

/// `parts` one after the other, with `separator` between each two.
pub open spec fn joined(parts: Seq<Seq<char>>, separator: Seq<char>) -> Seq<char>
    decreases parts.len(),
{
    if parts.len() == 0 {
        seq![]
    } else if parts.len() == 1 {
        parts[0]
    } else {
        joined(parts.drop_last(), separator) + separator + parts.last()
    }
}

/// The contents of some strings.
pub open spec fn texts(lines: Seq<String>) -> Seq<Seq<char>> {
    lines.map_values(|line: String| line@)
}

/// Joins `lines`, with `separator` between each two.
pub fn join(lines: &Vec<String>, separator: &str) -> (text: String)
    ensures
        text@ == joined(texts(lines@), separator@),
{
    let mut text = String::new();
    let mut at: usize = 0;
    while at < lines.len()
        invariant
            at <= lines.len(),
            text@ == joined(texts(lines@.take(at as int)), separator@),
        decreases lines.len() - at,
    {
        let ghost parts = texts(lines@.take(at + 1));
        assert(parts.drop_last() == texts(lines@.take(at as int)));
        if at > 0 {
            text.append(separator);
        }
        text.append(lines[at].as_str());
        at = at + 1;
    }
    assert(lines@.take(lines.len() as int) == lines@);
    text
}

/// Does `a` come before `b` in the order of the code points?
pub open spec fn precedes(a: Seq<char>, b: Seq<char>) -> bool
    decreases a.len(),
{
    if b.len() == 0 {
        false
    } else if a.len() == 0 {
        true
    } else if a[0] == b[0] {
        precedes(a.skip(1), b.skip(1))
    } else {
        a[0] < b[0]
    }
}

/// No text comes before itself.
pub proof fn lemma_precedes_itself(a: Seq<char>)
    ensures
        !precedes(a, a),
    decreases a.len(),
{
    if a.len() > 0 {
        lemma_precedes_itself(a.skip(1));
    }
}

/// Of two different texts, one comes before the other.
pub proof fn lemma_precedes_total(a: Seq<char>, b: Seq<char>)
    ensures
        precedes(a, b) || precedes(b, a) || a == b,
    decreases a.len(),
{
    if a.len() > 0 && b.len() > 0 {
        if a[0] == b[0] {
            lemma_precedes_total(a.skip(1), b.skip(1));
            if a.skip(1) == b.skip(1) {
                assert(a == seq![a[0]] + a.skip(1));
                assert(b == seq![b[0]] + b.skip(1));
            }
        }
    } else if a.len() == 0 && b.len() == 0 {
        assert(a == b);
    }
}

/// What comes before something comes before all that follows it.
pub proof fn lemma_precedes_transitive(a: Seq<char>, b: Seq<char>, c: Seq<char>)
    requires
        precedes(a, b),
        precedes(b, c),
    ensures
        precedes(a, c),
    decreases a.len(),
{
    if a.len() > 0 && a[0] == b[0] && b[0] == c[0] {
        lemma_precedes_transitive(a.skip(1), b.skip(1), c.skip(1));
    }
}

/// Does `a` come before `b` in the order of the code points?
pub fn comes_before(a: &str, b: &str) -> (before: bool)
    ensures
        before == precedes(a@, b@),
{
    let x = chars_of(a);
    let y = chars_of(b);
    let mut at: usize = 0;
    assert(x@.skip(0) == a@ && y@.skip(0) == b@);
    while at < x.len() && at < y.len() && x[at] == y[at]
        invariant
            at <= x.len(),
            at <= y.len(),
            precedes(x@.skip(at as int), y@.skip(at as int)) == precedes(a@, b@),
        decreases x.len() - at,
    {
        assert(x@.skip(at as int).skip(1) == x@.skip(at + 1));
        assert(y@.skip(at as int).skip(1) == y@.skip(at + 1));
        at = at + 1;
    }
    if at == y.len() {
        false
    } else if at == x.len() {
        true
    } else {
        x[at] < y[at]
    }
}

/// Two spans of text that are equal character by character.
pub fn same_text(a: &str, b: &str) -> (same: bool)
    ensures
        same == (a@ == b@),
{
    let x = chars_of(a);
    let y = chars_of(b);
    if x.len() != y.len() {
        return false;
    }
    let mut at: usize = 0;
    while at < x.len()
        invariant
            at <= x.len(),
            x.len() == y.len(),
            x@ == a@,
            y@ == b@,
            forall|i: int| 0 <= i < at ==> x[i] == y[i],
        decreases x.len() - at,
    {
        if x[at] != y[at] {
            return false;
        }
        at = at + 1;
    }
    assert(a@ == b@);
    true
}

/// A number is written digit by digit: one digit for a number below ten, and otherwise the number
/// without its last digit, followed by that digit.
pub proof fn numbers_are_written_digit_by_digit(n: u64, text: String, shorter: String)
    requires
        call_ensures(decimal, (n,), text),
        call_ensures(decimal, ((n / 10) as u64,), shorter),
    ensures
        text@.len() > 0,
        text@.last() as u32 == 48 + n % 10,
        n < 10 ==> text@.len() == 1,
        n >= 10 ==> text@.drop_last() == shorter@,
{
    lemma_decimal_text(n as nat);
    if n >= 10 {
        assert(decimal_text(n as nat).drop_last() == decimal_text((n / 10) as nat));
    }
}

/// The digits of a number of any size: one for a number below ten, and otherwise those of the number
/// without its last digit, followed by that digit.
pub proof fn decimal_text_is_positional(n: nat)
    ensures
        decimal_text(n).len() > 0,
        decimal_text(n).last() as u32 == 48 + n % 10,
        n < 10 ==> decimal_text(n).len() == 1,
        n >= 10 ==> decimal_text(n).drop_last() == decimal_text(n / 10),
{
    if n >= 10 {
        assert(decimal_text(n).drop_last() == decimal_text(n / 10));
    }
}

/// A negative number is written as a minus sign and then the number without its sign; any other one
/// without a sign.
pub proof fn only_negative_numbers_have_a_sign(i: i64, text: String)
    requires
        call_ensures(integer, (i,), text),
    ensures
        i >= 0 ==> text@ == decimal_text(i as nat),
        i < 0 ==> text@.len() > 0 && text@[0] == '-' && text@.skip(1) == decimal_text((-i) as nat),
{
    reveal_strlit("-");
    if i < 0 {
        assert(text@.skip(1) == decimal_text((-i) as nat));
    }
}

/// Every digit counts ten times what it would count one place further on.
pub proof fn digits_count_by_their_place(digits: Seq<char>, last: char)
    requires
        is_digit(last),
    ensures
        decimal_value(Seq::<char>::empty()) == 0,
        decimal_value(digits.push(last)) == decimal_value(digits) * 10 + (last as u32 - 48),
        '0' <= last <= '9',
{
    assert(digits.push(last).drop_last() == digits);
}

/// A text reads as a number exactly if it is made of ASCII digits, at least one, with or without one
/// plus sign before them, and the number fits in 32 bits; it is then the number that they spell.
pub proof fn only_digits_read_as_a_number(chars: &Vec<char>, from: usize, to: usize, value: Option<u32>)
    requires
        from <= to <= chars@.len(),
        call_ensures(read_u32, (chars, from, to), value),
    ensures
        ({
            let start = if from < to && chars@[from as int] == '+' {
                from + 1
            } else {
                from as int
            };
            let digits = chars@.subrange(start, to as int);
            let readable = start < to && (forall|i: int|
                start <= i < to ==> '0' <= #[trigger] chars@[i] <= '9');
            value == if readable && decimal_value(digits) <= u32::MAX {
                Some(decimal_value(digits) as u32)
            } else {
                None
            }
        }),
{
    let whole = chars@.subrange(from as int, to as int);
    let start = if from < to && chars@[from as int] == '+' {
        from + 1
    } else {
        from as int
    };
    let digits = chars@.subrange(start, to as int);
    assert(without_plus(whole) == digits);
    if forall|i: int| 0 <= i < digits.len() ==> is_digit(#[trigger] digits[i]) {
        assert forall|i: int| start <= i < to implies '0' <= #[trigger] chars@[i] <= '9' by {
            assert(digits[i - start] == chars@[i]);
            lemma_digit(chars@[i]);
        }
    }
    if forall|i: int| start <= i < to ==> '0' <= #[trigger] chars@[i] <= '9' {
        assert forall|i: int| 0 <= i < digits.len() implies is_digit(#[trigger] digits[i]) by {
            assert(digits[i] == chars@[start + i]);
        }
    }
}

proof fn lemma_digit(c: char)
    ensures
        is_digit(c) <==> '0' <= c <= '9',
{
}

proof fn lemma_lower(c: char)
    ensures
        if 'A' <= c <= 'Z' {
            ascii_lower_char(c) as u32 == c as u32 + 32
        } else {
            ascii_lower_char(c) == c
        },
{
}

/// White space is what Unicode says it is: the tab, the line breaks, the spaces of all widths, and
/// the separators of lines and paragraphs.
pub proof fn white_space_is_what_unicode_says(c: char, yes: bool)
    requires
        call_ensures(white_space, (c,), yes),
    ensures
        yes == is_white_space(c),
        yes <==> {
            ||| '\u{9}' <= c <= '\u{d}'
            ||| c == ' '
            ||| c == '\u{85}'
            ||| c == '\u{a0}'
            ||| c == '\u{1680}'
            ||| '\u{2000}' <= c <= '\u{200a}'
            ||| c == '\u{2028}'
            ||| c == '\u{2029}'
            ||| c == '\u{202f}'
            ||| c == '\u{205f}'
            ||| c == '\u{3000}'
        },
{
}

/// Is `part` what is left of `s` without the characters before `k` and from `l` on, all of which are
/// white space, and does it neither start nor end with white space?
pub open spec fn cut_to(s: Seq<char>, part: Seq<char>, k: int, l: int) -> bool {
    &&& 0 <= k <= l <= s.len()
    &&& part == s.subrange(k, l)
    &&& forall|i: int| 0 <= i < k || l <= i < s.len() ==> is_white_space(#[trigger] s[i])
    &&& k < l ==> !is_white_space(s[k]) && !is_white_space(s[l - 1])
}

/// Only the white space around a text is cut away, and all of it.
pub proof fn trimming_cuts_only_the_white_space_around(s: Seq<char>)
    ensures
        exists|k: int, l: int| cut_to(s, trimmed(s), k, l),
{
    let k = lemma_trim_start(s);
    let front = trim_start(s);
    let l = lemma_trim_end(front);
    assert(front.take(l) == s.subrange(k, k + l));
    assert forall|i: int| 0 <= i < k || k + l <= i < s.len() implies is_white_space(
        #[trigger] s[i],
    ) by {
        if i >= k {
            assert(front[i - k] == s[i]);
        }
    }
    if l > 0 {
        assert(front[0] == s[k] && front[l - 1] == s[k + l - 1]);
    }
    assert(cut_to(s, trimmed(s), k, k + l));
}

proof fn lemma_trim_start(s: Seq<char>) -> (k: int)
    ensures
        0 <= k <= s.len(),
        trim_start(s) == s.skip(k),
        forall|i: int| 0 <= i < k ==> is_white_space(#[trigger] s[i]),
        k < s.len() ==> !is_white_space(s[k]),
    decreases s.len(),
{
    if s.len() > 0 && is_white_space(s[0]) {
        let rest = s.skip(1);
        let k = lemma_trim_start(rest);
        assert(rest.skip(k) == s.skip(k + 1));
        assert forall|i: int| 0 <= i < k + 1 implies is_white_space(#[trigger] s[i]) by {
            if i > 0 {
                assert(rest[i - 1] == s[i]);
            }
        }
        k + 1
    } else {
        assert(s.skip(0) == s);
        0
    }
}

proof fn lemma_trim_end(s: Seq<char>) -> (l: int)
    ensures
        0 <= l <= s.len(),
        trim_end(s) == s.take(l),
        forall|i: int| l <= i < s.len() ==> is_white_space(#[trigger] s[i]),
        l > 0 ==> !is_white_space(s[l - 1]),
    decreases s.len(),
{
    if s.len() > 0 && is_white_space(s.last()) {
        let rest = s.drop_last();
        let l = lemma_trim_end(rest);
        assert(rest.take(l) == s.take(l));
        assert forall|i: int| l <= i < s.len() implies is_white_space(#[trigger] s[i]) by {
            if i < rest.len() {
                assert(rest[i] == s[i]);
            }
        }
        l
    } else {
        assert(s.take(s.len() as int) == s);
        s.len() as int
    }
}

/// The span that is left after trimming holds what is left of the text.
pub proof fn trimmed_span_holds_the_rest(
    chars: &Vec<char>,
    from: usize,
    to: usize,
    span: (usize, usize),
)
    requires
        from <= to <= chars@.len(),
        call_ensures(trim, (chars, from, to), span),
    ensures
        from <= span.0 <= span.1 <= to,
        exists|k: int, l: int|
            cut_to(
                chars@.subrange(from as int, to as int),
                chars@.subrange(span.0 as int, span.1 as int),
                k,
                l,
            ),
{
    trimming_cuts_only_the_white_space_around(chars@.subrange(from as int, to as int));
}

/// In lower case, each of the letters `A` to `Z` is its small counterpart, and every other character
/// is as it was.
pub proof fn lower_case_changes_only_ascii_capitals(s: &str, lower: String)
    requires
        call_ensures(to_ascii_lower, (s,), lower),
    ensures
        lower@ == ascii_lower(s@),
        lower@.len() == s@.len(),
        forall|i: int|
            0 <= i < s@.len() ==> if 'A' <= s@[i] <= 'Z' {
                (#[trigger] lower@[i]) as u32 == s@[i] as u32 + 32
            } else {
                lower@[i] == s@[i]
            },
{
    assert forall|i: int| 0 <= i < s@.len() implies if 'A' <= s@[i] <= 'Z' {
        (#[trigger] lower@[i]) as u32 == s@[i] as u32 + 32
    } else {
        lower@[i] == s@[i]
    } by {
        lemma_lower(s@[i]);
        assert(lower@[i] == ascii_lower_char(s@[i]));
    }
}

/// Joined parts stand one after the other, with the separator between each two, and nowhere else.
pub proof fn separators_stand_between_parts(parts: Seq<Seq<char>>, last: Seq<char>, separator: Seq<char>)
    ensures
        joined(Seq::<Seq<char>>::empty(), separator) == Seq::<char>::empty(),
        joined(parts.push(last), separator) == if parts.len() == 0 {
            last
        } else {
            joined(parts, separator) + separator + last
        },
{
    assert(parts.push(last).drop_last() == parts);
}

/// Joining lines joins their texts, in order.
pub proof fn lines_are_joined_in_order(lines: &Vec<String>, separator: &str, text: String)
    requires
        call_ensures(join, (lines, separator), text),
    ensures
        text@ == joined(lines@.map_values(|line: String| line@), separator@),
        texts(lines@).len() == lines@.len(),
        forall|i: int| 0 <= i < lines@.len() ==> #[trigger] texts(lines@)[i] == lines@[i]@,
{
}

/// The order of texts is that of their first difference: a text comes before those that it begins, and
/// otherwise the smaller character decides.
pub proof fn first_difference_decides(a: Seq<char>, b: Seq<char>, at: int)
    requires
        0 <= at <= a.len(),
        at <= b.len(),
        forall|i: int| 0 <= i < at ==> a[i] == b[i],
        at < a.len() && at < b.len() ==> a[at] != b[at],
    ensures
        precedes(a, b) <==> at < b.len() && (at == a.len() || a[at] < b[at]),
    decreases at,
{
    if at > 0 {
        assert(a[0] == b[0]);
        assert forall|i: int| 0 <= i < at - 1 implies a.skip(1)[i] == b.skip(1)[i] by {
            assert(a[i + 1] == b[i + 1]);
        }
        first_difference_decides(a.skip(1), b.skip(1), at - 1);
    }
}

/// Comparing and copying texts goes by their characters.
pub proof fn texts_compare_by_their_characters(
    a: &str,
    b: &str,
    before: bool,
    same: bool,
    chars: Vec<char>,
)
    requires
        call_ensures(comes_before, (a, b), before),
        call_ensures(same_text, (a, b), same),
        call_ensures(chars_of, (a,), chars),
    ensures
        before == precedes(a@, b@),
        same <==> a@ == b@,
        chars@ == a@,
{
}

} // verus!
