//! Text primitives: exact models of the string operations that the rules are written in.

use vstd::prelude::*;
use vstd::utf8::encode_utf8;

verus! {

/// Whether `c` is an ASCII decimal digit.
pub open spec fn is_digit(c: char) -> bool {
    48 <= c as int <= 57
}

/// Whether `c` is an ASCII letter or digit.
pub open spec fn is_alphanumeric(c: char) -> bool {
    ||| is_digit(c)
    ||| 65 <= c as int <= 90
    ||| 97 <= c as int <= 122
}

/// The number of bytes that `text` takes in UTF-8.
pub open spec fn byte_len(text: Seq<char>) -> nat {
    encode_utf8(text).len()
}

/// The code point of `c`.
pub fn code_point(c: char) -> (r: u32)
    ensures
        r == c as int,
{
    c as u32
}

/// Collects the characters of `value`.
pub fn chars_of(value: &str) -> (out: Vec<char>)
    ensures
        out@ == value@,
{
    let mut out: Vec<char> = Vec::new();
    for c in it: value.chars()
        invariant
            out@ == it.seq().take(it.index()),
            it.seq() == value@,
    {
        out.push(c);
    }
    out
}

/// Counts the bytes of `value` in UTF-8.
pub fn byte_count(value: &str) -> (r: usize)
    ensures
        r == byte_len(value@),
{
    value.as_bytes().len()
}

/// Whether `text` is ASCII alone.
pub open spec fn is_ascii_text(text: Seq<char>) -> bool {
    forall|i: int| 0 <= i < text.len() ==> 0 <= (#[trigger] text[i] as int) < 128
}

/// The bytes of an ASCII text, one for each character; `None` for any other text.
pub fn ascii_bytes(value: &str) -> (r: Option<&[u8]>)
    ensures
        r is Some == is_ascii_text(value@),
        r is Some ==> r->0@ == Seq::new(value@.len(), |i: int| value@[i] as u8),
        r is Some ==> byte_len(value@) == value@.len(),
{
    if value.is_ascii() {
        Some(value.as_bytes())
    } else {
        assert(!vstd::utf8::is_ascii_chars(value@));
        None
    }
}

/// Compares two texts.
pub fn same(a: &str, b: &str) -> (r: bool)
    ensures
        r == (a@ == b@),
{
    let left = a.as_bytes();
    let right = b.as_bytes();
    proof {
        vstd::utf8::encode_utf8_decode_utf8(a@);
        vstd::utf8::encode_utf8_decode_utf8(b@);
    }
    if left.len() != right.len() {
        return false;
    }
    let mut i: usize = 0;
    while i < left.len()
        invariant
            i <= left@.len(),
            left@.len() == right@.len(),
            left@ == encode_utf8(a@),
            right@ == encode_utf8(b@),
            left@.take(i as int) == right@.take(i as int),
        decreases left@.len() - i,
    {
        if left[i] != right[i] {
            return false;
        }
        assert(left@.take(i + 1) == left@.take(i as int).push(left@[i as int]));
        assert(right@.take(i + 1) == right@.take(i as int).push(right@[i as int]));
        i += 1;
    }
    assert(left@.take(i as int) == left@);
    assert(right@.take(i as int) == right@);
    true
}

/// Compares two byte strings.
pub fn same_bytes(a: &[u8], b: &[u8]) -> (r: bool)
    ensures
        r == (a@ == b@),
{
    if a.len() != b.len() {
        return false;
    }
    let mut i: usize = 0;
    while i < a.len()
        invariant
            i <= a@.len(),
            a@.len() == b@.len(),
            forall|j: int| 0 <= j < i ==> a@[j] == b@[j],
        decreases a@.len() - i,
    {
        if a[i] != b[i] {
            return false;
        }
        i += 1;
    }
    assert(a@ == b@);
    true
}

/// Whether `prefix` begins `value`.
pub fn starts_with(value: &str, prefix: &str) -> (r: bool)
    ensures
        r == prefix@.is_prefix_of(value@),
{
    let whole = chars_of(value);
    let head = chars_of(prefix);
    if head.len() > whole.len() {
        return false;
    }
    let mut i: usize = 0;
    while i < head.len()
        invariant
            i <= head@.len() <= whole@.len(),
            head@ == prefix@,
            whole@ == value@,
            forall|j: int| 0 <= j < i ==> head@[j] == whole@[j],
        decreases head@.len() - i,
    {
        if head[i] != whole[i] {
            return false;
        }
        i += 1;
    }
    true
}

/// Whether `c` is a control character: the Unicode category Cc.
pub open spec fn is_control(c: char) -> bool {
    c as int <= 0x1f || 0x7f <= c as int <= 0x9f
}

/// Decides [`is_control`].
pub fn control(c: char) -> (r: bool)
    ensures
        r == is_control(c),
{
    let code: u32 = c as u32;
    code <= 0x1f || (0x7f <= code && code <= 0x9f)
}

/// Whether `c` has the Unicode property White_Space.
pub open spec fn is_white_space(c: char) -> bool {
    let code = c as int;
    ||| 0x09 <= code <= 0x0d
    ||| code == 0x20
    ||| code == 0x85
    ||| code == 0xa0
    ||| code == 0x1680
    ||| 0x2000 <= code <= 0x200a
    ||| code == 0x2028
    ||| code == 0x2029
    ||| code == 0x202f
    ||| code == 0x205f
    ||| code == 0x3000
}

/// Decides [`is_white_space`].
pub fn white_space(c: char) -> (r: bool)
    ensures
        r == is_white_space(c),
{
    let code: u32 = c as u32;
    (0x09 <= code && code <= 0x0d) || code == 0x20 || code == 0x85 || code == 0xa0 || code == 0x1680
        || (0x2000 <= code && code <= 0x200a) || code == 0x2028 || code == 0x2029 || code == 0x202f
        || code == 0x205f || code == 0x3000
}

/// `text` without its leading white space.
pub open spec fn trim_start(text: Seq<char>) -> Seq<char>
    decreases text.len(),
{
    if text.len() > 0 && is_white_space(text[0]) {
        trim_start(text.skip(1))
    } else {
        text
    }
}

/// `text` without its trailing white space.
pub open spec fn trim_end(text: Seq<char>) -> Seq<char>
    decreases text.len(),
{
    if text.len() > 0 && is_white_space(text.last()) {
        trim_end(text.drop_last())
    } else {
        text
    }
}

/// `text` without the white space at its two ends.
pub open spec fn trim_text(text: Seq<char>) -> Seq<char> {
    trim_end(trim_start(text))
}

/// The pieces of `text` between the occurrences of `separator`, in order; one piece where it
/// does not occur.
pub open spec fn split_text(text: Seq<char>, separator: char) -> Seq<Seq<char>>
    decreases text.len(),
{
    if text.len() == 0 {
        seq![Seq::empty()]
    } else {
        let pieces = split_text(text.drop_last(), separator);
        if text.last() == separator {
            pieces.push(Seq::empty())
        } else {
            pieces.drop_last().push(pieces.last().push(text.last()))
        }
    }
}

/// The number that a run of decimal digits writes.
pub open spec fn digits_value(digits: Seq<char>) -> nat
    decreases digits.len(),
{
    if digits.len() == 0 {
        0
    } else {
        digits_value(digits.drop_last()) * 10 + (digits.last() as int - 48) as nat
    }
}

/// What follows the sign of a written integer.
pub open spec fn unsigned_part(text: Seq<char>) -> Seq<char> {
    if text.len() > 0 && (text[0] == '-' || text[0] == '+') {
        text.skip(1)
    } else {
        text
    }
}

/// The integer that `text` writes with an optional sign and the sign's magnitude.
pub open spec fn signed_value(text: Seq<char>) -> int {
    if text.len() > 0 && text[0] == '-' {
        -(digits_value(unsigned_part(text)) as int)
    } else {
        digits_value(unsigned_part(text)) as int
    }
}

/// The 64-bit integer that `text` writes: an optional sign and one or more decimal digits, in
/// range.
pub open spec fn integer_text(text: Seq<char>) -> Option<int> {
    if unsigned_part(text).len() > 0 && (forall|i: int|
        0 <= i < unsigned_part(text).len() ==> is_digit(#[trigger] unsigned_part(text)[i]))
        && i64::MIN <= signed_value(text) <= i64::MAX {
        Some(signed_value(text))
    } else {
        None
    }
}

proof fn lemma_digits_value_grows(digits: Seq<char>, n: int)
    requires
        0 <= n <= digits.len(),
    ensures
        digits_value(digits.take(n)) <= digits_value(digits),
    decreases digits.len() - n,
{
    if n < digits.len() {
        lemma_digits_value_grows(digits, n + 1);
        assert(digits.take(n + 1).drop_last() == digits.take(n));
    } else {
        assert(digits.take(n) == digits);
    }
}

/// Reads a 64-bit integer.
pub fn parse_i64(value: &str) -> (r: Option<i64>)
    ensures
        r is Some == integer_text(value@) is Some,
        r is Some ==> r->0 == integer_text(value@)->0,
{
    let chars = chars_of(value);
    let mut start: usize = 0;
    let mut negative = false;
    if chars.len() > 0 && (chars[0] == '-' || chars[0] == '+') {
        start = 1;
        negative = chars[0] == '-';
    }
    let ghost digits = unsigned_part(value@);
    assert(digits == chars@.skip(start as int));
    if start == chars.len() {
        return None;
    }
    let mut magnitude: i128 = 0;
    let mut i: usize = start;
    while i < chars.len()
        invariant
            start <= i <= chars@.len(),
            start <= 1,
            start < chars@.len(),
            chars@ == value@,
            digits == unsigned_part(value@),
            digits == chars@.skip(start as int),
            negative == (value@.len() > 0 && value@[0] == '-'),
            0 <= magnitude <= 9223372036854775808,
            magnitude == digits_value(digits.take(i - start)),
            forall|j: int| 0 <= j < i - start ==> is_digit(#[trigger] digits[j]),
        decreases chars@.len() - i,
    {
        let c: char = chars[i];
        let code: u32 = code_point(c);
        assert(digits[i - start] == chars@[i as int]);
        if code < 48 || code > 57 {
            assert(!is_digit(digits[i - start]));
            return None;
        }
        assert(digits.take(i + 1 - start).drop_last() == digits.take(i - start));
        magnitude = magnitude * 10 + (code - 48) as i128;
        if magnitude > 9223372036854775808 {
            proof {
                lemma_digits_value_grows(digits, i + 1 - start);
            }
            return None;
        }
        i += 1;
    }
    assert(digits.take(i - start) == digits);
    if negative {
        Some((-magnitude) as i64)
    } else if magnitude == 9223372036854775808 {
        None
    } else {
        Some(magnitude as i64)
    }
}

/// The decimal digits of a natural number.
pub open spec fn natural_text(n: nat) -> Seq<char>
    decreases n,
{
    if n < 10 {
        seq![(48 + n) as char]
    } else {
        natural_text(n / 10).push((48 + n % 10) as char)
    }
}

/// The decimal form of an integer.
pub open spec fn decimal_text(n: int) -> Seq<char> {
    if n < 0 {
        seq!['-'] + natural_text((-n) as nat)
    } else {
        natural_text(n as nat)
    }
}

/// `String::push` of the standard library appends one character.
pub assume_specification[ String::push ](text: &mut String, c: char)
    ensures
        final(text)@ == old(text)@.push(c),
;

fn digit_char(digit: u8) -> (c: char)
    requires
        digit < 10,
    ensures
        c == (48 + digit) as char,
{
    (48 + digit) as char
}

fn push_natural(out: &mut String, n: u64)
    ensures
        final(out)@ == old(out)@ + natural_text(n as nat),
    decreases n,
{
    if n >= 10 {
        push_natural(out, n / 10);
    }
    out.push(digit_char((n % 10) as u8));
    proof {
        if n >= 10 {
            assert(out@ == old(out)@ + natural_text((n / 10) as nat).push((48 + n % 10) as char));
        }
    }
}

/// Writes an integer in decimal.
pub fn decimal(n: i64) -> (r: String)
    ensures
        r@ == decimal_text(n as int),
{
    let mut out = String::new();
    if n < 0 {
        out.push('-');
        push_natural(&mut out, (-(n as i128)) as u64);
        assert(out@ == seq!['-'] + natural_text((-n) as nat));
    } else {
        push_natural(&mut out, n as u64);
    }
    out
}

proof fn lemma_natural_digits(n: nat)
    ensures
        natural_text(n).len() > 0,
        digits_value(natural_text(n)) == n,
        forall|i: int| 0 <= i < natural_text(n).len() ==> is_digit(#[trigger] natural_text(n)[i]),
    decreases n,
{
    if n < 10 {
        let t = natural_text(n);
        assert(t.drop_last().len() == 0);
        assert(digits_value(t.drop_last()) == 0);
        assert(t.last() as int == 48 + n);
    } else {
        lemma_natural_digits(n / 10);
        let t = natural_text(n);
        assert(t.drop_last() == natural_text(n / 10));
        assert(t.last() as int == 48 + n % 10);
    }
}

/// Reading back a written integer gives the integer.
pub proof fn law_decimal_reads_back(n: i64)
    ensures
        integer_text(decimal_text(n as int)) == Some(n as int),
{
    if n < 0 {
        lemma_natural_digits((-n) as nat);
        assert(unsigned_part(decimal_text(n as int)) == natural_text((-n) as nat));
    } else {
        lemma_natural_digits(n as nat);
        let t = natural_text(n as nat);
        assert(is_digit(t[0]));
        assert(unsigned_part(t) == t);
    }
}

/// The texts that a vector of strings holds.
pub open spec fn texts(values: Seq<String>) -> Seq<Seq<char>> {
    values.map_values(|value: String| value@)
}

/// The text of an optional string.
pub open spec fn opt_text(value: Option<String>) -> Option<Seq<char>> {
    match value {
        Some(text) => Some(text@),
        None => None,
    }
}

/// The text of an optional string slice.
pub open spec fn opt_str(value: Option<&str>) -> Option<Seq<char>> {
    match value {
        Some(text) => Some(text@),
        None => None,
    }
}

/// The bytes of an optional byte vector.
pub open spec fn opt_bytes(value: Option<Vec<u8>>) -> Option<Seq<u8>> {
    match value {
        Some(bytes) => Some(bytes@),
        None => None,
    }
}

/// Splits `value` at each `separator`.
pub fn split(value: &str, separator: char) -> (out: Vec<String>)
    ensures
        texts(out@) == split_text(value@, separator),
{
    let chars = chars_of(value);
    let mut out: Vec<String> = Vec::new();
    let mut current = String::new();
    let mut i: usize = 0;
    assert(texts(out@).push(current@) == split_text(value@.take(0), separator));
    while i < chars.len()
        invariant
            i <= chars@.len(),
            chars@ == value@,
            texts(out@).push(current@) == split_text(value@.take(i as int), separator),
        decreases chars@.len() - i,
    {
        let c: char = chars[i];
        let ghost before = texts(out@).push(current@);
        assert(value@.take(i + 1).drop_last() == value@.take(i as int));
        assert(value@.take(i + 1).last() == c);
        assert(before.drop_last() == texts(out@));
        if c == separator {
            let ghost earlier = out@;
            out.push(current);
            current = String::new();
            assert(texts(out@) == texts(earlier).push(before.last()));
            assert(texts(out@) == before);
        } else {
            current.push(c);
        }
        i += 1;
    }
    assert(value@.take(i as int) == value@);
    let ghost earlier = out@;
    out.push(current);
    assert(texts(out@) == texts(earlier).push(current@));
    out
}

/// Removes the white space at the two ends of `value`.
pub fn trim(value: &str) -> (r: &str)
    ensures
        r@ == trim_text(value@),
{
    let chars = chars_of(value);
    let mut start: usize = 0;
    assert(value@.skip(0) == value@);
    while start < chars.len() && white_space(chars[start])
        invariant
            start <= chars@.len(),
            chars@ == value@,
            trim_start(value@) == trim_start(value@.skip(start as int)),
        decreases chars@.len() - start,
    {
        assert(value@.skip(start as int).skip(1) == value@.skip(start + 1));
        start += 1;
    }
    let ghost rest = value@.skip(start as int);
    assert(trim_start(value@) == rest);
    let mut end: usize = chars.len();
    assert(value@.subrange(start as int, end as int) == rest);
    while end > start && white_space(chars[end - 1])
        invariant
            start <= end <= chars@.len(),
            chars@ == value@,
            trim_end(rest) == trim_end(value@.subrange(start as int, end as int)),
        decreases end,
    {
        assert(value@.subrange(start as int, end as int).drop_last() == value@.subrange(
            start as int,
            end - 1,
        ));
        end -= 1;
    }
    value.substring_char(start, end)
}

/// The position of the first `wanted` in `text`, or its length.
pub open spec fn index_of_char(text: Seq<char>, wanted: char) -> int
    decreases text.len(),
{
    if text.len() == 0 || text[0] == wanted {
        0
    } else {
        1 + index_of_char(text.skip(1), wanted)
    }
}

/// Finds the first `wanted` in `value`.
pub fn find_char(value: &str, wanted: char) -> (r: Option<usize>)
    ensures
        0 <= index_of_char(value@, wanted) <= value@.len(),
        r is Some == (index_of_char(value@, wanted) < value@.len()),
        r is Some ==> r->0 == index_of_char(value@, wanted),
{
    let chars = chars_of(value);
    let mut i: usize = 0;
    assert(value@.skip(0) == value@);
    while i < chars.len()
        invariant
            i <= chars@.len(),
            chars@ == value@,
            index_of_char(value@, wanted) == i + index_of_char(value@.skip(i as int), wanted),
        decreases chars@.len() - i,
    {
        if chars[i] == wanted {
            return Some(i);
        }
        assert(value@.skip(i as int).skip(1) == value@.skip(i + 1));
        i += 1;
    }
    None
}

/// Clones an optional string.
pub fn clone_text(value: &Option<String>) -> (r: Option<String>)
    ensures
        r == *value,
{
    match value {
        Some(text) => Some(text.clone()),
        None => None,
    }
}

/// Compares two optional strings.
pub fn same_option(a: &Option<String>, b: &Option<String>) -> (r: bool)
    ensures
        r == (opt_text(*a) == opt_text(*b)),
{
    match (a, b) {
        (Some(a), Some(b)) => same(a.as_str(), b.as_str()),
        (None, None) => true,
        _ => false,
    }
}

/// A text without the separator is one piece; two texts with the separator between them have the
/// pieces of the first and then those of the second.
pub proof fn law_splitting_is_at_separators(a: Seq<char>, b: Seq<char>, separator: char)
    ensures
        !a.contains(separator) ==> split_text(a, separator) == seq![a],
        split_text(a.push(separator) + b, separator) == split_text(a, separator) + split_text(
            b,
            separator,
        ),
        split_text(b, separator).len() > 0,
    decreases a.len() + b.len(),
{
    if a.len() > 0 {
        law_splitting_is_at_separators(a.drop_last(), Seq::empty(), separator);
        if !a.contains(separator) {
            assert(a[a.len() - 1] != separator);
            assert(!a.drop_last().contains(separator)) by {
                if a.drop_last().contains(separator) {
                    let i = choose|i: int| 0 <= i < a.len() - 1 && a.drop_last()[i] == separator;
                    assert(a[i] == separator);
                }
            }
            assert(a.drop_last().push(a.last()) == a);
            assert(seq![a.drop_last()].drop_last().push(seq![a.drop_last()].last().push(a.last()))
                == seq![a]);
        }
    } else {
        assert(a == Seq::<char>::empty());
    }
    let whole = a.push(separator) + b;
    if b.len() == 0 {
        assert(whole == a.push(separator));
        assert(whole.drop_last() == a);
        assert(split_text(a, separator) + seq![Seq::<char>::empty()] == split_text(
            a,
            separator,
        ).push(Seq::empty()));
    } else {
        let c = b.last();
        law_splitting_is_at_separators(a, b.drop_last(), separator);
        assert(whole.drop_last() == a.push(separator) + b.drop_last());
        let first = split_text(a, separator);
        let second = split_text(b.drop_last(), separator);
        if c == separator {
            assert((first + second).push(Seq::empty()) == first + second.push(Seq::empty()));
        } else {
            assert((first + second).drop_last().push((first + second).last().push(c)) == first
                + second.drop_last().push(second.last().push(c)));
        }
    }
}

/// Trimming takes the white space at both ends, and nothing else.
pub proof fn law_trimming_takes_outer_white_space(
    left: Seq<char>,
    core: Seq<char>,
    right: Seq<char>,
)
    requires
        forall|i: int| 0 <= i < left.len() ==> is_white_space(#[trigger] left[i]),
        forall|i: int| 0 <= i < right.len() ==> is_white_space(#[trigger] right[i]),
        core.len() > 0,
        !is_white_space(core[0]),
        !is_white_space(core.last()),
    ensures
        trim_text(left + core + right) == core,
{
    lemma_trim_start(left, core + right);
    assert(left + core + right == left + (core + right));
    lemma_trim_end(core, right);
}

proof fn lemma_trim_start(left: Seq<char>, rest: Seq<char>)
    requires
        forall|i: int| 0 <= i < left.len() ==> is_white_space(#[trigger] left[i]),
        rest.len() > 0,
        !is_white_space(rest[0]),
    ensures
        trim_start(left + rest) == rest,
    decreases left.len(),
{
    if left.len() > 0 {
        assert(is_white_space(left[0]));
        assert((left + rest).skip(1) == left.skip(1) + rest);
        lemma_trim_start(left.skip(1), rest);
    } else {
        assert(left + rest == rest);
    }
}

proof fn lemma_trim_end(rest: Seq<char>, right: Seq<char>)
    requires
        forall|i: int| 0 <= i < right.len() ==> is_white_space(#[trigger] right[i]),
        rest.len() > 0,
        !is_white_space(rest.last()),
    ensures
        trim_end(rest + right) == rest,
    decreases right.len(),
{
    if right.len() > 0 {
        assert(is_white_space(right[right.len() - 1]));
        assert((rest + right).drop_last() == rest + right.drop_last());
        lemma_trim_end(rest, right.drop_last());
    } else {
        assert(rest + right == rest);
    }
}

/// Of the ASCII characters the space and those from the tabulator to the carriage return are white
/// space, and those below the space and the last one are control characters.
pub proof fn law_ascii_classes(c: char)
    requires
        (c as int) < 128,
    ensures
        is_white_space(c) == (c == ' ' || '\t' as int <= c as int <= '\r' as int),
        is_control(c) == ((c as int) < ' ' as int || c as int == 127),
{
}

/// Writing an integer in decimal writes its digits in order, most significant first.
pub proof fn law_decimal_digits(n: nat, digit: int)
    requires
        0 <= digit < 10,
    ensures
        decimal_text(digit) == seq!["0123456789"@[digit]],
        n > 0 ==> decimal_text(10 * n + digit) == decimal_text(n as int) + decimal_text(digit),
        n > 0 ==> decimal_text(-n) == "-"@ + decimal_text(n as int),
{
    reveal_strlit("0123456789");
    reveal_strlit("-");
    assert("-"@ == seq!['-']);
    let m = (10 * n + digit) as nat;
    assert(m / 10 == n && m % 10 == digit);
    assert(natural_text(digit as nat) == seq![(48 + digit) as char]);
    assert("0123456789"@[digit] == (48 + digit) as char);
    if n > 0 {
        assert(natural_text(m) == natural_text(n).push((48 + digit) as char));
        assert(natural_text(n) + natural_text(digit as nat) == natural_text(n).push(
            (48 + digit) as char,
        ));
    }
}

/// A written integer outside 64 bits is none, nor is a text without digits; a plus sign changes
/// nothing.
pub proof fn law_integers_are_bounded(n: int)
    ensures
        (integer_text(decimal_text(n)) == Some(n)) == (i64::MIN <= n <= i64::MAX),
        !(i64::MIN <= n <= i64::MAX) ==> integer_text(decimal_text(n)) is None,
        0 <= n <= i64::MAX ==> integer_text("+"@ + decimal_text(n)) == Some(n),
        integer_text(""@) is None,
        integer_text("-"@) is None,
        integer_text("+"@) is None,
{
    reveal_strlit("+");
    reveal_strlit("-");
    reveal_strlit("");
    assert("+"@ == seq!['+'] && "-"@ == seq!['-'] && ""@ == Seq::<char>::empty());
    assert(unsigned_part("+"@).len() == 0 && unsigned_part("-"@).len() == 0);
    assert(unsigned_part(""@).len() == 0);
    if n < 0 {
        lemma_natural_digits((-n) as nat);
        assert(unsigned_part(decimal_text(n)) == natural_text((-n) as nat));
    } else {
        lemma_natural_digits(n as nat);
        let t = natural_text(n as nat);
        assert(is_digit(t[0]));
        assert(unsigned_part(t) == t);
        assert(unsigned_part("+"@ + t) == t);
    }
}

/// The digits of a written natural number are decimal digits, and there is at least one.
pub proof fn law_naturals_are_digits(n: nat)
    ensures
        decimal_text(n as int).len() > 0,
        forall|i: int|
            0 <= i < decimal_text(n as int).len() ==> '0' as int <= #[trigger] decimal_text(
                n as int,
            )[i] as int <= '9' as int,
{
    lemma_natural_digits(n);
    assert forall|i: int| 0 <= i < decimal_text(n as int).len() implies '0' as int
        <= #[trigger] decimal_text(n as int)[i] as int <= '9' as int by {
        assert(is_digit(natural_text(n)[i]));
    }
}

/// The first of two parts around a character, where the first part does not hold it, ends where
/// the character stands.
pub proof fn law_first_occurrence(before: Seq<char>, wanted: char, after: Seq<char>)
    requires
        !before.contains(wanted),
    ensures
        index_of_char(before.push(wanted) + after, wanted) == before.len(),
        index_of_char(before, wanted) == before.len(),
    decreases before.len(),
{
    if before.len() > 0 {
        assert(before[0] != wanted);
        let rest = before.skip(1);
        assert(!rest.contains(wanted)) by {
            if rest.contains(wanted) {
                let i = choose|i: int| 0 <= i < rest.len() && rest[i] == wanted;
                assert(before[i + 1] == wanted);
            }
        }
        assert((before.push(wanted) + after).skip(1) == rest.push(wanted) + after);
        law_first_occurrence(rest, wanted, after);
    }
}

} // verus!
