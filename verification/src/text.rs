//! Text building blocks: decimal and hexadecimal numerals, trimming, and the visible-ASCII test.
use vstd::prelude::*;
use vstd::string::StrSliceExecFns;

verus! {

/// `String::push` appends one character.
pub assume_specification[ String::push ](s: &mut String, c: char)
    ensures
        final(s)@ == old(s)@.push(c),
;

/// The character of one decimal digit.
pub open spec fn digit_char(d: nat) -> char {
    ((48 + d) as u8) as char
}

/// A number in decimal, without sign or leading zeros.
pub open spec fn decimal(n: nat) -> Seq<char>
    decreases n,
{
    if n < 10 {
        seq![digit_char(n)]
    } else {
        decimal(n / 10).push(digit_char(n % 10))
    }
}

/// Writes `n` in decimal.
pub fn decimal_string(n: u64) -> (r: String)
    ensures
        r@ == decimal(n as nat),
    decreases n,
{
    let mut out = if n < 10 {
        String::new()
    } else {
        decimal_string(n / 10)
    };
    out.push((48 + (n % 10) as u8) as char);
    out
}

/// An ASCII decimal digit.
pub open spec fn is_digit(c: char) -> bool {
    '0' <= c <= '9'
}

/// One or more ASCII decimal digits and nothing else.
pub open spec fn is_numeral(s: Seq<char>) -> bool {
    s.len() > 0 && forall|i: int| 0 <= i < s.len() ==> is_digit(#[trigger] s[i])
}

/// The number that a run of decimal digits stands for.
pub open spec fn numeral_value(s: Seq<char>) -> nat
    decreases s.len(),
{
    if s.len() == 0 {
        0
    } else {
        (numeral_value(s.drop_last()) * 10 + (s.last() as u32 - '0' as u32)) as nat
    }
}

/// The text behind one leading plus sign, if there is one.
pub open spec fn without_plus(s: Seq<char>) -> Seq<char> {
    if s.len() > 0 && s[0] == '+' {
        s.skip(1)
    } else {
        s
    }
}

/// The unsigned 64-bit number that a text spells, if it spells one: an optional plus sign, then
/// decimal digits whose value fits.
pub open spec fn parsed_u64(s: Seq<char>) -> Option<u64> {
    let digits = without_plus(s);
    if is_numeral(digits) && numeral_value(digits) <= u64::MAX {
        Some(numeral_value(digits) as u64)
    } else {
        None
    }
}

/// The characters of a string.
fn characters(s: &str) -> (r: Vec<char>)
    ensures
        r@ == s@,
{
    let mut out: Vec<char> = Vec::new();
    for c in it: s.chars()
        invariant
            it.seq() == s@,
            out@ == s@.take(it.index() as int),
    {
        out.push(c);
    }
    out
}

proof fn lemma_numeral_value_grows(s: Seq<char>, k: int)
    requires
        is_numeral(s),
        0 <= k <= s.len(),
    ensures
        numeral_value(s.take(k)) <= numeral_value(s),
    decreases s.len() - k,
{
    if k < s.len() {
        lemma_numeral_value_grows(s, k + 1);
        assert(s.take(k + 1).drop_last() =~= s.take(k));
        assert(is_digit(s[k]));
    } else {
        assert(s.take(k) =~= s);
    }
}

/// Reads an unsigned 64-bit number: digits with at most one plus sign before them. Anything else,
/// and a number that does not fit, is `None`.
pub fn parse_u64(s: &str) -> (r: Option<u64>)
    ensures
        r == parsed_u64(s@),
{
    let chars = characters(s);
    let first: usize = if chars.len() > 0 && chars[0] == '+' { 1 } else { 0 };
    let ghost digits = without_plus(s@);
    assert(digits == s@.skip(first as int));
    if first == chars.len() {
        return None;
    }
    let mut value: u64 = 0;
    let mut i: usize = first;
    while i < chars.len()
        invariant
            first <= i <= chars.len(),
            digits == chars@.skip(first as int),
            digits == without_plus(s@),
            digits.len() > 0,
            forall|k: int| 0 <= k < i - first ==> is_digit(#[trigger] digits[k]),
            value == numeral_value(digits.take(i - first)),
        decreases chars.len() - i,
    {
        let c = chars[i];
        assert(digits[i - first] == c);
        if !('0' <= c && c <= '9') {
            assert(!is_digit(digits[i - first]));
            return None;
        }
        let digit: u64 = (c as u32 - '0' as u32) as u64;
        let ghost longer = digits.take(i - first + 1);
        assert(longer.drop_last() =~= digits.take(i - first));
        assert(numeral_value(longer) == value * 10 + digit);
        if value > u64::MAX / 10 || (value == u64::MAX / 10 && digit > u64::MAX % 10) {
            proof {
                if is_numeral(digits) {
                    lemma_numeral_value_grows(digits, i - first + 1);
                }
            }
            return None;
        }
        value = value * 10 + digit;
        i += 1;
    }
    assert(digits.take(digits.len() as int) =~= digits);
    Some(value)
}

/// Reading a number back from its decimal form gives the number.
pub proof fn law_decimal_reads_back(n: u64)
    ensures
        parsed_u64(decimal(n as nat)) == Some(n),
{
    lemma_decimal_numeral(n as nat);
    assert(is_digit(decimal(n as nat)[0]));
}

/// The decimal form of a number is a numeral of that value.
pub proof fn lemma_decimal_numeral(n: nat)
    ensures
        is_numeral(decimal(n)),
        numeral_value(decimal(n)) == n,
    decreases n,
{
    if n < 10 {
        let s = decimal(n);
        assert(s.drop_last() =~= Seq::<char>::empty());
        assert(numeral_value(s.drop_last()) == 0);
    } else {
        lemma_decimal_numeral(n / 10);
        let s = decimal(n);
        assert(s.drop_last() =~= decimal(n / 10));
        assert forall|i: int| 0 <= i < s.len() implies is_digit(#[trigger] s[i]) by {
            if i < s.len() - 1 {
                assert(s[i] == decimal(n / 10)[i]);
            }
        }
    }
}

/// One lowercase hexadecimal digit.
pub open spec fn hex_char(d: nat) -> char {
    if d < 10 {
        ((48 + d) as u8) as char
    } else {
        ((87 + d) as u8) as char
    }
}

/// Two lowercase hexadecimal digits for each byte.
pub open spec fn lower_hex(bytes: Seq<u8>) -> Seq<char> {
    Seq::new(
        2 * bytes.len(),
        |i: int|
            hex_char(
                if i % 2 == 0 {
                    (bytes[i / 2] / 16) as nat
                } else {
                    (bytes[i / 2] % 16) as nat
                },
            ),
    )
}

fn hex_digit(d: u8) -> (c: char)
    requires
        d < 16,
    ensures
        c == hex_char(d as nat),
{
    if d < 10 {
        (48 + d) as char
    } else {
        (87 + d) as char
    }
}

/// Writes bytes as lowercase hexadecimal digits.
pub fn lower_hex_string(bytes: &[u8]) -> (r: String)
    ensures
        r@ == lower_hex(bytes@),
{
    let mut out = String::new();
    for i in 0..bytes.len()
        invariant
            out@ == lower_hex(bytes@.take(i as int)),
    {
        let b: u8 = bytes[i];
        out.push(hex_digit(b / 16));
        out.push(hex_digit(b % 16));
        assert(out@ =~= lower_hex(bytes@.take(i + 1)));
    }
    assert(bytes@.take(bytes@.len() as int) =~= bytes@);
    out
}

/// A character with Unicode's `White_Space` property.
pub open spec fn is_white_space(c: char) -> bool {
    let p = c as u32;
    ||| 0x09 <= p <= 0x0d
    ||| p == 0x20
    ||| p == 0x85
    ||| p == 0xa0
    ||| p == 0x1680
    ||| 0x2000 <= p <= 0x200a
    ||| p == 0x2028
    ||| p == 0x2029
    ||| p == 0x202f
    ||| p == 0x205f
    ||| p == 0x3000
}

fn white_space(c: char) -> (r: bool)
    ensures
        r == is_white_space(c),
{
    let p: u32 = c as u32;
    (0x09 <= p && p <= 0x0d) || p == 0x20 || p == 0x85 || p == 0xa0 || p == 0x1680 || (0x2000 <= p
        && p <= 0x200a) || p == 0x2028 || p == 0x2029 || p == 0x202f || p == 0x205f || p == 0x3000
}

/// A text without the white space at its start.
pub open spec fn trimmed_start(s: Seq<char>) -> Seq<char>
    decreases s.len(),
{
    if s.len() > 0 && is_white_space(s[0]) {
        trimmed_start(s.skip(1))
    } else {
        s
    }
}

/// A text without the white space at its end.
pub open spec fn trimmed_end(s: Seq<char>) -> Seq<char>
    decreases s.len(),
{
    if s.len() > 0 && is_white_space(s.last()) {
        trimmed_end(s.drop_last())
    } else {
        s
    }
}

/// A text without the white space at either end.
pub open spec fn trimmed(s: Seq<char>) -> Seq<char> {
    trimmed_end(trimmed_start(s))
}

/// Removes the white space at both ends of `s`.
pub fn trim(s: &str) -> (r: &str)
    ensures
        r@ == trimmed(s@),
{
    let chars = characters(s);
    let mut from: usize = 0;
    assert(s@.skip(0) =~= s@);
    while from < chars.len() && white_space(chars[from])
        invariant
            from <= chars.len(),
            chars@ == s@,
            trimmed_start(s@) == trimmed_start(s@.skip(from as int)),
        decreases chars.len() - from,
    {
        assert(s@.skip(from as int).skip(1) =~= s@.skip(from + 1));
        from += 1;
    }
    let ghost tail = s@.skip(from as int);
    assert(trimmed_start(s@) == tail);
    let mut to: usize = chars.len();
    assert(s@.subrange(from as int, to as int) =~= tail);
    while from < to && white_space(chars[to - 1])
        invariant
            from <= to <= chars.len(),
            chars@ == s@,
            trimmed_end(tail) == trimmed_end(s@.subrange(from as int, to as int)),
        decreases to - from,
    {
        assert(s@.subrange(from as int, to as int).drop_last() =~= s@.subrange(
            from as int,
            to - 1,
        ));
        to -= 1;
    }
    s.substring_char(from, to)
}

/// White space and nothing else.
pub open spec fn is_blank(s: Seq<char>) -> bool {
    forall|i: int| 0 <= i < s.len() ==> is_white_space(#[trigger] s[i])
}

proof fn lemma_trimmed_start_of(before: Seq<char>, s: Seq<char>)
    requires
        is_blank(before),
        s.len() > 0 && !is_white_space(s[0]),
    ensures
        trimmed_start(before + s) == s,
    decreases before.len(),
{
    if before.len() == 0 {
        assert(before + s =~= s);
    } else {
        assert((before + s)[0] == before[0]);
        assert((before + s).skip(1) =~= before.skip(1) + s);
        assert forall|i: int| 0 <= i < before.skip(1).len() implies is_white_space(
            #[trigger] before.skip(1)[i],
        ) by {
            assert(before.skip(1)[i] == before[i + 1]);
        }
        lemma_trimmed_start_of(before.skip(1), s);
    }
}

proof fn lemma_trimmed_end_of(s: Seq<char>, after: Seq<char>)
    requires
        is_blank(after),
        s.len() > 0 && !is_white_space(s.last()),
    ensures
        trimmed_end(s + after) == s,
    decreases after.len(),
{
    if after.len() == 0 {
        assert(s + after =~= s);
    } else {
        assert((s + after).last() == after.last());
        assert((s + after).drop_last() =~= s + after.drop_last());
        lemma_trimmed_end_of(s, after.drop_last());
    }
}

/// Trimming takes the white space around a text away, and nothing of the text.
pub proof fn law_trim_removes_blanks(before: Seq<char>, s: Seq<char>, after: Seq<char>)
    requires
        is_blank(before),
        is_blank(after),
        s.len() > 0 && !is_white_space(s[0]) && !is_white_space(s.last()),
    ensures
        trimmed(before + s + after) == s,
{
    assert(before + s + after =~= before + (s + after));
    assert((s + after)[0] == s[0]);
    lemma_trimmed_start_of(before, s + after);
    lemma_trimmed_end_of(s, after);
}

/// A text without the slashes at its end.
pub open spec fn without_end_slashes(s: Seq<char>) -> Seq<char>
    decreases s.len(),
{
    if s.len() > 0 && s.last() == '/' {
        without_end_slashes(s.drop_last())
    } else {
        s
    }
}

/// Removes every slash at the end of `s`.
pub fn trim_end_slashes(s: &str) -> (r: &str)
    ensures
        r@ == without_end_slashes(s@),
{
    let chars = characters(s);
    let mut to: usize = chars.len();
    assert(s@.take(to as int) =~= s@);
    while 0 < to && chars[to - 1] == '/'
        invariant
            to <= chars.len(),
            chars@ == s@,
            without_end_slashes(s@) == without_end_slashes(s@.take(to as int)),
        decreases to,
    {
        assert(s@.take(to as int).drop_last() =~= s@.take(to - 1));
        to -= 1;
    }
    assert(s@.subrange(0, to as int) =~= s@.take(to as int));
    s.substring_char(0, to)
}

/// A byte that a header value shows as text: a horizontal tab or printable ASCII.
pub open spec fn is_visible(b: u8) -> bool {
    32 <= b < 127 || b == 9
}

/// The text of a header value, which has one only if every byte of it is visible.
pub open spec fn visible_text(bytes: Seq<u8>) -> Option<Seq<char>> {
    if forall|i: int| 0 <= i < bytes.len() ==> is_visible(#[trigger] bytes[i]) {
        Some(bytes.map_values(|b: u8| b as char))
    } else {
        None
    }
}

/// Reads the bytes of a header value as text.
pub fn visible_ascii(bytes: &[u8]) -> (r: Option<String>)
    ensures
        r is Some == visible_text(bytes@) is Some,
        r matches Some(s) ==> visible_text(bytes@) == Some(s@),
{
    let mut out = String::new();
    for i in 0..bytes.len()
        invariant
            forall|k: int| 0 <= k < i ==> is_visible(#[trigger] bytes@[k]),
            out@ == bytes@.take(i as int).map_values(|b: u8| b as char),
    {
        let b: u8 = bytes[i];
        if !((32 <= b && b < 127) || b == 9) {
            assert(!is_visible(bytes@[i as int]));
            return None;
        }
        out.push(b as char);
        assert(out@ =~= bytes@.take(i + 1).map_values(|b: u8| b as char));
    }
    assert(bytes@.take(bytes@.len() as int) =~= bytes@);
    Some(out)
}

/// A digit behind a run of digits makes it ten times the number, and the digit more.
pub proof fn law_digits_have_place_value(s: Seq<char>, c: char)
    requires
        '0' <= c <= '9',
    ensures
        numeral_value(Seq::empty()) == 0,
        numeral_value(s.push(c)) == 10 * numeral_value(s) + (c as u32 - 48),
{
    assert(s.push(c).drop_last() =~= s);
}

/// The decimal form starts with a zero for the number zero alone.
proof fn lemma_decimal_starts_with_no_zero(n: nat)
    ensures
        decimal(n).len() > 0,
        decimal(n)[0] == '0' ==> n == 0,
    decreases n,
{
    if n >= 10 {
        lemma_decimal_starts_with_no_zero(n / 10);
        assert(decimal(n)[0] == decimal(n / 10)[0]);
    }
}

/// The text is the number in decimal: digits alone, without a zero before the first that counts,
/// and their value is the number.
pub open spec fn spells_number(s: Seq<char>, n: nat) -> bool {
    &&& s.len() > 0
    &&& forall|i: int| 0 <= i < s.len() ==> '0' <= #[trigger] s[i] <= '9'
    &&& numeral_value(s) == n
    &&& s[0] == '0' ==> s.len() == 1
}

/// The decimal form spells the number.
pub proof fn lemma_decimal_spells_the_number(n: nat)
    ensures
        spells_number(decimal(n), n),
{
    lemma_decimal_numeral(n);
    lemma_decimal_starts_with_no_zero(n);
    let s = decimal(n);
    assert forall|i: int| 0 <= i < s.len() implies '0' <= #[trigger] s[i] <= '9' by {
        assert(is_digit(s[i]));
    }
    if s[0] == '0' {
        assert(n == 0);
    }
}

/// A number is spelled in one way.
pub proof fn lemma_spelling_is_unique(s: Seq<char>, n: nat)
    requires
        spells_number(s, n),
    ensures
        s == decimal(n),
    decreases s.len(),
{
    let head = s.drop_last();
    let digit = (s.last() as u32 - '0' as u32) as nat;
    assert('0' <= s[s.len() - 1] <= '9');
    if s.len() == 1 {
        assert(numeral_value(head) == 0);
        assert(s =~= seq![digit_char(n)]);
    } else {
        assert forall|i: int| 0 <= i < head.len() implies '0' <= #[trigger] head[i] <= '9' by {
            assert(head[i] == s[i]);
        }
        assert(head[0] == s[0]);
        let tens = numeral_value(head);
        assert(spells_number(head, tens));
        lemma_spelling_is_unique(head, tens);
        assert(n == tens * 10 + digit);
        if tens == 0 {
            assert(head == decimal(0));
        }
        assert(n >= 10 && n / 10 == tens && n % 10 == digit);
        assert(s =~= decimal(n / 10).push(digit_char(n % 10)));
    }
}

/// A number is written in decimal digits alone, without a zero before the first that counts, and
/// their value is the number.
pub proof fn law_decimal_string_spells_the_number(n: u64, r: String)
    requires
        call_ensures(decimal_string, (n,), r),
    ensures
        r@.len() > 0,
        forall|i: int| 0 <= i < r@.len() ==> '0' <= #[trigger] r@[i] <= '9',
        numeral_value(r@) == n,
        r@[0] == '0' ==> r@.len() == 1,
{
    lemma_decimal_spells_the_number(n as nat);
}

/// Two numbers are written alike only if they are the same.
pub proof fn law_decimal_strings_tell_numbers_apart(n: u64, m: u64, r: String, q: String)
    requires
        call_ensures(decimal_string, (n,), r),
        call_ensures(decimal_string, (m,), q),
        r@ == q@,
    ensures
        n == m,
{
    lemma_decimal_numeral(n as nat);
    lemma_decimal_numeral(m as nat);
}

/// What is written as a number is read as that number.
pub proof fn law_written_numbers_are_read_back(n: u64, text: String, s: &str, r: Option<u64>)
    requires
        call_ensures(decimal_string, (n,), text),
        s@ == text@,
        call_ensures(parse_u64, (s,), r),
    ensures
        r == Some(n),
{
    law_decimal_reads_back(n);
}

/// Reading a number takes decimal digits, with one plus sign before them or none, up to the largest
/// number of 64 bits; it takes nothing else.
pub proof fn law_numbers_that_are_read(s: &str, digits: Seq<char>, r: Option<u64>)
    requires
        call_ensures(parse_u64, (s,), r),
        digits == (if s@.len() > 0 && s@[0] == '+' {
            s@.skip(1)
        } else {
            s@
        }),
    ensures
        digits.len() == 0 ==> r is None,
        forall|i: int|
            0 <= i < digits.len() && !('0' <= #[trigger] digits[i] <= '9') ==> r is None,
        digits.len() > 0 && (forall|i: int|
            0 <= i < digits.len() ==> '0' <= #[trigger] digits[i] <= '9') ==> {
            &&& r is Some <==> numeral_value(digits) <= 0xffff_ffff_ffff_ffff
            &&& r is Some ==> r->0 == numeral_value(digits)
        },
{
    assert(digits == without_plus(s@));
    if exists|i: int| 0 <= i < digits.len() && !('0' <= #[trigger] digits[i] <= '9') {
        let i = choose|i: int| 0 <= i < digits.len() && !('0' <= #[trigger] digits[i] <= '9');
        assert(!is_digit(digits[i]));
    }
    if digits.len() > 0 && (forall|i: int|
        0 <= i < digits.len() ==> '0' <= #[trigger] digits[i] <= '9') {
        assert forall|i: int| 0 <= i < digits.len() implies is_digit(#[trigger] digits[i]) by {}
    }
}

proof fn lemma_hex_pair(b: u8)
    ensures
        lower_hex_value(hex_char((b / 16) as nat)) == b / 16,
        lower_hex_value(hex_char((b % 16) as nat)) == b % 16,
        is_lower_hex_digit(hex_char((b / 16) as nat)),
        is_lower_hex_digit(hex_char((b % 16) as nat)),
{
}

/// A lowercase hexadecimal digit.
pub open spec fn is_lower_hex_digit(c: char) -> bool {
    '0' <= c <= '9' || 'a' <= c <= 'f'
}

/// The value of a lowercase hexadecimal digit.
pub open spec fn lower_hex_value(c: char) -> int {
    if c <= '9' {
        c as u32 - '0' as u32
    } else {
        c as u32 - 'a' as u32 + 10
    }
}

/// The text is the bytes in lowercase hexadecimal, two digits for each byte.
pub open spec fn spells_bytes(text: Seq<char>, bytes: Seq<u8>) -> bool {
    &&& text.len() == 2 * bytes.len()
    &&& forall|i: int| 0 <= i < text.len() ==> is_lower_hex_digit(#[trigger] text[i])
    &&& forall|k: int|
        0 <= k < bytes.len() ==> lower_hex_value(text[2 * k]) * 16 + lower_hex_value(
            text[2 * k + 1],
        ) == #[trigger] bytes[k]
}

/// The hexadecimal form spells the bytes.
pub proof fn lemma_hex_spells_bytes(bytes: Seq<u8>)
    ensures
        spells_bytes(lower_hex(bytes), bytes),
{
    let text = lower_hex(bytes);
    assert forall|i: int| 0 <= i < text.len() implies is_lower_hex_digit(#[trigger] text[i]) by {
        lemma_hex_pair(bytes[i / 2]);
    }
    assert forall|k: int| 0 <= k < bytes.len() implies lower_hex_value(text[2 * k]) * 16
        + lower_hex_value(text[2 * k + 1]) == #[trigger] bytes[k] by {
        lemma_hex_pair(bytes[k]);
        assert((2 * k) / 2 == k && (2 * k + 1) / 2 == k);
        assert((2 * k) % 2 == 0 && (2 * k + 1) % 2 == 1);
    }
}

/// Each byte is written as two lowercase hexadecimal digits, the one of more weight first, in the
/// order of the bytes.
pub proof fn law_hex_digits_spell_the_bytes(bytes: &[u8], r: String)
    requires
        call_ensures(lower_hex_string, (bytes,), r),
    ensures
        spells_bytes(r@, bytes@),
{
    lemma_hex_spells_bytes(bytes@);
}

/// White space in ASCII is the space, the tab, the line feed, the vertical tab, the form feed and
/// the carriage return; beyond ASCII it is these nineteen characters.
pub proof fn law_white_space_characters(c: char)
    ensures
        (c as u32) < 128 ==> (is_white_space(c) <==> (c == ' ' || c == '\t' || c == '\n' || c
            == '\u{b}' || c == '\u{c}' || c == '\r')),
        (c as u32) >= 128 ==> (is_white_space(c) <==> (c == '\u{85}' || c == '\u{a0}' || c
            == '\u{1680}' || c == '\u{2000}' || c == '\u{2001}' || c == '\u{2002}' || c
            == '\u{2003}' || c == '\u{2004}' || c == '\u{2005}' || c == '\u{2006}' || c
            == '\u{2007}' || c == '\u{2008}' || c == '\u{2009}' || c == '\u{200a}' || c
            == '\u{2028}' || c == '\u{2029}' || c == '\u{202f}' || c == '\u{205f}' || c
            == '\u{3000}')),
{
}

proof fn lemma_trimmed_start_is_a_tail(s: Seq<char>) -> (from: int)
    ensures
        0 <= from <= s.len(),
        trimmed_start(s) == s.skip(from),
        forall|i: int| 0 <= i < from ==> is_white_space(#[trigger] s[i]),
        from < s.len() ==> !is_white_space(s[from]),
    decreases s.len(),
{
    if s.len() > 0 && is_white_space(s[0]) {
        let rest = lemma_trimmed_start_is_a_tail(s.skip(1));
        assert(s.skip(1).skip(rest) =~= s.skip(rest + 1));
        assert forall|i: int| 0 <= i < rest + 1 implies is_white_space(#[trigger] s[i]) by {
            if i > 0 {
                assert(s[i] == s.skip(1)[i - 1]);
            }
        }
        rest + 1
    } else {
        assert(s.skip(0) =~= s);
        0
    }
}

proof fn lemma_trimmed_end_is_a_head(s: Seq<char>) -> (to: int)
    ensures
        0 <= to <= s.len(),
        trimmed_end(s) == s.take(to),
        forall|i: int| to <= i < s.len() ==> is_white_space(#[trigger] s[i]),
        0 < to ==> !is_white_space(s[to - 1]),
    decreases s.len(),
{
    if s.len() > 0 && is_white_space(s.last()) {
        let to = lemma_trimmed_end_is_a_head(s.drop_last());
        assert(s.drop_last().take(to) =~= s.take(to));
        assert forall|i: int| to <= i < s.len() implies is_white_space(#[trigger] s[i]) by {
            if i < s.len() - 1 {
                assert(s[i] == s.drop_last()[i]);
            }
        }
        to
    } else {
        assert(s.take(s.len() as int) =~= s);
        s.len() as int
    }
}

/// Trimming leaves the stretch of the text from its first to its last character that is no white
/// space, as it is; what lies outside that stretch is white space.
pub proof fn law_trim_keeps_the_middle(s: &str, r: &str)
    requires
        call_ensures(trim, (s,), r),
    ensures
        exists|from: int, to: int|
            {
                &&& 0 <= from <= to <= s@.len()
                &&& r@ == #[trigger] s@.subrange(from, to)
                &&& forall|i: int|
                    0 <= i < from || to <= i < s@.len() ==> is_white_space(#[trigger] s@[i])
                &&& from < to ==> !is_white_space(s@[from]) && !is_white_space(s@[to - 1])
            },
{
    let from = lemma_trimmed_start_is_a_tail(s@);
    let rest = s@.skip(from);
    let len = lemma_trimmed_end_is_a_head(rest);
    let to = from + len;
    assert(rest.take(len) =~= s@.subrange(from, to));
    assert forall|i: int| 0 <= i < from || to <= i < s@.len() implies is_white_space(
        #[trigger] s@[i],
    ) by {
        if to <= i {
            assert(s@[i] == rest[i - from]);
        }
    }
    if from < to {
        assert(s@[to - 1] == rest[len - 1]);
    }
}

/// What is taken off the end of a text is slashes alone, and none is left there.
pub proof fn law_end_slashes_go_and_nothing_else(s: &str, r: &str)
    requires
        call_ensures(trim_end_slashes, (s,), r),
    ensures
        lacks_end_slashes_of(r@, s@),
{
    lemma_without_end_slashes(s@);
}

/// The text is `s` without the slashes at the end: a head of it that ends in no slash, behind which
/// `s` has slashes alone.
pub open spec fn lacks_end_slashes_of(r: Seq<char>, s: Seq<char>) -> bool {
    &&& r.len() <= s.len()
    &&& forall|i: int| 0 <= i < r.len() ==> #[trigger] r[i] == s[i]
    &&& forall|i: int| r.len() <= i < s.len() ==> #[trigger] s[i] == '/'
    &&& r.len() > 0 ==> r[r.len() - 1] != '/'
}

/// A text without the slashes at its end is a head of it, with slashes alone behind it.
pub proof fn lemma_without_end_slashes(s: Seq<char>)
    ensures
        lacks_end_slashes_of(without_end_slashes(s), s),
    decreases s.len(),
{
    if s.len() > 0 && s.last() == '/' {
        lemma_without_end_slashes(s.drop_last());
        let r = without_end_slashes(s);
        assert forall|i: int| r.len() <= i < s.len() implies #[trigger] s[i] == '/' by {
            if i < s.len() - 1 {
                assert(s[i] == s.drop_last()[i]);
            }
        }
        assert forall|i: int| 0 <= i < r.len() implies #[trigger] r[i] == s[i] by {
            assert(s[i] == s.drop_last()[i]);
        }
    }
}

/// The bytes of a header value are text exactly if each is a tab or a printable ASCII character,
/// and the text has a character for each byte, of the same number.
pub proof fn law_visible_bytes_are_the_characters(bytes: &[u8], r: Option<String>)
    requires
        call_ensures(visible_ascii, (bytes,), r),
    ensures
        r is Some <==> (forall|i: int|
            0 <= i < bytes@.len() ==> (#[trigger] bytes@[i] == 9 || 32 <= bytes@[i] <= 126)),
        r matches Some(text) ==> text@.len() == bytes@.len() && forall|i: int|
            0 <= i < bytes@.len() ==> #[trigger] text@[i] as u32 == bytes@[i],
{
    if forall|i: int| 0 <= i < bytes@.len() ==> is_visible(#[trigger] bytes@[i]) {
    } else {
        let i = choose|i: int| 0 <= i < bytes@.len() && !is_visible(#[trigger] bytes@[i]);
        assert(!(bytes@[i] == 9 || 32 <= bytes@[i] <= 126));
    }
}

} // verus!
