//! Character-level building blocks of the textual seal grammar: splitting a
//! string into delimited segments, ASCII case folding and decimal numbers.

use vstd::prelude::*;
use vstd::std_specs::iter::IteratorSpec;
use vstd::string::StrSliceExecFns;
use vstd::string::StringExecFns;

verus! {

/// Collects the characters of `s` into a vector.
pub fn chars_of(s: &str) -> (chars: Vec<char>)
    ensures
        chars@ == s@,
{
    broadcast use vstd::string::group_string_axioms;

    let n = s.unicode_len();
    let mut chars: Vec<char> = Vec::new();
    let mut it = s.chars();
    while chars.len() < n
        invariant
            chars@ + it.remaining() == s@,
            it.obeys_prophetic_iter_laws(),
            n == s@.len(),
        decreases n - chars.len(),
    {
        if let Some(c) = it.next() {
            chars.push(c);
        } else {
            // The iterator still holds `n - chars.len()` characters.
            assert(false);
        }
    }
    assert(it.remaining().len() == 0);
    chars
}

// ---------------------------------------------------------------------------
// Segments
// ---------------------------------------------------------------------------
/// The characters which separate the segments of a seal string.
pub open spec fn is_delimiter(c: char) -> bool {
    c == ':' || c == '#'
}

/// `s` holds no delimiter.
pub open spec fn delimiter_free(s: Seq<char>) -> bool {
    forall|i: int| 0 <= i < s.len() ==> !is_delimiter(#[trigger] s[i])
}

/// Position of the first delimiter of `s`; `s.len()` if there is none.
pub open spec fn segment_end(s: Seq<char>) -> nat
    decreases s.len(),
{
    if s.len() == 0 || is_delimiter(s[0]) {
        0
    } else {
        1 + segment_end(s.skip(1))
    }
}

/// The pieces of `s` between its delimiters, in order. A string without
/// delimiters (the empty one included) is a single segment; `n` delimiters
/// always give `n + 1` segments, some of which may be empty.
pub open spec fn segments(s: Seq<char>) -> Seq<Seq<char>>
    decreases s.len(),
{
    let end = segment_end(s) as int;
    if end >= s.len() {
        seq![s]
    } else {
        seq![s.take(end)] + segments(s.skip(end + 1))
    }
}

/// `segment_end` stops at a delimiter or at the end, and passes over none.
pub proof fn lemma_segment_end(s: Seq<char>)
    ensures
        segment_end(s) <= s.len(),
        delimiter_free(s.take(segment_end(s) as int)),
        segment_end(s) < s.len() ==> is_delimiter(s[segment_end(s) as int]),
    decreases s.len(),
{
    if s.len() == 0 || is_delimiter(s[0]) {
    } else {
        let rest = s.skip(1);
        lemma_segment_end(rest);
        let end = segment_end(s) as int;
        assert forall|i: int| 0 <= i < s.take(end).len() implies !is_delimiter(
            #[trigger] s.take(end)[i],
        ) by {
            if i > 0 {
                assert(s.take(end)[i] == rest.take(end - 1)[i - 1]);
            }
        }
    }
}

/// The first position that is a delimiter or the end is `segment_end`.
pub proof fn lemma_segment_end_is(s: Seq<char>, end: int)
    requires
        0 <= end <= s.len(),
        delimiter_free(s.take(end)),
        end < s.len() ==> is_delimiter(s[end]),
    ensures
        segment_end(s) == end,
{
    lemma_segment_end(s);
    let found = segment_end(s) as int;
    if found < end {
        assert(s.take(end)[found] == s[found]);
    } else if end < found {
        assert(s.take(found)[end] == s[end]);
    }
}

/// How `segments` goes on from the first segment: there always is one; it
/// is the only one exactly if the string holds no delimiter; otherwise the
/// segments of what follows the first delimiter come after it.
pub proof fn lemma_segments_unfold(s: Seq<char>)
    ensures
        segment_end(s) <= s.len(),
        segments(s).len() >= 1,
        segments(s)[0] == s.take(segment_end(s) as int),
        segments(s).len() == 1 <==> segment_end(s) == s.len(),
        segment_end(s) < s.len() ==> segments(s).skip(1) == segments(
            s.skip(segment_end(s) as int + 1),
        ),
{
    lemma_segment_end(s);
    let end = segment_end(s) as int;
    if end < s.len() {
        let rest = s.skip(end + 1);
        lemma_segment_end(rest);
        assert(segments(rest).len() >= 1);
        assert(segments(s).skip(1) == segments(rest));
    } else {
        assert(s.take(end) == s);
    }
}

/// A string without delimiters is its own single segment.
pub proof fn lemma_segments_single(s: Seq<char>)
    requires
        delimiter_free(s),
    ensures
        segments(s) == seq![s],
{
    assert(s.take(s.len() as int) == s);
    lemma_segment_end_is(s, s.len() as int);
}

/// Splitting at the first delimiter: the head is the first segment and the
/// segments of the tail follow.
pub proof fn lemma_segments_split(head: Seq<char>, delimiter: char, tail: Seq<char>)
    requires
        delimiter_free(head),
        is_delimiter(delimiter),
    ensures
        segments(head + seq![delimiter] + tail) == seq![head] + segments(tail),
{
    let s = head + seq![delimiter] + tail;
    let end = head.len() as int;
    assert(s.take(end) == head);
    assert(s.skip(end + 1) == tail);
    lemma_segment_end_is(s, end);
}

/// Three delimiter-free parts joined by two delimiters split into exactly
/// those three parts.
pub proof fn lemma_segments_of_three(a: Seq<char>, b: Seq<char>, c: Seq<char>)
    requires
        delimiter_free(a),
        delimiter_free(b),
        delimiter_free(c),
    ensures
        segments(a + seq![':'] + b + seq![':'] + c) == seq![a, b, c],
{
    let tail = b + seq![':'] + c;
    lemma_segments_single(c);
    lemma_segments_split(b, ':', c);
    lemma_segments_split(a, ':', tail);
    assert(a + seq![':'] + b + seq![':'] + c == a + seq![':'] + tail);
    assert(seq![a] + (seq![b] + seq![c]) == seq![a, b, c]);
}

/// Finds where the segment which starts at `start` ends.
pub fn find_segment_end(chars: &Vec<char>, start: usize) -> (end: usize)
    requires
        start <= chars.len(),
    ensures
        start <= end <= chars.len(),
        end == start + segment_end(chars@.skip(start as int)),
{
    let mut i = start;
    while i < chars.len() && chars[i] != ':' && chars[i] != '#'
        invariant
            start <= i <= chars.len(),
            forall|j: int| start <= j < i ==> !is_delimiter(#[trigger] chars@[j]),
        decreases chars.len() - i,
    {
        i += 1;
    }
    proof {
        let rest = chars@.skip(start as int);
        let end = i - start;
        assert forall|j: int| 0 <= j < rest.take(end).len() implies !is_delimiter(
            #[trigger] rest.take(end)[j],
        ) by {
            assert(rest.take(end)[j] == chars@[start + j]);
        }
        lemma_segment_end_is(rest, end);
    }
    i
}

// ---------------------------------------------------------------------------
// ASCII case folding
// ---------------------------------------------------------------------------
/// Lower-case form of an ASCII capital letter; any other character is kept.
pub open spec fn ascii_lower(c: char) -> char {
    if 'A' <= c && c <= 'Z' {
        ((c as u8) + 32) as char
    } else {
        c
    }
}

/// `s` with each ASCII capital letter replaced by its lower-case form.
pub open spec fn ascii_lowercase(s: Seq<char>) -> Seq<char> {
    Seq::new(s.len(), |i: int| ascii_lower(s[i]))
}

/// Executable form of `ascii_lower`.
pub fn to_ascii_lower(c: char) -> (r: char)
    ensures
        r == ascii_lower(c),
{
    if c >= 'A' && c <= 'Z' {
        let b: u8 = c as u8;
        (b + 32) as char
    } else {
        c
    }
}

/// Compares `chars[start..end]` with `name`, ignoring the case of ASCII
/// letters in `chars`.
pub fn matches_ignoring_ascii_case(chars: &Vec<char>, start: usize, end: usize, name: &str) -> (r:
    bool)
    requires
        start <= end <= chars.len(),
    ensures
        r == (ascii_lowercase(chars@.subrange(start as int, end as int)) == name@),
{
    let ghost text = chars@.subrange(start as int, end as int);
    let n = name.unicode_len();
    if end - start != n {
        return false;
    }
    let mut i: usize = 0;
    while i < n
        invariant
            0 <= i <= n,
            n == name@.len(),
            n == end - start,
            start <= end <= chars.len(),
            text == chars@.subrange(start as int, end as int),
            forall|j: int| 0 <= j < i ==> ascii_lower(#[trigger] text[j]) == name@[j],
        decreases n - i,
    {
        if to_ascii_lower(chars[start + i]) != name.get_char(i) {
            assert(ascii_lowercase(text)[i as int] != name@[i as int]);
            return false;
        }
        i += 1;
    }
    assert(ascii_lowercase(text) =~= name@);
    true
}

// ---------------------------------------------------------------------------
// Decimal numbers
// ---------------------------------------------------------------------------
/// `c` is one of `0` to `9`.
pub open spec fn is_digit(c: char) -> bool {
    '0' <= c && c <= '9'
}

/// `s` holds decimal digits only.
pub open spec fn all_digits(s: Seq<char>) -> bool {
    forall|i: int| 0 <= i < s.len() ==> is_digit(#[trigger] s[i])
}

/// The number a decimal digit stands for.
pub open spec fn digit_value(c: char) -> nat {
    (c as int - '0' as int) as nat
}

/// The decimal digit which stands for `d`, for `d < 10`.
pub open spec fn digit_char(d: nat) -> char {
    ('0' as int + d) as char
}

/// The number which a sequence of decimal digits denotes.
pub open spec fn digits_value(s: Seq<char>) -> nat
    decreases s.len(),
{
    if s.len() == 0 {
        0
    } else {
        10 * digits_value(s.drop_last()) + digit_value(s.last())
    }
}

/// The digits of `s` once an optional leading `+` is dropped.
pub open spec fn unsigned_part(s: Seq<char>) -> Seq<char> {
    if s.len() > 0 && s[0] == '+' {
        s.skip(1)
    } else {
        s
    }
}

/// The value of a decimal 32-bit number: an optional `+`, then one or more
/// decimal digits, nothing else, denoting a number no larger than
/// `u32::MAX`. Leading zeros are accepted.
pub open spec fn decimal_from_text(s: Seq<char>) -> Option<u32> {
    let digits = unsigned_part(s);
    if digits.len() > 0 && all_digits(digits) && digits_value(digits) <= u32::MAX {
        Some(digits_value(digits) as u32)
    } else {
        None
    }
}

/// The shortest decimal notation of `n`.
pub open spec fn decimal_text(n: nat) -> Seq<char>
    decreases n,
{
    if n < 10 {
        seq![digit_char(n)]
    } else {
        decimal_text(n / 10).push(digit_char(n % 10))
    }
}

/// A number with more digits is no smaller.
pub proof fn lemma_digits_value_prefix(s: Seq<char>, k: int)
    requires
        0 <= k <= s.len(),
    ensures
        digits_value(s.take(k)) <= digits_value(s),
    decreases s.len(),
{
    if k == s.len() {
        assert(s.take(k) == s);
    } else {
        lemma_digits_value_prefix(s.drop_last(), k);
        assert(s.drop_last().take(k) == s.take(k));
    }
}

/// `decimal_text` writes digits only, at least one, which denote `n`.
pub proof fn lemma_decimal_text(n: nat)
    ensures
        decimal_text(n).len() > 0,
        all_digits(decimal_text(n)),
        delimiter_free(decimal_text(n)),
        digits_value(decimal_text(n)) == n,
    decreases n,
{
    let text = decimal_text(n);
    if n < 10 {
        assert(text.drop_last() == Seq::<char>::empty());
        assert(digits_value(text.drop_last()) == 0);
    } else {
        lemma_decimal_text(n / 10);
        assert(text.drop_last() == decimal_text(n / 10));
    }
}

/// Reading back what `decimal_text` wrote gives the number again.
pub proof fn lemma_decimal_round_trip(n: u32)
    ensures
        decimal_from_text(decimal_text(n as nat)) == Some(n),
{
    lemma_decimal_text(n as nat);
}

/// Reads `chars[start..end]` as a decimal 32-bit number.
pub fn parse_decimal(chars: &Vec<char>, start: usize, end: usize) -> (r: Option<u32>)
    requires
        start <= end <= chars.len(),
    ensures
        r == decimal_from_text(chars@.subrange(start as int, end as int)),
{
    let ghost text = chars@.subrange(start as int, end as int);
    let mut first = start;
    if first < end && chars[first] == '+' {
        first += 1;
    }
    let ghost digits = chars@.subrange(first as int, end as int);
    assert(digits == unsigned_part(text));
    if first == end {
        return None;
    }
    let mut value: u64 = 0;
    let mut i = first;
    while i < end
        invariant
            start <= first <= i <= end <= chars.len(),
            digits == chars@.subrange(first as int, end as int),
            digits == unsigned_part(chars@.subrange(start as int, end as int)),
            all_digits(digits.take(i - first)),
            value == digits_value(digits.take(i - first)),
            value <= u32::MAX,
        decreases end - i,
    {
        let c = chars[i];
        if c < '0' || c > '9' {
            assert(!is_digit(digits[i - first]));
            return None;
        }
        let digit: u64 = (c as u32 - 48) as u64;
        let next = value * 10 + digit;
        proof {
            let longer = digits.take(i + 1 - first);
            assert(longer.drop_last() == digits.take(i - first));
            assert(longer.last() == c);
            assert(next == digits_value(longer));
        }
        if next > 0xffff_ffff {
            proof {
                lemma_digits_value_prefix(digits, i + 1 - first);
            }
            return None;
        }
        value = next;
        i += 1;
    }
    assert(digits.take(end - first) == digits);
    Some(value as u32)
}

/// The one-character string of the decimal digit `d`.
fn digit_str(d: u32) -> (r: &'static str)
    requires
        d < 10,
    ensures
        r@ == seq![digit_char(d as nat)],
{
    proof {
        reveal_strlit("0");
        reveal_strlit("1");
        reveal_strlit("2");
        reveal_strlit("3");
        reveal_strlit("4");
        reveal_strlit("5");
        reveal_strlit("6");
        reveal_strlit("7");
        reveal_strlit("8");
        reveal_strlit("9");
    }
    let r = match d {
        0 => "0",
        1 => "1",
        2 => "2",
        3 => "3",
        4 => "4",
        5 => "5",
        6 => "6",
        7 => "7",
        8 => "8",
        _ => "9",
    };
    assert(r@ =~= seq![digit_char(d as nat)]);
    r
}

/// Appends the shortest decimal notation of `n` to `out`.
pub fn push_decimal(out: &mut String, n: u32)
    ensures
        final(out)@ == old(out)@ + decimal_text(n as nat),
    decreases n,
{
    if n >= 10 {
        push_decimal(out, n / 10);
    }
    out.append(digit_str(n % 10));
    assert(final(out)@ =~= old(out)@ + decimal_text(n as nat));
}

} // verus!
