//! Character-level helpers for the library's text handling.
//!
//! Text is reasoned about as `Seq<char>`, the view of `String` and `&str`.

use vstd::prelude::*;

verus! {

/// `String::push`: afterwards the string is the old one with `ch` appended
/// (std: "Appends the given `char` to the end of this `String`").
///
/// Left unsaid: std also documents a panic when the new capacity would
/// exceed `isize::MAX` bytes. Byte lengths are not part of the `Seq<char>`
/// view, so that bound cannot be written here; vstd's own string appends
/// leave it out the same way.
pub assume_specification[ String::push ](string: &mut String, ch: char)
    ensures
        final(string)@ == old(string)@.push(ch),
;

/// The decimal digit character for `d` (`0..=9`).
pub open spec fn digit_char(d: int) -> char {
    (d + 48) as char
}

/// Whether `c` is an ASCII decimal digit.
pub open spec fn is_digit(c: char) -> bool {
    '0' <= c && c <= '9'
}

/// The value of an ASCII digit.
pub open spec fn digit_value(c: char) -> int {
    (c as int) - 48
}

/// The shortest decimal rendering of `n`, as `u64::to_string` gives it.
pub open spec fn decimal(n: nat) -> Seq<char>
    decreases n,
{
    if n < 10 {
        seq![digit_char(n as int)]
    } else {
        decimal(n / 10).push(digit_char((n % 10) as int))
    }
}

/// `format!("{n:02}")`: the decimal rendering padded with zeros to width 2.
pub open spec fn decimal2(n: nat) -> Seq<char> {
    if n < 10 {
        seq!['0', digit_char(n as int)]
    } else {
        decimal(n)
    }
}

/// Every character is an ASCII digit.
pub open spec fn all_digits(s: Seq<char>) -> bool {
    forall|i: int| 0 <= i < s.len() ==> is_digit(#[trigger] s[i])
}

/// The value of a run of decimal digits (most significant first).
pub open spec fn digits_value(s: Seq<char>) -> nat
    decreases s.len(),
{
    if s.len() == 0 {
        0
    } else {
        (digits_value(s.drop_last()) * 10 + digit_value(s.last())) as nat
    }
}

/// `text.parse::<u32>()`: an optional `+`, then at least one ASCII digit,
/// with a value that fits in 32 bits.
pub open spec fn parse_u32_spec(text: Seq<char>) -> Option<u32> {
    let body = if text.len() > 0 && text[0] == '+' {
        text.drop_first()
    } else {
        text
    };
    if body.len() == 0 || !all_digits(body) || digits_value(body) > u32::MAX {
        None
    } else {
        Some(digits_value(body) as u32)
    }
}

/// Unicode `White_Space`, the set `char::is_whitespace` tests for.
pub open spec fn is_whitespace(c: char) -> bool {
    ||| ('\u{9}' <= c && c <= '\u{d}')
    ||| c == ' '
    ||| c == '\u{85}'
    ||| c == '\u{a0}'
    ||| c == '\u{1680}'
    ||| ('\u{2000}' <= c && c <= '\u{200a}')
    ||| c == '\u{2028}'
    ||| c == '\u{2029}'
    ||| c == '\u{202f}'
    ||| c == '\u{205f}'
    ||| c == '\u{3000}'
}

/// `text.trim().is_empty()`: nothing but whitespace.
pub open spec fn is_blank(text: Seq<char>) -> bool {
    forall|i: int| 0 <= i < text.len() ==> is_whitespace(#[trigger] text[i])
}

/// `c.to_ascii_lowercase()`.
pub open spec fn ascii_lower(c: char) -> char {
    if 'A' <= c && c <= 'Z' {
        ((c as u32) + 32) as char
    } else {
        c
    }
}

/// `text.to_ascii_lowercase()`.
pub open spec fn lowercase(text: Seq<char>) -> Seq<char> {
    text.map_values(|c: char| ascii_lower(c))
}

/// `text.eq_ignore_ascii_case(other)`.
pub open spec fn eq_ignore_case(text: Seq<char>, other: Seq<char>) -> bool {
    lowercase(text) == lowercase(other)
}

/// `text.trim_start_matches('-')`.
pub open spec fn strip_dashes(text: Seq<char>) -> Seq<char>
    decreases text.len(),
{
    if text.len() > 0 && text[0] == '-' {
        strip_dashes(text.drop_first())
    } else {
        text
    }
}

/// Index of the first `c` at or after `from`, or `-1`.
pub open spec fn find_from(text: Seq<char>, c: char, from: int) -> int
    decreases text.len() - from,
{
    if from < 0 || from >= text.len() {
        -1
    } else if text[from] == c {
        from
    } else {
        find_from(text, c, from + 1)
    }
}

/// Index of the first `c` in `text`, or `-1`.
pub open spec fn find_char(text: Seq<char>, c: char) -> int {
    find_from(text, c, 0)
}

/// `text.split_once(c)`: the text before the first `c` and the text after
/// it, or `None` when `c` does not occur.
pub open spec fn split_once_spec(text: Seq<char>, c: char) -> Option<(Seq<char>, Seq<char>)> {
    let i = find_char(text, c);
    if i < 0 {
        None
    } else {
        Some((text.take(i), text.skip(i + 1)))
    }
}

/// `text.split(c)`: the pieces between occurrences of `c`.
pub open spec fn split_spec(text: Seq<char>, c: char) -> Seq<Seq<char>>
    decreases text.len(),
{
    let i = find_char(text, c);
    if i < 0 {
        seq![text]
    } else {
        proof {
            lemma_find_from(text, c, 0);
        }
        seq![text.take(i)] + split_spec(text.skip(i + 1), c)
    }
}

/// `find_from` lands on a `c` inside the text, with no `c` between `from`
/// and it; `-1` means there is no `c` from `from` on.
pub proof fn lemma_find_from(text: Seq<char>, c: char, from: int)
    requires
        0 <= from,
    ensures
        find_from(text, c, from) == -1 || (from <= find_from(text, c, from) < text.len() && text[find_from(text, c, from)] == c),
        find_from(text, c, from) == -1 ==> forall|j: int| from <= j < text.len() ==> text[j] != c,
        find_from(text, c, from) >= 0 ==> forall|j: int| from <= j < find_from(text, c, from) ==> text[j] != c,
    decreases text.len() - from,
{
    if from < text.len() && text[from] != c {
        lemma_find_from(text, c, from + 1);
    }
}

/// The characters of `text`, in order.
pub fn chars_of(text: &str) -> (r: Vec<char>)
    ensures
        r@ == text@,
{
    let mut out: Vec<char> = Vec::new();
    for c in it: text.chars()
        invariant
            out@ == it.seq().take(it.index() as int),
            it.seq() == text@,
    {
        out.push(c);
    }
    out
}

/// A `String` holding exactly `chars`.
pub fn string_of(chars: &[char]) -> (r: String)
    ensures
        r@ == chars@,
{
    let mut out = String::new();
    let mut i: usize = 0;
    while i < chars.len()
        invariant
            i <= chars@.len(),
            out@ == chars@.take(i as int),
        decreases chars@.len() - i,
    {
        out.push(chars[i]);
        i = i + 1;
    }
    out
}

/// A copy of `text` as an owned `String`.
pub fn owned(text: &str) -> (r: String)
    ensures
        r@ == text@,
{
    text.to_owned()
}

/// `a` followed by `b`.
pub fn concat(a: &str, b: &str) -> (r: String)
    ensures
        r@ == a@ + b@,
{
    let mut out = a.to_owned();
    let chars = chars_of(b);
    let mut i: usize = 0;
    while i < chars.len()
        invariant
            i <= chars@.len(),
            chars@ == b@,
            out@ == a@ + b@.take(i as int),
        decreases chars@.len() - i,
    {
        out.push(chars[i]);
        i = i + 1;
        assert(b@.take(i as int) == b@.take(i - 1).push(b@[i - 1]));
    }
    assert(b@.take(b@.len() as int) == b@);
    out
}

/// Whether two texts are equal.
pub fn same_text(a: &str, b: &str) -> (r: bool)
    ensures
        r == (a@ == b@),
{
    let x = chars_of(a);
    let y = chars_of(b);
    if x.len() != y.len() {
        return false;
    }
    let mut i: usize = 0;
    while i < x.len()
        invariant
            x@ == a@,
            y@ == b@,
            x@.len() == y@.len(),
            i <= x@.len(),
            forall|j: int| 0 <= j < i ==> x@[j] == y@[j],
        decreases x@.len() - i,
    {
        if x[i] != y[i] {
            return false;
        }
        i = i + 1;
    }
    assert(x@ =~= y@);
    true
}

/// `c.to_ascii_lowercase()`.
pub fn lower_char(c: char) -> (r: char)
    ensures
        r == ascii_lower(c),
{
    if 'A' <= c && c <= 'Z' {
        ((c as u8) + 32) as char
    } else {
        c
    }
}

/// `text.to_ascii_lowercase()`.
pub fn to_lowercase(text: &str) -> (r: String)
    ensures
        r@ == lowercase(text@),
{
    let chars = chars_of(text);
    let mut out: Vec<char> = Vec::new();
    let mut i: usize = 0;
    while i < chars.len()
        invariant
            chars@ == text@,
            i <= chars@.len(),
            out@ == lowercase(text@).take(i as int),
        decreases chars@.len() - i,
    {
        out.push(lower_char(chars[i]));
        i = i + 1;
        assert(out@ =~= lowercase(text@).take(i as int));
    }
    assert(lowercase(text@).take(chars@.len() as int) =~= lowercase(text@));
    string_of(&out)
}

/// `text.eq_ignore_ascii_case(other)`.
pub fn same_text_ignore_case(text: &str, other: &str) -> (r: bool)
    ensures
        r == eq_ignore_case(text@, other@),
{
    let a = to_lowercase(text);
    let b = to_lowercase(other);
    same_text(a.as_str(), b.as_str())
}

/// The decimal character for a digit.
pub fn digit_to_char(d: u64) -> (r: char)
    requires
        d < 10,
    ensures
        r == digit_char(d as int),
{
    ((d as u8) + 48) as char
}

/// `n.to_string()` for an unsigned integer.
pub fn decimal_string(n: u64) -> (r: String)
    ensures
        r@ == decimal(n as nat),
    decreases n,
{
    if n < 10 {
        let mut s = String::new();
        s.push(digit_to_char(n));
        assert(s@ =~= seq![digit_char(n as int)]);
        s
    } else {
        let mut s = decimal_string(n / 10);
        s.push(digit_to_char(n % 10));
        s
    }
}

/// `format!("{n:02}")`.
pub fn decimal2_string(n: u64) -> (r: String)
    ensures
        r@ == decimal2(n as nat),
{
    if n < 10 {
        let mut s = String::new();
        s.push('0');
        s.push(digit_to_char(n));
        assert(s@ =~= seq!['0', digit_char(n as int)]);
        s
    } else {
        decimal_string(n)
    }
}

/// `text.parse::<u32>().ok()`.
pub fn parse_u32(text: &str) -> (r: Option<u32>)
    ensures
        r == parse_u32_spec(text@),
{
    let chars = chars_of(text);
    let start: usize = if chars.len() > 0 && chars[0] == '+' { 1 } else { 0 };
    let ghost body = if text@.len() > 0 && text@[0] == '+' { text@.drop_first() } else { text@ };
    assert(body =~= text@.skip(start as int));
    if start >= chars.len() {
        return None;
    }
    let limit: u64 = 0x1_0000_0000;
    let mut acc: u64 = 0;
    let mut i: usize = start;
    while i < chars.len()
        invariant
            chars@ == text@,
            body == text@.skip(start as int),
            body == (if text@.len() > 0 && text@[0] == '+' { text@.drop_first() } else { text@ }),
            start <= i <= chars@.len(),
            all_digits(chars@.subrange(start as int, i as int)),
            acc == if digits_value(chars@.subrange(start as int, i as int)) < limit {
                digits_value(chars@.subrange(start as int, i as int)) as u64
            } else {
                limit
            },
            limit == 0x1_0000_0000,
        decreases chars@.len() - i,
    {
        let c = chars[i];
        if !('0' <= c && c <= '9') {
            assert(body[i - start] == c);
            assert(!is_digit(body[i - start]));
            assert(!all_digits(body));
            assert(parse_u32_spec(text@) is None);
            return None;
        }
        let d = (c as u64) - 48;
        let ghost prev = chars@.subrange(start as int, i as int);
        let ghost next = chars@.subrange(start as int, i + 1);
        assert(next.drop_last() =~= prev);
        assert(next.last() == c);
        assert(digits_value(next) == digits_value(prev) * 10 + d);
        acc = if acc >= limit || acc * 10 + d >= limit { limit } else { acc * 10 + d };
        i = i + 1;
        assert(all_digits(next)) by {
            assert forall|j: int| 0 <= j < next.len() implies is_digit(#[trigger] next[j]) by {
                if j < prev.len() {
                    assert(next[j] == prev[j]);
                }
            }
        }
    }
    assert(chars@.subrange(start as int, chars@.len() as int) =~= body);
    if acc >= limit {
        None
    } else {
        Some(acc as u32)
    }
}

/// Whether every character is whitespace (`text.trim().is_empty()`).
pub fn blank(text: &str) -> (r: bool)
    ensures
        r == is_blank(text@),
{
    let chars = chars_of(text);
    let mut i: usize = 0;
    while i < chars.len()
        invariant
            chars@ == text@,
            i <= chars@.len(),
            forall|j: int| 0 <= j < i ==> is_whitespace(#[trigger] text@[j]),
        decreases chars@.len() - i,
    {
        let c = chars[i];
        let ws = ('\u{9}' <= c && c <= '\u{d}') || c == ' ' || c == '\u{85}' || c == '\u{a0}'
            || c == '\u{1680}' || ('\u{2000}' <= c && c <= '\u{200a}') || c == '\u{2028}'
            || c == '\u{2029}' || c == '\u{202f}' || c == '\u{205f}' || c == '\u{3000}';
        if !ws {
            return false;
        }
        i = i + 1;
    }
    true
}

/// Index of the first `c` in `text` (a character index), if any.
pub fn find(text: &str, c: char) -> (r: Option<usize>)
    ensures
        r matches Some(i) ==> find_char(text@, c) == i as int,
        r is None ==> find_char(text@, c) == -1,
{
    let chars = chars_of(text);
    let mut i: usize = 0;
    while i < chars.len()
        invariant
            chars@ == text@,
            i <= chars@.len(),
            find_from(text@, c, 0) == find_from(text@, c, i as int),
        decreases chars@.len() - i,
    {
        if chars[i] == c {
            return Some(i);
        }
        i = i + 1;
    }
    None
}

/// `text.split_once(c)` with owned halves.
pub fn split_once(text: &str, c: char) -> (r: Option<(String, String)>)
    ensures
        match split_once_spec(text@, c) {
            None => r is None,
            Some((a, b)) => r matches Some((x, y)) && x@ == a && y@ == b,
        },
{
    match find(text, c) {
        None => None,
        Some(i) => {
            proof {
                lemma_find_from(text@, c, 0);
            }
            let chars = chars_of(text);
            let mut left: Vec<char> = Vec::new();
            let mut right: Vec<char> = Vec::new();
            let mut k: usize = 0;
            while k < chars.len()
                invariant
                    chars@ == text@,
                    i < chars@.len(),
                    k <= chars@.len(),
                    left@ == text@.take(if k < i { k as int } else { i as int }),
                    right@ == if k <= i { Seq::<char>::empty() } else { text@.subrange(i + 1, k as int) },
                decreases chars@.len() - k,
            {
                if k < i {
                    left.push(chars[k]);
                    assert(left@ =~= text@.take(k + 1));
                } else if k > i {
                    right.push(chars[k]);
                    assert(right@ =~= text@.subrange(i + 1, k + 1));
                } else {
                    assert(right@ =~= text@.subrange(i + 1, k + 1));
                }
                k = k + 1;
            }
            assert(text@.subrange(i + 1, chars@.len() as int) =~= text@.skip(i + 1));
            Some((string_of(&left), string_of(&right)))
        },
    }
}

/// `text.split(c)` with owned pieces.
pub fn split(text: &str, c: char) -> (r: Vec<String>)
    ensures
        r@.len() == split_spec(text@, c).len(),
        forall|k: int| 0 <= k < r@.len() ==> #[trigger] r@[k]@ == split_spec(text@, c)[k],
    decreases text@.len(),
{
    match split_once(text, c) {
        None => {
            let mut out: Vec<String> = Vec::new();
            out.push(owned(text));
            out
        },
        Some((head, tail)) => {
            proof {
                lemma_find_from(text@, c, 0);
            }
            let rest = split(tail.as_str(), c);
            let mut out: Vec<String> = Vec::new();
            out.push(head);
            let mut k: usize = 0;
            while k < rest.len()
                invariant
                    out@.len() == k + 1,
                    k <= rest@.len(),
                    out@[0]@ == split_spec(text@, c)[0],
                    split_spec(text@, c) == seq![text@.take(find_char(text@, c))] + split_spec(tail@, c),
                    rest@.len() == split_spec(tail@, c).len(),
                    forall|j: int| 0 <= j < rest@.len() ==> #[trigger] rest@[j]@ == split_spec(tail@, c)[j],
                    forall|j: int| 1 <= j <= k ==> #[trigger] out@[j]@ == split_spec(tail@, c)[j - 1],
                decreases rest@.len() - k,
            {
                out.push(rest[k].clone());
                k = k + 1;
            }
            assert forall|j: int| 0 <= j < out@.len() implies #[trigger] out@[j]@ == split_spec(text@, c)[j] by {
                if j > 0 {
                    assert(split_spec(text@, c)[j] == split_spec(tail@, c)[j - 1]);
                }
            }
            out
        },
    }
}

} // verus!

verus! {

/// Searching past a prefix that holds no `c` gives the position in the rest,
/// shifted by the prefix length.
pub proof fn lemma_find_shift(p: Seq<char>, s: Seq<char>, c: char, j: int)
    requires
        0 <= j,
    ensures
        find_from(p + s, c, p.len() + j) == (if find_from(s, c, j) < 0 {
            -1
        } else {
            p.len() + find_from(s, c, j)
        }),
    decreases s.len() - j,
{
    if j < s.len() {
        assert((p + s)[p.len() + j] == s[j]);
        if s[j] != c {
            lemma_find_shift(p, s, c, j + 1);
        }
    }
}

/// Searching inside a stretch with no `c` skips straight to its end.
pub proof fn lemma_find_skip(p: Seq<char>, s: Seq<char>, c: char, k: int)
    requires
        0 <= k <= p.len(),
        forall|j: int| k <= j < p.len() ==> p[j] != c,
    ensures
        find_from(p + s, c, k) == find_from(p + s, c, p.len() as int),
    decreases p.len() - k,
{
    if k < p.len() {
        assert((p + s)[k] == p[k]);
        lemma_find_skip(p, s, c, k + 1);
    }
}

/// The first `c` of `p + s`, when `p` holds none, is the first `c` of `s`
/// shifted by `p.len()`.
pub proof fn lemma_find_concat(p: Seq<char>, s: Seq<char>, c: char)
    requires
        find_char(p, c) == -1,
    ensures
        find_char(p + s, c) == (if find_char(s, c) < 0 {
            -1
        } else {
            p.len() + find_char(s, c)
        }),
{
    lemma_find_from(p, c, 0);
    lemma_find_skip(p, s, c, 0);
    lemma_find_shift(p, s, c, 0);
}

} // verus!

verus! {

/// A decimal rendering is a non-empty run of digits with the rendered value.
pub proof fn lemma_decimal(n: nat)
    ensures
        decimal(n).len() >= 1,
        all_digits(decimal(n)),
        digits_value(decimal(n)) == n,
        n < 10 <==> decimal(n).len() == 1,
    decreases n,
{
    if n < 10 {
        let s = decimal(n);
        assert(s.drop_last() =~= Seq::<char>::empty());
        assert(digit_value(digit_char(n as int)) == n);
        assert(s.last() == digit_char(n as int));
        assert(digits_value(s) == digits_value(s.drop_last()) * 10 + digit_value(s.last()));
    } else {
        lemma_decimal(n / 10);
        let s = decimal(n);
        assert(s.drop_last() =~= decimal(n / 10));
        assert(digit_value(digit_char((n % 10) as int)) == n % 10);
        assert(s.last() == digit_char((n % 10) as int));
        assert(digits_value(s) == digits_value(s.drop_last()) * 10 + digit_value(s.last()));
        assert((n / 10) * 10 + n % 10 == n);
        assert forall|i: int| 0 <= i < s.len() implies is_digit(#[trigger] s[i]) by {
            if i < s.len() - 1 {
                assert(s[i] == decimal(n / 10)[i]);
            }
        }
    }
}

/// Reading back a rendered 32-bit value gives the value.
pub proof fn lemma_parse_decimal(n: u32)
    ensures
        parse_u32_spec(decimal(n as nat)) == Some(n),
{
    lemma_decimal(n as nat);
    assert(is_digit(decimal(n as nat)[0]));
}

/// A rendering of digits holds no character that is not a digit.
pub proof fn lemma_decimal_lacks(n: nat, c: char)
    requires
        !is_digit(c),
    ensures
        find_char(decimal(n), c) == -1,
{
    lemma_decimal(n);
    lemma_find_from(decimal(n), c, 0);
    if find_char(decimal(n), c) >= 0 {
        assert(is_digit(decimal(n)[find_char(decimal(n), c)]));
    }
}

/// Lowercasing leaves digits alone.
pub proof fn lemma_lowercase_digits(s: Seq<char>)
    requires
        all_digits(s),
    ensures
        lowercase(s) == s,
{
    assert(lowercase(s) =~= s) by {
        assert forall|i: int| 0 <= i < s.len() implies lowercase(s)[i] == s[i] by {
            assert(is_digit(s[i]));
        }
    }
}

} // verus!

verus! {

/// `text.trim_start()`.
pub open spec fn trim_start(text: Seq<char>) -> Seq<char>
    decreases text.len(),
{
    if text.len() > 0 && is_whitespace(text[0]) {
        trim_start(text.drop_first())
    } else {
        text
    }
}

/// `text.trim_end()`.
pub open spec fn trim_end(text: Seq<char>) -> Seq<char>
    decreases text.len(),
{
    if text.len() > 0 && is_whitespace(text.last()) {
        trim_end(text.drop_last())
    } else {
        text
    }
}

/// `text.trim()`: whitespace removed from both ends.
pub open spec fn trim(text: Seq<char>) -> Seq<char> {
    trim_end(trim_start(text))
}

/// Whether `c` is whitespace.
pub fn whitespace(c: char) -> (r: bool)
    ensures
        r == is_whitespace(c),
{
    ('\u{9}' <= c && c <= '\u{d}') || c == ' ' || c == '\u{85}' || c == '\u{a0}' || c == '\u{1680}'
        || ('\u{2000}' <= c && c <= '\u{200a}') || c == '\u{2028}' || c == '\u{2029}' || c
        == '\u{202f}' || c == '\u{205f}' || c == '\u{3000}'
}

/// `text.trim()` as an owned string.
pub fn trimmed(text: &str) -> (r: String)
    ensures
        r@ == trim(text@),
{
    let chars = chars_of(text);
    let mut start: usize = 0;
    assert(text@.subrange(0, text@.len() as int) =~= text@);
    while start < chars.len() && whitespace(chars[start])
        invariant
            chars@ == text@,
            start <= chars@.len(),
            trim_start(text@) == trim_start(text@.subrange(start as int, text@.len() as int)),
        decreases chars@.len() - start,
    {
        assert(text@.subrange(start as int, text@.len() as int).drop_first() =~= text@.subrange(
            start + 1,
            text@.len() as int,
        ));
        start = start + 1;
    }
    let ghost front = text@.subrange(start as int, text@.len() as int);
    assert(trim_start(text@) == front);
    let mut end: usize = chars.len();
    assert(front.subrange(0, front.len() as int) =~= front);
    while end > start && whitespace(chars[end - 1])
        invariant
            chars@ == text@,
            start <= end <= chars@.len(),
            front == text@.subrange(start as int, text@.len() as int),
            trim_end(front) == trim_end(text@.subrange(start as int, end as int)),
        decreases end - start,
    {
        assert(text@.subrange(start as int, end as int).drop_last() =~= text@.subrange(
            start as int,
            end - 1,
        ));
        end = end - 1;
    }
    let mut out: Vec<char> = Vec::new();
    let mut k: usize = start;
    while k < end
        invariant
            chars@ == text@,
            start <= k <= end,
            end <= chars@.len(),
            out@ == text@.subrange(start as int, k as int),
        decreases end - k,
    {
        out.push(chars[k]);
        k = k + 1;
        assert(out@ =~= text@.subrange(start as int, k as int));
    }
    string_of(&out)
}

} // verus!
