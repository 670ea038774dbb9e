//! Character-level string helpers with exact specifications: ASCII case folding,
//! Unicode whitespace trimming, substring search, path file names and number
//! formatting.

use vstd::prelude::*;
use vstd::string::*;

verus! {

/// `String::push` appends one `char` to the end of the string (std documents:
/// "Appends the given char to the end of this String").
pub assume_specification[ String::push ](s: &mut String, ch: char)
    ensures
        final(s)@ == old(s)@.push(ch),
;

// ---------------------------------------------------------------------------------------
// Specifications
// ---------------------------------------------------------------------------------------

/// ASCII lower-casing of one character: `'A'..='Z'` map to `'a'..='z'`, everything
/// else (non-ASCII letters included) is unchanged.
pub open spec fn ascii_lower_char(c: char) -> char {
    if 'A' <= c && c <= 'Z' {
        ((c as u8) + 32u8) as char
    } else {
        c
    }
}

/// ASCII lower-casing of a whole string, character by character.
pub open spec fn ascii_lower(s: Seq<char>) -> Seq<char> {
    s.map_values(|c: char| ascii_lower_char(c))
}

/// The Unicode `White_Space` property, the set of characters that `str::trim`
/// removes.
pub open spec fn is_white_space(c: char) -> bool {
    ||| ('\u{9}' <= c && c <= '\u{D}')
    ||| c == ' '
    ||| c == '\u{85}'
    ||| c == '\u{A0}'
    ||| c == '\u{1680}'
    ||| ('\u{2000}' <= c && c <= '\u{200A}')
    ||| c == '\u{2028}'
    ||| c == '\u{2029}'
    ||| c == '\u{202F}'
    ||| c == '\u{205F}'
    ||| c == '\u{3000}'
}

/// The characters a trim removes from both ends.
#[derive(Debug, Clone, Copy, PartialEq, Eq, Structural)]
pub enum TrimSet {
    /// Unicode whitespace, as `str::trim` removes.
    WhiteSpace,
    /// One given character, as `str::trim_matches(c)` removes.
    Char(char),
}

/// Whether a character belongs to a trim set.
pub open spec fn in_trim_set(set: TrimSet, c: char) -> bool {
    match set {
        TrimSet::WhiteSpace => is_white_space(c),
        TrimSet::Char(t) => c == t,
    }
}

/// The first index at or after `i` whose character is not in `set` (or the length).
pub open spec fn trim_start_index(s: Seq<char>, set: TrimSet, i: int) -> int
    decreases s.len() - i,
{
    if i >= s.len() {
        s.len() as int
    } else if in_trim_set(set, s[i]) {
        trim_start_index(s, set, i + 1)
    } else {
        i
    }
}

/// One past the last index in `lo..j` whose character is not in `set` (or `lo`).
pub open spec fn trim_end_index(s: Seq<char>, set: TrimSet, lo: int, j: int) -> int
    decreases j - lo,
{
    if j <= lo {
        lo
    } else if in_trim_set(set, s[j - 1]) {
        trim_end_index(s, set, lo, j - 1)
    } else {
        j
    }
}

/// `s` with every leading and trailing character of `set` removed.
pub open spec fn trimmed(s: Seq<char>, set: TrimSet) -> Seq<char> {
    let start = trim_start_index(s, set, 0);
    s.subrange(start, trim_end_index(s, set, start, s.len() as int))
}

/// `needle` occurs in `hay` as a contiguous run of characters.
pub open spec fn seq_contains(hay: Seq<char>, needle: Seq<char>) -> bool {
    exists|i: int|
        0 <= i && i + needle.len() <= hay.len() && #[trigger] hay.subrange(i, i + needle.len())
            == needle
}

/// Path separators recognised by the file-name split: `\` and `/`.
pub open spec fn is_path_separator(c: char) -> bool {
    c == '\\' || c == '/'
}

/// Index just after the last separator in `s[..end]`, or 0 when there is none.
pub open spec fn last_segment_start(s: Seq<char>, end: int) -> int
    decreases end,
{
    if end <= 0 {
        0
    } else if is_path_separator(s[end - 1]) {
        end
    } else {
        last_segment_start(s, end - 1)
    }
}

/// The text after the last `\` or `/` of a path (the whole path when it has none).
pub open spec fn last_segment(s: Seq<char>) -> Seq<char> {
    s.subrange(last_segment_start(s, s.len() as int), s.len() as int)
}

/// The file name of a path: its last segment, or `None` when that segment is empty.
pub open spec fn spec_file_name(path: Seq<char>) -> Option<Seq<char>> {
    if last_segment(path).len() == 0 {
        None
    } else {
        Some(last_segment(path))
    }
}

/// The character of a decimal digit `0..=9`.
pub open spec fn decimal_digit(d: nat) -> char {
    ((48 + d) as u8) as char
}

/// The decimal representation of a natural number, without leading zeros.
pub open spec fn decimal(n: nat) -> Seq<char>
    decreases n,
{
    if n < 10 {
        seq![decimal_digit(n)]
    } else {
        decimal(n / 10).push(decimal_digit(n % 10))
    }
}

/// The character of a hexadecimal digit `0..=15`, upper- or lower-case.
pub open spec fn hex_digit(d: nat, upper: bool) -> char {
    if d < 10 {
        decimal_digit(d)
    } else if upper {
        ((55 + d) as u8) as char
    } else {
        ((87 + d) as u8) as char
    }
}

/// A byte as exactly two hexadecimal digits (as `{:02X}` / `{:02x}` print it).
pub open spec fn hex2(b: u8, upper: bool) -> Seq<char> {
    seq![hex_digit((b / 16) as nat, upper), hex_digit((b % 16) as nat, upper)]
}

// ---------------------------------------------------------------------------------------
// Executable helpers
// ---------------------------------------------------------------------------------------

/// The characters of a string slice.
pub fn chars_of(s: &str) -> (v: Vec<char>)
    ensures
        v@ == s@,
{
    let n = s.unicode_len();
    let mut v: Vec<char> = Vec::new();
    let mut i: usize = 0;
    while i < n
        invariant
            i <= n,
            n == s@.len(),
            v@ == s@.subrange(0, i as int),
        decreases n - i,
    {
        v.push(s.get_char(i));
        i = i + 1;
        assert(v@ =~= s@.subrange(0, i as int));
    }
    assert(v@ =~= s@);
    v
}

/// A string made of the characters `chars[from..to]`.
pub fn string_from_chars(chars: &Vec<char>, from: usize, to: usize) -> (s: String)
    requires
        from <= to <= chars@.len(),
    ensures
        s@ == chars@.subrange(from as int, to as int),
{
    let mut s = String::new();
    let mut i = from;
    while i < to
        invariant
            from <= i <= to,
            to <= chars@.len(),
            s@ == chars@.subrange(from as int, i as int),
        decreases to - i,
    {
        s.push(chars[i]);
        i = i + 1;
        assert(s@ =~= chars@.subrange(from as int, i as int));
    }
    s
}

/// Whether two string slices hold the same characters.
pub fn str_eq(a: &str, b: &str) -> (r: bool)
    ensures
        r == (a@ == b@),
{
    let x = chars_of(a);
    let y = chars_of(b);
    if x.len() != y.len() {
        return false;
    }
    let mut i: usize = 0;
    while i < x.len()
        invariant
            i <= x@.len(),
            x@.len() == y@.len(),
            x@ == a@,
            y@ == b@,
            forall|k: int| 0 <= k < i ==> x@[k] == y@[k],
        decreases x@.len() - i,
    {
        if x[i] != y[i] {
            return false;
        }
        i = i + 1;
    }
    assert(x@ =~= y@);
    true
}

/// ASCII lower-casing of one character.
pub fn lower_char(c: char) -> (r: char)
    ensures
        r == ascii_lower_char(c),
{
    if 'A' <= c && c <= 'Z' {
        ((c as u8) + 32) as char
    } else {
        c
    }
}

/// A copy of the string with each ASCII letter lower-cased (`str::to_ascii_lowercase`).
pub fn to_ascii_lowercase(s: &str) -> (r: String)
    ensures
        r@ == ascii_lower(s@),
{
    let chars = chars_of(s);
    let mut r = String::new();
    let mut i: usize = 0;
    while i < chars.len()
        invariant
            i <= chars@.len(),
            chars@ == s@,
            r@ == ascii_lower(s@.subrange(0, i as int)),
        decreases chars@.len() - i,
    {
        r.push(lower_char(chars[i]));
        i = i + 1;
        assert(ascii_lower(s@.subrange(0, i as int)) =~= ascii_lower(
            s@.subrange(0, (i - 1) as int),
        ).push(ascii_lower_char(s@[i - 1])));
    }
    assert(s@.subrange(0, i as int) =~= s@);
    r
}

/// Whether a character is Unicode whitespace (`char::is_whitespace`).
pub fn is_whitespace(c: char) -> (r: bool)
    ensures
        r == is_white_space(c),
{
    ('\u{9}' <= c && c <= '\u{D}') || c == ' ' || c == '\u{85}' || c == '\u{A0}' || c
        == '\u{1680}' || ('\u{2000}' <= c && c <= '\u{200A}') || c == '\u{2028}' || c
        == '\u{2029}' || c == '\u{202F}' || c == '\u{205F}' || c == '\u{3000}'
}

fn in_set(set: TrimSet, c: char) -> (r: bool)
    ensures
        r == in_trim_set(set, c),
{
    match set {
        TrimSet::WhiteSpace => is_whitespace(c),
        TrimSet::Char(t) => c == t,
    }
}

/// The string with every leading and trailing character of `set` removed
/// (`str::trim` for whitespace, `str::trim_matches(c)` for one character).
pub fn trim_set(s: &str, set: TrimSet) -> (r: String)
    ensures
        r@ == trimmed(s@, set),
{
    let chars = chars_of(s);
    let n = chars.len();
    let mut start: usize = 0;
    while start < n && in_set(set, chars[start])
        invariant
            start <= n,
            n == s@.len(),
            chars@ == s@,
            trim_start_index(s@, set, 0) == trim_start_index(s@, set, start as int),
        decreases n - start,
    {
        start = start + 1;
    }
    let mut end: usize = n;
    while end > start && in_set(set, chars[end - 1])
        invariant
            start <= end <= n,
            n == s@.len(),
            chars@ == s@,
            trim_start_index(s@, set, 0) == start,
            trim_end_index(s@, set, start as int, n as int) == trim_end_index(
                s@,
                set,
                start as int,
                end as int,
            ),
        decreases end - start,
    {
        end = end - 1;
    }
    string_from_chars(&chars, start, end)
}

/// The string with leading and trailing Unicode whitespace removed (`str::trim`).
pub fn trim(s: &str) -> (r: String)
    ensures
        r@ == trimmed(s@, TrimSet::WhiteSpace),
{
    trim_set(s, TrimSet::WhiteSpace)
}

/// Whether `needle` occurs in `hay` (`str::contains` with a string pattern).
pub fn contains(hay: &str, needle: &str) -> (r: bool)
    ensures
        r == seq_contains(hay@, needle@),
{
    let h = chars_of(hay);
    let n = chars_of(needle);
    if n.len() > h.len() {
        return false;
    }
    if n.len() == 0 {
        assert(hay@.subrange(0int, 0int + needle@.len()) =~= needle@);
        return true;
    }
    let last = h.len() - n.len();
    let mut i: usize = 0;
    while i <= last
        invariant
            h@ == hay@,
            n@ == needle@,
            0 < n@.len() <= h@.len(),
            last == h@.len() - n@.len(),
            forall|k: int| 0 <= k < i ==> #[trigger] h@.subrange(k, k + n@.len()) != n@,
        decreases last + 1 - i,
    {
        let mut j: usize = 0;
        let mut same = true;
        while j < n.len()
            invariant
                h@ == hay@,
                n@ == needle@,
                i <= last,
                last == h@.len() - n@.len(),
                n@.len() <= h@.len(),
                j <= n@.len(),
                same ==> forall|t: int| 0 <= t < j ==> h@[i + t] == n@[t],
                !same ==> h@.subrange(i as int, i + n@.len()) != n@,
            decreases n@.len() - j,
        {
            assert(i + j < h.len());
            if h[i + j] != n[j] {
                assert(h@.subrange(i as int, i + n@.len())[j as int] != n@[j as int]);
                same = false;
            }
            j = j + 1;
        }
        if same {
            assert(h@.subrange(i as int, i + n@.len()) =~= n@);
            return true;
        }
        assert(i < h.len());
        i = i + 1;
    }
    assert forall|k: int| 0 <= k && k + needle@.len() <= hay@.len() implies #[trigger] hay@.subrange(
        k,
        k + needle@.len(),
    ) != needle@ by {
        assert(k < i);
    }
    false
}

/// The file name of a path: the text after the last `\` or `/`, or `None` when that
/// text is empty.
pub fn file_name(path: &str) -> (r: Option<String>)
    ensures
        r matches Some(name) ==> spec_file_name(path@) == Some(name@),
        r is None ==> spec_file_name(path@) is None,
{
    let chars = chars_of(path);
    let n = chars.len();
    let mut start: usize = n;
    while start > 0 && !(chars[start - 1] == '\\' || chars[start - 1] == '/')
        invariant
            start <= n,
            n == path@.len(),
            chars@ == path@,
            last_segment_start(path@, n as int) == last_segment_start(path@, start as int),
        decreases start,
    {
        start = start - 1;
    }
    if start == n {
        None
    } else {
        Some(string_from_chars(&chars, start, n))
    }
}

/// Append the decimal representation of `n`.
pub fn push_decimal(s: &mut String, n: u64)
    ensures
        final(s)@ == old(s)@ + decimal(n as nat),
    decreases n,
{
    if n >= 10 {
        push_decimal(s, n / 10);
    }
    let d = (n % 10) as u8;
    s.push((48u8 + d) as char);
    assert(final(s)@ =~= old(s)@ + decimal(n as nat));
}

/// Append one hexadecimal digit.
fn push_hex_digit(s: &mut String, d: u8, upper: bool)
    requires
        d < 16,
    ensures
        final(s)@ == old(s)@.push(hex_digit(d as nat, upper)),
{
    if d < 10 {
        s.push((48u8 + d) as char);
    } else if upper {
        s.push((55u8 + d) as char);
    } else {
        s.push((87u8 + d) as char);
    }
}

/// Append a byte as exactly two hexadecimal digits.
pub fn push_hex2(s: &mut String, b: u8, upper: bool)
    ensures
        final(s)@ == old(s)@ + hex2(b, upper),
{
    push_hex_digit(s, b / 16, upper);
    push_hex_digit(s, b % 16, upper);
    assert(final(s)@ =~= old(s)@ + hex2(b, upper));
}

/// Append a string slice.
pub fn push_str(s: &mut String, other: &str)
    ensures
        final(s)@ == old(s)@ + other@,
{
    s.append(other);
}

// ---------------------------------------------------------------------------------------
// Unsigned integer parsing
// ---------------------------------------------------------------------------------------

/// An ASCII decimal digit.
pub open spec fn is_ascii_digit(c: char) -> bool {
    '0' <= c && c <= '9'
}

/// The value of a run of ASCII decimal digits.
pub open spec fn digits_value(s: Seq<char>) -> nat
    decreases s.len(),
{
    if s.len() == 0 {
        0
    } else {
        digits_value(s.drop_last()) * 10 + ((s.last() as u32) - 48) as nat
    }
}

/// Every character is an ASCII decimal digit.
pub open spec fn all_ascii_digits(s: Seq<char>) -> bool {
    forall|i: int| 0 <= i < s.len() ==> is_ascii_digit(#[trigger] s[i])
}

/// The digit part of an unsigned number: the text after an optional leading `+`.
pub open spec fn unsigned_digits(s: Seq<char>) -> Seq<char> {
    if s.len() > 0 && s[0] == '+' {
        s.drop_first()
    } else {
        s
    }
}

/// What `str::parse::<u32>` accepts: an optional leading `+`, then one or more ASCII
/// digits (leading zeros allowed) whose value fits in a `u32`.
pub open spec fn spec_parse_u32(s: Seq<char>) -> Option<u32> {
    let digits = unsigned_digits(s);
    if digits.len() == 0 || !all_ascii_digits(digits) || digits_value(digits) > u32::MAX {
        None
    } else {
        Some(digits_value(digits) as u32)
    }
}

proof fn lemma_digits_value_monotone(s: Seq<char>, i: int)
    requires
        0 <= i <= s.len(),
        forall|k: int| 0 <= k < s.len() ==> is_ascii_digit(#[trigger] s[k]),
    ensures
        digits_value(s.subrange(0, i)) <= digits_value(s),
    decreases s.len() - i,
{
    if i < s.len() {
        lemma_digits_value_monotone(s, i + 1);
        assert(s.subrange(0, i + 1).drop_last() =~= s.subrange(0, i));
    } else {
        assert(s.subrange(0, i) =~= s);
    }
}

/// Parse an unsigned decimal number the way `str::parse::<u32>` does.
pub fn parse_u32(text: &str) -> (r: Option<u32>)
    ensures
        r == spec_parse_u32(text@),
{
    let chars = chars_of(text);
    let start: usize = if chars.len() > 0 && chars[0] == '+' {
        1
    } else {
        0
    };
    let ghost digits = unsigned_digits(text@);
    assert(digits =~= text@.subrange(start as int, text@.len() as int));
    if start == chars.len() {
        return None;
    }
    let mut value: u64 = 0;
    let mut i: usize = start;
    while i < chars.len()
        invariant
            start <= i <= chars@.len(),
            chars@ == text@,
            digits == text@.subrange(start as int, text@.len() as int),
            digits == unsigned_digits(text@),
            start < chars@.len(),
            forall|k: int| start <= k < i ==> is_ascii_digit(#[trigger] text@[k]),
            value == digits_value(text@.subrange(start as int, i as int)),
            value <= u32::MAX,
        decreases chars@.len() - i,
    {
        let c = chars[i];
        if !('0' <= c && c <= '9') {
            proof {
                let k = (i - start) as int;
                assert(digits[k] == c);
                assert(!is_ascii_digit(digits[k]));
                assert(0 <= k < digits.len());
                assert(!all_ascii_digits(digits));
            }
            return None;
        }
        let d = (c as u32 - 48) as u64;
        let next = value * 10 + d;
        proof {
            let prefix = text@.subrange(start as int, i + 1);
            assert(prefix.drop_last() =~= text@.subrange(start as int, i as int));
            assert(prefix.last() == c);
        }
        if next > 4294967295u64 {
            proof {
                let k = (i + 1 - start) as int;
                let prefix = text@.subrange(start as int, i + 1);
                assert(digits.subrange(0, k) =~= prefix);
                assert(digits_value(prefix) == digits_value(prefix.drop_last()) * 10 + ((c as u32) - 48) as nat);
                assert(digits_value(prefix) == next);
                if all_ascii_digits(digits) {
                    lemma_digits_value_monotone(digits, k);
                }
            }
            return None;
        }
        value = next;
        i = i + 1;
    }
    assert(text@.subrange(start as int, i as int) =~= digits);
    Some(value as u32)
}

// ---------------------------------------------------------------------------------------
// UTF-16
// ---------------------------------------------------------------------------------------

/// The UTF-16 code units of one character: one unit below U+10000, else a surrogate
/// pair.
pub open spec fn utf16_units(c: char) -> Seq<u16> {
    if (c as u32) < 0x10000 {
        seq![(c as u32) as u16]
    } else {
        let v = (c as u32) - 0x10000;
        seq![(0xD800 + v / 0x400) as u16, (0xDC00 + v % 0x400) as u16]
    }
}

/// The UTF-16 encoding of a character sequence.
pub open spec fn utf16(s: Seq<char>) -> Seq<u16>
    decreases s.len(),
{
    if s.len() == 0 {
        Seq::empty()
    } else {
        utf16(s.drop_last()) + utf16_units(s.last())
    }
}

/// The UTF-16 encoding of a string followed by a terminating NUL unit, as wide-string
/// OS interfaces expect.
pub fn widestring(value: &str) -> (w: Vec<u16>)
    ensures
        w@ == utf16(value@).push(0u16),
{
    let chars = chars_of(value);
    let mut w: Vec<u16> = Vec::new();
    let mut i: usize = 0;
    while i < chars.len()
        invariant
            i <= chars@.len(),
            chars@ == value@,
            w@ == utf16(value@.subrange(0, i as int)),
        decreases chars@.len() - i,
    {
        let c = chars[i];
        let code = c as u32;
        if code < 0x10000 {
            w.push(code as u16);
        } else {
            let v = code - 0x10000;
            w.push((0xD800 + v / 0x400) as u16);
            w.push((0xDC00 + v % 0x400) as u16);
        }
        proof {
            let next = value@.subrange(0, i + 1);
            assert(next.drop_last() =~= value@.subrange(0, i as int));
            assert(next.last() == c);
        }
        i = i + 1;
        assert(w@ =~= utf16(value@.subrange(0, i as int)));
    }
    assert(value@.subrange(0, i as int) =~= value@);
    w.push(0);
    w
}

/// Every character of a decimal representation is an ASCII digit, and the digits read
/// back as the number.
proof fn lemma_decimal_digits(n: nat)
    ensures
        decimal(n).len() > 0,
        all_ascii_digits(decimal(n)),
        digits_value(decimal(n)) == n,
    decreases n,
{
    let k = n % 10;
    assert(decimal_digit(k) as u32 == 48 + k);
    if n < 10 {
        let d = decimal(n);
        assert(d.drop_last() =~= Seq::<char>::empty());
        assert(d.last() == decimal_digit(k));
        assert(digits_value(d) == digits_value(d.drop_last()) * 10 + ((d.last() as u32) - 48) as nat);
    } else {
        lemma_decimal_digits(n / 10);
        let d = decimal(n);
        assert(d.drop_last() =~= decimal(n / 10));
        assert(d.last() == decimal_digit(k));
        assert(digits_value(d) == digits_value(d.drop_last()) * 10 + ((d.last() as u32) - 48) as nat);
        assert forall|i: int| 0 <= i < d.len() implies is_ascii_digit(#[trigger] d[i]) by {
            if i < d.len() - 1 {
                assert(d[i] == decimal(n / 10)[i]);
            }
        }
    }
}

/// Writing a number in decimal and parsing it back gives the number again: the text
/// [`push_decimal`] writes is read by [`parse_u32`] as the same value.
pub proof fn law_decimal_round_trip(n: u32)
    ensures
        spec_parse_u32(decimal(n as nat)) == Some(n),
{
    lemma_decimal_digits(n as nat);
    assert(decimal(n as nat)[0] != '+') by {
        assert(is_ascii_digit(decimal(n as nat)[0]));
    }
    assert(unsigned_digits(decimal(n as nat)) == decimal(n as nat));
}

} // verus!
