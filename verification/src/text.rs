//! Character-level text primitives shared by the parsers and formatters.
//!
//! Every function here is specified over `Seq<char>`, the view of `str` and
//! `String`, so that callers can state their own results as plain sequence
//! expressions.

use vstd::prelude::*;
use vstd::string::*;

verus! {

/// Characters with the Unicode `White_Space` property.
pub open spec fn is_ws(c: char) -> bool {
    let n = c as u32;
    (0x09 <= n && n <= 0x0D) || n == 0x20 || n == 0x85 || n == 0xA0 || n == 0x1680 || (0x2000 <= n
        && n <= 0x200A) || n == 0x2028 || n == 0x2029 || n == 0x202F || n == 0x205F || n == 0x3000
}

/// ASCII decimal digits.
pub open spec fn is_digit(c: char) -> bool {
    '0' <= c && c <= '9'
}

/// The value of an ASCII decimal digit.
pub open spec fn digit_value(c: char) -> int {
    c as u32 as int - 0x30
}

/// The ASCII digit that stands for `d`, for `0 <= d < 10`.
pub open spec fn digit_char(d: int) -> char {
    (d + 0x30) as u32 as char
}

/// The lower-case hexadecimal digit that stands for `d`, for `0 <= d < 16`.
pub open spec fn hex_char(d: int) -> char {
    if d < 10 {
        (d + 0x30) as u32 as char
    } else {
        (d - 10 + 0x61) as u32 as char
    }
}

/// ASCII lower-casing of one character; everything outside `A..=Z` is kept.
pub open spec fn ascii_lower(c: char) -> char {
    if 'A' <= c && c <= 'Z' {
        (c as u32 + 32) as char
    } else {
        c
    }
}

/// ASCII upper-casing of one character; everything outside `a..=z` is kept.
pub open spec fn ascii_upper(c: char) -> char {
    if 'a' <= c && c <= 'z' {
        (c as u32 - 32) as u32 as char
    } else {
        c
    }
}

/// A newline becomes a single space; every other character is kept.
pub open spec fn newline_to_space(c: char) -> char {
    if c == '\n' {
        ' '
    } else {
        c
    }
}

/// ASCII lower-casing of a whole text.
pub open spec fn lower_spec(s: Seq<char>) -> Seq<char> {
    s.map_values(|c: char| ascii_lower(c))
}

/// Every newline of a text replaced by a space.
pub open spec fn unwrap_lines_spec(s: Seq<char>) -> Seq<char> {
    s.map_values(|c: char| newline_to_space(c))
}

/// First index at or after `i` that holds no whitespace (`s.len()` if none).
pub open spec fn skip_ws(s: Seq<char>, i: int) -> int
    decreases s.len() - i,
{
    if 0 <= i < s.len() && is_ws(s[i]) {
        skip_ws(s, i + 1)
    } else {
        i
    }
}

/// Smallest end `k <= j` such that `s[k..j]` is all whitespace.
pub open spec fn skip_ws_back(s: Seq<char>, j: int) -> int
    decreases j,
{
    if 0 < j <= s.len() && is_ws(s[j - 1]) {
        skip_ws_back(s, j - 1)
    } else {
        j
    }
}

/// The text without leading whitespace.
pub open spec fn trim_start_spec(s: Seq<char>) -> Seq<char> {
    s.subrange(skip_ws(s, 0), s.len() as int)
}

/// The text without trailing whitespace.
pub open spec fn trim_end_spec(s: Seq<char>) -> Seq<char> {
    s.subrange(0, skip_ws_back(s, s.len() as int))
}

/// The text without leading and trailing whitespace.
pub open spec fn trim_spec(s: Seq<char>) -> Seq<char> {
    trim_end_spec(trim_start_spec(s))
}

/// First index at or after `i` that holds `c` (`s.len()` if none).
pub open spec fn find_from(s: Seq<char>, c: char, i: int) -> int
    decreases s.len() - i,
{
    if 0 <= i < s.len() && s[i] != c {
        find_from(s, c, i + 1)
    } else if i < 0 {
        0
    } else if i > s.len() {
        s.len() as int
    } else {
        i
    }
}

/// First index at or after `i` that holds no ASCII digit (`s.len()` if none).
pub open spec fn skip_digits(s: Seq<char>, i: int) -> int
    decreases s.len() - i,
{
    if 0 <= i < s.len() && is_digit(s[i]) {
        skip_digits(s, i + 1)
    } else {
        i
    }
}

/// The number that the decimal digits of `s` spell; the empty text spells 0.
pub open spec fn decimal_value(s: Seq<char>) -> int
    decreases s.len(),
{
    if s.len() == 0 {
        0
    } else {
        10 * decimal_value(s.drop_last()) + digit_value(s.last())
    }
}

/// Whether every character of `s` is an ASCII decimal digit.
pub open spec fn all_digits(s: Seq<char>) -> bool {
    forall|i: int| 0 <= i < s.len() ==> is_digit(#[trigger] s[i])
}

/// The shortest decimal spelling of `n`.
pub open spec fn decimal_spec(n: nat) -> Seq<char>
    decreases n,
{
    if n < 10 {
        seq![digit_char(n as int)]
    } else {
        decimal_spec(n / 10).push(digit_char((n % 10) as int))
    }
}

/// The last `width` decimal digits of `n`, zero-padded on the left.
pub open spec fn decimal_fixed(n: nat, width: nat) -> Seq<char>
    decreases width,
{
    if width == 0 {
        Seq::empty()
    } else {
        decimal_fixed(n / 10, (width - 1) as nat).push(digit_char((n % 10) as int))
    }
}

/// The decimal spelling of `n`, zero-padded on the left to at least `width` digits.
pub open spec fn decimal_padded(n: nat, width: nat) -> Seq<char>
    decreases width,
{
    if width <= 1 || n >= pow10((width - 1) as nat) {
        decimal_spec(n)
    } else {
        seq!['0'] + decimal_padded(n, (width - 1) as nat)
    }
}

/// Ten to the power `e`.
pub open spec fn pow10(e: nat) -> nat
    decreases e,
{
    if e == 0 {
        1
    } else {
        10 * pow10((e - 1) as nat)
    }
}

/// The last `width` lower-case hexadecimal digits of `n`, zero-padded on the left.
pub open spec fn hex_fixed(n: nat, width: nat) -> Seq<char>
    decreases width,
{
    if width == 0 {
        Seq::empty()
    } else {
        hex_fixed(n / 16, (width - 1) as nat).push(hex_char((n % 16) as int))
    }
}

/// Whether `s` ends with `suffix`.
pub open spec fn ends_with_spec(s: Seq<char>, suffix: Seq<char>) -> bool {
    suffix.len() <= s.len() && s.subrange(s.len() - suffix.len(), s.len() as int) == suffix
}

/// `String::push`: the character is appended and nothing else changes.
#[verifier::external_body]
fn push_char(s: &mut String, c: char)
    ensures
        final(s)@ == old(s)@.push(c),
{
    s.push(c);
}

/// The characters of a string slice, in order.
pub fn chars_of(s: &str) -> (v: Vec<char>)
    ensures
        v@ == s@,
{
    let mut v: Vec<char> = Vec::new();
    for c in it: s.chars()
        invariant
            it.seq() == s@,
            v@ == s@.take(it.index() as int),
    {
        v.push(c);
    }
    v
}

/// The string made of the characters `v[from..to]`.
pub fn string_of_range(v: &Vec<char>, from: usize, to: usize) -> (r: String)
    requires
        from <= to <= v.len(),
    ensures
        r@ == v@.subrange(from as int, to as int),
{
    let mut r = String::new();
    let mut i: usize = from;
    while i < to
        invariant
            from <= i <= to <= v.len(),
            r@ == v@.subrange(from as int, i as int),
        decreases to - i,
    {
        push_char(&mut r, v[i]);
        i += 1;
    }
    r
}

/// Whether `c` has the Unicode `White_Space` property.
pub fn is_whitespace(c: char) -> (b: bool)
    ensures
        b == is_ws(c),
{
    let n: u32 = c as u32;
    (0x09 <= n && n <= 0x0D) || n == 0x20 || n == 0x85 || n == 0xA0 || n == 0x1680 || (0x2000 <= n
        && n <= 0x200A) || n == 0x2028 || n == 0x2029 || n == 0x202F || n == 0x205F || n == 0x3000
}

/// Whether `c` is an ASCII decimal digit.
pub fn is_ascii_digit(c: char) -> (b: bool)
    ensures
        b == is_digit(c),
{
    '0' <= c && c <= '9'
}

/// The value of the ASCII decimal digit `c`.
pub fn digit_of(c: char) -> (d: u32)
    requires
        is_digit(c),
    ensures
        d == digit_value(c),
        d < 10,
{
    c as u32 - 0x30
}

/// First index at or after `i` of `v` that holds `c`, or `v.len()`.
pub fn find_char(v: &Vec<char>, c: char, i: usize) -> (j: usize)
    requires
        i <= v.len(),
    ensures
        j == find_from(v@, c, i as int),
        i <= j <= v.len(),
{
    let mut j: usize = i;
    while j < v.len() && v[j] != c
        invariant
            i <= j <= v.len(),
            find_from(v@, c, i as int) == find_from(v@, c, j as int),
        decreases v.len() - j,
    {
        j += 1;
    }
    j
}

/// The bounds of `v[from..to]` without its leading and trailing whitespace.
pub fn trim_range(v: &Vec<char>, from: usize, to: usize) -> (r: (usize, usize))
    requires
        from <= to <= v.len(),
    ensures
        from <= r.0 <= r.1 <= to,
        v@.subrange(r.0 as int, r.1 as int) == trim_spec(v@.subrange(from as int, to as int)),
{
    let ghost part = v@.subrange(from as int, to as int);
    let mut a: usize = from;
    while a < to && is_whitespace(v[a])
        invariant
            from <= a <= to <= v.len(),
            part == v@.subrange(from as int, to as int),
            skip_ws(part, 0) == skip_ws(part, a - from),
        decreases to - a,
    {
        a += 1;
    }
    let ghost rest = trim_start_spec(part);
    assert(rest == v@.subrange(a as int, to as int));
    let mut b: usize = to;
    while b > a && is_whitespace(v[b - 1])
        invariant
            a <= b <= to <= v.len(),
            rest == v@.subrange(a as int, to as int),
            skip_ws_back(rest, rest.len() as int) == skip_ws_back(rest, b - a),
        decreases b,
    {
        b -= 1;
    }
    assert(rest.subrange(0, b - a) == v@.subrange(a as int, b as int));
    (a, b)
}

/// The text without leading and trailing whitespace.
pub fn trim(s: &str) -> (r: String)
    ensures
        r@ == trim_spec(s@),
{
    let v = chars_of(s);
    let (a, b) = trim_range(&v, 0, v.len());
    assert(v@.subrange(0, v.len() as int) == v@);
    string_of_range(&v, a, b)
}

/// ASCII lower-casing of one character.
pub fn lower_char(c: char) -> (r: char)
    ensures
        r == ascii_lower(c),
{
    if 'A' <= c && c <= 'Z' {
        let n: u32 = c as u32 + 32;
        assert(n < 128);
        n as u8 as char
    } else {
        c
    }
}

/// The text with `A..=Z` lower-cased and every other character kept.
pub fn to_ascii_lowercase(s: &str) -> (r: String)
    ensures
        r@ == lower_spec(s@),
{
    let mut r = String::new();
    for c in it: s.chars()
        invariant
            it.seq() == s@,
            r@ == lower_spec(s@.take(it.index() as int)),
    {
        let ghost before = s@.take(it.index() as int);
        let ghost after = s@.take(it.index() + 1);
        push_char(&mut r, lower_char(c));
        assert(lower_spec(after) == lower_spec(before).push(ascii_lower(c)));
    }
    assert(s@.take(s@.len() as int) == s@);
    r
}

/// Whether every character of the text is an ASCII character.
pub open spec fn is_ascii_text(s: Seq<char>) -> bool {
    forall|i: int| 0 <= i < s.len() ==> (#[trigger] s[i] as u32) < 128
}

/// The lower case of a text as Unicode defines it.
pub uninterp spec fn lowercased(s: Seq<char>) -> Seq<char>;

/// The lower case of a text: of an ASCII text the ASCII lower case, of any
/// other what Unicode defines.
pub open spec fn lower_text(s: Seq<char>) -> Seq<char> {
    if is_ascii_text(s) {
        lower_spec(s)
    } else {
        lowercased(s)
    }
}

/// `str::to_lowercase`: the lower case of the text as Unicode defines it, a
/// function of the text alone. On a text of ASCII characters it is the
/// ASCII lower case.
#[verifier::external_body]
pub(crate) fn to_lowercase(s: &str) -> (r: String)
    ensures
        r@ == lowercased(s@),
        is_ascii_text(s@) ==> r@ == lower_spec(s@),
{
    s.to_lowercase()
}

/// The text with every newline replaced by one space.
pub fn unwrap_lines(s: &str) -> (r: String)
    ensures
        r@ == unwrap_lines_spec(s@),
{
    let mut r = String::new();
    for c in it: s.chars()
        invariant
            it.seq() == s@,
            r@ == unwrap_lines_spec(s@.take(it.index() as int)),
    {
        let ghost before = s@.take(it.index() as int);
        let ghost after = s@.take(it.index() + 1);
        let out = if c == '\n' {
            ' '
        } else {
            c
        };
        push_char(&mut r, out);
        assert(unwrap_lines_spec(after) == unwrap_lines_spec(before).push(newline_to_space(c)));
    }
    assert(s@.take(s@.len() as int) == s@);
    r
}

/// Appends the characters of `s` to `buf`.
pub fn push_text(buf: &mut String, s: &str)
    ensures
        final(buf)@ == old(buf)@ + s@,
{
    buf.append(s);
}

/// The decimal spelling of an integer, with `-` before a negative one.
pub open spec fn int_text(n: int) -> Seq<char> {
    if n < 0 {
        seq!['-'] + decimal_spec((-n) as nat)
    } else {
        decimal_spec(n as nat)
    }
}

/// The ASCII digit for `d`.
pub fn digit_to_char(d: u8) -> (c: char)
    requires
        d < 10,
    ensures
        c == digit_char(d as int),
{
    (d + 0x30) as char
}

/// The lower-case hexadecimal digit for `d`.
pub fn hex_to_char(d: u8) -> (c: char)
    requires
        d < 16,
    ensures
        c == hex_char(d as int),
{
    if d < 10 {
        (d + 0x30) as char
    } else {
        (d - 10 + 0x61) as char
    }
}

/// Appends the shortest decimal spelling of `n`.
pub fn push_decimal(buf: &mut String, n: u64)
    ensures
        final(buf)@ == old(buf)@ + decimal_spec(n as nat),
    decreases n,
{
    if n >= 10 {
        push_decimal(buf, n / 10);
    }
    push_char(buf, digit_to_char((n % 10) as u8));
}

/// Appends the decimal spelling of `n`, with `-` before a negative one.
pub fn push_int(buf: &mut String, n: i64)
    ensures
        final(buf)@ == old(buf)@ + int_text(n as int),
{
    if n < 0 {
        push_char(buf, '-');
        let magnitude: u64 = if n == i64::MIN {
            9223372036854775808u64
        } else {
            (-n) as u64
        };
        push_decimal(buf, magnitude);
    } else {
        push_decimal(buf, n as u64);
    }
}

/// Appends the last `width` lower-case hexadecimal digits of `n`.
pub fn push_hex_fixed(buf: &mut String, n: u32, width: u8)
    ensures
        final(buf)@ == old(buf)@ + hex_fixed(n as nat, width as nat),
    decreases width,
{
    if width > 0 {
        push_hex_fixed(buf, n / 16, width - 1);
        push_char(buf, hex_to_char((n % 16) as u8));
    }
}

/// Whether two texts hold the same characters.
pub fn same_text(a: &str, b: &str) -> (r: bool)
    ensures
        r == (a@ == b@),
{
    let x = chars_of(a);
    let y = chars_of(b);
    if x.len() != y.len() {
        return false;
    }
    let mut i: usize = 0;
    while i < x.len()
        invariant
            x@ == a@,
            y@ == b@,
            x.len() == y.len(),
            i <= x.len(),
            forall|k: int| 0 <= k < i ==> x@[k] == y@[k],
        decreases x.len() - i,
    {
        if x[i] != y[i] {
            return false;
        }
        i += 1;
    }
    assert(x@ =~= y@);
    true
}

/// Whether `s` ends with `suffix`.
pub fn ends_with(s: &str, suffix: &str) -> (r: bool)
    ensures
        r == ends_with_spec(s@, suffix@),
{
    let x = chars_of(s);
    let y = chars_of(suffix);
    if y.len() > x.len() {
        return false;
    }
    let off: usize = x.len() - y.len();
    let ghost tail = x@.subrange(off as int, x.len() as int);
    let mut i: usize = 0;
    while i < y.len()
        invariant
            x@ == s@,
            y@ == suffix@,
            off + y.len() == x.len(),
            i <= y.len(),
            tail == x@.subrange(off as int, x.len() as int),
            forall|k: int| 0 <= k < i ==> tail[k] == y@[k],
        decreases y.len() - i,
    {
        if x[off + i] != y[i] {
            assert(tail[i as int] != y@[i as int]);
            return false;
        }
        i += 1;
    }
    assert(tail =~= y@);
    true
}

/// What `voca_rs::case::capitalize` makes of a text when the rest is to be
/// kept: the upper case of the first character, by the Unicode case
/// mappings, and then the other characters as they are.
pub uninterp spec fn capitalized(s: Seq<char>) -> Seq<char>;

/// Whether a text starts with an ASCII character.
pub open spec fn ascii_initial(s: Seq<char>) -> bool {
    s.len() > 0 && (s[0] as u32) < 128
}

/// The first character ASCII upper-cased, the others kept.
pub open spec fn ascii_capitalized(s: Seq<char>) -> Seq<char> {
    seq![ascii_upper(s[0])] + s.subrange(1, s.len() as int)
}

/// A text with its first letter capitalized and the rest kept: the empty
/// text stays empty, an ASCII initial is upper-cased the ASCII way, and any
/// other initial as the Unicode case mappings have it.
pub open spec fn first_capitalized(s: Seq<char>) -> Seq<char> {
    if s.len() == 0 {
        s
    } else if ascii_initial(s) {
        ascii_capitalized(s)
    } else {
        capitalized(s.take(1)) + s.skip(1)
    }
}

/// How a channel name is normalized: trimmed, then its first letter
/// capitalized.
pub open spec fn normal_channel(s: Seq<char>) -> Seq<char> {
    first_capitalized(trim_spec(s))
}

/// `voca_rs::case::capitalize(s, false)`: the empty text stays empty; of
/// any other, the first character is capitalized as it would be alone and
/// the characters behind it are kept; on an ASCII initial the Unicode
/// upper case is the ASCII one.
#[verifier::external_body]
pub(crate) fn capitalize(s: &str) -> (r: String)
    ensures
        r@ == capitalized(s@),
        s@.len() == 0 ==> r@ == s@,
        s@.len() > 0 ==> r@ == capitalized(s@.take(1)) + s@.skip(1),
        ascii_initial(s@) ==> r@ == ascii_capitalized(s@),
{
    voca_rs::case::capitalize(s, false)
}

/// The channel name in normalized form: trimmed, and its first letter
/// capitalized.
pub fn normalize_channel(s: &str) -> (r: String)
    ensures
        r@ == normal_channel(s@),
{
    let trimmed = trim(s);
    capitalize(trimmed.as_str())
}

/// A number written at a fixed width has that width.
pub(crate) proof fn lemma_decimal_fixed_len(n: nat, width: nat)
    ensures
        decimal_fixed(n, width).len() == width,
    decreases width,
{
    if width > 0 {
        lemma_decimal_fixed_len(n / 10, (width - 1) as nat);
    }
}

/// From `i` on, `skip_ws` stops at the first character that is no
/// whitespace, and everything that it passes is whitespace.
pub(crate) proof fn lemma_skip_ws(s: Seq<char>, i: int)
    requires
        0 <= i <= s.len(),
    ensures
        i <= skip_ws(s, i) <= s.len(),
        forall|k: int| i <= k < skip_ws(s, i) ==> is_ws(#[trigger] s[k]),
        skip_ws(s, i) < s.len() ==> !is_ws(s[skip_ws(s, i)]),
    decreases s.len() - i,
{
    if i < s.len() && is_ws(s[i]) {
        lemma_skip_ws(s, i + 1);
    }
}

/// Back from `j`, `skip_ws_back` stops behind the last character that is no
/// whitespace, and everything that it passes is whitespace.
pub(crate) proof fn lemma_skip_ws_back(s: Seq<char>, j: int)
    requires
        0 <= j <= s.len(),
    ensures
        0 <= skip_ws_back(s, j) <= j,
        forall|k: int| skip_ws_back(s, j) <= k < j ==> is_ws(#[trigger] s[k]),
        skip_ws_back(s, j) > 0 ==> !is_ws(s[skip_ws_back(s, j) - 1]),
    decreases j,
{
    if j > 0 && is_ws(s[j - 1]) {
        lemma_skip_ws_back(s, j - 1);
    }
}

/// `skip_ws` is the only index that ends a run of whitespace from `i`.
pub(crate) proof fn lemma_skip_ws_unique(s: Seq<char>, i: int, j: int)
    requires
        0 <= i <= j <= s.len(),
        forall|k: int| i <= k < j ==> is_ws(#[trigger] s[k]),
        j < s.len() ==> !is_ws(s[j]),
    ensures
        skip_ws(s, i) == j,
    decreases j - i,
{
    if i < j {
        lemma_skip_ws_unique(s, i + 1, j);
    }
}

/// `skip_ws_back` is the only index that starts a run of whitespace up to
/// `j`.
pub(crate) proof fn lemma_skip_ws_back_unique(s: Seq<char>, i: int, j: int)
    requires
        0 <= i <= j <= s.len(),
        forall|k: int| i <= k < j ==> is_ws(#[trigger] s[k]),
        i > 0 ==> !is_ws(s[i - 1]),
    ensures
        skip_ws_back(s, j) == i,
    decreases j - i,
{
    if i < j {
        lemma_skip_ws_back_unique(s, i, j - 1);
    }
}

/// Whether a text neither starts nor ends with whitespace.
pub open spec fn is_trimmed(s: Seq<char>) -> bool {
    s.len() > 0 ==> !is_ws(s.first()) && !is_ws(s.last())
}

/// A trimmed text neither starts nor ends with whitespace, and it is the
/// part of the text between two indices.
pub(crate) proof fn lemma_trim_bounds(s: Seq<char>) -> (r: (int, int))
    ensures
        0 <= r.0 <= r.1 <= s.len(),
        trim_spec(s) == s.subrange(r.0, r.1),
        is_trimmed(trim_spec(s)),
        forall|k: int| 0 <= k < r.0 ==> is_ws(#[trigger] s[k]),
        forall|k: int| r.1 <= k < s.len() ==> is_ws(#[trigger] s[k]),
{
    lemma_skip_ws(s, 0);
    let a = skip_ws(s, 0);
    let rest = trim_start_spec(s);
    lemma_skip_ws_back(rest, rest.len() as int);
    let b = skip_ws_back(rest, rest.len() as int);
    assert(trim_spec(s) =~= s.subrange(a, a + b));
    assert(forall|k: int| b <= k < rest.len() ==> rest[k] == s[a + k]);
    assert forall|k: int| a + b <= k < s.len() implies is_ws(#[trigger] s[k]) by {
        assert(is_ws(rest[k - a]));
    }
    if b > 0 {
        assert(rest[0] == s[a]);
        assert(rest[b - 1] == s[a + b - 1]);
    }
    (a, a + b)
}

/// Trimming leaves a trimmed text as it is.
pub(crate) proof fn lemma_trim_trimmed(s: Seq<char>)
    requires
        is_trimmed(s),
    ensures
        trim_spec(s) == s,
{
    if s.len() > 0 {
        assert(skip_ws(s, 0) == 0);
        let rest = trim_start_spec(s);
        assert(rest =~= s);
        assert(skip_ws_back(rest, rest.len() as int) == rest.len());
        assert(trim_spec(s) =~= s);
    } else {
        assert(trim_spec(s) =~= s);
    }
}

/// Trimming twice is trimming once.
pub proof fn lemma_trim_idempotent(s: Seq<char>)
    ensures
        trim_spec(trim_spec(s)) == trim_spec(s),
{
    lemma_trim_bounds(s);
    lemma_trim_trimmed(trim_spec(s));
}

/// Lower-casing changes no whitespace into anything else, nor anything
/// else into whitespace.
pub(crate) proof fn lemma_lower_keeps_ws(c: char)
    ensures
        is_ws(ascii_lower(c)) == is_ws(c),
{
}

/// It is the same to trim and then lower-case as to lower-case and then
/// trim; the result is trimmed.
pub proof fn lemma_trim_lower(s: Seq<char>)
    ensures
        trim_spec(lower_spec(s)) == lower_spec(trim_spec(s)),
        is_trimmed(lower_spec(trim_spec(s))),
{
    let (a, b) = lemma_trim_bounds(s);
    let low = lower_spec(s);
    assert forall|k: int| 0 <= k < s.len() implies is_ws(#[trigger] low[k]) == is_ws(s[k]) by {
        lemma_lower_keeps_ws(s[k]);
    }
    let t = trim_spec(s);
    let lt = lower_spec(t);
    assert(lt =~= low.subrange(a, b));
    if a < b {
        lemma_skip_ws_unique(low, 0, a);
        let rest = trim_start_spec(low);
        assert(rest =~= low.subrange(a, s.len() as int));
        assert(forall|k: int| 0 <= k < rest.len() ==> rest[k] == low[a + k]);
        lemma_skip_ws_back_unique(rest, b - a, rest.len() as int);
        assert(trim_spec(low) =~= low.subrange(a, b));
    } else {
        // everything is whitespace
        assert(t.len() == 0);
        lemma_skip_ws(s, 0);
        let sa = skip_ws(s, 0);
        let srest = trim_start_spec(s);
        lemma_skip_ws_back(srest, srest.len() as int);
        if sa < s.len() {
            // the rest is all whitespace, against what `skip_ws` found
            assert(skip_ws_back(srest, srest.len() as int) == 0);
            assert(is_ws(srest[0]));
            assert(srest[0] == s[sa]);
        }
        assert(forall|k: int| 0 <= k < s.len() ==> is_ws(#[trigger] s[k]));
        lemma_skip_ws_unique(low, 0, low.len() as int);
        assert(trim_start_spec(low) =~= Seq::<char>::empty());
        assert(trim_spec(low) =~= Seq::<char>::empty());
    }
}

/// The number that a text spells for `str::parse`: an optional `+`, then
/// one decimal digit or more, and a value of at most `max`.
pub open spec fn parsed_unsigned(s: Seq<char>, max: nat) -> Option<nat> {
    let digits = if s.len() > 0 && s[0] == '+' {
        s.subrange(1, s.len() as int)
    } else {
        s
    };
    if digits.len() > 0 && all_digits(digits) && decimal_value(digits) <= max {
        Some(decimal_value(digits) as nat)
    } else {
        None
    }
}

/// The value of a run of digits is not negative, and a longer run is worth
/// no less than the run it starts with.
pub(crate) proof fn lemma_decimal_value_grows(s: Seq<char>, k: int)
    requires
        all_digits(s),
        0 <= k <= s.len(),
    ensures
        0 <= decimal_value(s.subrange(0, k)) <= decimal_value(s),
    decreases s.len() - k,
{
    if k == s.len() {
        assert(s.subrange(0, k) =~= s);
        lemma_decimal_value_nonneg(s);
    } else {
        lemma_decimal_value_grows(s, k + 1);
        let longer = s.subrange(0, k + 1);
        assert(longer.drop_last() =~= s.subrange(0, k));
        assert(all_digits(s.subrange(0, k)));
        lemma_decimal_value_nonneg(s.subrange(0, k));
    }
}

/// The value of a run of digits is not negative.
pub(crate) proof fn lemma_decimal_value_nonneg(s: Seq<char>)
    requires
        all_digits(s),
    ensures
        decimal_value(s) >= 0,
    decreases s.len(),
{
    if s.len() > 0 {
        assert(all_digits(s.drop_last()));
        lemma_decimal_value_nonneg(s.drop_last());
    }
}

/// Reads a number as `str::parse::<u64>` does.
pub fn parse_u64(s: &str) -> (r: Option<u64>)
    ensures
        r is Some <==> parsed_unsigned(s@, u64::MAX as nat) is Some,
        r matches Some(n) ==> parsed_unsigned(s@, u64::MAX as nat) == Some(n as nat),
{
    let v = chars_of(s);
    let start: usize = if v.len() > 0 && v[0] == '+' {
        1
    } else {
        0
    };
    let ghost digits = v@.subrange(start as int, v.len() as int);
    assert(digits == if s@.len() > 0 && s@[0] == '+' {
        s@.subrange(1, s@.len() as int)
    } else {
        s@
    }) by {
        if start == 0 {
            assert(v@.subrange(0, v.len() as int) =~= v@);
        }
    }
    if start == v.len() {
        return None;
    }
    let mut acc: u64 = 0;
    let mut i: usize = start;
    while i < v.len()
        invariant
            start <= i <= v.len(),
            digits == v@.subrange(start as int, v.len() as int),
            digits.len() > 0,
            digits == if s@.len() > 0 && s@[0] == '+' {
                s@.subrange(1, s@.len() as int)
            } else {
                s@
            },
            all_digits(digits.subrange(0, i - start)),
            acc == decimal_value(digits.subrange(0, i - start)),
        decreases v.len() - i,
    {
        let c = v[i];
        let ghost before = digits.subrange(0, i - start);
        let ghost after = digits.subrange(0, i - start + 1);
        proof {
            assert(after.drop_last() =~= before);
            assert(after.last() == c);
        }
        if !is_ascii_digit(c) {
            assert(!is_digit(digits[i - start]));
            return None;
        }
        let d = digit_of(c) as u64;
        let next = match acc.checked_mul(10) {
            Some(tens) => tens.checked_add(d),
            None => None,
        };
        match next {
            Some(n) => {
                acc = n;
            },
            None => {
                proof {
                    assert(decimal_value(after) > u64::MAX);
                    if all_digits(digits) {
                        lemma_decimal_value_grows(digits, i - start + 1);
                    }
                }
                return None;
            },
        }
        assert(all_digits(after)) by {
            assert forall|k: int| 0 <= k < after.len() implies is_digit(#[trigger] after[k]) by {
                if k < before.len() {
                    assert(before[k] == after[k]);
                }
            }
        }
        i += 1;
    }
    assert(digits.subrange(0, digits.len() as int) =~= digits);
    Some(acc)
}

/// Two lower-case hexadecimal digits for a byte.
pub fn push_hex_byte(buf: &mut String, b: u8)
    ensures
        final(buf)@ == old(buf)@ + hex_fixed(b as nat, 2),
{
    push_hex_fixed(buf, b as u32, 2);
}

/// A number read under a small bound is the number read under a larger
/// one, where that one is small enough.
pub(crate) proof fn lemma_parsed_unsigned_narrow(s: Seq<char>, small: nat, large: nat)
    requires
        small <= large,
    ensures
        parsed_unsigned(s, small) == match parsed_unsigned(s, large) {
            Some(n) => if n <= small {
                Some(n)
            } else {
                None
            },
            None => None,
        },
{
    let digits = if s.len() > 0 && s[0] == '+' {
        s.subrange(1, s.len() as int)
    } else {
        s
    };
    if all_digits(digits) {
        lemma_decimal_value_nonneg(digits);
    }
}

/// A line without the carriage return that ends it, if one does.
pub open spec fn strip_cr(line: Seq<char>) -> Seq<char> {
    if line.len() > 0 && line.last() == '\r' {
        line.drop_last()
    } else {
        line
    }
}

/// The lines of a text from `start` on, as `str::lines` gives them: a line
/// ends at a newline, which is left out together with a carriage return
/// before it; what follows the last newline is a line if it is not empty.
pub open spec fn lines_from(s: Seq<char>, start: int) -> Seq<Seq<char>>
    decreases s.len() - start,
    via lines_from_ends
{
    if start < 0 || start >= s.len() {
        Seq::empty()
    } else {
        let end = find_from(s, '\n', start);
        if end >= s.len() {
            seq![s.subrange(start, s.len() as int)]
        } else {
            seq![strip_cr(s.subrange(start, end))] + lines_from(s, end + 1)
        }
    }
}

#[via_fn]
proof fn lines_from_ends(s: Seq<char>, start: int) {
    if 0 <= start < s.len() {
        lemma_find_from(s, '\n', start);
    }
}

/// The lines of a text.
pub open spec fn lines_spec(s: Seq<char>) -> Seq<Seq<char>> {
    lines_from(s, 0)
}

/// The views of some strings.
pub open spec fn views(v: Seq<String>) -> Seq<Seq<char>> {
    v.map_values(|s: String| s@)
}

/// `find_from` stops at the character or at the end.
pub(crate) proof fn lemma_find_from(s: Seq<char>, c: char, i: int)
    requires
        0 <= i <= s.len(),
    ensures
        i <= find_from(s, c, i) <= s.len(),
        forall|k: int| i <= k < find_from(s, c, i) ==> #[trigger] s[k] != c,
        find_from(s, c, i) < s.len() ==> s[find_from(s, c, i)] == c,
    decreases s.len() - i,
{
    if i < s.len() && s[i] != c {
        lemma_find_from(s, c, i + 1);
    }
}

/// The lines of a text, as `str::lines` gives them.
pub fn lines(s: &str) -> (r: Vec<String>)
    ensures
        views(r@) == lines_spec(s@),
{
    let v = chars_of(s);
    let mut r: Vec<String> = Vec::new();
    let mut start: usize = 0;
    while start < v.len()
        invariant
            v@ == s@,
            start <= v.len(),
            lines_spec(s@) == views(r@) + lines_from(v@, start as int),
        decreases v.len() - start,
    {
        let end = find_char(&v, '\n', start);
        let ghost before = views(r@);
        if end >= v.len() {
            let line = string_of_range(&v, start, v.len());
            r.push(line);
            assert(views(r@) =~= before + seq![line@]);
            start = v.len();
            assert(lines_from(v@, v.len() as int) =~= Seq::<Seq<char>>::empty());
        } else {
            let stop: usize = if end > start && v[end - 1] == '\r' {
                (end - 1) as usize
            } else {
                end
            };
            let line = string_of_range(&v, start, stop);
            proof {
                let whole = v@.subrange(start as int, end as int);
                if end > start {
                    assert(whole.last() == v@[end - 1]);
                }
                assert(line@ =~= strip_cr(whole));
            }
            r.push(line);
            assert(views(r@) =~= before + seq![line@]);
            start = end + 1;
        }
    }
    assert(lines_from(v@, start as int) =~= Seq::<Seq<char>>::empty());
    r
}

/// Whether the last part of a path, after its last `/`, is a name of one
/// character or more followed by `.` and `ext`.
pub open spec fn has_extension_spec(path: Seq<char>, ext: Seq<char>) -> bool {
    let dot = path.len() - ext.len() - 1;
    &&& dot >= 1
    &&& path[dot] == '.'
    &&& path[dot - 1] != '/'
    &&& path.subrange(dot + 1, path.len() as int) == ext
}

/// Whether the file at `path` has the extension `ext`.
pub fn has_extension(path: &str, ext: &str) -> (r: bool)
    ensures
        r == has_extension_spec(path@, ext@),
{
    let p = chars_of(path);
    let e = chars_of(ext);
    if p.len() < e.len() || p.len() - e.len() < 2 {
        return false;
    }
    let dot: usize = p.len() - e.len() - 1;
    if p[dot] != '.' || p[dot - 1] == '/' {
        return false;
    }
    let ghost tail = p@.subrange(dot + 1, p.len() as int);
    let mut i: usize = 0;
    while i < e.len()
        invariant
            p@ == path@,
            e@ == ext@,
            dot + 1 + e.len() == p.len(),
            i <= e.len(),
            tail == p@.subrange(dot + 1, p.len() as int),
            forall|k: int| 0 <= k < i ==> tail[k] == e@[k],
        decreases e.len() - i,
    {
        if p[dot + 1 + i] != e[i] {
            assert(tail[i as int] != e@[i as int]);
            return false;
        }
        i += 1;
    }
    assert(tail =~= e@);
    true
}

/// Lower-casing twice is lower-casing once.
pub proof fn lemma_lower_idempotent(s: Seq<char>)
    ensures
        lower_spec(lower_spec(s)) == lower_spec(s),
{
    assert(lower_spec(lower_spec(s)) =~= lower_spec(s));
}

/// A trimmed text stays trimmed when its newlines are made spaces, and
/// making them spaces twice is making them spaces once.
pub(crate) proof fn lemma_unwrap_lines_trimmed(s: Seq<char>)
    requires
        is_trimmed(s),
    ensures
        is_trimmed(unwrap_lines_spec(s)),
        unwrap_lines_spec(unwrap_lines_spec(s)) == unwrap_lines_spec(s),
{
    assert(unwrap_lines_spec(unwrap_lines_spec(s)) =~= unwrap_lines_spec(s));
}

/// Whether a channel name, trimmed, is empty or starts with an ASCII
/// character.
pub open spec fn plain_initial(s: Seq<char>) -> bool {
    trim_spec(s).len() == 0 || ascii_initial(trim_spec(s))
}

/// A normalized channel name is left as it is when it is normalized again,
/// for every name that, trimmed, is empty or starts with an ASCII
/// character; and the normalized name is such a name again.
pub proof fn lemma_normal_channel_idempotent(s: Seq<char>)
    requires
        plain_initial(s),
    ensures
        plain_initial(normal_channel(s)),
        normal_channel(normal_channel(s)) == normal_channel(s),
{
    let t = trim_spec(s);
    lemma_trim_bounds(s);
    if t.len() == 0 {
        lemma_trim_trimmed(t);
    } else {
        let c = ascii_capitalized(t);
        assert(c.len() == t.len());
        assert(c[0] == ascii_upper(t[0]));
        assert(forall|i: int| 1 <= i < c.len() ==> c[i] == t[i]);
        assert(!is_ws(c.first()));
        assert(!is_ws(c.last())) by {
            if c.len() > 1 {
                assert(c.last() == t.last());
            }
        }
        lemma_trim_trimmed(c);
        assert(ascii_capitalized(c) =~= c);
    }
}

} // verus!
