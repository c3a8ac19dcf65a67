//! Character-level text helpers: decimal numbers, case folding, substring
//! search and the truncation rules used when laying out verse text.
use vstd::prelude::*;

verus! {

// ---------------------------------------------------------------------------
// Specifications
// ---------------------------------------------------------------------------

/// What `str::to_lowercase` returns for a string (full Unicode case mapping).
pub uninterp spec fn lowercase(s: Seq<char>) -> Seq<char>;

/// The terminal display width that `unicode_width` gives a whole string.
pub uninterp spec fn display_width(s: Seq<char>) -> usize;

/// The terminal display width that `unicode_width` gives one character
/// (`None` for control characters).
pub uninterp spec fn char_display_width(c: char) -> Option<usize>;

/// ASCII upper-case letters mapped to lower case; every other character kept.
pub open spec fn ascii_lower_char(c: char) -> char {
    if 'A' <= c && c <= 'Z' {
        ((c as u32) + 32) as char
    } else {
        c
    }
}

/// A string with every ASCII letter folded to lower case.
pub open spec fn ascii_fold(s: Seq<char>) -> Seq<char> {
    s.map_values(|c: char| ascii_lower_char(c))
}

/// Every character is ASCII.
pub open spec fn is_ascii_text(s: Seq<char>) -> bool {
    forall|i: int| 0 <= i < s.len() ==> (#[trigger] s[i] as u32) < 128
}

/// Two strings that match ignoring ASCII case.
pub open spec fn eq_ignore_ascii_case_spec(a: Seq<char>, b: Seq<char>) -> bool {
    ascii_fold(a) == ascii_fold(b)
}

/// `needle` occurs in `hay` starting at position `i`.
pub open spec fn occurs_at(hay: Seq<char>, needle: Seq<char>, i: int) -> bool {
    0 <= i && i + needle.len() <= hay.len() && hay.subrange(i, i + needle.len()) == needle
}

/// `needle` occurs somewhere in `hay` (the empty string occurs everywhere).
pub open spec fn contains_spec(hay: Seq<char>, needle: Seq<char>) -> bool {
    exists|i: int| occurs_at(hay, needle, i)
}

/// The decimal digit character for `d < 10`.
pub open spec fn digit_char(d: nat) -> char {
    (('0' as u32) + d) as char
}

/// The decimal representation of `n`, without sign or leading zeros.
pub open spec fn decimal(n: nat) -> Seq<char>
    decreases n,
{
    if n < 10 {
        seq![digit_char(n)]
    } else {
        decimal(n / 10).push(digit_char(n % 10))
    }
}

/// `c` is one of the characters `0` through `9`.
pub open spec fn is_digit(c: char) -> bool {
    '0' <= c && c <= '9'
}

/// The numeric value of a digit character.
pub open spec fn digit_value(c: char) -> nat {
    ((c as u32) - ('0' as u32)) as nat
}

/// Every character of `s` is a decimal digit.
pub open spec fn all_digits(s: Seq<char>) -> bool {
    forall|i: int| 0 <= i < s.len() ==> is_digit(#[trigger] s[i])
}

/// The value of a string of decimal digits, most significant first.
pub open spec fn digits_value(s: Seq<char>) -> nat
    decreases s.len(),
{
    if s.len() == 0 {
        0
    } else {
        digits_value(s.drop_last()) * 10 + digit_value(s.last())
    }
}

/// The digits of an unsigned number: the string without one leading `+`.
pub open spec fn unsigned_body(s: Seq<char>) -> Seq<char> {
    if s.len() > 0 && s[0] == '+' {
        s.drop_first()
    } else {
        s
    }
}

/// What `str::parse::<u32>` accepts: an optional `+`, then at least one
/// decimal digit, with a value that fits in a `u32`.
pub open spec fn parse_u32_spec(s: Seq<char>) -> Option<u32> {
    let body = unsigned_body(s);
    if body.len() > 0 && all_digits(body) && digits_value(body) <= u32::MAX {
        Some(digits_value(body) as u32)
    } else {
        None
    }
}

/// The three-dot ellipsis appended to truncated result text.
pub open spec fn three_dots() -> Seq<char> {
    seq!['.', '.', '.']
}

/// The text shown for a search hit or bookmark: the whole text when it has
/// at most `max_chars` characters, otherwise its first `max_chars - 3`
/// characters followed by `...`.
pub open spec fn truncate_result_spec(text: Seq<char>, max_chars: nat) -> Seq<char> {
    if text.len() <= max_chars {
        text
    } else {
        text.take(max_chars - 3) + three_dots()
    }
}

/// Sum of the display widths of the characters of `s`, counting a character
/// without a width as zero.
pub open spec fn chars_width(s: Seq<char>) -> nat
    decreases s.len(),
{
    if s.len() == 0 {
        0
    } else {
        chars_width(s.drop_last()) + match char_display_width(s.last()) {
            Some(w) => w as nat,
            None => 0nat,
        }
    }
}

/// The longest prefix of `s` whose character widths sum to at most `target`.
pub open spec fn width_prefix_len(s: Seq<char>, target: nat) -> nat
    decreases s.len(),
{
    if s.len() == 0 {
        0
    } else if chars_width(s) <= target {
        s.len()
    } else {
        width_prefix_len(s.drop_last(), target)
    }
}

/// A book name fitted into `max_width` columns: unchanged when it fits,
/// otherwise the longest prefix that fits in `max_width - 1` columns
/// followed by an ellipsis.
pub open spec fn truncate_display_spec(name: Seq<char>, max_width: nat) -> Seq<char> {
    if display_width(name) <= max_width {
        name
    } else {
        let target = if max_width >= 1 { (max_width - 1) as nat } else { 0nat };
        name.take(width_prefix_len(name, target) as int).push('\u{2026}')
    }
}

// ---------------------------------------------------------------------------
// Trusted wrappers around std and unicode-width
// ---------------------------------------------------------------------------

/// Calls `str::to_lowercase`; the result is the named value `lowercase`
/// of the input's characters. On ASCII text the Unicode lower-case
/// mapping that std documents is the ASCII one (`A`..`Z` to `a`..`z`,
/// every other character kept), so there the result is the ASCII fold.
/// Nothing is claimed of other characters.
#[verifier::external_body]
pub(crate) fn to_lower(s: &str) -> (r: String)
    ensures
        r@ == lowercase(s@),
        is_ascii_text(s@) ==> r@ == ascii_fold(s@),
{
    s.to_lowercase()
}

/// Calls `String::push`, which appends one character.
#[verifier::external_body]
pub(crate) fn push_char(s: &mut String, c: char)
    ensures
        final(s)@ == old(s)@.push(c),
{
    s.push(c)
}

/// Calls `UnicodeWidthStr::width`; the result is the named value
/// `display_width` of the string's characters.
#[verifier::external_body]
pub(crate) fn str_width(s: &str) -> (w: usize)
    ensures
        w == display_width(s@),
{
    unicode_width::UnicodeWidthStr::width(s)
}

/// Calls `UnicodeWidthChar::width`; the result is the named value
/// `char_display_width` of the character.
#[verifier::external_body]
pub(crate) fn char_width(c: char) -> (w: Option<usize>)
    ensures
        w == char_display_width(c),
{
    unicode_width::UnicodeWidthChar::width(c)
}

// ---------------------------------------------------------------------------
// Verified helpers
// ---------------------------------------------------------------------------

/// The characters of `s`, in order.
pub fn chars_of(s: &str) -> (v: Vec<char>)
    ensures
        v@ == s@,
{
    let mut v: Vec<char> = Vec::new();
    for c in it: s.chars()
        invariant
            v@ == it.seq().take(it.index() as int),
    {
        v.push(c);
    }
    v
}

/// Appends every character of `t` to `s`.
pub fn push_chars(s: &mut String, t: &Vec<char>)
    ensures
        final(s)@ == old(s)@ + t@,
{
    let mut i: usize = 0;
    while i < t.len()
        invariant
            i <= t.len(),
            s@ == old(s)@ + t@.take(i as int),
        decreases t.len() - i,
    {
        push_char(s, t[i]);
        i = i + 1;
        assert(t@.take(i as int) == t@.take(i - 1 as int).push(t@[i - 1 as int]));
    }
    assert(t@.take(t.len() as int) == t@);
}

/// Appends every character of `t` to `s`.
pub fn push_str(s: &mut String, t: &str)
    ensures
        final(s)@ == old(s)@ + t@,
{
    let cs = chars_of(t);
    push_chars(s, &cs);
}

/// A new `String` holding the characters of `t`.
pub fn string_of(t: &str) -> (s: String)
    ensures
        s@ == t@,
{
    let mut s = String::new();
    push_str(&mut s, t);
    assert(s@ == Seq::<char>::empty() + t@);
    s
}

pub proof fn lemma_digit_char(d: nat)
    requires
        d < 10,
    ensures
        is_digit(digit_char(d)),
        digit_value(digit_char(d)) == d,
{
}

/// Appends the decimal representation of `n` to `s`.
pub fn push_decimal(s: &mut String, n: u64)
    ensures
        final(s)@ == old(s)@ + decimal(n as nat),
    decreases n,
{
    if n >= 10 {
        push_decimal(s, n / 10);
    }
    let d = (n % 10) as u32;
    let c = char_from_digit(d);
    push_char(s, c);
    if n < 10 {
        assert(decimal(n as nat) == seq![digit_char(n as nat)]);
    } else {
        assert(decimal(n as nat) == decimal((n / 10) as nat).push(digit_char((n % 10) as nat)));
    }
}

/// The character for a decimal digit.
fn char_from_digit(d: u32) -> (c: char)
    requires
        d < 10,
    ensures
        c == digit_char(d as nat),
{
    match d {
        0 => '0',
        1 => '1',
        2 => '2',
        3 => '3',
        4 => '4',
        5 => '5',
        6 => '6',
        7 => '7',
        8 => '8',
        _ => '9',
    }
}

/// The decimal representation of `n` as a new `String`.
pub fn decimal_string(n: u64) -> (s: String)
    ensures
        s@ == decimal(n as nat),
{
    let mut s = String::new();
    push_decimal(&mut s, n);
    assert(s@ == Seq::<char>::empty() + decimal(n as nat));
    s
}

proof fn lemma_digits_value_push(s: Seq<char>, c: char)
    ensures
        digits_value(s.push(c)) == digits_value(s) * 10 + digit_value(c),
{
    assert(s.push(c).drop_last() == s);
}

/// Parses a decimal `u32` exactly as `str::parse::<u32>` does: an optional
/// leading `+`, then one or more ASCII digits whose value fits in a `u32`.
pub fn parse_u32(s: &str) -> (r: Option<u32>)
    ensures
        r == parse_u32_spec(s@),
{
    let cs = chars_of(s);
    let start: usize = if cs.len() > 0 && cs[0] == '+' {
        1
    } else {
        0
    };
    let ghost body = unsigned_body(s@);
    assert(body == cs@.skip(start as int));
    if start >= cs.len() {
        return None;
    }
    let mut value: u32 = 0;
    let mut i: usize = start;
    while i < cs.len()
        invariant
            start <= i <= cs.len(),
            cs@ == s@,
            body == unsigned_body(s@),
            body == cs@.skip(start as int),
            all_digits(body.take(i - start)),
            value as nat == digits_value(body.take(i - start)),
        decreases cs.len() - i,
    {
        let c = cs[i];
        if !('0' <= c && c <= '9') {
            assert(body[i - start] == c);
            assert(!is_digit(body[i - start]));
            assert(!all_digits(body));
            return None;
        }
        let d: u32 = (c as u32) - ('0' as u32);
        proof {
            assert(body.take(i + 1 - start) == body.take(i - start).push(c));
            lemma_digits_value_push(body.take(i - start), c);
        }
        if value > 429496729 || (value == 429496729 && d > 5) {
            proof {
                if all_digits(body) {
                    lemma_digits_value_prefix_bound(body, (i + 1 - start) as int);
                }
            }
            return None;
        }
        value = value * 10 + d;
        i = i + 1;
    }
    assert(body.take(i - start) == body);
    Some(value)
}

proof fn lemma_digits_value_prefix_bound(s: Seq<char>, k: int)
    requires
        0 <= k <= s.len(),
        all_digits(s),
    ensures
        digits_value(s) >= digits_value(s.take(k)),
    decreases s.len() - k,
{
    if k == s.len() {
        assert(s.take(k) == s);
    } else {
        lemma_digits_value_prefix_bound(s, k + 1);
        assert(s.take(k + 1) == s.take(k).push(s[k]));
        lemma_digits_value_push(s.take(k), s[k]);
    }
}

/// Whether `a` and `b` are equal ignoring ASCII case, as
/// `str::eq_ignore_ascii_case` decides it.
pub fn eq_ignore_ascii_case(a: &str, b: &str) -> (r: bool)
    ensures
        r == eq_ignore_ascii_case_spec(a@, b@),
{
    let x = chars_of(a);
    let y = chars_of(b);
    chars_eq_ignore_ascii_case(&x, &y)
}

/// The ASCII lower-case form of one character.
pub fn fold_char(c: char) -> (r: char)
    ensures
        r == ascii_lower_char(c),
{
    if 'A' <= c && c <= 'Z' {
        let u: u32 = (c as u32) + 32;
        let r = char_from_ascii(u);
        r
    } else {
        c
    }
}

fn char_from_ascii(u: u32) -> (c: char)
    requires
        ('a' as u32) <= u <= ('z' as u32),
    ensures
        c as u32 == u,
{
    let b: u8 = u as u8;
    b as char
}

/// Whether two character sequences are equal ignoring ASCII case.
pub fn chars_eq_ignore_ascii_case(x: &Vec<char>, y: &Vec<char>) -> (r: bool)
    ensures
        r == eq_ignore_ascii_case_spec(x@, y@),
{
    if x.len() != y.len() {
        assert(ascii_fold(x@).len() != ascii_fold(y@).len());
        return false;
    }
    let mut i: usize = 0;
    while i < x.len()
        invariant
            x.len() == y.len(),
            i <= x.len(),
            forall|j: int| 0 <= j < i ==> ascii_lower_char(#[trigger] x@[j]) == ascii_lower_char(y@[j]),
        decreases x.len() - i,
    {
        if fold_char(x[i]) != fold_char(y[i]) {
            assert(ascii_fold(x@)[i as int] != ascii_fold(y@)[i as int]);
            return false;
        }
        i = i + 1;
    }
    assert(ascii_fold(x@) =~= ascii_fold(y@));
    true
}

/// Whether `needle` occurs in `hay`.
pub fn chars_contain(hay: &Vec<char>, needle: &Vec<char>) -> (r: bool)
    ensures
        r == contains_spec(hay@, needle@),
{
    if needle.len() > hay.len() {
        return false;
    }
    let last = hay.len() - needle.len();
    let mut i: usize = 0;
    loop
        invariant
            last == hay.len() - needle.len(),
            needle.len() <= hay.len(),
            i <= last,
            forall|k: int| 0 <= k < i ==> !occurs_at(hay@, needle@, k),
        ensures
            forall|k: int| 0 <= k <= last ==> !occurs_at(hay@, needle@, k),
        decreases last - i,
    {
        if occurs_at_exec(hay, needle, i) {
            return true;
        }
        if i == last {
            break;
        }
        i = i + 1;
    }
    assert forall|k: int| !occurs_at(hay@, needle@, k) by {
        if 0 <= k && k + needle@.len() <= hay@.len() {
            assert(k <= last);
        }
    }
    false
}

/// Whether `needle` occurs in `hay` starting at `i`.
pub fn occurs_at_exec(hay: &Vec<char>, needle: &Vec<char>, i: usize) -> (r: bool)
    requires
        i + needle.len() <= hay.len(),
    ensures
        r == occurs_at(hay@, needle@, i as int),
{
    let mut j: usize = 0;
    while j < needle.len()
        invariant
            i + needle.len() <= hay.len(),
            j <= needle.len(),
            forall|k: int| 0 <= k < j ==> hay@[i + k] == #[trigger] needle@[k],
        decreases needle.len() - j,
    {
        if hay[i + j] != needle[j] {
            assert(hay@.subrange(i as int, i + needle.len())[j as int] != needle@[j as int]);
            return false;
        }
        j = j + 1;
    }
    assert(hay@.subrange(i as int, i + needle.len()) =~= needle@);
    true
}

/// Whether `needle` occurs in `hay`, as `str::contains` decides it.
pub fn str_contains(hay: &str, needle: &str) -> (r: bool)
    ensures
        r == contains_spec(hay@, needle@),
{
    let h = chars_of(hay);
    let n = chars_of(needle);
    chars_contain(&h, &n)
}

/// Search-hit and bookmark text shortened to at most `max_chars`
/// characters, ending in `...` when shortened.
pub fn truncate_result_text(text: &str, max_chars: usize) -> (r: String)
    requires
        max_chars >= 3 || text@.len() <= max_chars,
    ensures
        r@ == truncate_result_spec(text@, max_chars as nat),
{
    let cs = chars_of(text);
    if cs.len() <= max_chars {
        string_of(text)
    } else {
        let keep = max_chars - 3;
        let mut s = String::new();
        let mut i: usize = 0;
        while i < keep
            invariant
                keep < cs.len(),
                i <= keep,
                s@ == cs@.take(i as int),
            decreases keep - i,
        {
            push_char(&mut s, cs[i]);
            i = i + 1;
            assert(cs@.take(i as int) == cs@.take(i - 1 as int).push(cs@[i - 1 as int]));
        }
        push_char(&mut s, '.');
        push_char(&mut s, '.');
        push_char(&mut s, '.');
        assert(s@ =~= cs@.take(keep as int) + three_dots());
        s
    }
}

proof fn lemma_chars_width_take(s: Seq<char>, i: int)
    requires
        0 <= i < s.len(),
    ensures
        chars_width(s.take(i + 1)) == chars_width(s.take(i)) + match char_display_width(s[i]) {
            Some(w) => w as nat,
            None => 0nat,
        },
{
    assert(s.take(i + 1).drop_last() == s.take(i));
}

proof fn lemma_chars_width_mono(s: Seq<char>, i: int, j: int)
    requires
        0 <= i <= j <= s.len(),
    ensures
        chars_width(s.take(i)) <= chars_width(s.take(j)),
    decreases j - i,
{
    if i < j {
        lemma_chars_width_mono(s, i, j - 1);
        lemma_chars_width_take(s, j - 1);
    }
}

proof fn lemma_width_prefix(s: Seq<char>, target: nat, k: int)
    requires
        0 <= k <= s.len(),
        chars_width(s.take(k)) <= target,
        k == s.len() || chars_width(s.take(k + 1)) > target,
    ensures
        width_prefix_len(s, target) == k,
    decreases s.len(),
{
    if s.len() == 0 {
    } else if chars_width(s) <= target {
        assert(s.take(s.len() as int) == s);
        if k < s.len() {
            lemma_chars_width_mono(s, k + 1, s.len() as int);
        }
    } else {
        assert(s.take(s.len() as int) == s);
        assert(k < s.len());
        let t = s.drop_last();
        assert(t.take(k) == s.take(k));
        if k < t.len() {
            assert(t.take(k + 1) == s.take(k + 1));
        }
        lemma_width_prefix(t, target, k);
    }
}

/// A book name fitted into `max_width` terminal columns, with a trailing
/// ellipsis when it had to be cut.
pub fn truncate_display_name(name: &str, max_width: usize) -> (r: String)
    ensures
        r@ == truncate_display_spec(name@, max_width as nat),
{
    let w = str_width(name);
    if w <= max_width {
        return string_of(name);
    }
    let target: usize = if max_width >= 1 { max_width - 1 } else { 0 };
    let cs = chars_of(name);
    let mut truncated = String::new();
    let mut current_w: usize = 0;
    let mut i: usize = 0;
    while i < cs.len()
        invariant
            i <= cs.len(),
            cs@ == name@,
            current_w as nat == chars_width(cs@.take(i as int)),
            current_w <= target,
            truncated@ == cs@.take(i as int),
        ensures
            i <= cs.len(),
            current_w as nat == chars_width(cs@.take(i as int)),
            current_w <= target,
            truncated@ == cs@.take(i as int),
            i == cs.len() || chars_width(cs@.take(i + 1)) > target,
        decreases cs.len() - i,
    {
        let cw: usize = match char_width(cs[i]) {
            Some(x) => x,
            None => 0,
        };
        proof {
            lemma_chars_width_take(cs@, i as int);
        }
        if cw > target || current_w > target - cw {
            break;
        }
        push_char(&mut truncated, cs[i]);
        current_w = current_w + cw;
        i = i + 1;
        assert(cs@.take(i as int) == cs@.take(i - 1 as int).push(cs@[i - 1 as int]));
    }
    proof {
        lemma_width_prefix(cs@, target as nat, i as int);
    }
    push_char(&mut truncated, '\u{2026}');
    truncated
}

} // verus!
