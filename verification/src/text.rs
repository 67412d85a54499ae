//! Plain operations on text that the rest of the library states its string
//! contracts with: white space, ASCII case, trimming and comparison.

use vstd::prelude::*;
use vstd::string::*;

verus! {

/// `String::push` appends one character to the end of the string.
pub assume_specification[ String::push ](s: &mut String, c: char)
    ensures
        final(s)@ == old(s)@.push(c),
;

/// A character with the Unicode `White_Space` property.
pub open spec fn is_whitespace(c: char) -> bool {
    let n = c as u32;
    ||| 0x09 <= n <= 0x0D
    ||| n == 0x20
    ||| n == 0x85
    ||| n == 0xA0
    ||| n == 0x1680
    ||| 0x2000 <= n <= 0x200A
    ||| n == 0x2028
    ||| n == 0x2029
    ||| n == 0x202F
    ||| n == 0x205F
    ||| n == 0x3000
}

/// A class of characters that can be stripped from the ends of a text.
#[derive(Debug, Clone, Copy, PartialEq, Eq, Structural)]
pub enum CharClass {
    /// The characters with the Unicode `White_Space` property.
    Whitespace,
    /// The NUL character alone.
    Nul,
}

/// Whether `c` belongs to `class`.
pub open spec fn in_class(class: CharClass, c: char) -> bool {
    match class {
        CharClass::Whitespace => is_whitespace(c),
        CharClass::Nul => c as u32 == 0,
    }
}

/// The lower-case form of an ASCII capital letter, any other character unchanged.
pub open spec fn ascii_lower(c: char) -> char {
    if 'A' <= c <= 'Z' {
        ((c as u32) + 32) as char
    } else {
        c
    }
}

/// The upper-case form of an ASCII small letter, any other character unchanged.
pub open spec fn ascii_upper(c: char) -> char {
    if 'a' <= c <= 'z' {
        ((c as u32) - 32) as char
    } else {
        c
    }
}

/// `s` with every ASCII capital letter in lower case.
pub open spec fn ascii_lowercase(s: Seq<char>) -> Seq<char> {
    Seq::new(s.len(), |i: int| ascii_lower(s[i]))
}

/// `s` with every ASCII small letter in upper case.
pub open spec fn ascii_uppercase(s: Seq<char>) -> Seq<char> {
    Seq::new(s.len(), |i: int| ascii_upper(s[i]))
}

/// The number of characters of `class` at the start of `s`.
pub open spec fn leading_count(s: Seq<char>, class: CharClass) -> nat
    decreases s.len(),
{
    if s.len() > 0 && in_class(class, s[0]) {
        1 + leading_count(s.drop_first(), class)
    } else {
        0
    }
}

/// The number of characters of `class` at the end of `s`.
pub open spec fn trailing_count(s: Seq<char>, class: CharClass) -> nat
    decreases s.len(),
{
    if s.len() > 0 && in_class(class, s.last()) {
        1 + trailing_count(s.drop_last(), class)
    } else {
        0
    }
}

/// `s` without the characters of `class` at its start.
pub open spec fn strip_start(s: Seq<char>, class: CharClass) -> Seq<char> {
    s.subrange(leading_count(s, class) as int, s.len() as int)
}

/// `s` without the characters of `class` at its end.
pub open spec fn strip_end(s: Seq<char>, class: CharClass) -> Seq<char> {
    s.subrange(0, s.len() - trailing_count(s, class))
}

/// `s` without the characters of `class` at both ends.
pub open spec fn strip(s: Seq<char>, class: CharClass) -> Seq<char> {
    strip_end(strip_start(s, class), class)
}

/// `s` without the white space at both ends.
pub open spec fn trim(s: Seq<char>) -> Seq<char> {
    strip(s, CharClass::Whitespace)
}

/// `needle` occurs in `s` at position `at`.
pub open spec fn occurs_at(s: Seq<char>, needle: Seq<char>, at: int) -> bool {
    &&& 0 <= at
    &&& at + needle.len() <= s.len()
    &&& s.subrange(at, at + needle.len()) == needle
}

/// `needle` occurs somewhere in `s`.
pub open spec fn contains_text(s: Seq<char>, needle: Seq<char>) -> bool {
    exists|at: int| occurs_at(s, needle, at)
}

/// `s` begins with `prefix`.
pub open spec fn starts_with(s: Seq<char>, prefix: Seq<char>) -> bool {
    occurs_at(s, prefix, 0)
}

/// The leading characters of a class are no more than the text has, each
/// is of the class, and the one behind them is not.
pub proof fn lemma_leading_count_bound(s: Seq<char>, class: CharClass)
    ensures
        leading_count(s, class) <= s.len(),
        forall|i: int| 0 <= i < leading_count(s, class) ==> in_class(class, #[trigger] s[i]),
        leading_count(s, class) < s.len() ==> !in_class(class, s[leading_count(s, class) as int]),
    decreases s.len(),
{
    if s.len() > 0 && in_class(class, s[0]) {
        let t = s.drop_first();
        lemma_leading_count_bound(t, class);
        assert forall|i: int| 0 <= i < leading_count(s, class) implies in_class(class, 
            #[trigger] s[i],
        ) by {
            if i > 0 {
                assert(s[i] == t[i - 1]);
            }
        }
        if leading_count(s, class) < s.len() {
            assert(s[leading_count(s, class) as int] == t[leading_count(t, class) as int]);
        }
    }
}

/// The trailing characters of a class are no more than the text has, each
/// is of the class, and the one before them is not.
pub proof fn lemma_trailing_count_bound(s: Seq<char>, class: CharClass)
    ensures
        trailing_count(s, class) <= s.len(),
        forall|i: int|
            s.len() - trailing_count(s, class) <= i < s.len() ==> in_class(class, #[trigger] s[i]),
        trailing_count(s, class) < s.len() ==> !in_class(class, 
            s[s.len() - trailing_count(s, class) - 1],
        ),
    decreases s.len(),
{
    if s.len() > 0 && in_class(class, s.last()) {
        let t = s.drop_last();
        lemma_trailing_count_bound(t, class);
        assert forall|i: int|
            s.len() - trailing_count(s, class) <= i < s.len() implies in_class(class, 
            #[trigger] s[i],
        ) by {
            if i < s.len() - 1 {
                assert(s[i] == t[i]);
            }
        }
        if trailing_count(s, class) < s.len() {
            assert(s[s.len() - trailing_count(s, class) - 1] == t[t.len() - trailing_count(t, class)
                - 1]);
        }
    }
}

/// The count of leading characters of a class is the first index that holds none.
pub proof fn lemma_leading_count_is(s: Seq<char>, class: CharClass, n: int)
    requires
        0 <= n <= s.len(),
        forall|i: int| 0 <= i < n ==> in_class(class, #[trigger] s[i]),
        n < s.len() ==> !in_class(class, s[n]),
    ensures
        leading_count(s, class) == n,
{
    lemma_leading_count_bound(s, class);
    let m = leading_count(s, class) as int;
    if m < n {
        assert(in_class(class, s[m]));
    } else if n < m {
        assert(in_class(class, s[n]));
    }
}

/// The count of trailing characters of a class ends at the last index that holds none.
pub proof fn lemma_trailing_count_is(s: Seq<char>, class: CharClass, n: int)
    requires
        0 <= n <= s.len(),
        forall|i: int| s.len() - n <= i < s.len() ==> in_class(class, #[trigger] s[i]),
        n < s.len() ==> !in_class(class, s[s.len() - n - 1]),
    ensures
        trailing_count(s, class) == n,
{
    lemma_trailing_count_bound(s, class);
    let m = trailing_count(s, class) as int;
    if m < n {
        assert(in_class(class, s[s.len() - m - 1]));
    } else if n < m {
        assert(in_class(class, s[s.len() - n - 1]));
    }
}

/// Whether `c` has the Unicode `White_Space` property.
pub fn char_is_whitespace(c: char) -> (r: bool)
    ensures
        r == is_whitespace(c),
{
    let n: u32 = c as u32;
    (0x09 <= n && n <= 0x0D) || n == 0x20 || n == 0x85 || n == 0xA0 || n == 0x1680 || (0x2000 <= n
        && n <= 0x200A) || n == 0x2028 || n == 0x2029 || n == 0x202F || n == 0x205F || n == 0x3000
}

/// The characters of `s`, in order.
pub fn chars_of(s: &str) -> (v: Vec<char>)
    ensures
        v@ == s@,
{
    let n: usize = s.unicode_len();
    let mut v: Vec<char> = Vec::new();
    let mut i: usize = 0;
    while i < n
        invariant
            i <= n,
            n == s@.len(),
            v@ == s@.subrange(0, i as int),
        decreases n - i,
    {
        v.push(s.get_char(i));
        assert(v@ =~= s@.subrange(0, i + 1));
        i += 1;
    }
    assert(s@.subrange(0, n as int) =~= s@);
    v
}

/// The string that holds the characters `v[from..to]`.
pub fn string_of(v: &Vec<char>, from: usize, to: usize) -> (s: String)
    requires
        from <= to <= v@.len(),
    ensures
        s@ == v@.subrange(from as int, to as int),
{
    let mut s: String = String::new();
    let mut i: usize = from;
    while i < to
        invariant
            from <= i <= to <= v@.len(),
            s@ == v@.subrange(from as int, i as int),
        decreases to - i,
    {
        s.push(v[i]);
        assert(s@ =~= v@.subrange(from as int, i + 1));
        i += 1;
    }
    s
}

/// Whether `c` belongs to `class`.
pub fn char_in_class(class: CharClass, c: char) -> (r: bool)
    ensures
        r == in_class(class, c),
{
    match class {
        CharClass::Whitespace => char_is_whitespace(c),
        CharClass::Nul => c as u32 == 0,
    }
}

/// The bounds of `v[from..to]` without the characters of `class` at both
/// ends: `v[start..end]` is the stripped text.
pub fn strip_bounds(v: &Vec<char>, from: usize, to: usize, class: CharClass) -> (bounds: (
    usize,
    usize,
))
    requires
        from <= to <= v@.len(),
    ensures
        from <= bounds.0 <= bounds.1 <= to,
        v@.subrange(bounds.0 as int, bounds.1 as int) == strip(
            v@.subrange(from as int, to as int),
            class,
        ),
{
    let ghost text = v@.subrange(from as int, to as int);
    let mut start: usize = from;
    while start < to && char_in_class(class, v[start])
        invariant
            from <= start <= to <= v@.len(),
            text == v@.subrange(from as int, to as int),
            forall|i: int| 0 <= i < start - from ==> in_class(class, #[trigger] text[i]),
        decreases to - start,
    {
        start += 1;
    }
    proof {
        lemma_leading_count_is(text, class, start - from);
    }
    let ghost rest = v@.subrange(start as int, to as int);
    assert(rest =~= strip_start(text, class));
    let mut end: usize = to;
    while end > start && char_in_class(class, v[end - 1])
        invariant
            start <= end <= to <= v@.len(),
            rest == v@.subrange(start as int, to as int),
            forall|i: int| end - start <= i < rest.len() ==> in_class(class, #[trigger] rest[i]),
        decreases end,
    {
        end -= 1;
    }
    proof {
        lemma_trailing_count_is(rest, class, to - end);
        assert(rest.subrange(0, rest.len() - (to - end)) =~= v@.subrange(start as int, end as int));
    }
    (start, end)
}

/// The bounds of `v` without the white space at both ends: `v[start..end]`
/// is the trimmed text.
pub fn trim_bounds(v: &Vec<char>) -> (bounds: (usize, usize))
    ensures
        bounds.0 <= bounds.1 <= v@.len(),
        v@.subrange(bounds.0 as int, bounds.1 as int) == trim(v@),
{
    assert(v@.subrange(0, v@.len() as int) =~= v@);
    strip_bounds(v, 0, v.len(), CharClass::Whitespace)
}

/// The lower-case form of an ASCII capital letter, any other character unchanged.
pub fn char_to_ascii_lower(c: char) -> (r: char)
    ensures
        r == ascii_lower(c),
{
    if 'A' <= c && c <= 'Z' {
        ((c as u8) + 32) as char
    } else {
        c
    }
}

/// The upper-case form of an ASCII small letter, any other character unchanged.
pub fn char_to_ascii_upper(c: char) -> (r: char)
    ensures
        r == ascii_upper(c),
{
    if 'a' <= c && c <= 'z' {
        ((c as u8) - 32) as char
    } else {
        c
    }
}

/// `v[from..to]` with every ASCII capital letter in lower case.
pub fn lowercase_range(v: &Vec<char>, from: usize, to: usize) -> (r: Vec<char>)
    requires
        from <= to <= v@.len(),
    ensures
        r@ == ascii_lowercase(v@.subrange(from as int, to as int)),
{
    let mut r: Vec<char> = Vec::new();
    let mut i: usize = from;
    while i < to
        invariant
            from <= i <= to <= v@.len(),
            r@ == ascii_lowercase(v@.subrange(from as int, i as int)),
        decreases to - i,
    {
        r.push(char_to_ascii_lower(v[i]));
        assert(r@ =~= ascii_lowercase(v@.subrange(from as int, i + 1)));
        i += 1;
    }
    r
}

/// `v[from..to]` with every ASCII small letter in upper case.
pub fn uppercase_range(v: &Vec<char>, from: usize, to: usize) -> (r: Vec<char>)
    requires
        from <= to <= v@.len(),
    ensures
        r@ == ascii_uppercase(v@.subrange(from as int, to as int)),
{
    let mut r: Vec<char> = Vec::new();
    let mut i: usize = from;
    while i < to
        invariant
            from <= i <= to <= v@.len(),
            r@ == ascii_uppercase(v@.subrange(from as int, i as int)),
        decreases to - i,
    {
        r.push(char_to_ascii_upper(v[i]));
        assert(r@ =~= ascii_uppercase(v@.subrange(from as int, i + 1)));
        i += 1;
    }
    r
}

/// Whether `needle` stands in `v` at position `at`.
pub fn matches_at(v: &Vec<char>, needle: &Vec<char>, at: usize) -> (r: bool)
    ensures
        r == occurs_at(v@, needle@, at as int),
{
    let n: usize = needle.len();
    if at > v.len() || n > v.len() - at {
        return false;
    }
    let mut i: usize = 0;
    while i < n
        invariant
            i <= n,
            n == needle@.len(),
            at + n <= v.len(),
            forall|k: int| 0 <= k < i ==> v@[at + k] == needle@[k],
        decreases n - i,
    {
        if v[at + i] != needle[i] {
            assert(v@.subrange(at as int, at + n)[i as int] != needle@[i as int]);
            return false;
        }
        i += 1;
    }
    assert(v@.subrange(at as int, at + n) =~= needle@);
    true
}

/// Whether `v` is exactly the text `literal`.
pub fn chars_equal(v: &Vec<char>, literal: &str) -> (r: bool)
    ensures
        r == (v@ == literal@),
{
    let needle = chars_of(literal);
    if v.len() != needle.len() {
        return false;
    }
    let r = matches_at(v, &needle, 0);
    assert(v@.subrange(0, v@.len() as int) =~= v@);
    r
}

/// Whether the text `needle` occurs somewhere in `v`.
pub fn chars_contain(v: &Vec<char>, needle: &str) -> (r: bool)
    ensures
        r == contains_text(v@, needle@),
{
    let pattern = chars_of(needle);
    if pattern.len() > v.len() {
        assert forall|at: int| !occurs_at(v@, pattern@, at) by {}
        return false;
    }
    let last: usize = v.len() - pattern.len();
    let mut at: usize = 0;
    while at < last
        invariant
            at <= last,
            pattern@ == needle@,
            last == v@.len() - pattern@.len(),
            forall|k: int| 0 <= k < at ==> !occurs_at(v@, pattern@, k),
        decreases last - at,
    {
        if matches_at(v, &pattern, at) {
            return true;
        }
        at += 1;
    }
    let r = matches_at(v, &pattern, last);
    if !r {
        assert forall|k: int| !occurs_at(v@, pattern@, k) by {}
    }
    r
}

/// A copy of an optional text.
pub fn clone_opt_text(text: &Option<String>) -> (copy: Option<String>)
    ensures
        copy == *text,
{
    match text {
        Some(value) => Some(value.clone()),
        None => None,
    }
}

/// A copy of a byte vector.
pub fn clone_bytes(bytes: &Vec<u8>) -> (copy: Vec<u8>)
    ensures
        copy@ == bytes@,
{
    let mut copy: Vec<u8> = Vec::new();
    copy.extend_from_slice(bytes.as_slice());
    assert(copy@ =~= bytes@);
    copy
}

/// What an optional text holds, by its characters.
pub open spec fn opt_chars(text: Option<String>) -> Option<Seq<char>> {
    match text {
        Some(value) => Some(value@),
        None => None,
    }
}

/// Whether two optional texts hold the same.
pub fn same_opt_text(a: &Option<String>, b: &Option<String>) -> (same: bool)
    ensures
        same == (opt_chars(*a) == opt_chars(*b)),
{
    match (a, b) {
        (Some(x), Some(y)) => *x == *y,
        (None, None) => true,
        _ => false,
    }
}

/// The character of the decimal digit `d`, where `d` is below ten.
pub open spec fn digit_char(d: int) -> char {
    ((48 + d) as u8) as char
}

/// `n` in decimal, without a sign and without leading zeros.
pub open spec fn decimal(n: nat) -> Seq<char>
    decreases n,
{
    if n < 10 {
        seq![digit_char(n as int)]
    } else {
        decimal(n / 10).push(digit_char((n % 10) as int))
    }
}

/// Appends `n` in decimal to `out`.
pub fn push_decimal(out: &mut String, n: u64)
    ensures
        final(out)@ == old(out)@ + decimal(n as nat),
    decreases n,
{
    if n >= 10 {
        push_decimal(out, n / 10);
    }
    out.push((48u8 + (n % 10) as u8) as char);
    assert(out@ =~= old(out)@ + decimal(n as nat));
}

/// The text `v[from..to]` without the characters of `class` at both ends.
pub fn stripped_text(v: &Vec<char>, from: usize, to: usize, class: CharClass) -> (text: String)
    requires
        from <= to <= v@.len(),
    ensures
        text@ == strip(v@.subrange(from as int, to as int), class),
{
    let (start, end) = strip_bounds(v, from, to, class);
    string_of(v, start, end)
}

/// Whether `v[from..to]` begins with `prefix`.
pub fn range_starts_with(v: &Vec<char>, from: usize, to: usize, prefix: &Vec<char>) -> (r: bool)
    requires
        from <= to <= v@.len(),
    ensures
        r == starts_with(v@.subrange(from as int, to as int), prefix@),
{
    if prefix.len() > to - from {
        return false;
    }
    let r = matches_at(v, prefix, from);
    assert(v@.subrange(from as int, to as int).subrange(0, prefix@.len() as int) =~= v@.subrange(
        from as int,
        from + prefix@.len(),
    ));
    r
}

/// Whether `v[from..to]` in lower case holds the text `needle`.
pub fn lowercase_contains(v: &Vec<char>, needle: &str) -> (r: bool)
    ensures
        r == contains_text(ascii_lowercase(v@), needle@),
{
    assert(v@.subrange(0, v@.len() as int) =~= v@);
    let lower = lowercase_range(v, 0, v.len());
    chars_contain(&lower, needle)
}

/// `a` followed by `b`.
pub fn concat_text(a: &str, b: &str) -> (joined: String)
    ensures
        joined@ == a@ + b@,
{
    let mut joined = String::from_str(a);
    joined.append(b);
    joined
}

/// The texts of a list, each by its characters.
pub open spec fn text_views(texts: Seq<String>) -> Seq<Seq<char>> {
    Seq::new(texts.len(), |i: int| texts[i]@)
}

} // verus!
