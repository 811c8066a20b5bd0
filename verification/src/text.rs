//! Text rules shared by the queries and the formatters: case folding,
//! substring search, trimming and joining, stated over sequences of chars.

use vstd::prelude::*;
use vstd::string::{StrSliceExecFns, StringExecFns};

verus! {

/// The Unicode lowercase form of a text, as `str::to_lowercase` computes it.
pub uninterp spec fn lowercase(s: Seq<char>) -> Seq<char>;

/// Whether a char is whitespace: one of the 25 code points that have the
/// Unicode `White_Space` property.
pub open spec fn whitespace(c: char) -> bool {
    let code = c as u32;
    ||| 0x0009 <= code <= 0x000D
    ||| code == 0x0020
    ||| code == 0x0085
    ||| code == 0x00A0
    ||| code == 0x1680
    ||| 0x2000 <= code <= 0x200A
    ||| code == 0x2028
    ||| code == 0x2029
    ||| code == 0x202F
    ||| code == 0x205F
    ||| code == 0x3000
}

/// `needle` stands in `hay` at position `at`.
pub open spec fn occurs_at(hay: Seq<char>, needle: Seq<char>, at: int) -> bool {
    0 <= at && at + needle.len() <= hay.len() && hay.subrange(at, at + needle.len()) == needle
}

/// `needle` occurs in `hay` as a contiguous run of chars.
pub open spec fn is_substring(needle: Seq<char>, hay: Seq<char>) -> bool {
    exists|at: int| occurs_at(hay, needle, at)
}

/// The ASCII lowercase form of one char: `A`..`Z` move to `a`..`z`, every
/// other char stays.
pub open spec fn ascii_lower(c: char) -> char {
    if 'A' <= c && c <= 'Z' {
        ((c as u8) + 32) as char
    } else {
        c
    }
}

/// Two texts are equal up to the case of their ASCII letters.
pub open spec fn ascii_case_eq(a: Seq<char>, b: Seq<char>) -> bool {
    &&& a.len() == b.len()
    &&& forall|i: int| 0 <= i < a.len() ==> ascii_lower(#[trigger] a[i]) == ascii_lower(b[i])
}

/// `name` holds `needle` when both are taken in lowercase.
pub open spec fn contains_ignoring_case(name: Seq<char>, needle: Seq<char>) -> bool {
    is_substring(lowercase(needle), lowercase(name))
}

/// Calls `str::to_lowercase`. Trusted: the result is the lowercase form of
/// the argument, a function of the argument's chars alone.
#[verifier::external_body]
pub(crate) fn to_lowercase(s: &str) -> (out: String)
    ensures
        out@ == lowercase(s@),
{
    s.to_lowercase()
}

/// Whether a char is whitespace.
pub fn is_whitespace(c: char) -> (white: bool)
    ensures
        white == whitespace(c),
{
    let code = c as u32;
    (0x0009 <= code && code <= 0x000D) || code == 0x0020 || code == 0x0085 || code == 0x00A0
        || code == 0x1680 || (0x2000 <= code && code <= 0x200A) || code == 0x2028 || code
        == 0x2029 || code == 0x202F || code == 0x205F || code == 0x3000
}

/// Whether two texts hold the same chars.
pub fn same_text(a: &str, b: &str) -> (same: bool)
    ensures
        same == (a@ == b@),
{
    let left = String::from_str(a);
    let right = String::from_str(b);
    left == right
}

/// `s` without its leading whitespace.
pub open spec fn skip_leading_whitespace(s: Seq<char>) -> Seq<char>
    decreases s.len(),
{
    if s.len() > 0 && whitespace(s[0]) {
        skip_leading_whitespace(s.drop_first())
    } else {
        s
    }
}

/// `s` without its trailing whitespace.
pub open spec fn drop_trailing_whitespace(s: Seq<char>) -> Seq<char>
    decreases s.len(),
{
    if s.len() > 0 && whitespace(s.last()) {
        drop_trailing_whitespace(s.drop_last())
    } else {
        s
    }
}

/// `s` without its leading and trailing whitespace.
pub open spec fn trimmed(s: Seq<char>) -> Seq<char> {
    drop_trailing_whitespace(skip_leading_whitespace(s))
}

/// The texts of `parts` in order, with `sep` between neighbours.
pub open spec fn join(parts: Seq<Seq<char>>, sep: Seq<char>) -> Seq<char>
    decreases parts.len(),
{
    if parts.len() == 0 {
        Seq::empty()
    } else if parts.len() == 1 {
        parts[0]
    } else {
        join(parts.drop_last(), sep) + sep + parts.last()
    }
}

/// The chars of each of a sequence of strings.
pub open spec fn texts(strings: Seq<String>) -> Seq<Seq<char>> {
    strings.map_values(|s: String| s@)
}

proof fn lemma_skip_leading(s: Seq<char>, lead: int)
    requires
        0 <= lead <= s.len(),
        forall|j: int| 0 <= j < lead ==> whitespace(#[trigger] s[j]),
        lead < s.len() ==> !whitespace(s[lead]),
    ensures
        skip_leading_whitespace(s) == s.skip(lead),
    decreases lead,
{
    if lead > 0 {
        lemma_skip_leading(s.drop_first(), lead - 1);
    }
}

proof fn lemma_drop_trailing(s: Seq<char>, end: int)
    requires
        0 <= end <= s.len(),
        forall|j: int| end <= j < s.len() ==> whitespace(#[trigger] s[j]),
        end > 0 ==> !whitespace(s[end - 1]),
    ensures
        drop_trailing_whitespace(s) == s.take(end),
    decreases s.len() - end,
{
    if end < s.len() {
        lemma_drop_trailing(s.drop_last(), end);
    }
}

/// The chars of a text, one by one.
pub fn chars_of(s: &str) -> (chars: Vec<char>)
    ensures
        chars@ == s@,
{
    let mut chars: Vec<char> = Vec::new();
    for c in it: s.chars()
        invariant
            it.seq() == s@,
            chars@ == s@.take(it.index() as int),
    {
        chars.push(c);
    }
    chars
}

/// `lead` and `end` bound what is left of a text when the whitespace at both
/// ends is removed, where `white[i]` tells whether its char `i` is
/// whitespace. A text of whitespace alone is bounded at its end.
pub open spec fn is_trim_bounds(white: Seq<bool>, lead: int, end: int) -> bool {
    &&& 0 <= lead <= end <= white.len()
    &&& forall|j: int| 0 <= j < lead ==> white[j]
    &&& forall|j: int| end <= j < white.len() ==> white[j]
    &&& lead < end ==> !white[lead] && !white[end - 1]
    &&& lead == end ==> lead == white.len()
}

/// Finds what is left of a text when the whitespace at both ends is removed,
/// where `white[i]` tells whether its char `i` is whitespace: the position
/// of the first char that stays and the position after the last.
pub fn trim_bounds(white: &[bool]) -> (bounds: (usize, usize))
    ensures
        is_trim_bounds(white@, bounds.0 as int, bounds.1 as int),
{
    let len = white.len();
    let mut lead: usize = 0;
    while lead < len && white[lead]
        invariant
            lead <= len,
            len == white@.len(),
            forall|j: int| 0 <= j < lead ==> white@[j],
        decreases len - lead,
    {
        lead += 1;
    }
    let mut end: usize = len;
    while end > lead && white[end - 1]
        invariant
            lead <= end <= len,
            len == white@.len(),
            forall|j: int| end <= j < len ==> white@[j],
        decreases end,
    {
        end -= 1;
    }
    (lead, end)
}

/// Removes leading and trailing whitespace.
pub fn trim(s: &str) -> (out: String)
    ensures
        out@ == trimmed(s@),
{
    let chars = chars_of(s);
    let mut white: Vec<bool> = Vec::new();
    let mut i: usize = 0;
    while i < chars.len()
        invariant
            i <= chars@.len(),
            white@.len() == i,
            forall|j: int| 0 <= j < i ==> #[trigger] white@[j] == whitespace(chars@[j]),
        decreases chars@.len() - i,
    {
        white.push(is_whitespace(chars[i]));
        i += 1;
    }
    let (lead, end) = trim_bounds(white.as_slice());
    proof {
        assert(forall|j: int| 0 <= j < s@.len() ==> white@[j] == whitespace(#[trigger] s@[j]));
        lemma_skip_leading(s@, lead as int);
        lemma_drop_trailing(s@.skip(lead as int), end - lead);
    }
    String::from_str(s.substring_char(lead, end))
}

/// Joins texts with a separator between neighbours.
pub fn join_strings(parts: &[String], sep: &str) -> (out: String)
    ensures
        out@ == join(texts(parts@), sep@),
{
    let mut out = String::new();
    let mut i: usize = 0;
    while i < parts.len()
        invariant
            i <= parts@.len(),
            out@ == join(texts(parts@).take(i as int), sep@),
        decreases parts@.len() - i,
    {
        proof {
            assert(texts(parts@).take(i + 1).drop_last() =~= texts(parts@).take(i as int));
        }
        if i > 0 {
            out.append(sep);
        }
        out.append(parts[i].as_str());
        i += 1;
    }
    proof {
        assert(texts(parts@).take(parts@.len() as int) =~= texts(parts@));
    }
    out
}

/// The text of `value`, or `fallback` where there is none.
pub open spec fn or_text(value: Option<String>, fallback: Seq<char>) -> Seq<char> {
    match value {
        Some(text) => text@,
        None => fallback,
    }
}

/// The text of `value`, or `fallback` where there is none.
pub fn text_or<'a>(value: &'a Option<String>, fallback: &'a str) -> (out: &'a str)
    ensures
        out@ == or_text(*value, fallback@),
{
    match value {
        Some(text) => text.as_str(),
        None => fallback,
    }
}

/// `s` cut down to its first `n` items.
pub open spec fn first_n<T>(s: Seq<T>, n: nat) -> Seq<T> {
    if n < s.len() {
        s.take(n as int)
    } else {
        s
    }
}

/// `at` is the last position at which `needle` stands in `hay`.
pub open spec fn is_last_occurrence(hay: Seq<char>, needle: Seq<char>, at: int) -> bool {
    occurs_at(hay, needle, at) && forall|later: int| at < later ==> !occurs_at(hay, needle, later)
}

/// The last position at which `needle` stands in `hay`, if it stands
/// anywhere.
pub open spec fn last_occurrence(hay: Seq<char>, needle: Seq<char>) -> Option<int> {
    if exists|at: int| is_last_occurrence(hay, needle, at) {
        Some(choose|at: int| is_last_occurrence(hay, needle, at))
    } else {
        None
    }
}

proof fn lemma_last_occurrence(hay: Seq<char>, needle: Seq<char>, at: int)
    requires
        is_last_occurrence(hay, needle, at),
    ensures
        last_occurrence(hay, needle) == Some(at),
{
    let chosen = choose|other: int| is_last_occurrence(hay, needle, other);
    assert(is_last_occurrence(hay, needle, chosen));
    if chosen < at {
        assert(!occurs_at(hay, needle, at));
    }
    if at < chosen {
        assert(!occurs_at(hay, needle, chosen));
    }
}

/// `needle` stands nowhere in `hay`.
pub open spec fn occurs_nowhere(hay: Seq<char>, needle: Seq<char>) -> bool {
    forall|at: int| !occurs_at(hay, needle, at)
}

fn stands_at(hay: &Vec<char>, needle: &Vec<char>, at: usize) -> (stands: bool)
    requires
        at + needle@.len() <= hay@.len(),
    ensures
        stands == occurs_at(hay@, needle@, at as int),
{
    let hay_len = hay.len();
    let mut k: usize = 0;
    while k < needle.len()
        invariant
            k <= needle@.len(),
            hay_len == hay@.len(),
            at + needle@.len() <= hay@.len(),
            forall|j: int| 0 <= j < k ==> hay@[at + j] == needle@[j],
        decreases needle@.len() - k,
    {
        if hay[at + k] != needle[k] {
            return false;
        }
        k += 1;
    }
    assert(hay@.subrange(at as int, at + needle@.len()) =~= needle@);
    true
}

/// Whether `needle` occurs in `hay` as a contiguous run of chars.
pub fn contains_chars(hay: &Vec<char>, needle: &Vec<char>) -> (found: bool)
    ensures
        found == is_substring(needle@, hay@),
{
    if needle.len() > hay.len() {
        return false;
    }
    let last: usize = hay.len() - needle.len();
    let mut at: usize = 0;
    loop
        invariant
            last + needle@.len() == hay@.len(),
            at <= last,
            forall|earlier: int| 0 <= earlier < at ==> !occurs_at(hay@, needle@, earlier),
        decreases last - at,
    {
        if stands_at(hay, needle, at) {
            return true;
        }
        if at == last {
            return false;
        }
        at += 1;
    }
}

fn lower_code(c: char) -> (code: u32)
    ensures
        code == ascii_lower(c) as u32,
{
    if c >= 'A' && c <= 'Z' {
        c as u32 + 32
    } else {
        c as u32
    }
}

/// Whether two texts are equal up to the case of their ASCII letters.
pub fn eq_chars_ignore_ascii_case(a: &Vec<char>, b: &Vec<char>) -> (same: bool)
    ensures
        same == ascii_case_eq(a@, b@),
{
    if a.len() != b.len() {
        return false;
    }
    let mut i: usize = 0;
    while i < a.len()
        invariant
            i <= a@.len(),
            a@.len() == b@.len(),
            forall|j: int| 0 <= j < i ==> ascii_lower(#[trigger] a@[j]) == ascii_lower(b@[j]),
        decreases a@.len() - i,
    {
        if lower_code(a[i]) != lower_code(b[i]) {
            assert(ascii_lower(a@[i as int]) != ascii_lower(b@[i as int]));
            return false;
        }
        i += 1;
    }
    true
}

/// The last position, counted in chars, at which `needle` stands in `hay`.
pub fn rfind(hay: &str, needle: &str) -> (found: Option<usize>)
    ensures
        hay@.len() <= usize::MAX,
        match found {
            Some(at) => is_last_occurrence(hay@, needle@, at as int) && last_occurrence(
                hay@,
                needle@,
            ) == Some(at as int),
            None => occurs_nowhere(hay@, needle@) && last_occurrence(hay@, needle@) is None,
        },
{
    let hay_chars = chars_of(hay);
    let needle_chars = chars_of(needle);
    if needle_chars.len() > hay_chars.len() {
        return None;
    }
    let mut at: usize = hay_chars.len() - needle_chars.len();
    loop
        invariant
            hay_chars@ == hay@,
            needle_chars@ == needle@,
            hay@.len() <= usize::MAX,
            at + needle@.len() <= hay@.len(),
            forall|later: int| at < later ==> !occurs_at(hay@, needle@, later),
        decreases at,
    {
        if stands_at(&hay_chars, &needle_chars, at) {
            proof {
                assert(is_last_occurrence(hay@, needle@, at as int));
                lemma_last_occurrence(hay@, needle@, at as int);
            }
            return Some(at);
        }
        if at == 0 {
            return None;
        }
        at -= 1;
    }
}

/// The first `n` chars of a text, or all of it where it has fewer.
pub fn first_chars(s: &str, n: usize) -> (out: String)
    ensures
        out@ == first_n(s@, n as nat),
{
    let len = s.unicode_len();
    if n < len {
        String::from_str(s.substring_char(0, n))
    } else {
        String::from_str(s)
    }
}

/// The chars of a text from position `from` on; nothing where the text is
/// shorter.
pub fn chars_from(s: &str, from: usize) -> (out: String)
    ensures
        out@ == (if from <= s@.len() {
            s@.skip(from as int)
        } else {
            Seq::empty()
        }),
{
    let len = s.unicode_len();
    if from <= len {
        String::from_str(s.substring_char(from, len))
    } else {
        String::new()
    }
}

} // verus!
