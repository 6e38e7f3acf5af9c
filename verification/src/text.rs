//! Character-level helpers the names, labels and catalogue texts are built with.

use vstd::prelude::*;
use vstd::string::*;

verus! {

/// Unicode's White_Space property, as `char::is_whitespace` reports it: the controls from tab
/// to carriage return, the space, next line, the no-break space, the Ogham space mark, the
/// spaces from en quad to hair space, the line and paragraph separators, the narrow no-break
/// space, the medium mathematical space and the ideographic space.
pub open spec fn white_space(c: char) -> bool {
    ||| ('\u{9}' <= c && c <= '\u{d}')
    ||| c == ' '
    ||| c == '\u{85}'
    ||| c == '\u{a0}'
    ||| c == '\u{1680}'
    ||| ('\u{2000}' <= c && c <= '\u{200a}')
    ||| c == '\u{2028}'
    ||| c == '\u{2029}'
    ||| c == '\u{202f}'
    ||| c == '\u{205f}'
    ||| c == '\u{3000}'
}

/// Whether `c` is white space.
fn is_white_space(c: char) -> (b: bool)
    ensures
        b == white_space(c),
{
    ('\u{9}' <= c && c <= '\u{d}') || c == ' ' || c == '\u{85}' || c == '\u{a0}' || c
        == '\u{1680}' || ('\u{2000}' <= c && c <= '\u{200a}') || c == '\u{2028}' || c
        == '\u{2029}' || c == '\u{202f}' || c == '\u{205f}' || c == '\u{3000}'
}

/// The classes of characters that are stripped or searched for.
#[derive(Clone, Copy, Debug, PartialEq, Eq, Structural)]
pub enum CharClass {
    /// White space, as `str::trim` strips it.
    WhiteSpace,
    /// The punctuation that only ever joins two fields: `,` `;` `-`.
    Separator,
    /// Anything but `:`.
    NotColon,
    /// Anything but the path separators `\` and `/`.
    NotPathSeparator,
    /// Anything but `.`.
    NotDot,
    /// Anything but the separators of a language tag, `-` and `_`.
    NotTagSeparator,
    /// The path separators `\` and `/`.
    PathSeparator,
}

/// Membership of a class, as a predicate.
pub open spec fn in_class(class: CharClass, c: char) -> bool {
    match class {
        CharClass::WhiteSpace => white_space(c),
        CharClass::Separator => c == ',' || c == ';' || c == '-',
        CharClass::NotColon => c != ':',
        CharClass::NotPathSeparator => c != '\\' && c != '/',
        CharClass::NotDot => c != '.',
        CharClass::NotTagSeparator => c != '-' && c != '_',
        CharClass::PathSeparator => c == '\\' || c == '/',
    }
}

/// Membership of a class.
pub fn is_in_class(class: CharClass, c: char) -> (b: bool)
    ensures
        b == in_class(class, c),
{
    match class {
        CharClass::WhiteSpace => is_white_space(c),
        CharClass::Separator => c == ',' || c == ';' || c == '-',
        CharClass::NotColon => c != ':',
        CharClass::NotPathSeparator => c != '\\' && c != '/',
        CharClass::NotDot => c != '.',
        CharClass::NotTagSeparator => c != '-' && c != '_',
        CharClass::PathSeparator => c == '\\' || c == '/',
    }
}

/// How many characters at the front of `s` belong to `class`.
pub open spec fn lead(s: Seq<char>, class: CharClass) -> nat
    decreases s.len(),
{
    if s.len() > 0 && in_class(class, s[0]) {
        1 + lead(s.drop_first(), class)
    } else {
        0
    }
}

/// How many characters at the back of `s` belong to `class`.
pub open spec fn trail(s: Seq<char>, class: CharClass) -> nat
    decreases s.len(),
{
    if s.len() > 0 && in_class(class, s.last()) {
        1 + trail(s.drop_last(), class)
    } else {
        0
    }
}

/// `s` without the characters of `class` at its back.
pub open spec fn strip_back(s: Seq<char>, class: CharClass) -> Seq<char> {
    s.take(s.len() - trail(s, class))
}

/// `s` without white space at either end, as `str::trim` leaves it.
pub open spec fn trimmed(s: Seq<char>) -> Seq<char> {
    let front = s.skip(lead(s, CharClass::WhiteSpace) as int);
    strip_back(front, CharClass::WhiteSpace)
}

/// The front run is never longer than the text, and everything in it is of the class.
pub proof fn lemma_lead_bounds(s: Seq<char>, class: CharClass)
    ensures
        lead(s, class) <= s.len(),
        forall|j: int| 0 <= j < lead(s, class) ==> in_class(class, #[trigger] s[j]),
        lead(s, class) < s.len() ==> !in_class(class, s[lead(s, class) as int]),
    decreases s.len(),
{
    if s.len() > 0 && in_class(class, s[0]) {
        lemma_lead_bounds(s.drop_first(), class);
        assert forall|j: int| 0 <= j < lead(s, class) implies in_class(class, #[trigger] s[j]) by {
            if j > 0 {
                assert(s[j] == s.drop_first()[j - 1]);
            }
        }
        if lead(s, class) < s.len() {
            assert(s[lead(s, class) as int] == s.drop_first()[lead(s.drop_first(), class) as int]);
        }
    }
}

/// The back run is never longer than the text, and everything in it is of the class.
pub proof fn lemma_trail_bounds(s: Seq<char>, class: CharClass)
    ensures
        trail(s, class) <= s.len(),
        forall|j: int|
            s.len() - trail(s, class) <= j < s.len() ==> in_class(class, #[trigger] s[j]),
        trail(s, class) < s.len() ==> !in_class(class, s[s.len() - trail(s, class) - 1]),
    decreases s.len(),
{
    if s.len() > 0 && in_class(class, s.last()) {
        lemma_trail_bounds(s.drop_last(), class);
        assert forall|j: int| s.len() - trail(s, class) <= j < s.len() implies in_class(
            class,
            #[trigger] s[j],
        ) by {
            if j < s.len() - 1 {
                assert(s[j] == s.drop_last()[j]);
            }
        }
        if trail(s, class) < s.len() {
            let k = s.len() - trail(s, class) - 1;
            assert(s[k] == s.drop_last()[k]);
        }
    }
}

/// A run of the class at the front, stopped by a character outside it, is the whole lead.
proof fn lemma_lead_is(s: Seq<char>, class: CharClass, k: int)
    requires
        0 <= k <= s.len(),
        forall|j: int| 0 <= j < k ==> in_class(class, #[trigger] s[j]),
        k < s.len() ==> !in_class(class, s[k]),
    ensures
        lead(s, class) == k,
    decreases k,
{
    if k > 0 {
        let rest = s.drop_first();
        assert forall|j: int| 0 <= j < k - 1 implies in_class(class, #[trigger] rest[j]) by {
            assert(rest[j] == s[j + 1]);
        }
        if k - 1 < rest.len() {
            assert(rest[k - 1] == s[k]);
        }
        assert(in_class(class, s[0]));
        lemma_lead_is(rest, class, k - 1);
    } else if s.len() > 0 {
        assert(!in_class(class, s[0]));
    }
}

/// A run of the class at the back, stopped by a character outside it, is the whole trail.
proof fn lemma_trail_is(s: Seq<char>, class: CharClass, k: int)
    requires
        0 <= k <= s.len(),
        forall|j: int| s.len() - k <= j < s.len() ==> in_class(class, #[trigger] s[j]),
        k < s.len() ==> !in_class(class, s[s.len() - k - 1]),
    ensures
        trail(s, class) == k,
    decreases k,
{
    if k > 0 {
        let rest = s.drop_last();
        assert forall|j: int| rest.len() - (k - 1) <= j < rest.len() implies in_class(
            class,
            #[trigger] rest[j],
        ) by {
            assert(rest[j] == s[j]);
        }
        if k - 1 < rest.len() {
            assert(rest[rest.len() - (k - 1) - 1] == s[s.len() - k - 1]);
        }
        assert(in_class(class, s[s.len() - 1]));
        lemma_trail_is(rest, class, k - 1);
    } else if s.len() > 0 {
        assert(!in_class(class, s.last()));
    }
}

/// How many characters at the front of `s` belong to `class`.
pub fn count_lead(s: &str, class: CharClass) -> (n: usize)
    ensures
        n as nat == lead(s@, class),
{
    let len = s.unicode_len();
    let mut i: usize = 0;
    while i < len && is_in_class(class, s.get_char(i))
        invariant
            len == s@.len(),
            i <= len,
            forall|j: int| 0 <= j < i ==> in_class(class, #[trigger] s@[j]),
        decreases len - i,
    {
        i += 1;
    }
    proof {
        lemma_lead_is(s@, class, i as int);
    }
    i
}

/// How many characters at the back of `s` belong to `class`.
pub fn count_trail(s: &str, class: CharClass) -> (n: usize)
    ensures
        n as nat == trail(s@, class),
{
    let len = s.unicode_len();
    let mut k: usize = 0;
    while k < len && is_in_class(class, s.get_char(len - k - 1))
        invariant
            len == s@.len(),
            k <= len,
            forall|j: int| len - k <= j < len ==> in_class(class, #[trigger] s@[j]),
        decreases len - k,
    {
        k += 1;
    }
    proof {
        lemma_trail_is(s@, class, k as int);
    }
    k
}

/// `s` without white space at either end.
pub fn trim(s: &str) -> (t: &str)
    ensures
        t@ == trimmed(s@),
{
    let len = s.unicode_len();
    let front = count_lead(s, CharClass::WhiteSpace);
    proof {
        lemma_lead_bounds(s@, CharClass::WhiteSpace);
    }
    let rest = s.substring_char(front, len);
    let back = count_trail(rest, CharClass::WhiteSpace);
    proof {
        lemma_trail_bounds(rest@, CharClass::WhiteSpace);
    }
    let rest_len = len - front;
    rest.substring_char(0, rest_len - back)
}

/// `s` without the characters of `class` at its back.
pub fn trim_back(s: &str, class: CharClass) -> (t: &str)
    ensures
        t@ == strip_back(s@, class),
{
    let len = s.unicode_len();
    let back = count_trail(s, class);
    proof {
        lemma_trail_bounds(s@, class);
    }
    s.substring_char(0, len - back)
}

/// Whether two texts are the same characters.
pub fn same_text(a: &str, b: &str) -> (same: bool)
    ensures
        same == (a@ == b@),
{
    let len = a.unicode_len();
    if len != b.unicode_len() {
        return false;
    }
    let mut i: usize = 0;
    while i < len
        invariant
            len == a@.len(),
            len == b@.len(),
            i <= len,
            forall|j: int| 0 <= j < i ==> a@[j] == b@[j],
        decreases len - i,
    {
        if a.get_char(i) != b.get_char(i) {
            return false;
        }
        i += 1;
    }
    proof {
        assert(a@ =~= b@);
    }
    true
}

/// The characters of `s`, in order.
pub fn chars_of(s: &str) -> (chars: Vec<char>)
    ensures
        chars@ == s@,
{
    let len = s.unicode_len();
    let mut chars: Vec<char> = Vec::new();
    let mut i: usize = 0;
    while i < len
        invariant
            len == s@.len(),
            i <= len,
            chars@ == s@.subrange(0, i as int),
        decreases len - i,
    {
        chars.push(s.get_char(i));
        proof {
            assert(s@.subrange(0, i + 1) =~= s@.subrange(0, i as int).push(s@[i as int]));
        }
        i += 1;
    }
    proof {
        assert(s@.subrange(0, len as int) =~= s@);
    }
    chars
}

/// `String::from_iter` over characters: the string made of exactly those characters.
#[verifier::external_body]
pub(crate) fn string_of(chars: &[char]) -> (s: String)
    ensures
        s@ == chars@,
{
    chars.iter().collect()
}

/// `s` with every non-overlapping occurrence of `pattern`, scanned from the left, replaced
/// by `value`, as `str::replace` does it.
pub open spec fn replace_all(s: Seq<char>, pattern: Seq<char>, value: Seq<char>) -> Seq<char>
    decreases s.len(),
{
    if s.len() == 0 {
        s
    } else if 0 < pattern.len() <= s.len() && s.take(pattern.len() as int) == pattern {
        value + replace_all(s.skip(pattern.len() as int), pattern, value)
    } else {
        seq![s[0]] + replace_all(s.drop_first(), pattern, value)
    }
}

/// Whether `pattern` starts at position `at` of `s`.
fn starts_at(s: &Vec<char>, at: usize, pattern: &Vec<char>) -> (found: bool)
    requires
        at <= s@.len(),
    ensures
        found == (pattern@.len() <= s@.len() - at && s@.subrange(at as int, at + pattern@.len())
            == pattern@),
{
    if pattern.len() > s.len() - at {
        return false;
    }
    let mut j: usize = 0;
    while j < pattern.len()
        invariant
            at + pattern@.len() <= s@.len(),
            at + pattern.len() <= s.len(),
            j <= pattern@.len(),
            forall|k: int| 0 <= k < j ==> s@[at + k] == pattern@[k],
        decreases pattern@.len() - j,
    {
        if s[at + j] != pattern[j] {
            proof {
                assert(s@.subrange(at as int, at + pattern@.len())[j as int] != pattern@[j as int]);
            }
            return false;
        }
        j += 1;
    }
    proof {
        assert(s@.subrange(at as int, at + pattern@.len()) =~= pattern@);
    }
    true
}

/// Append `items` to `out`, in order.
pub fn push_all<T: Copy>(out: &mut Vec<T>, items: &[T])
    ensures
        final(out)@ == old(out)@ + items@,
{
    let ghost before = out@;
    let mut i: usize = 0;
    while i < items.len()
        invariant
            i <= items.len(),
            out@ == before + items@.subrange(0, i as int),
        decreases items.len() - i,
    {
        out.push(items[i]);
        proof {
            assert(items@.subrange(0, i + 1) =~= items@.subrange(0, i as int).push(items@[i as int]));
        }
        i += 1;
    }
    proof {
        assert(items@.subrange(0, items@.len() as int) =~= items@);
    }
}

/// `s` with every occurrence of `pattern` replaced by `value`.
pub fn replace(s: &str, pattern: &str, value: &str) -> (out: String)
    ensures
        out@ == replace_all(s@, pattern@, value@),
{
    let text = chars_of(s);
    let pat = chars_of(pattern);
    let val = chars_of(value);
    let mut out: Vec<char> = Vec::new();
    let mut i: usize = 0;
    proof {
        assert(text@.skip(0) =~= text@);
    }
    while i < text.len()
        invariant
            text@ == s@,
            pat@ == pattern@,
            val@ == value@,
            i <= text@.len(),
            replace_all(s@, pattern@, value@) == out@ + replace_all(text@.skip(i as int), pat@, val@),
        decreases text@.len() - i,
    {
        let rest = Ghost(text@.skip(i as int));
        if pat.len() > 0 && starts_at(&text, i, &pat) {
            proof {
                assert(rest@.take(pat@.len() as int) =~= text@.subrange(i as int, i + pat@.len()));
                assert(rest@.skip(pat@.len() as int) =~= text@.skip(i + pat@.len()));
            }
            push_all(&mut out, val.as_slice());
            i = i + pat.len();
        } else {
            proof {
                if 0 < pat@.len() <= rest@.len() {
                    assert(rest@.take(pat@.len() as int) =~= text@.subrange(i as int, i + pat@.len()));
                }
                assert(rest@.drop_first() =~= text@.skip(i + 1));
            }
            out.push(text[i]);
            i = i + 1;
        }
    }
    proof {
        assert(text@.skip(i as int) =~= Seq::<char>::empty());
    }
    string_of(out.as_slice())
}

/// The decimal digits of `n`, most significant first, without leading zeros.
pub open spec fn decimal_of(n: nat) -> Seq<char>
    decreases n,
{
    if n < 10 {
        seq![digit_char(n)]
    } else {
        decimal_of(n / 10).push(digit_char(n % 10))
    }
}

/// The character of one decimal digit.
pub open spec fn digit_char(d: nat) -> char {
    if d == 0 { '0' } else if d == 1 { '1' } else if d == 2 { '2' } else if d == 3 { '3' }
    else if d == 4 { '4' } else if d == 5 { '5' } else if d == 6 { '6' } else if d == 7 { '7' }
    else if d == 8 { '8' } else { '9' }
}

/// The character of one decimal digit.
fn digit(d: u64) -> (c: char)
    requires
        d < 10,
    ensures
        c == digit_char(d as nat),
{
    if d == 0 { '0' } else if d == 1 { '1' } else if d == 2 { '2' } else if d == 3 { '3' }
    else if d == 4 { '4' } else if d == 5 { '5' } else if d == 6 { '6' } else if d == 7 { '7' }
    else if d == 8 { '8' } else { '9' }
}

/// `n` written in decimal, as `to_string` writes an integer.
pub fn decimal(n: u64) -> (s: String)
    ensures
        s@ == decimal_of(n as nat),
{
    let mut reversed: Vec<char> = Vec::new();
    let mut rest = n;
    reversed.push(digit(rest % 10));
    rest = rest / 10;
    proof {
        assert(reversed@.reverse() =~= seq![digit_char((n % 10) as nat)]);
        if n >= 10 {
            assert(decimal_of(n as nat) == decimal_of((n / 10) as nat).push(digit_char((n % 10) as nat)));
            assert(decimal_of(n as nat) =~= decimal_of(rest as nat) + reversed@.reverse());
        } else {
            assert(decimal_of(n as nat) =~= Seq::<char>::empty() + reversed@.reverse());
        }
    }
    while rest > 0
        invariant
            decimal_of(n as nat) == (if rest > 0 { decimal_of(rest as nat) } else { Seq::<char>::empty() })
                + reversed@.reverse(),
        decreases rest,
    {
        let ghost before = reversed@;
        let d = rest % 10;
        reversed.push(digit(d));
        let next = rest / 10;
        proof {
            assert(reversed@.reverse() =~= seq![digit_char(d as nat)] + before.reverse());
            if rest >= 10 {
                assert(decimal_of(rest as nat) == decimal_of(next as nat).push(digit_char(d as nat)));
                assert(decimal_of(n as nat) =~= decimal_of(next as nat) + reversed@.reverse());
            } else {
                assert(decimal_of(rest as nat) == seq![digit_char(rest as nat)]);
                assert(decimal_of(n as nat) =~= Seq::<char>::empty() + reversed@.reverse());
            }
        }
        rest = next;
    }
    let mut digits: Vec<char> = Vec::new();
    let mut i = reversed.len();
    while i > 0
        invariant
            i <= reversed@.len(),
            digits@ == reversed@.subrange(i as int, reversed@.len() as int).reverse(),
        decreases i,
    {
        i = i - 1;
        digits.push(reversed[i]);
        proof {
            assert(reversed@.subrange(i as int, reversed@.len() as int).reverse() =~= reversed@.subrange(
                i + 1,
                reversed@.len() as int,
            ).reverse().push(reversed@[i as int]));
        }
    }
    proof {
        assert(reversed@.subrange(0, reversed@.len() as int) =~= reversed@);
        assert(decimal_of(n as nat) =~= digits@);
    }
    string_of(digits.as_slice())
}

/// `c` in ASCII lower case: `A`–`Z` become `a`–`z`, everything else stays.
pub open spec fn ascii_lower(c: char) -> char {
    if 'A' <= c <= 'Z' {
        ((c as u32) + 32) as char
    } else {
        c
    }
}

/// `s` in ASCII lower case, as `str::to_ascii_lowercase` leaves it.
pub open spec fn ascii_lowered(s: Seq<char>) -> Seq<char> {
    s.map_values(|c: char| ascii_lower(c))
}

/// `c` in ASCII lower case.
pub fn lower_ascii_char(c: char) -> (lowered: char)
    ensures
        lowered == ascii_lower(c),
{
    if 'A' <= c && c <= 'Z' {
        let code = (c as u8) + 32;
        code as char
    } else {
        c
    }
}

/// `s` in ASCII lower case.
pub fn to_ascii_lowercase(s: &str) -> (lowered: String)
    ensures
        lowered@ == ascii_lowered(s@),
{
    let chars = chars_of(s);
    let mut out: Vec<char> = Vec::new();
    let mut i: usize = 0;
    while i < chars.len()
        invariant
            chars@ == s@,
            i <= chars@.len(),
            out@ == ascii_lowered(s@.subrange(0, i as int)),
        decreases chars@.len() - i,
    {
        out.push(lower_ascii_char(chars[i]));
        proof {
            assert(ascii_lowered(s@.subrange(0, i + 1)) =~= ascii_lowered(s@.subrange(0, i as int)).push(
                ascii_lower(s@[i as int]),
            ));
        }
        i += 1;
    }
    proof {
        assert(s@.subrange(0, s@.len() as int) =~= s@);
    }
    string_of(out.as_slice())
}

} // verus!
