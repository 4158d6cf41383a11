//! Text helpers shared by the resolver and the capture loop: ASCII case
//! folding, trimming, decimal rendering and the decoders for the two
//! encodings the platform hands over (UTF-8 payloads, UTF-16 names).

use vstd::prelude::*;
use vstd::string::*;
use vstd::utf8::*;

verus! {

/// The text that lossy UTF-16 decoding yields for `units`: every well-formed
/// unit or surrogate pair becomes its scalar, every unpaired surrogate
/// becomes U+FFFD.
pub uninterp spec fn utf16_lossy(units: Seq<u16>) -> Seq<char>;

/// Whether `c` carries the Unicode `White_Space` property.
pub uninterp spec fn white_space(c: char) -> bool;

/// `String::from_utf16_lossy`. Trusted: the returned text is the lossy
/// decoding of exactly the given units, a function of the units alone.
#[verifier::external_body]
pub(crate) fn decode_utf16_lossy(units: &[u16]) -> (text: String)
    ensures
        text@ == utf16_lossy(units@),
{
    String::from_utf16_lossy(units)
}

/// `char::is_whitespace`. Trusted: the answer is the character's
/// `White_Space` property.
#[verifier::external_body]
pub(crate) fn is_white_space(c: char) -> (b: bool)
    ensures
        b == white_space(c),
{
    c.is_whitespace()
}

/// `std::str::from_utf8`. Trusted: the call succeeds exactly on well-formed
/// UTF-8, and the string it then returns consists of the very bytes given.
#[verifier::external_body]
pub(crate) fn str_from_utf8(bytes: &[u8]) -> (text: Option<&str>)
    ensures
        text is Some <==> valid_utf8(bytes@),
        text matches Some(s) ==> s.spec_bytes() == bytes@,
{
    std::str::from_utf8(bytes).ok()
}

/// Decodes `bytes` as UTF-8 text, or reports that they are not text.
pub fn decode_text(bytes: &[u8]) -> (text: Option<&str>)
    ensures
        text is Some <==> valid_utf8(bytes@),
        text matches Some(s) ==> s@ == decode_utf8(bytes@),
{
    let text = str_from_utf8(bytes);
    proof {
        if let Some(s) = text {
            encode_utf8_decode_utf8(s@);
        }
    }
    text
}

/// The characters of `s`, in order.
pub fn chars_of(s: &str) -> (chars: Vec<char>)
    ensures
        chars@ == s@,
{
    let mut chars: Vec<char> = Vec::new();
    for c in it: s.chars()
        invariant
            chars@ == it.seq().take(it.index() as int),
    {
        chars.push(c);
    }
    chars
}

/// An ASCII upper-case letter folded to lower case; any other character
/// unchanged.
pub open spec fn ascii_lower(c: char) -> char {
    if 'A' <= c <= 'Z' {
        ((c as u32) + 32) as char
    } else {
        c
    }
}

/// Folds one character to ASCII lower case.
pub fn to_ascii_lower(c: char) -> (folded: char)
    ensures
        folded == ascii_lower(c),
{
    if 'A' <= c && c <= 'Z' {
        ((c as u8) + 32) as char
    } else {
        c
    }
}

/// Two texts are the same up to ASCII case: equally long, and equal
/// character by character once ASCII letters are folded.
pub open spec fn same_ignoring_ascii_case(a: Seq<char>, b: Seq<char>) -> bool {
    &&& a.len() == b.len()
    &&& forall|i: int| 0 <= i < a.len() ==> ascii_lower(#[trigger] a[i]) == ascii_lower(b[i])
}

/// Being the same up to ASCII case is an equivalence: every text is so
/// related to itself, the relation holds both ways round, and it carries
/// over a text in the middle.
pub proof fn lemma_same_ignoring_ascii_case_is_equivalence(
    a: Seq<char>,
    b: Seq<char>,
    c: Seq<char>,
)
    ensures
        same_ignoring_ascii_case(a, a),
        same_ignoring_ascii_case(a, b) ==> same_ignoring_ascii_case(b, a),
        same_ignoring_ascii_case(a, b) && same_ignoring_ascii_case(b, c)
            ==> same_ignoring_ascii_case(a, c),
{
}

/// Compares the first `len` characters of `a` with the whole of `b`, up to
/// ASCII case.
fn prefix_eq_ignore_ascii_case(a: &Vec<char>, len: usize, b: &Vec<char>) -> (same: bool)
    requires
        len <= a.len(),
    ensures
        same == same_ignoring_ascii_case(a@.take(len as int), b@),
{
    if len != b.len() {
        return false;
    }
    let mut i: usize = 0;
    while i < len
        invariant
            i <= len,
            len == b.len(),
            len <= a.len(),
            forall|j: int| 0 <= j < i ==> ascii_lower(#[trigger] a@[j]) == ascii_lower(b@[j]),
        decreases len - i,
    {
        if to_ascii_lower(a[i]) != to_ascii_lower(b[i]) {
            assert(a@.take(len as int)[i as int] == a@[i as int]);
            return false;
        }
        i += 1;
    }
    true
}

/// `s` without its trailing NUL characters.
pub open spec fn without_trailing_nul(s: Seq<char>) -> Seq<char>
    decreases s.len(),
{
    if s.len() > 0 && s.last() == '\0' {
        without_trailing_nul(s.drop_last())
    } else {
        s
    }
}

/// `s` without its trailing white space.
pub open spec fn without_trailing_white_space(s: Seq<char>) -> Seq<char>
    decreases s.len(),
{
    if s.len() > 0 && white_space(s.last()) {
        without_trailing_white_space(s.drop_last())
    } else {
        s
    }
}

/// How many leading characters of `chars` remain once trailing NULs go.
fn len_without_trailing_nul(chars: &Vec<char>) -> (len: usize)
    ensures
        len <= chars.len(),
        chars@.take(len as int) == without_trailing_nul(chars@),
{
    let mut len: usize = chars.len();
    assert(chars@.take(len as int) =~= chars@);
    while len > 0 && chars[len - 1] == '\0'
        invariant
            len <= chars.len(),
            without_trailing_nul(chars@.take(len as int)) == without_trailing_nul(chars@),
        decreases len,
    {
        assert(chars@.take(len as int).drop_last() =~= chars@.take(len - 1));
        len -= 1;
    }
    len
}

/// Whether a stored name, once its trailing NUL padding is removed, is the
/// queried name up to ASCII case. The whole name has to agree: neither a
/// prefix nor a substring counts.
pub fn name_matches(stored: &str, query: &str) -> (same: bool)
    ensures
        same == same_ignoring_ascii_case(without_trailing_nul(stored@), query@),
{
    let left = chars_of(stored);
    let right = chars_of(query);
    let len = len_without_trailing_nul(&left);
    prefix_eq_ignore_ascii_case(&left, len, &right)
}

/// Removes trailing white space.
pub fn trim_end(s: &str) -> (trimmed: &str)
    ensures
        trimmed@ == without_trailing_white_space(s@),
{
    let chars = chars_of(s);
    let mut len: usize = chars.len();
    assert(chars@.take(len as int) =~= chars@);
    while len > 0 && is_white_space(chars[len - 1])
        invariant
            len <= chars.len(),
            without_trailing_white_space(chars@.take(len as int)) == without_trailing_white_space(
                chars@,
            ),
        decreases len,
    {
        assert(chars@.take(len as int).drop_last() =~= chars@.take(len - 1));
        len -= 1;
    }
    s.substring_char(0, len)
}

/// The character that writes the digit `d`.
pub open spec fn digit_char(d: nat) -> char {
    if d == 0 {
        '0'
    } else if d == 1 {
        '1'
    } else if d == 2 {
        '2'
    } else if d == 3 {
        '3'
    } else if d == 4 {
        '4'
    } else if d == 5 {
        '5'
    } else if d == 6 {
        '6'
    } else if d == 7 {
        '7'
    } else if d == 8 {
        '8'
    } else {
        '9'
    }
}

/// The decimal numeral of `n`, most significant digit first, without
/// leading zeros.
pub open spec fn decimal(n: nat) -> Seq<char>
    decreases n,
{
    if n < 10 {
        seq![digit_char(n)]
    } else {
        decimal(n / 10).push(digit_char(n % 10))
    }
}

/// The one-character string that writes the digit `d`.
fn digit_str(d: u32) -> (s: &'static str)
    requires
        d < 10,
    ensures
        s@ == seq![digit_char(d as nat)],
{
    proof {
        reveal_strlit("0");
        reveal_strlit("1");
        reveal_strlit("2");
        reveal_strlit("3");
        reveal_strlit("4");
        reveal_strlit("5");
        reveal_strlit("6");
        reveal_strlit("7");
        reveal_strlit("8");
        reveal_strlit("9");
    }
    let s = if d == 0 {
        "0"
    } else if d == 1 {
        "1"
    } else if d == 2 {
        "2"
    } else if d == 3 {
        "3"
    } else if d == 4 {
        "4"
    } else if d == 5 {
        "5"
    } else if d == 6 {
        "6"
    } else if d == 7 {
        "7"
    } else if d == 8 {
        "8"
    } else {
        "9"
    };
    s
}

/// Appends the decimal numeral of `n` to `out`.
pub fn push_decimal(out: &mut String, n: u32)
    ensures
        final(out)@ == old(out)@ + decimal(n as nat),
    decreases n,
{
    if n >= 10 {
        push_decimal(out, n / 10);
    }
    out.append(digit_str(n % 10));
}

/// The line written for a message: the producer's identifier in square
/// brackets, one space, then the text.
pub open spec fn message_line(producer: u32, text: Seq<char>) -> Seq<char> {
    seq!['['] + decimal(producer as nat) + seq![']', ' '] + text
}

/// Builds the line written for a message.
pub fn format_line(producer: u32, text: &str) -> (line: String)
    ensures
        line@ == message_line(producer, text@),
{
    proof {
        reveal_strlit("[");
        reveal_strlit("] ");
    }
    let mut line = String::from_str("[");
    push_decimal(&mut line, producer);
    line.append("] ");
    line.append(text);
    line
}

} // verus!
