//! Text helpers: the string operations that the memory logic is written in.

use vstd::prelude::*;
use vstd::string::StringExecFns;

verus! {

/// `part` occurs in `s` as a run of consecutive characters.
pub open spec fn has_substring(s: Seq<char>, part: Seq<char>) -> bool {
    exists|i: int|
        0 <= i <= s.len() - part.len() && #[trigger] s.subrange(i, i + part.len()) == part
}

/// The Unicode `White_Space` characters.
pub open spec fn is_white_space(c: char) -> bool {
    let u = c as u32;
    ||| 0x9 <= u <= 0xd
    ||| u == 0x20
    ||| u == 0x85
    ||| u == 0xa0
    ||| u == 0x1680
    ||| 0x2000 <= u <= 0x200a
    ||| u == 0x2028
    ||| u == 0x2029
    ||| u == 0x202f
    ||| u == 0x205f
    ||| u == 0x3000
}

/// `s` without its leading white space.
pub open spec fn trimmed_start(s: Seq<char>) -> Seq<char>
    decreases s.len(),
{
    if s.len() > 0 && is_white_space(s[0]) {
        trimmed_start(s.drop_first())
    } else {
        s
    }
}

/// `s` without its trailing white space.
pub open spec fn trimmed_end(s: Seq<char>) -> Seq<char>
    decreases s.len(),
{
    if s.len() > 0 && is_white_space(s.last()) {
        trimmed_end(s.drop_last())
    } else {
        s
    }
}

/// `s` without the white space at its two ends.
pub open spec fn trimmed(s: Seq<char>) -> Seq<char> {
    trimmed_end(trimmed_start(s))
}

/// `s` holds nothing but white space.
pub open spec fn blank(s: Seq<char>) -> bool {
    forall|i: int| 0 <= i < s.len() ==> is_white_space(#[trigger] s[i])
}

/// The lower-case form of a text, as `str::to_lowercase` computes it.
pub uninterp spec fn lowercase(s: Seq<char>) -> Seq<char>;

/// The optional text behind an optional string.
pub open spec fn opt_text(s: Option<String>) -> Option<Seq<char>> {
    match s {
        Some(t) => Some(t@),
        None => None,
    }
}

/// The texts behind a sequence of strings.
pub open spec fn texts(s: Seq<String>) -> Seq<Seq<char>> {
    s.map_values(|t: String| t@)
}

/// The decimal digit for `d`.
pub open spec fn digit(d: nat) -> char {
    (('0' as u32) + d) as char
}

/// `n` in decimal, without leading zeros.
pub open spec fn decimal(n: nat) -> Seq<char>
    decreases n,
{
    if n < 10 {
        seq![digit(n)]
    } else {
        decimal(n / 10).push(digit(n % 10))
    }
}

/// `str::contains` with a string pattern: whether the pattern occurs in the
/// text. Trusted to decide [`has_substring`].
#[verifier::external_body]
pub(crate) fn str_contains(s: &str, part: &str) -> (found: bool)
    ensures
        found == has_substring(s@, part@),
{
    s.contains(part)
}

/// `str::starts_with` with a string pattern: whether the text begins with the
/// pattern. Trusted to decide that the pattern is a prefix of the text.
#[verifier::external_body]
pub(crate) fn str_starts_with(s: &str, prefix: &str) -> (found: bool)
    ensures
        found == prefix@.is_prefix_of(s@),
{
    s.starts_with(prefix)
}

/// `str::trim`: the text without leading and trailing white space. Trusted to
/// return [`trimmed`], with white space as Unicode's `White_Space` property.
#[verifier::external_body]
pub(crate) fn str_trim(s: &str) -> (inner: &str)
    ensures
        inner@ == trimmed(s@),
{
    s.trim()
}

/// `str::to_lowercase`: the lower-case form of the text. Trusted to depend on
/// the text alone; the case mapping itself is left to the standard library.
#[verifier::external_body]
pub(crate) fn str_to_lowercase(s: &str) -> (lower: String)
    ensures
        lower@ == lowercase(s@),
{
    s.to_lowercase()
}

proof fn lemma_trimmed_end_blank(s: Seq<char>)
    ensures
        trimmed_end(s).len() == 0 <==> blank(s),
    decreases s.len(),
{
    if s.len() > 0 && is_white_space(s.last()) {
        lemma_trimmed_end_blank(s.drop_last());
        if blank(s.drop_last()) {
            assert forall|i: int| 0 <= i < s.len() implies is_white_space(#[trigger] s[i]) by {
                if i < s.len() - 1 {
                    assert(s.drop_last()[i] == s[i]);
                }
            }
        }
        if blank(s) {
            assert forall|i: int| 0 <= i < s.drop_last().len() implies is_white_space(
                #[trigger] s.drop_last()[i],
            ) by {
                assert(s[i] == s.drop_last()[i]);
            }
        }
    }
}

proof fn lemma_trimmed_start_blank(s: Seq<char>)
    ensures
        blank(trimmed_start(s)) <==> blank(s),
    decreases s.len(),
{
    if s.len() > 0 && is_white_space(s[0]) {
        let rest = s.drop_first();
        lemma_trimmed_start_blank(rest);
        if blank(rest) {
            assert forall|i: int| 0 <= i < s.len() implies is_white_space(#[trigger] s[i]) by {
                if i > 0 {
                    assert(rest[i - 1] == s[i]);
                }
            }
        }
        if blank(s) {
            assert forall|i: int| 0 <= i < rest.len() implies is_white_space(
                #[trigger] rest[i],
            ) by {
                assert(s[i + 1] == rest[i]);
            }
        }
    }
}

/// Trimming leaves nothing exactly when the text is blank.
pub proof fn lemma_trimmed_empty(s: Seq<char>)
    ensures
        trimmed(s).len() == 0 <==> blank(s),
{
    lemma_trimmed_start_blank(s);
    lemma_trimmed_end_blank(trimmed_start(s));
}

/// Whether a text holds nothing but white space.
pub fn is_blank(s: &str) -> (r: bool)
    ensures
        r == blank(s@),
{
    proof {
        lemma_trimmed_empty(s@);
    }
    str_trim(s).is_empty()
}

fn digit_text(d: usize) -> (s: &'static str)
    requires
        d < 10,
    ensures
        s@ == seq![digit(d as nat)],
{
    proof {
        reveal_strlit("0");
        reveal_strlit("1");
        reveal_strlit("2");
        reveal_strlit("3");
        reveal_strlit("4");
        reveal_strlit("5");
        reveal_strlit("6");
        reveal_strlit("7");
        reveal_strlit("8");
        reveal_strlit("9");
    }
    match d {
        0 => "0",
        1 => "1",
        2 => "2",
        3 => "3",
        4 => "4",
        5 => "5",
        6 => "6",
        7 => "7",
        8 => "8",
        _ => "9",
    }
}

/// `n` written in decimal.
pub fn decimal_text(n: usize) -> (s: String)
    ensures
        s@ == decimal(n as nat),
    decreases n,
{
    if n < 10 {
        digit_text(n).to_owned()
    } else {
        let mut s = decimal_text(n / 10);
        s.append(digit_text(n % 10));
        s
    }
}

/// A copy of an optional string.
pub fn copy_opt(s: &Option<String>) -> (r: Option<String>)
    ensures
        r == *s,
{
    match s {
        Some(t) => Some(t.clone()),
        None => None,
    }
}

} // verus!
