//! Texts that can be handed to the grammar engine.
//!
//! The engine does not return on every text. Its scanner panics on a
//! character outside ASCII in unquoted text and on a `\u` escape that is cut
//! short, its resolver panics on a substitution whose path is not plain text
//! and on some values that are appended with `+=`, and it does not come back
//! from substitutions that lead round in a circle. Which texts these are is
//! a matter of its whole grammar. [`loadable`] is a plain condition on the
//! characters that leaves all of them out: it holds of a text of ASCII
//! characters without `+=`, in which every `\u` is followed by four
//! hexadecimal digits and in which `$` stands at most once, and then at the
//! head of a substitution with a plain path.

use vstd::prelude::*;
use vstd::string::StrSliceExecFns;
use vstd::utf8::is_ascii_chars;

verus! {

/// Whether `c` is a letter of ASCII.
pub open spec fn is_letter(c: char) -> bool {
    ('a' <= c <= 'z') || ('A' <= c <= 'Z')
}

/// Whether `c` is a decimal digit.
pub open spec fn is_digit(c: char) -> bool {
    '0' <= c <= '9'
}

/// Whether `c` is a hexadecimal digit.
pub open spec fn is_hex(c: char) -> bool {
    is_digit(c) || ('a' <= c <= 'f') || ('A' <= c <= 'F')
}

/// Whether a plain path can begin with `c`: a letter or an underscore.
pub open spec fn is_path_start(c: char) -> bool {
    is_letter(c) || c == '_'
}

/// Whether `c` can stand in a plain path: a letter, a digit, an underscore, a
/// dot or a hyphen.
pub open spec fn is_path_char(c: char) -> bool {
    is_letter(c) || is_digit(c) || c == '_' || c == '.' || c == '-'
}

/// Whether the word `true` or the word `false` begins at place `j`.
pub open spec fn names_truth(text: Seq<char>, j: int) -> bool {
    ||| {
        &&& j + 3 < text.len()
        &&& text[j] == 't'
        &&& text[j + 1] == 'r'
        &&& text[j + 2] == 'u'
        &&& text[j + 3] == 'e'
    }
    ||| {
        &&& j + 4 < text.len()
        &&& text[j] == 'f'
        &&& text[j + 1] == 'a'
        &&& text[j + 2] == 'l'
        &&& text[j + 3] == 's'
        &&& text[j + 4] == 'e'
    }
}

/// Whether a `\u` at place `i`, if one stands there, is followed by four
/// hexadecimal digits.
pub open spec fn escape_is_whole(text: Seq<char>, i: int) -> bool {
    (text[i] == '\\' && i + 1 < text.len() && text[i + 1] == 'u') ==> {
        &&& i + 5 < text.len()
        &&& is_hex(text[i + 2])
        &&& is_hex(text[i + 3])
        &&& is_hex(text[i + 4])
        &&& is_hex(text[i + 5])
    }
}

/// Where the path of a substitution begins whose `$` stands at place `i`:
/// behind `${`, or behind `${?`.
pub open spec fn path_begin(text: Seq<char>, i: int) -> int {
    if i + 2 < text.len() && text[i + 2] == '?' {
        i + 3
    } else {
        i + 2
    }
}

/// Whether the characters from place `j` up to place `k` can all stand in a
/// plain path and a closing brace stands at place `k`.
pub open spec fn path_ends_at(text: Seq<char>, j: int, k: int) -> bool {
    &&& j <= k < text.len()
    &&& text[k] == '}'
    &&& forall|m: int| j <= m < k ==> is_path_char(#[trigger] text[m])
}

/// Whether a substitution with a plain path begins at place `i`: `${` or
/// `${?`, then a path that begins with a letter or an underscore, holds
/// letters, digits, underscores, dots and hyphens only and does not begin
/// with `true` or `false`, then `}`.
pub open spec fn is_plain_substitution(text: Seq<char>, i: int) -> bool {
    let j = path_begin(text, i);
    &&& i + 1 < text.len()
    &&& text[i + 1] == '{'
    &&& j < text.len()
    &&& is_path_start(text[j])
    &&& !names_truth(text, j)
    &&& exists|k: int| path_ends_at(text, j, k)
}

/// Whether `+=` stands at place `i`.
pub open spec fn appends_at(text: Seq<char>, i: int) -> bool {
    text[i] == '+' && i + 1 < text.len() && text[i + 1] == '='
}

/// Whether what stands at place `i` is plain: an escape there is whole, a
/// `$` there begins a plain substitution, and no `+=` stands there.
pub open spec fn place_is_plain(text: Seq<char>, i: int) -> bool {
    &&& escape_is_whole(text, i)
    &&& text[i] == '$' ==> is_plain_substitution(text, i)
    &&& !appends_at(text, i)
}

/// Whether `$` stands in `text` at most once.
pub open spec fn one_substitution_at_most(text: Seq<char>) -> bool {
    forall|i: int, j: int|
        0 <= i < j < text.len() && #[trigger] text[i] == '$' ==> #[trigger] text[j] != '$'
}


/// Whether `text` can be handed to the engine.
pub open spec fn loadable(text: Seq<char>) -> bool {
    &&& is_ascii_chars(text)
    &&& forall|i: int| 0 <= i < text.len() ==> #[trigger] place_is_plain(text, i)
    &&& one_substitution_at_most(text)
}

/// The character at place `i` of a text of ASCII characters.
fn at(input: &str, i: usize) -> (c: char)
    requires
        input.is_ascii(),
        i < input@.len(),
    ensures
        c == input@[i as int],
{
    let b: u8 = input.get_ascii(i);
    b as char
}

fn hex(c: char) -> (r: bool)
    ensures
        r == is_hex(c),
{
    ('0' <= c && c <= '9') || ('a' <= c && c <= 'f') || ('A' <= c && c <= 'F')
}

fn path_start(c: char) -> (r: bool)
    ensures
        r == is_path_start(c),
{
    ('a' <= c && c <= 'z') || ('A' <= c && c <= 'Z') || c == '_'
}

fn path_char(c: char) -> (r: bool)
    ensures
        r == is_path_char(c),
{
    path_start(c) || ('0' <= c && c <= '9') || c == '.' || c == '-'
}

fn truth_at(input: &str, n: usize, j: usize) -> (r: bool)
    requires
        input.is_ascii(),
        n == input@.len(),
        j < n,
    ensures
        r == names_truth(input@, j as int),
{
    let c = at(input, j);
    if c == 't' {
        n - j > 3 && at(input, j + 1) == 'r' && at(input, j + 2) == 'u' && at(input, j + 3) == 'e'
    } else if c == 'f' {
        n - j > 4 && at(input, j + 1) == 'a' && at(input, j + 2) == 'l' && at(input, j + 3) == 's'
            && at(input, j + 4) == 'e'
    } else {
        false
    }
}

fn escape_whole_at(input: &str, n: usize, i: usize) -> (r: bool)
    requires
        input.is_ascii(),
        n == input@.len(),
        i < n,
    ensures
        r == escape_is_whole(input@, i as int),
{
    if at(input, i) == '\\' && n - i > 1 && at(input, i + 1) == 'u' {
        n - i > 5 && hex(at(input, i + 2)) && hex(at(input, i + 3)) && hex(at(input, i + 4)) && hex(
            at(input, i + 5),
        )
    } else {
        true
    }
}

fn substitution_plain_at(input: &str, n: usize, i: usize) -> (r: bool)
    requires
        input.is_ascii(),
        n == input@.len(),
        i < n,
    ensures
        r == is_plain_substitution(input@, i as int),
{
    if n - i <= 1 {
        return false;
    }
    if at(input, i + 1) != '{' {
        return false;
    }
    let mut j: usize = i + 2;
    if j < n && at(input, j) == '?' {
        j = j + 1;
    }
    assert(j == path_begin(input@, i as int));
    if j >= n {
        return false;
    }
    if !path_start(at(input, j)) {
        return false;
    }
    if truth_at(input, n, j) {
        return false;
    }
    let mut k: usize = j;
    let mut inside: bool = true;
    while inside && k < n
        invariant
            input.is_ascii(),
            n == input@.len(),
            j <= k <= n,
            forall|m: int| j <= m < k ==> is_path_char(#[trigger] input@[m]),
            !inside ==> k < n && !is_path_char(input@[k as int]),
        decreases (n - k) + (if inside { 1int } else { 0int }),
    {
        if path_char(at(input, k)) {
            k = k + 1;
        } else {
            inside = false;
        }
    }
    if k < n && at(input, k) == '}' {
        assert(path_ends_at(input@, j as int, k as int));
        true
    } else {
        assert forall|e: int| !path_ends_at(input@, j as int, e) by {
            if path_ends_at(input@, j as int, e) {
                if e < k {
                    assert(is_path_char(input@[e]));
                } else if e > k {
                    assert(is_path_char(input@[k as int]));
                }
            }
        }
        false
    }
}

/// Decides whether `input` can be handed to the engine.
pub fn is_loadable(input: &str) -> (b: bool)
    ensures
        b == loadable(input@),
{
    if !input.is_ascii() {
        return false;
    }
    let n: usize = input.unicode_len();
    let mut i: usize = 0;
    let mut seen: bool = false;
    let ghost mut first: int = 0;
    while i < n
        invariant
            input.is_ascii(),
            n == input@.len(),
            i <= n,
            forall|m: int| 0 <= m < i ==> #[trigger] place_is_plain(input@, m),
            seen ==> 0 <= first < i && input@[first] == '$',
            !seen ==> forall|m: int| 0 <= m < i ==> #[trigger] input@[m] != '$',
            forall|a: int, b: int|
                0 <= a < b < i && #[trigger] input@[a] == '$' ==> #[trigger] input@[b] != '$',
        decreases n - i,
    {
        if !escape_whole_at(input, n, i) {
            assert(!place_is_plain(input@, i as int));
            return false;
        }
        if at(input, i) == '+' && n - i > 1 && at(input, i + 1) == '=' {
            assert(!place_is_plain(input@, i as int));
            return false;
        }
        if at(input, i) == '$' {
            if seen {
                assert(input@[first] == '$' && input@[i as int] == '$');
                return false;
            }
            if !substitution_plain_at(input, n, i) {
                assert(!place_is_plain(input@, i as int));
                return false;
            }
            seen = true;
            proof {
                first = i as int;
            }
        }
        i = i + 1;
    }
    true
}

} // verus!
