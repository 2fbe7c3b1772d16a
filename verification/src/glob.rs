//! Glob-pattern matching: a verified translation of a glob pattern into a
//! regular expression (case-insensitive; `*` any run of characters, `?` any
//! single character, everything else literal), and one trusted call into the
//! `regex` crate that compiles the expression and tests a haystack.

use vstd::prelude::*;

use crate::condition::MatchError;
use crate::strutil::str_chars;

verus! {

/// Granularity of a glob match: a whole token within the haystack, or the
/// entire haystack.
#[derive(Clone, Copy, PartialEq, Eq, Structural)]
pub enum GlobMatchType {
    Word,
    Whole,
}

/// The characters that carry meaning in a regular expression and must be
/// escaped to stand for themselves.
pub open spec fn regex_meta(c: char) -> bool {
    ||| c == '\\'
    ||| c == '.'
    ||| c == '+'
    ||| c == '*'
    ||| c == '?'
    ||| c == '('
    ||| c == ')'
    ||| c == '|'
    ||| c == '['
    ||| c == ']'
    ||| c == '{'
    ||| c == '}'
    ||| c == '^'
    ||| c == '$'
    ||| c == '#'
    ||| c == '&'
    ||| c == '-'
    ||| c == '~'
}

/// What one character of a glob pattern contributes to the regular
/// expression: `*` becomes `.*`, `?` becomes `.`, a metacharacter is
/// escaped, anything else stands for itself.
pub open spec fn glob_char_regex(c: char) -> Seq<char> {
    if c == '*' {
        seq!['.', '*']
    } else if c == '?' {
        seq!['.']
    } else if regex_meta(c) {
        seq!['\\', c]
    } else {
        seq![c]
    }
}

/// The body of the regular expression for a glob pattern: the contributions
/// of its characters, in order.
pub open spec fn glob_body_regex(pattern: Seq<char>) -> Seq<char>
    decreases pattern.len(),
{
    if pattern.len() == 0 {
        Seq::empty()
    } else {
        glob_char_regex(pattern[0]) + glob_body_regex(pattern.drop_first())
    }
}

/// The full regular expression for a glob pattern: case-insensitive, and
/// anchored to word boundaries (`Word`) or to the whole haystack (`Whole`).
pub open spec fn glob_regex(pattern: Seq<char>, match_type: GlobMatchType) -> Seq<char> {
    match match_type {
        GlobMatchType::Word => seq!['(', '?', 'i', ')', '\\', 'b'] + glob_body_regex(pattern)
            + seq!['\\', 'b'],
        GlobMatchType::Whole => seq!['(', '?', 'i', ')', '^'] + glob_body_regex(pattern)
            + seq!['$'],
    }
}

proof fn lemma_glob_body_regex_push(pattern: Seq<char>, c: char)
    ensures
        glob_body_regex(pattern.push(c)) == glob_body_regex(pattern) + glob_char_regex(c),
    decreases pattern.len(),
{
    if pattern.len() == 0 {
        assert(pattern.push(c).drop_first() =~= Seq::<char>::empty());
        assert(pattern.push(c)[0] == c);
        assert(glob_body_regex(Seq::<char>::empty()) =~= Seq::<char>::empty());
        assert(glob_body_regex(pattern.push(c)) =~= glob_char_regex(c));
        assert(glob_body_regex(pattern) + glob_char_regex(c) =~= glob_char_regex(c));
    } else {
        assert(pattern.push(c).drop_first() =~= pattern.drop_first().push(c));
        lemma_glob_body_regex_push(pattern.drop_first(), c);
        assert(glob_body_regex(pattern.push(c)) =~= glob_body_regex(pattern) + glob_char_regex(
            c,
        ));
    }
}

fn push_glob_char(out: &mut Vec<char>, c: char)
    ensures
        final(out)@ == old(out)@ + glob_char_regex(c),
{
    if c == '*' {
        out.push('.');
        out.push('*');
    } else if c == '?' {
        out.push('.');
    } else if c == '\\' || c == '.' || c == '+' || c == '(' || c == ')' || c == '|' || c == '['
        || c == ']' || c == '{' || c == '}' || c == '^' || c == '$' || c == '#' || c == '&'
        || c == '-' || c == '~' {
        out.push('\\');
        out.push(c);
    } else {
        out.push(c);
    }
    proof {
        assert(out@ =~= old(out)@ + glob_char_regex(c));
    }
}

/// Builds the regular expression that [`glob_regex`] describes.
fn build_glob_regex(pattern: &str, match_type: GlobMatchType) -> (r: Vec<char>)
    ensures
        r@ == glob_regex(pattern@, match_type),
{
    let chars = str_chars(pattern);
    let mut out: Vec<char> = Vec::new();
    out.push('(');
    out.push('?');
    out.push('i');
    out.push(')');
    match match_type {
        GlobMatchType::Word => {
            out.push('\\');
            out.push('b');
        },
        GlobMatchType::Whole => {
            out.push('^');
        },
    }
    let ghost prefix = out@;
    let n = chars.len();
    let mut i: usize = 0;
    proof {
        assert(chars@.take(0) =~= Seq::<char>::empty());
        assert(out@ =~= prefix + glob_body_regex(chars@.take(0)));
    }
    while i < n
        invariant
            n == chars@.len(),
            0 <= i <= n,
            out@ == prefix + glob_body_regex(chars@.take(i as int)),
        decreases n - i,
    {
        proof {
            assert(chars@.take(i + 1 as int) =~= chars@.take(i as int).push(chars@[i as int]));
            lemma_glob_body_regex_push(chars@.take(i as int), chars@[i as int]);
        }
        push_glob_char(&mut out, chars[i]);
        i += 1;
    }
    proof {
        assert(chars@.take(n as int) =~= chars@);
    }
    match match_type {
        GlobMatchType::Word => {
            out.push('\\');
            out.push('b');
        },
        GlobMatchType::Whole => {
            out.push('$');
        },
    }
    proof {
        assert(out@ =~= glob_regex(pattern@, match_type));
    }
    out
}

/// Whether the regular expression `re` compiles, and if so whether it
/// matches `haystack`: `None` when it does not compile, `Some(verdict)`
/// otherwise. The result depends on the two strings alone.
pub uninterp spec fn regex_verdict(re: Seq<char>, haystack: Seq<char>) -> Option<bool>;

/// Relies on `regex::Regex::new` and `regex::Regex::is_match`: whether a
/// pattern compiles depends on the pattern alone, and whether it matches
/// depends on the pattern and the haystack alone.
#[verifier::external_body]
fn regex_test(re: &Vec<char>, haystack: &str) -> (r: Option<bool>)
    ensures
        r == regex_verdict(re@, haystack@),
{
    let source: String = re.iter().collect();
    match regex::Regex::new(&source) {
        Ok(compiled) => Some(compiled.is_match(haystack)),
        Err(_) => None,
    }
}

/// The verdict of matching a glob pattern against a haystack, at the given
/// granularity: an error when the translated pattern does not compile into
/// a matcher, the matcher's verdict otherwise.
pub open spec fn spec_glob_match(
    pattern: Seq<char>,
    match_type: GlobMatchType,
    haystack: Seq<char>,
) -> Result<bool, MatchError> {
    match regex_verdict(glob_regex(pattern, match_type), haystack) {
        Some(verdict) => Ok(verdict),
        None => Err(MatchError::PatternCompileError),
    }
}

/// Compiles the glob pattern at the given granularity and tests the
/// haystack against it.
pub fn glob_match(pattern: &str, match_type: GlobMatchType, haystack: &str) -> (r: Result<
    bool,
    MatchError,
>)
    ensures
        r == spec_glob_match(pattern@, match_type, haystack@),
{
    let re = build_glob_regex(pattern, match_type);
    match regex_test(&re, haystack) {
        Some(verdict) => Ok(verdict),
        None => Err(MatchError::PatternCompileError),
    }
}

} // verus!
