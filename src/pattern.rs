//! Glob patterns (`*` for any run of characters, `?` for exactly one) turned
//! into anchored regular expressions once, and matched against candidates.

use vstd::prelude::*;
use crate::text::{to_chars, from_chars};

verus! {

#[verifier::external_type_specification]
#[verifier::external_body]
pub struct ExRegex(regex::Regex);

#[verifier::external_type_specification]
#[verifier::external_body]
pub struct ExRegexError(regex::Error);

/// The pattern text that a compiled `regex::Regex` was built from.
pub uninterp spec fn regex_source(re: regex::Regex) -> Seq<char>;

/// Whether `regex::Regex::new` accepts the pattern text.
pub uninterp spec fn regex_accepts(src: Seq<char>) -> bool;

/// Whether a regex built from `src` finds a match in `text`.
pub uninterp spec fn regex_is_match(src: Seq<char>, text: Seq<char>) -> bool;

/// Relies on `regex::Regex::new`: it fails exactly on the patterns it does not
/// accept, and the regex it builds keeps its pattern text (`Regex::as_str`).
#[verifier::external_body]
fn compile_regex(src: &str) -> (r: Result<regex::Regex, regex::Error>)
    ensures
        r is Ok == regex_accepts(src@),
        r matches Ok(re) ==> regex_source(re) == src@,
{
    regex::Regex::new(src)
}

/// Relies on `regex::Regex::is_match`: whether the regex matches somewhere in
/// `text`.
#[verifier::external_body]
fn regex_find(re: &regex::Regex, text: &str) -> (r: bool)
    ensures
        r == regex_is_match(regex_source(*re), text@),
{
    re.is_match(text)
}

/// The characters that carry a meaning in regex syntax
/// (`regex_syntax::is_meta_character`).
pub open spec fn is_regex_meta(c: char) -> bool {
    c == '\\' || c == '.' || c == '+' || c == '*' || c == '?' || c == '(' || c == ')' || c == '|'
        || c == '[' || c == ']' || c == '{' || c == '}' || c == '^' || c == '$' || c == '#'
        || c == '&' || c == '-' || c == '~'
}

/// The regex text for one glob character: `*` becomes `.*`, `?` becomes `.`,
/// a meta character is escaped and every other character stands for itself.
pub open spec fn glob_piece(c: char) -> Seq<char> {
    if c == '*' {
        seq!['.', '*']
    } else if c == '?' {
        seq!['.']
    } else if is_regex_meta(c) {
        seq!['\\', c]
    } else {
        seq![c]
    }
}

/// The regex text for a glob, piece by piece.
pub open spec fn glob_body(g: Seq<char>) -> Seq<char>
    decreases g.len(),
{
    if g.len() == 0 {
        seq![]
    } else {
        glob_body(g.drop_last()) + glob_piece(g.last())
    }
}

/// The prefix of every translated glob: `.` also matches a line break, and the
/// match starts at the beginning of the candidate.
pub open spec fn regex_prefix() -> Seq<char> {
    seq!['(', '?', 's', ')', '^']
}

/// The anchored regex that a glob is translated to: the whole candidate must
/// match, never a part of it.
pub open spec fn glob_regex(g: Seq<char>) -> Seq<char> {
    regex_prefix() + glob_body(g) + seq!['$']
}

/// Translates a glob into the text of an anchored regex, as `glob_regex` says.
pub fn glob_to_regex(pattern: &str) -> (r: String)
    ensures
        r@ == glob_regex(pattern@),
{
    let g = to_chars(pattern);
    let mut out: Vec<char> = Vec::new();
    out.push('(');
    out.push('?');
    out.push('s');
    out.push(')');
    out.push('^');
    assert(out@ =~= regex_prefix() + glob_body(g@.subrange(0, 0)));
    let mut i: usize = 0;
    while i < g.len()
        invariant
            i <= g@.len(),
            out@ == regex_prefix() + glob_body(g@.subrange(0, i as int)),
        decreases g@.len() - i,
    {
        let c = g[i];
        let ghost before = out@;
        if c == '*' {
            out.push('.');
            out.push('*');
        } else if c == '?' {
            out.push('.');
        } else if c == '\\' || c == '.' || c == '+' || c == '*' || c == '?' || c == '(' || c
            == ')' || c == '|' || c == '[' || c == ']' || c == '{' || c == '}' || c == '^' || c
            == '$' || c == '#' || c == '&' || c == '-' || c == '~' {
            out.push('\\');
            out.push(c);
        } else {
            out.push(c);
        }
        assert(out@ =~= before + glob_piece(c));
        assert(g@.subrange(0, i + 1).drop_last() =~= g@.subrange(0, i as int));
        i = i + 1;
        assert(out@ =~= regex_prefix() + glob_body(g@.subrange(0, i as int)));
    }
    out.push('$');
    assert(g@.subrange(0, g@.len() as int) =~= g@);
    assert(out@ =~= glob_regex(pattern@));
    from_chars(&out)
}

/// A glob compiled once into a matcher.
pub struct CompiledPattern {
    glob: String,
    regex: regex::Regex,
}

impl CompiledPattern {
    /// The glob this matcher was compiled from.
    pub closed spec fn glob_view(&self) -> Seq<char> {
        self.glob@
    }

    /// The regex text the matcher runs.
    pub closed spec fn regex_view(&self) -> Seq<char> {
        regex_source(self.regex)
    }

    /// The matcher accepts exactly the candidates that the regex of its glob
    /// matches.
    pub open spec fn matches_spec(&self, candidate: Seq<char>) -> bool {
        regex_is_match(self.regex_view(), candidate)
    }

    /// Compiles a glob; fails when the regex engine refuses its translation.
    pub fn compile(glob: &str) -> (r: Result<CompiledPattern, regex::Error>)
        ensures
            r is Ok == regex_accepts(glob_regex(glob@)),
            r matches Ok(p) ==> p.glob_view() == glob@ && p.regex_view() == glob_regex(glob@),
    {
        let src = glob_to_regex(glob);
        match compile_regex(src.as_str()) {
            Ok(regex) => Ok(CompiledPattern { glob: from_chars(&to_chars(glob)), regex }),
            Err(e) => Err(e),
        }
    }

    /// Whether the whole candidate matches the glob.
    pub fn matches(&self, candidate: &str) -> (r: bool)
        ensures
            r == self.matches_spec(candidate@),
    {
        regex_find(&self.regex, candidate)
    }

    /// The glob this matcher was compiled from.
    pub fn glob(&self) -> (r: &str)
        ensures
            r@ == self.glob_view(),
    {
        self.glob.as_str()
    }
}

} // verus!
