//! Compiled regular expressions, kept beside the pattern text they were built from
//! so that contracts can name what a replacement yields.
use crate::text::collapse_white_space;
use vstd::prelude::*;

verus! {

#[verifier::external_type_specification]
#[verifier::external_body]
pub struct ExRegex(regex::Regex);

/// What `regex::Regex::replace_all` returns for the regex compiled from `pattern`,
/// the text `haystack` and the replacement text `replacement`.
pub uninterp spec fn regex_replace_all(
    pattern: Seq<char>,
    haystack: Seq<char>,
    replacement: Seq<char>,
) -> Seq<char>;

/// Whether `regex::Regex::new` accepts `pattern`.
pub uninterp spec fn regex_compiles(pattern: Seq<char>) -> bool;

/// One or more white-space characters.
pub const WHITE_SPACE_RUN: &'static str = r"\s+";

/// A regular expression compiled from `source`.
pub(crate) struct Pattern {
    source: String,
    compiled: regex::Regex,
}

impl Pattern {
    /// The pattern text this regular expression was compiled from.
    pub(crate) closed spec fn source(&self) -> Seq<char> {
        self.source@
    }

    /// Relies on `regex::Regex::new`: compiles `source`, failing only on an invalid
    /// or oversized pattern, which depends on `source` alone.
    #[verifier::external_body]
    pub(crate) fn compile(source: &str) -> (r: Option<Pattern>)
        ensures
            r is Some <==> regex_compiles(source@),
            r matches Some(p) ==> p.source() == source@,
    {
        match regex::Regex::new(source) {
            Ok(compiled) => Some(Pattern { source: source.to_string(), compiled }),
            Err(_) => None,
        }
    }

    /// Relies on `regex::Regex::replace_all`: each non-overlapping match, leftmost
    /// first, is replaced by `replacement`. Since `\s` is `\p{White_Space}` and `+` is
    /// greedy, the pattern `\s+` with a single space turns each maximal run of white
    /// space into one space.
    #[verifier::external_body]
    pub(crate) fn replace_all(&self, haystack: &str, replacement: &str) -> (r: String)
        ensures
            r@ == regex_replace_all(self.source(), haystack@, replacement@),
            self.source() == WHITE_SPACE_RUN@ && replacement@ == " "@ ==> r@
                == collapse_white_space(haystack@),
    {
        self.compiled.replace_all(haystack, replacement).into_owned()
    }
}

} // verus!
