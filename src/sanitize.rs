//! The text sanitizer: five ordered regular-expression passes that strip markup,
//! then white-space normalisation.
use crate::pattern::{regex_compiles, regex_replace_all, Pattern, WHITE_SPACE_RUN};
use crate::text::{
    collapse_white_space, has_no_edge_white_space, has_no_white_space_run, lemma_cleaned_white_space,
    trim_white_space,
};
use vstd::prelude::*;

verus! {

/// A `<script>` element with its content, in any letter case.
pub const SCRIPT_BLOCK: &'static str = r"(?i)<script\b[^>]*>[\s\S]*?</script>";

/// A `<style>` element with its content, in any letter case.
pub const STYLE_BLOCK: &'static str = r"(?i)<style\b[^>]*>[\s\S]*?</style>";

/// An inline event-handler attribute such as ` onclick="..."`, with the white space
/// before it.
pub const EVENT_HANDLER: &'static str = r#"(?i)\s(on\w+)="[^"]*""#;

/// An HTML comment.
pub const COMMENT_BLOCK: &'static str = r"<!--[\s\S]*?-->";

/// Any remaining tag-like sequence.
pub const REMAINING_TAG: &'static str = r"<[^>]+>";

/// `s` after the five markup passes, in their fixed order: scripts, styles, event
/// handlers, comments, then any other tag.
pub open spec fn stripped_markup(s: Seq<char>) -> Seq<char> {
    let without_scripts = regex_replace_all(SCRIPT_BLOCK@, s, ""@);
    let without_styles = regex_replace_all(STYLE_BLOCK@, without_scripts, ""@);
    let without_events = regex_replace_all(EVENT_HANDLER@, without_styles, ""@);
    let without_comments = regex_replace_all(COMMENT_BLOCK@, without_events, ""@);
    regex_replace_all(REMAINING_TAG@, without_comments, ""@)
}

/// The regular-expression engine accepts all six patterns of the sanitizer.
pub open spec fn patterns_compile() -> bool {
    &&& regex_compiles(SCRIPT_BLOCK@)
    &&& regex_compiles(STYLE_BLOCK@)
    &&& regex_compiles(EVENT_HANDLER@)
    &&& regex_compiles(COMMENT_BLOCK@)
    &&& regex_compiles(REMAINING_TAG@)
    &&& regex_compiles(WHITE_SPACE_RUN@)
}

/// The sanitized form of `s`: markup stripped, white-space runs collapsed to one
/// space, and the ends trimmed.
pub open spec fn cleaned_text(s: Seq<char>) -> Seq<char> {
    trim_white_space(collapse_white_space(stripped_markup(s)))
}

/// Sanitized text holds no run of two or more white-space characters and has no
/// white space at either end.
pub proof fn lemma_clean_text_white_space(s: Seq<char>)
    ensures
        has_no_white_space_run(cleaned_text(s)),
        has_no_edge_white_space(cleaned_text(s)),
{
    lemma_cleaned_white_space(stripped_markup(s));
}

/// Relies on `str::trim`: the slice without leading and trailing `White_Space`
/// characters.
#[verifier::external_body]
fn trimmed(s: &str) -> (r: String)
    ensures
        r@ == trim_white_space(s@),
{
    s.trim().to_string()
}

/// The compiled passes of the sanitizer.
pub struct TextCleaner {
    script: Pattern,
    style: Pattern,
    events: Pattern,
    comments: Pattern,
    tags: Pattern,
    spaces: Pattern,
}

impl TextCleaner {
    #[verifier::type_invariant]
    spec fn inv(&self) -> bool {
        &&& self.script.source() == SCRIPT_BLOCK@
        &&& self.style.source() == STYLE_BLOCK@
        &&& self.events.source() == EVENT_HANDLER@
        &&& self.comments.source() == COMMENT_BLOCK@
        &&& self.tags.source() == REMAINING_TAG@
        &&& self.spaces.source() == WHITE_SPACE_RUN@
    }

    /// Compiles the six patterns; `None` if the regular-expression engine refuses
    /// one of them.
    pub fn new() -> (r: Option<TextCleaner>)
        ensures
            r is Some <==> patterns_compile(),
    {
        let script = match Pattern::compile(SCRIPT_BLOCK) {
            Some(p) => p,
            None => return None,
        };
        let style = match Pattern::compile(STYLE_BLOCK) {
            Some(p) => p,
            None => return None,
        };
        let events = match Pattern::compile(EVENT_HANDLER) {
            Some(p) => p,
            None => return None,
        };
        let comments = match Pattern::compile(COMMENT_BLOCK) {
            Some(p) => p,
            None => return None,
        };
        let tags = match Pattern::compile(REMAINING_TAG) {
            Some(p) => p,
            None => return None,
        };
        let spaces = match Pattern::compile(WHITE_SPACE_RUN) {
            Some(p) => p,
            None => return None,
        };
        Some(TextCleaner { script, style, events, comments, tags, spaces })
    }

    /// Sanitizes `input`: removes script and style blocks, event-handler attributes,
    /// comments and remaining tags, in that order, then collapses white space and
    /// trims both ends.
    pub fn clean_text(&self, input: &str) -> (r: String)
        ensures
            r@ == cleaned_text(input@),
    {
        proof {
            use_type_invariant(self);
        }
        let without_scripts = self.script.replace_all(input, "");
        let without_styles = self.style.replace_all(without_scripts.as_str(), "");
        let without_events = self.events.replace_all(without_styles.as_str(), "");
        let without_comments = self.comments.replace_all(without_events.as_str(), "");
        let without_tags = self.tags.replace_all(without_comments.as_str(), "");
        let collapsed = self.spaces.replace_all(without_tags.as_str(), " ");
        trimmed(collapsed.as_str())
    }
}

} // verus!
