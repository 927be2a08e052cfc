//! The page extractor: text of a fixed list of tags, tag by tag, then sanitized.
use crate::dom::{selected_text_nodes, selector_parses, Document, Query};
use crate::sanitize::{cleaned_text, patterns_compile, TextCleaner};
use vstd::prelude::*;

verus! {

/// The tags whose text is extracted, in the order their text is gathered.
pub const ALLOWED_TAGS: [&'static str; 15] = [
    "h1",
    "h2",
    "h3",
    "h4",
    "h5",
    "h6",
    "p",
    "span",
    "a",
    "article",
    "sup",
    "table",
    "img",
    "link",
    "figure",
];

/// The allowed tags as character sequences.
pub open spec fn allowed_tags() -> Seq<Seq<char>> {
    ALLOWED_TAGS@.map_values(|t: &str| t@)
}

/// The selector parser accepts every allowed tag.
pub open spec fn tags_parse() -> bool {
    forall|i: int| 0 <= i < allowed_tags().len() ==> #[trigger] selector_parses(allowed_tags()[i])
}

/// The element whose text is never shown: a script.
pub const SCRIPT_TAG: &'static str = "script";

/// The element whose text is never shown: a style sheet.
pub const STYLE_TAG: &'static str = "style";

/// Text held directly by an element named `parent` is not visible.
pub open spec fn is_hidden_holder(parent: Seq<char>) -> bool {
    parent == SCRIPT_TAG@ || parent == STYLE_TAG@
}

/// The visible texts among `nodes` (text, name of its parent element), in order.
pub open spec fn visible_texts(nodes: Seq<(Seq<char>, Seq<char>)>) -> Seq<Seq<char>>
    decreases nodes.len(),
{
    if nodes.len() == 0 {
        Seq::empty()
    } else {
        let rest = visible_texts(nodes.drop_last());
        if is_hidden_holder(nodes.last().1) {
            rest
        } else {
            rest.push(nodes.last().0)
        }
    }
}

/// `parts` joined with `sep` between neighbours.
pub open spec fn joined(parts: Seq<Seq<char>>, sep: Seq<char>) -> Seq<char>
    decreases parts.len(),
{
    if parts.len() == 0 {
        Seq::empty()
    } else if parts.len() == 1 {
        parts[0]
    } else {
        joined(parts.drop_last(), sep) + sep + parts.last()
    }
}

/// What one element contributes: its visible text nodes joined by single spaces,
/// then one space.
pub open spec fn element_text(nodes: Seq<(Seq<char>, Seq<char>)>) -> Seq<char> {
    joined(visible_texts(nodes), seq![' ']) + seq![' ']
}

/// The contributions of `elements`, in order.
pub open spec fn elements_text(elements: Seq<Seq<(Seq<char>, Seq<char>)>>) -> Seq<char>
    decreases elements.len(),
{
    if elements.len() == 0 {
        Seq::empty()
    } else {
        elements_text(elements.drop_last()) + element_text(elements.last())
    }
}

/// For each of `tags` in turn, the contributions of the elements of `html` it selects.
pub open spec fn tags_text(html: Seq<char>, tags: Seq<Seq<char>>) -> Seq<char>
    decreases tags.len(),
{
    if tags.len() == 0 {
        Seq::empty()
    } else {
        tags_text(html, tags.drop_last()) + elements_text(selected_text_nodes(html, tags.last()))
    }
}

/// The raw text gathered from `html`, grouped by allowed tag.
pub open spec fn page_text(html: Seq<char>) -> Seq<char> {
    tags_text(html, allowed_tags())
}

/// The extractor's result for `html`: its gathered text, sanitized.
pub open spec fn extracted_text(html: Seq<char>) -> Seq<char> {
    cleaned_text(page_text(html))
}

/// The selectors of the allowed tags and the sanitizer.
pub struct PageExtractor {
    queries: Vec<Query>,
    cleaner: TextCleaner,
}

impl PageExtractor {
    #[verifier::type_invariant]
    spec fn inv(&self) -> bool {
        &&& self.queries@.len() == allowed_tags().len()
        &&& forall|i: int|
            0 <= i < self.queries@.len() ==> #[trigger] self.queries@[i].source() == allowed_tags()[i]
    }

    /// Builds the selectors of the allowed tags and the sanitizer; `None` exactly when
    /// a selector or a pattern is refused.
    pub fn new() -> (r: Option<PageExtractor>)
        ensures
            r is Some <==> patterns_compile() && tags_parse(),
    {
        let cleaner = match TextCleaner::new() {
            Some(c) => c,
            None => return None,
        };
        let mut queries: Vec<Query> = Vec::new();
        let mut i: usize = 0;
        while i < ALLOWED_TAGS.len()
            invariant
                i <= ALLOWED_TAGS.len(),
                queries@.len() == i,
                patterns_compile(),
                forall|k: int| 0 <= k < i ==> #[trigger] queries@[k].source() == allowed_tags()[k],
                forall|k: int| 0 <= k < i ==> #[trigger] selector_parses(allowed_tags()[k]),
            decreases ALLOWED_TAGS.len() - i,
        {
            let tag: &str = ALLOWED_TAGS[i];
            assert(tag@ == allowed_tags()[i as int]);
            let query = match Query::parse(tag) {
                Some(q) => q,
                None => return None,
            };
            queries.push(query);
            i += 1;
        }
        Some(PageExtractor { queries, cleaner })
    }

    /// Sanitizes `input` as the extractor does its gathered text.
    pub fn clean_text(&self, input: &str) -> (r: String)
        ensures
            r@ == cleaned_text(input@),
    {
        self.cleaner.clean_text(input)
    }

    /// The sanitized text of `html`: for each allowed tag in order, each matching
    /// element contributes its visible text nodes (not those held by a script or a
    /// style element) joined by spaces, and a trailing space; the whole is then
    /// sanitized.
    pub fn extract_text(&self, html: &str) -> (r: String)
        ensures
            r@ == extracted_text(html@),
    {
        proof {
            use_type_invariant(self);
        }
        let document = Document::parse(html);
        let script = String::from_str(SCRIPT_TAG);
        let style = String::from_str(STYLE_TAG);
        let mut buffer = String::new();
        let mut i: usize = 0;
        while i < self.queries.len()
            invariant
                i <= self.queries@.len(),
                self.queries@.len() == allowed_tags().len(),
                forall|k: int|
                    0 <= k < self.queries@.len() ==> #[trigger] self.queries@[k].source()
                        == allowed_tags()[k],
                document.source() == html@,
                script@ == SCRIPT_TAG@,
                style@ == STYLE_TAG@,
                buffer@ == tags_text(html@, allowed_tags().take(i as int)),
            decreases self.queries@.len() - i,
        {
            let elements = document.select_text_nodes(&self.queries[i]);
            let ghost before = buffer@;
            let ghost selected = elements.deep_view();
            let mut j: usize = 0;
            while j < elements.len()
                invariant
                    j <= elements@.len(),
                    i < self.queries@.len(),
                    selected == elements.deep_view(),
                    script@ == SCRIPT_TAG@,
                    style@ == STYLE_TAG@,
                    buffer@ == before + elements_text(selected.take(j as int)),
                decreases elements@.len() - j,
            {
                let nodes = &elements[j];
                let ghost start = buffer@;
                let mut shown: usize = 0;
                let mut k: usize = 0;
                while k < nodes.len()
                    invariant
                        j < elements@.len(),
                        k <= nodes@.len(),
                        shown <= k,
                        nodes.deep_view() == selected[j as int],
                        script@ == SCRIPT_TAG@,
                        style@ == STYLE_TAG@,
                        shown == visible_texts(nodes.deep_view().take(k as int)).len(),
                        buffer@ == start + joined(
                            visible_texts(nodes.deep_view().take(k as int)),
                            seq![' '],
                        ),
                    decreases nodes@.len() - k,
                {
                    let ghost parts = nodes.deep_view().take(k as int + 1);
                    let ghost shown_before = visible_texts(nodes.deep_view().take(k as int));
                    assert(parts.drop_last() =~= nodes.deep_view().take(k as int));
                    assert(parts.last() == (nodes@[k as int].0@, nodes@[k as int].1@));
                    let node = &nodes[k];
                    if !(node.1 == script || node.1 == style) {
                        if shown > 0 {
                            buffer.append(" ");
                        }
                        buffer.append(node.0.as_str());
                        shown += 1;
                        proof {
                            reveal_strlit(" ");
                            let now = shown_before.push(node.0@);
                            assert(visible_texts(parts) == now);
                            assert(now.drop_last() =~= shown_before);
                            assert(buffer@ =~= start + joined(now, seq![' ']));
                        }
                    } else {
                        assert(visible_texts(parts) == shown_before);
                    }
                    k += 1;
                }
                assert(nodes.deep_view().take(nodes@.len() as int) =~= nodes.deep_view());
                buffer.append(" ");
                proof {
                    reveal_strlit(" ");
                    let taken = selected.take(j as int + 1);
                    assert(taken.last() == nodes.deep_view());
                    assert(taken.drop_last() =~= selected.take(j as int));
                    assert(buffer@ =~= before + elements_text(taken));
                }
                j += 1;
            }
            proof {
                let tags = allowed_tags().take(i as int + 1);
                assert(tags.drop_last() =~= allowed_tags().take(i as int));
                assert(selected.take(selected.len() as int) =~= selected);
                assert(buffer@ =~= tags_text(html@, tags));
            }
            i += 1;
        }
        assert(allowed_tags().take(allowed_tags().len() as int) =~= allowed_tags());
        self.cleaner.clean_text(buffer.as_str())
    }
}

} // verus!
