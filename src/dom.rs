//! Parsed HTML documents and CSS selectors, kept beside the text they were built
//! from so that contracts can name what a selection yields.
use vstd::prelude::*;

verus! {

#[verifier::external_type_specification]
#[verifier::external_body]
pub struct ExHtml(scraper::Html);

#[verifier::external_type_specification]
#[verifier::external_body]
pub struct ExSelector(scraper::Selector);

/// For the document that `scraper::Html::parse_document` builds from `html`, the
/// elements that the CSS selector `selector` matches, in the order `Html::select`
/// yields them (the order in which the parser created them), each given as its
/// descendant text nodes in tree order, every one paired with the name of the
/// element directly holding it (empty where that is not an element).
pub uninterp spec fn selected_text_nodes(html: Seq<char>, selector: Seq<char>) -> Seq<
    Seq<(Seq<char>, Seq<char>)>,
>;

/// Whether `scraper::Selector::parse` accepts `css`.
pub uninterp spec fn selector_parses(css: Seq<char>) -> bool;

/// A CSS selector parsed from `source`.
pub(crate) struct Query {
    source: String,
    selector: scraper::Selector,
}

impl Query {
    /// The selector text this query was parsed from.
    pub(crate) closed spec fn source(&self) -> Seq<char> {
        self.source@
    }

    /// Relies on `scraper::Selector::parse`: parses the selector group `css`; whether
    /// it succeeds depends on `css` alone.
    #[verifier::external_body]
    pub(crate) fn parse(css: &str) -> (r: Option<Query>)
        ensures
            r is Some <==> selector_parses(css@),
            r matches Some(q) ==> q.source() == css@,
    {
        match scraper::Selector::parse(css) {
            Ok(selector) => Some(Query { source: css.to_string(), selector }),
            Err(_) => None,
        }
    }
}

/// An HTML document parsed from `source`.
pub(crate) struct Document {
    source: String,
    tree: scraper::Html,
}

impl Document {
    /// The markup this document was parsed from.
    pub(crate) closed spec fn source(&self) -> Seq<char> {
        self.source@
    }

    /// Relies on `scraper::Html::parse_document`, which never fails: malformed markup
    /// still yields a document.
    #[verifier::external_body]
    pub(crate) fn parse(html: &str) -> (r: Document)
        ensures
            r.source() == html@,
    {
        Document { source: html.to_string(), tree: scraper::Html::parse_document(html) }
    }

    /// Relies on `scraper::Html::select` and on the tree walk of `ego_tree`'s
    /// `descendants`: the matching elements in selection order, each as its text
    /// nodes in tree order, each with the name of its parent element.
    #[verifier::external_body]
    pub(crate) fn select_text_nodes(&self, query: &Query) -> (r: Vec<Vec<(String, String)>>)
        ensures
            r.deep_view() == selected_text_nodes(self.source(), query.source()),
    {
        self.tree.select(&query.selector).map(|e| {
            e.descendants().filter_map(|n| {
                let text = n.value().as_text()?.to_string();
                let parent = n.parent().and_then(|p| p.value().as_element().map(|el| el.name().to_string()));
                Some((text, parent.unwrap_or_default()))
            }).collect()
        }).collect()
    }
}

} // verus!
