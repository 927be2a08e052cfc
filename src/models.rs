//! The records exchanged with the search provider and the language-model service.
use std::collections::HashMap;
use vstd::prelude::*;

verus! {

/// A search query as a client sends it.
#[derive(Clone, Debug, PartialEq, Eq)]
pub struct SearchRequest {
    pub query: String,
    pub model: Option<String>,
    pub max_results: Option<i32>,
    pub max_optimizations: Option<i32>,
    pub depthfull_search: Option<bool>,
    pub optimize_query: Option<bool>,
    pub custom_instructions: Option<String>,
}

/// The URL template block of a search response.
#[derive(Clone, Debug, PartialEq, Eq)]
pub struct Url {
    pub url_type: String,
    pub template: String,
}

/// The request and next-page descriptions of a search response.
#[derive(Clone, Debug, PartialEq, Eq)]
pub struct Queries {
    pub request: Vec<QueryInfo>,
    pub next_page: Vec<QueryInfo>,
}

/// One query description of a search response.
#[derive(Clone, Debug, PartialEq, Eq)]
pub struct QueryInfo {
    pub title: String,
    pub total_results: String,
    pub search_terms: String,
    pub count: i32,
    pub start_index: i32,
    pub input_encoding: String,
    pub output_encoding: String,
    pub safe: String,
    pub cx: String,
}

/// The search-engine context of a search response.
#[derive(Clone, Debug, PartialEq, Eq)]
pub struct Context {
    pub title: String,
}

/// One search hit; `website_text_content` holds the enrichment once its page has
/// been fetched and cleaned.
#[derive(Clone, Debug, PartialEq, Eq)]
pub struct SearchResult {
    pub kind: String,
    pub website_text_content: Option<String>,
    pub title: String,
    pub html_title: String,
    pub link: String,
    pub display_link: String,
    pub snippet: String,
    pub html_snippet: String,
    pub formatted_url: String,
    pub html_formatted_url: String,
    pub pagemap: Option<PageMap>,
}

/// Structured data that the search engine attached to a hit.
#[derive(Clone, Debug, PartialEq, Eq)]
pub struct PageMap {
    pub hcard: Option<Vec<HCard>>,
    pub cse_thumbnail: Option<Vec<CseThumbnail>>,
    pub metatags: Option<Vec<Metatags>>,
    pub cse_image: Option<Vec<CseImage>>,
    pub person: Option<Vec<Person>>,
}

/// An hCard entry of a page map.
#[derive(Clone, Debug, PartialEq, Eq)]
pub struct HCard {
    pub fn_: String,
    pub url: Option<String>,
    pub nickname: Option<String>,
    pub category: Option<String>,
    pub url_text: Option<String>,
}

/// A thumbnail of a page map.
#[derive(Clone, Debug, PartialEq, Eq)]
pub struct CseThumbnail {
    pub src: String,
    pub width: String,
    pub height: String,
}

/// The meta tags of a page, by name.
#[derive(Clone, Debug, PartialEq, Eq)]
pub struct Metatags {
    pub tags: HashMap<String, String>,
}

/// An image of a page map.
#[derive(Clone, Debug, PartialEq, Eq)]
pub struct CseImage {
    pub src: String,
}

/// A person of a page map.
#[derive(Clone, Debug, PartialEq, Eq)]
pub struct Person {
    pub name: String,
    pub url: String,
}

/// A prompt for the language-model service, with the model to use.
#[derive(Clone, Debug, PartialEq, Eq)]
pub struct AiCompletionRequest {
    pub model: Option<String>,
    pub query: String,
}

/// The reply of the language-model service.
#[derive(Clone, Debug, PartialEq, Eq)]
pub struct GoogleAiGenerateContentResponse {
    pub candidates: Vec<Candidate>,
    pub usage_metadata: UsageMetadata,
}

impl GoogleAiGenerateContentResponse {
    /// The text of the first part of the first candidate, where there is one.
    pub fn first_candidate_text(&self) -> (r: Option<String>)
        ensures
            r is Some <==> self.candidates@.len() > 0 && self.candidates@[0].content.parts@.len() > 0,
            r matches Some(t) ==> t@ == self.candidates@[0].content.parts@[0].text@,
    {
        if self.candidates.len() == 0 {
            return None;
        }
        let parts = &self.candidates[0].content.parts;
        if parts.len() == 0 {
            return None;
        }
        Some(parts[0].text.clone())
    }
}

/// One candidate answer of the language-model service.
#[derive(Clone, Debug, PartialEq, Eq)]
pub struct Candidate {
    pub content: Content,
    pub finish_reason: String,
    pub index: u32,
    pub safety_ratings: Vec<SafetyRating>,
}

/// The content of a candidate answer.
#[derive(Clone, Debug, PartialEq, Eq)]
pub struct Content {
    pub parts: Vec<Part>,
    pub role: String,
}

/// One text part of a candidate answer.
#[derive(Clone, Debug, PartialEq, Eq)]
pub struct Part {
    pub text: String,
}

/// One safety rating of a candidate answer.
#[derive(Clone, Debug, PartialEq, Eq)]
pub struct SafetyRating {
    pub category: String,
    pub probability: String,
}

/// Token counts of a language-model exchange.
#[derive(Clone, Debug, PartialEq, Eq)]
pub struct UsageMetadata {
    pub prompt_token_count: u32,
    pub candidates_token_count: u32,
    pub total_token_count: u32,
}

} // verus!
