//! The enrichment orchestrator, as a state machine over one batch of records.
//!
//! The driver asks `advance` what to do next and reports each fetch through
//! `complete`; it may run up to `MAX_CONCURRENT_FETCHES` fetches at once and report
//! them in any order. Every record keeps its position, and only its enrichment text
//! ever changes.
use crate::blocklist::Blocklist;
use crate::extract::{extracted_text, tags_parse, PageExtractor};
use crate::models::SearchResult;
use crate::sanitize::{cleaned_text, patterns_compile};
use crate::url_norm::normalized_url;
use vstd::prelude::*;

verus! {

/// The most fetches of one batch that may be outstanding at once.
pub const MAX_CONCURRENT_FETCHES: usize = 10;

/// What fetching one page gave.
pub enum FetchOutcome {
    /// The response body, taken as HTML.
    Success(String),
    /// The transport's reason for the failure.
    Failure(String),
}

/// What the driver of a batch is to do next.
pub enum Step {
    /// The record at `index` is blocked, its link normalising to `normalized`: it is
    /// left as it is and never fetched.
    Skip { index: usize, normalized: String },
    /// Fetch `url` for the record at `index`, then report the outcome to `complete`.
    Fetch { index: usize, url: String, normalized: String },
    /// Nothing can start now: report an outstanding fetch first.
    Wait,
    /// Every record is resolved.
    Finished,
}

/// The enrichment text of a record, as characters.
pub open spec fn text_of(r: SearchResult) -> Option<Seq<char>> {
    match r.website_text_content {
        Some(t) => Some(t@),
        None => None,
    }
}

/// `a` agrees with `b` in every field but the enrichment text.
pub open spec fn same_except_text(a: SearchResult, b: SearchResult) -> bool {
    a == (SearchResult { website_text_content: a.website_text_content, ..b })
}

/// The normalised link of `r` is an entry of `blocklist`.
pub open spec fn is_blocked(blocklist: Seq<Seq<char>>, r: SearchResult) -> bool {
    blocklist.contains(normalized_url(r.link@))
}

/// The enrichment text a position holds: the text extracted for it, where one was
/// reported, else the input record's own.
pub open spec fn resolved_text(input: SearchResult, reported: Option<Seq<char>>) -> Option<
    Seq<char>,
> {
    match reported {
        Some(t) => Some(t),
        None => text_of(input),
    }
}

/// The configuration shared by every batch: the blocklist, the tag selectors and
/// the sanitizer. It is built once and only read afterwards.
pub struct WebScraping {
    blocklist: Blocklist,
    extractor: PageExtractor,
}

impl WebScraping {
    /// The blocked origins.
    pub closed spec fn blocked(&self) -> Seq<Seq<char>> {
        self.blocklist@
    }

    /// The configuration for `blocklist`; `None` exactly when a selector or a pattern
    /// of the extractor is refused.
    pub fn new(blocklist: Blocklist) -> (r: Option<WebScraping>)
        ensures
            r is Some <==> patterns_compile() && tags_parse(),
            r matches Some(w) ==> w.blocked() == blocklist@,
    {
        match PageExtractor::new() {
            Some(extractor) => Some(WebScraping { blocklist, extractor }),
            None => None,
        }
    }

    /// Normalises `url` for comparison with the blocklist.
    pub fn normalize_url(url: &str) -> (r: String)
        ensures
            r@ == normalized_url(url@),
    {
        crate::url_norm::normalize_url(url)
    }

    /// Whether the normalised form of `url` is exactly a blocked origin.
    pub fn is_disallowed(&self, url: &str) -> (r: bool)
        ensures
            r == self.blocked().contains(normalized_url(url@)),
    {
        let normalized = WebScraping::normalize_url(url);
        self.blocklist.contains(normalized.as_str())
    }

    /// Sanitizes `input`: markup, scripts, styles, event handlers and comments
    /// removed, white space collapsed and trimmed.
    pub fn clean_text(&self, input: &str) -> (r: String)
        ensures
            r@ == cleaned_text(input@),
    {
        self.extractor.clean_text(input)
    }

    /// The enrichment text of a fetched page.
    pub fn extract_text(&self, html: &str) -> (r: String)
        ensures
            r@ == extracted_text(html@),
    {
        self.extractor.extract_text(html)
    }
}

/// One batch of records being enriched.
pub struct Enrichment {
    records: Vec<SearchResult>,
    pending: Vec<bool>,
    next: usize,
    active: usize,
    input: Ghost<Seq<SearchResult>>,
    blocklist: Ghost<Seq<Seq<char>>>,
    flying: Ghost<Set<int>>,
    fetched: Ghost<Set<int>>,
    reported: Ghost<Seq<Option<Seq<char>>>>,
}

impl Enrichment {
    /// The records as the batch received them.
    pub closed spec fn input(&self) -> Seq<SearchResult> {
        self.input@
    }

    /// The records as they stand now.
    pub closed spec fn records(&self) -> Seq<SearchResult> {
        self.records@
    }

    /// The blocked origins this batch is checked against.
    pub closed spec fn blocklist(&self) -> Seq<Seq<char>> {
        self.blocklist@
    }

    /// The positions whose fetch is handed out and not yet reported.
    pub closed spec fn in_flight(&self) -> Set<int> {
        self.flying@
    }

    /// The positions ever handed out for fetching.
    pub closed spec fn fetched(&self) -> Set<int> {
        self.fetched@
    }

    /// For each position, the text extracted from its page, once a successful
    /// fetch has been reported.
    pub closed spec fn reported(&self) -> Seq<Option<Seq<char>>> {
        self.reported@
    }

    /// The number of positions already decided on (skipped or handed out).
    pub closed spec fn decided(&self) -> int {
        self.next as int
    }

    /// The state is consistent.
    pub closed spec fn wf(&self) -> bool {
        let n = self.records@.len();
        &&& self.input@.len() == n
        &&& self.pending@.len() == n
        &&& self.reported@.len() == n
        &&& self.next <= n
        &&& self.flying@.finite()
        &&& self.active == self.flying@.len()
        &&& self.active <= MAX_CONCURRENT_FETCHES
        &&& forall|i: int| #[trigger] self.flying@.contains(i) ==> 0 <= i < n && self.pending@[i]
        &&& forall|i: int| 0 <= i < n && #[trigger] self.pending@[i] ==> self.flying@.contains(i)
        &&& forall|i: int| #[trigger] self.fetched@.contains(i) ==> 0 <= i < self.next
        &&& forall|i: int|
            #[trigger] self.fetched@.contains(i) ==> !is_blocked(self.blocklist@, self.input@[i])
        &&& forall|i: int| #[trigger] self.flying@.contains(i) ==> self.fetched@.contains(i)
        &&& forall|i: int|
            0 <= i < self.next && !is_blocked(self.blocklist@, #[trigger] self.input@[i])
                ==> self.fetched@.contains(i)
        &&& forall|i: int| #[trigger] self.flying@.contains(i) ==> self.reported@[i] is None
        &&& forall|i: int|
            0 <= i < n && (#[trigger] self.reported@[i]) is Some ==> self.fetched@.contains(i)
        &&& forall|i: int|
            0 <= i < n ==> same_except_text(#[trigger] self.records@[i], self.input@[i])
        &&& forall|i: int|
            0 <= i < n ==> text_of(#[trigger] self.records@[i]) == resolved_text(
                self.input@[i],
                self.reported@[i],
            )
    }

    /// A batch over `records`, checked against the blocklist of `scraping`, with
    /// nothing decided yet.
    pub fn new(records: Vec<SearchResult>, scraping: &WebScraping) -> (r: Enrichment)
        ensures
            r.wf(),
            r.input() == records@,
            r.records() == records@,
            r.blocklist() == scraping.blocked(),
            r.decided() == 0,
            r.in_flight() == Set::<int>::empty(),
            r.fetched() == Set::<int>::empty(),
            r.reported() == Seq::new(records@.len(), |i: int| None::<Seq<char>>),
    {
        let mut pending: Vec<bool> = Vec::new();
        let mut i: usize = 0;
        while i < records.len()
            invariant
                i <= records@.len(),
                pending@.len() == i,
                forall|k: int| 0 <= k < i ==> !#[trigger] pending@[k],
            decreases records@.len() - i,
        {
            pending.push(false);
            i += 1;
        }
        let ghost input = records@;
        Enrichment {
            records,
            pending,
            next: 0,
            active: 0,
            input: Ghost(input),
            blocklist: Ghost(scraping.blocked()),
            flying: Ghost(Set::empty()),
            fetched: Ghost(Set::empty()),
            reported: Ghost(Seq::new(input.len(), |i: int| None::<Seq<char>>)),
        }
    }

    /// The number of records in the batch.
    pub fn len(&self) -> (r: usize)
        requires
            self.wf(),
        ensures
            r == self.input().len(),
    {
        self.records.len()
    }

    /// Whether the fetch of the record at `index` is outstanding.
    pub fn is_in_flight(&self, index: usize) -> (r: bool)
        requires
            self.wf(),
        ensures
            r == self.in_flight().contains(index as int),
    {
        index < self.pending.len() && self.pending[index]
    }

    /// Whether every record is resolved.
    pub fn is_finished(&self) -> (r: bool)
        requires
            self.wf(),
        ensures
            r == (self.decided() == self.input().len() && self.in_flight().len() == 0),
    {
        self.next == self.records.len() && self.active == 0
    }

    /// Decides on the next record: skips it when its normalised link is blocked, hands
    /// it out for fetching when fewer than `MAX_CONCURRENT_FETCHES` fetches are
    /// outstanding, and otherwise asks to wait; `Finished` once every record is
    /// resolved.
    pub fn advance(&mut self, scraping: &WebScraping) -> (r: Step)
        requires
            old(self).wf(),
            scraping.blocked() == old(self).blocklist(),
        ensures
            final(self).wf(),
            final(self).input() == old(self).input(),
            final(self).blocklist() == old(self).blocklist(),
            final(self).records() == old(self).records(),
            final(self).reported() == old(self).reported(),
            match r {
                Step::Skip { index, normalized } => {
                    &&& index == old(self).decided()
                    &&& final(self).decided() == old(self).decided() + 1
                    &&& normalized@ == normalized_url(old(self).input()[index as int].link@)
                    &&& is_blocked(old(self).blocklist(), old(self).input()[index as int])
                    &&& final(self).in_flight() == old(self).in_flight()
                    &&& final(self).fetched() == old(self).fetched()
                },
                Step::Fetch { index, url, normalized } => {
                    &&& index == old(self).decided()
                    &&& final(self).decided() == old(self).decided() + 1
                    &&& url@ == old(self).input()[index as int].link@
                    &&& normalized@ == normalized_url(old(self).input()[index as int].link@)
                    &&& !is_blocked(old(self).blocklist(), old(self).input()[index as int])
                    &&& old(self).in_flight().len() < MAX_CONCURRENT_FETCHES
                    &&& final(self).in_flight() == old(self).in_flight().insert(index as int)
                    &&& final(self).fetched() == old(self).fetched().insert(index as int)
                },
                Step::Wait => {
                    &&& old(self).decided() < old(self).input().len() ==> !is_blocked(
                        old(self).blocklist(),
                        old(self).input()[old(self).decided()],
                    ) && old(self).in_flight().len() == MAX_CONCURRENT_FETCHES
                    &&& old(self).decided() == old(self).input().len() ==> old(self).in_flight().len()
                        > 0
                    &&& final(self).decided() == old(self).decided()
                    &&& final(self).in_flight() == old(self).in_flight()
                    &&& final(self).fetched() == old(self).fetched()
                },
                Step::Finished => {
                    &&& old(self).decided() == old(self).input().len()
                    &&& old(self).in_flight().len() == 0
                    &&& final(self).decided() == old(self).decided()
                    &&& final(self).in_flight() == old(self).in_flight()
                    &&& final(self).fetched() == old(self).fetched()
                },
            },
    {
        if self.next < self.records.len() {
            let index = self.next;
            assert(same_except_text(self.records@[index as int], self.input@[index as int]));
            let normalized = WebScraping::normalize_url(self.records[index].link.as_str());
            if scraping.blocklist.contains(normalized.as_str()) {
                self.next = index + 1;
                return Step::Skip { index, normalized };
            }
            if self.active < MAX_CONCURRENT_FETCHES {
                let url = self.records[index].link.clone();
                self.pending[index] = true;
                self.active = self.active + 1;
                self.next = index + 1;
                proof {
                    assert(!self.flying@.contains(index as int));
                    self.flying@ = self.flying@.insert(index as int);
                    self.fetched@ = self.fetched@.insert(index as int);
                }
                return Step::Fetch { index, url, normalized };
            }
            Step::Wait
        } else if self.active > 0 {
            Step::Wait
        } else {
            Step::Finished
        }
    }

    /// Takes the outcome of the outstanding fetch at `index`: on success the record's
    /// enrichment becomes the text extracted from the page; on failure the record is
    /// left as it is. Either way the fetch slot is freed.
    pub fn complete(&mut self, scraping: &WebScraping, index: usize, outcome: FetchOutcome)
        requires
            old(self).wf(),
            old(self).in_flight().contains(index as int),
        ensures
            final(self).wf(),
            final(self).input() == old(self).input(),
            final(self).blocklist() == old(self).blocklist(),
            final(self).decided() == old(self).decided(),
            final(self).fetched() == old(self).fetched(),
            final(self).in_flight() == old(self).in_flight().remove(index as int),
            final(self).records().len() == old(self).records().len(),
            forall|j: int|
                0 <= j < old(self).records().len() && j != index ==> #[trigger] final(self).records()[j]
                    == old(self).records()[j],
            same_except_text(final(self).records()[index as int], old(self).records()[index as int]),
            match outcome {
                FetchOutcome::Success(html) => {
                    &&& text_of(final(self).records()[index as int]) == Some(extracted_text(html@))
                    &&& final(self).reported() == old(self).reported().update(
                        index as int,
                        Some(extracted_text(html@)),
                    )
                },
                FetchOutcome::Failure(_) => {
                    &&& final(self).records()[index as int] == old(self).records()[index as int]
                    &&& text_of(final(self).records()[index as int]) == text_of(
                        old(self).input()[index as int],
                    )
                    &&& final(self).reported() == old(self).reported()
                },
            },
    {
        match outcome {
            FetchOutcome::Success(html) => {
                let text = scraping.extract_text(html.as_str());
                self.records[index].website_text_content = Some(text);
                proof {
                    self.reported@ = self.reported@.update(index as int, Some(extracted_text(html@)));
                }
            },
            FetchOutcome::Failure(_) => {},
        }
        self.pending[index] = false;
        self.active = self.active - 1;
        proof {
            self.flying@ = self.flying@.remove(index as int);
        }
    }

    /// The records of the batch, in their input order.
    pub fn into_records(self) -> (r: Vec<SearchResult>)
        requires
            self.wf(),
        ensures
            r@ == self.records(),
    {
        self.records
    }
}

/// At no point are more than `MAX_CONCURRENT_FETCHES` fetches of a batch outstanding.
pub proof fn lemma_fetch_cap(b: Enrichment)
    requires
        b.wf(),
    ensures
        b.in_flight().finite(),
        b.in_flight().len() <= MAX_CONCURRENT_FETCHES,
{
}

/// Once a batch is finished, every record was either skipped as blocked, or handed
/// out for fetching with its outcome reported.
pub proof fn lemma_finished_all_resolved(b: Enrichment)
    requires
        b.wf(),
        b.decided() == b.input().len(),
        b.in_flight().len() == 0,
    ensures
        forall|i: int|
            0 <= i < b.input().len() ==> is_blocked(b.blocklist(), #[trigger] b.input()[i]) || (
            b.fetched().contains(i) && !b.in_flight().contains(i)),
{
    assert forall|i: int| 0 <= i < b.input().len() implies !b.in_flight().contains(i) by {
        if b.in_flight().contains(i) {
            vstd::set_lib::lemma_set_empty_equivalency_len(b.in_flight());
        }
    }
}

/// A record whose normalised link is blocked is never handed out for fetching, and
/// keeps the enrichment it came with (none, for a fresh search hit).
pub proof fn lemma_blocked_never_fetched(b: Enrichment, i: int)
    requires
        b.wf(),
        0 <= i < b.input().len(),
        is_blocked(b.blocklist(), b.input()[i]),
    ensures
        !b.fetched().contains(i),
        !b.in_flight().contains(i),
        b.reported()[i] is None,
        same_except_text(b.records()[i], b.input()[i]),
        text_of(b.records()[i]) == text_of(b.input()[i]),
{
}

/// Whatever order fetches complete in, every record keeps its position: the batch
/// holds as many records as it received, and the record at each position differs
/// from the input record there at most in its enrichment, which is the text reported
/// for that position, or the input record's own where none was.
pub proof fn lemma_positions_kept(b: Enrichment)
    requires
        b.wf(),
    ensures
        b.records().len() == b.input().len(),
        forall|i: int|
            0 <= i < b.input().len() ==> same_except_text(#[trigger] b.records()[i], b.input()[i])
                && text_of(b.records()[i]) == resolved_text(b.input()[i], b.reported()[i]),
{
}

} // verus!
