use googlexity::blocklist::Blocklist;
use googlexity::enrich::{Enrichment, FetchOutcome, Step, WebScraping, MAX_CONCURRENT_FETCHES};
use googlexity::models::SearchResult;
use googlexity::url_norm::without_trailing_slashes;

fn record(link: &str) -> SearchResult {
    SearchResult {
        kind: "customsearch#result".to_string(),
        website_text_content: None,
        title: format!("title of {}", link),
        html_title: String::new(),
        link: link.to_string(),
        display_link: String::new(),
        snippet: "a snippet".to_string(),
        html_snippet: String::new(),
        formatted_url: String::new(),
        html_formatted_url: String::new(),
        pagemap: None,
    }
}

fn scraping_with(blocked: &[&str]) -> WebScraping {
    let entries = blocked.iter().map(|s| s.to_string()).collect();
    WebScraping::new(Blocklist::new(entries)).expect("the extractor's patterns compile")
}

fn page(body: &str) -> String {
    format!("<html><body>{}</body></html>", body)
}

#[test]
fn normalize_strips_path_query_and_fragment() {
    assert_eq!(
        WebScraping::normalize_url("https://example.com/some/path?q=1#top"),
        "https://example.com"
    );
}

#[test]
fn normalize_forces_https() {
    assert_eq!(WebScraping::normalize_url("http://www.reddit.com/r/rust/"), "https://www.reddit.com");
}

#[test]
fn normalize_keeps_port_and_credentials() {
    assert_eq!(
        WebScraping::normalize_url("http://user:pw@example.com:8080/x"),
        "https://user:pw@example.com:8080"
    );
}

#[test]
fn normalize_leaves_unparsable_input() {
    assert_eq!(WebScraping::normalize_url("not a url/"), "not a url/");
    assert_eq!(WebScraping::normalize_url(""), "");
}

#[test]
fn normalize_is_idempotent_on_examples() {
    for u in [
        "https://example.com/a/b?c=d#e",
        "http://x.com",
        "https://www.youtube.com/watch?v=1",
        "http://example.org:443/",
        "ftp://files.example.net/pub/",
        "relative/path",
    ] {
        let once = WebScraping::normalize_url(u);
        assert_eq!(WebScraping::normalize_url(&once), once, "input {}", u);
    }
}

#[test]
fn trailing_slashes_are_dropped() {
    assert_eq!(without_trailing_slashes("https://a.example///"), "https://a.example");
    assert_eq!(without_trailing_slashes("///"), "");
    assert_eq!(without_trailing_slashes("a/b"), "a/b");
}

#[test]
fn blocklist_matches_exactly() {
    let list = Blocklist::standard();
    assert!(list.contains("https://www.reddit.com"));
    assert!(!list.contains("https://www.reddit.com/"));
    assert!(!list.contains("https://www.reddit.com.example"));
    assert!(!list.contains("https://reddit.com"));
}

#[test]
fn disallowed_goes_through_normalisation() {
    let scraping = WebScraping::new(Blocklist::standard()).unwrap();
    assert!(scraping.is_disallowed("http://www.reddit.com/r/rust?sort=new"));
    assert!(scraping.is_disallowed("https://x.com/someone/status/1"));
    assert!(!scraping.is_disallowed("https://example.com/"));
    assert!(!scraping.is_disallowed("https://old.reddit.com/"));
}

#[test]
fn clean_text_removes_script_payload() {
    let scraping = scraping_with(&[]);
    assert_eq!(scraping.clean_text("Hello <script>evil()</script>World"), "Hello World");
    assert_eq!(
        scraping.clean_text("a<SCRIPT type=\"x\">\nvar s = 1;\n</Script>b"),
        "ab"
    );
}

#[test]
fn clean_text_removes_style_payload() {
    let scraping = scraping_with(&[]);
    assert_eq!(
        scraping.clean_text("before <style>\nbody { color: red }\n</style> after"),
        "before after"
    );
}

#[test]
fn clean_text_removes_events_comments_and_tags() {
    let scraping = scraping_with(&[]);
    assert_eq!(scraping.clean_text("<b onclick=\"go()\">bold</b>"), "bold");
    assert_eq!(scraping.clean_text("x <!-- hidden\n note --> y"), "x y");
    assert_eq!(scraping.clean_text("<div class=\"c\">in <i>side</i></div>"), "in side");
}

#[test]
fn clean_text_normalises_white_space() {
    let scraping = scraping_with(&[]);
    let out = scraping.clean_text("  one \t\n two\u{a0}\u{a0}three   ");
    assert_eq!(out, "one two three");
    assert!(!out.contains("  "));
    assert_eq!(scraping.clean_text(" \n\t "), "");
    assert_eq!(scraping.clean_text(""), "");
}

#[test]
fn extraction_groups_text_by_tag() {
    let scraping = scraping_with(&[]);
    let html = page("<p>para one</p><h2>Heading</h2><p>para <b>two</b></p><div>skipped</div>");
    assert_eq!(scraping.extract_text(&html), "Heading para one para two");
}

#[test]
fn extraction_repeats_nested_allowed_tags() {
    let scraping = scraping_with(&[]);
    let html = page("<p>see <a href=\"/x\">link</a></p>");
    assert_eq!(scraping.extract_text(&html), "see link link");
}

#[test]
fn extraction_skips_script_and_style_text() {
    let scraping = scraping_with(&[]);
    let html = page("<p>Hello <script>evil()</script>World</p><p>a<style>p { color: red }</style>b</p>");
    assert_eq!(scraping.extract_text(&html), "Hello World a b");
    let nested = page("<span>x <script>var y = 1;</script>z</span>");
    assert_eq!(scraping.extract_text(&nested), "x z");
}

#[test]
fn extraction_survives_malformed_markup() {
    let scraping = scraping_with(&[]);
    assert_eq!(scraping.extract_text("<p>unclosed <span>text"), "unclosed text text");
    assert_eq!(scraping.extract_text(""), "");
}

/// Runs a batch to the end, completing outstanding fetches in the order that
/// `pick` chooses among them, and checks the fetch cap at every step.
fn run_batch(
    scraping: &WebScraping,
    records: Vec<SearchResult>,
    pages: &dyn Fn(&str) -> FetchOutcome,
    pick: &dyn Fn(&[usize]) -> usize,
) -> (Vec<SearchResult>, Vec<String>, usize) {
    let mut batch = Enrichment::new(records, scraping);
    let mut outstanding: Vec<(usize, String)> = Vec::new();
    let mut fetched: Vec<String> = Vec::new();
    let mut most = 0;
    loop {
        match batch.advance(scraping) {
            Step::Skip { .. } => {}
            Step::Fetch { index, url, .. } => {
                fetched.push(url.clone());
                outstanding.push((index, url));
                most = most.max(outstanding.len());
                assert!(outstanding.len() <= MAX_CONCURRENT_FETCHES);
            }
            Step::Wait => {
                let indices: Vec<usize> = outstanding.iter().map(|(i, _)| *i).collect();
                let k = pick(&indices);
                let (index, url) = outstanding.remove(k);
                assert!(batch.is_in_flight(index));
                batch.complete(scraping, index, pages(&url));
            }
            Step::Finished => break,
        }
    }
    assert!(batch.is_finished());
    (batch.into_records(), fetched, most)
}

#[test]
fn blocked_record_is_skipped_and_other_is_enriched() {
    let scraping = scraping_with(&["https://a.blocked.example"]);
    let records = vec![record("https://a.blocked.example"), record("https://b.example")];
    let pages = |url: &str| {
        assert_eq!(url, "https://b.example");
        FetchOutcome::Success(
            "<html><body><p>Hello <script>evil()</script>World</p></body></html>".to_string(),
        )
    };
    let (out, fetched, _) = run_batch(&scraping, records, &pages, &|_| 0);
    assert_eq!(fetched, vec!["https://b.example".to_string()]);
    assert_eq!(out.len(), 2);
    assert_eq!(out[0], record("https://a.blocked.example"));
    assert_eq!(out[1].website_text_content.as_deref(), Some("Hello World"));
}

#[test]
fn failed_fetch_leaves_only_its_record_without_text() {
    let scraping = scraping_with(&[]);
    let records = vec![record("https://one.example"), record("https://two.example"), record("https://three.example")];
    let pages = |url: &str| {
        if url == "https://two.example" {
            FetchOutcome::Failure("operation timed out".to_string())
        } else {
            FetchOutcome::Success(page(&format!("<p>page {}</p>", url)))
        }
    };
    let (out, _, _) = run_batch(&scraping, records, &pages, &|_| 0);
    assert_eq!(out.len(), 3);
    assert_eq!(out[0].website_text_content.as_deref(), Some("page https://one.example"));
    assert_eq!(out[1], record("https://two.example"));
    assert_eq!(out[2].website_text_content.as_deref(), Some("page https://three.example"));
}

#[test]
fn fifty_records_never_exceed_the_cap_and_keep_order() {
    let scraping = scraping_with(&[]);
    let links: Vec<String> = (0..50).map(|i| format!("https://site{}.example/page", i)).collect();
    let records: Vec<SearchResult> = links.iter().map(|l| record(l)).collect();
    let pages = |url: &str| FetchOutcome::Success(page(&format!("<h1>{}</h1>", url)));
    // Complete the most recently started fetch first, then, in a second run, a
    // scrambled choice: the result must not depend on completion order.
    let (latest_first, fetched, most) =
        run_batch(&scraping, records.clone(), &pages, &|ids: &[usize]| ids.len() - 1);
    let (scrambled, _, _) =
        run_batch(&scraping, records.clone(), &pages, &|ids: &[usize]| (ids[0] * 7 + 3) % ids.len());
    assert_eq!(fetched.len(), 50);
    assert_eq!(most, MAX_CONCURRENT_FETCHES);
    assert_eq!(latest_first, scrambled);
    assert_eq!(latest_first.len(), 50);
    for (i, r) in latest_first.iter().enumerate() {
        assert_eq!(r.link, links[i]);
        assert_eq!(r.title, records[i].title);
        assert_eq!(r.website_text_content.as_deref(), Some(links[i].as_str()));
    }
}

#[test]
fn empty_batch_finishes_at_once() {
    let scraping = scraping_with(&[]);
    let mut batch = Enrichment::new(Vec::new(), &scraping);
    assert!(batch.is_finished());
    assert!(matches!(batch.advance(&scraping), Step::Finished));
    assert!(batch.into_records().is_empty());
}

#[test]
fn skip_reports_the_normalised_link() {
    let scraping = WebScraping::new(Blocklist::standard()).unwrap();
    let mut batch = Enrichment::new(vec![record("http://www.tiktok.com/@someone?lang=en")], &scraping);
    match batch.advance(&scraping) {
        Step::Skip { index, normalized } => {
            assert_eq!(index, 0);
            assert_eq!(normalized, "https://www.tiktok.com");
        }
        _ => panic!("a blocked link must be skipped"),
    }
    assert!(matches!(batch.advance(&scraping), Step::Finished));
}

#[test]
fn wait_is_asked_when_all_slots_are_taken() {
    let scraping = scraping_with(&[]);
    let records: Vec<SearchResult> = (0..12).map(|i| record(&format!("https://s{}.example", i))).collect();
    let mut batch = Enrichment::new(records, &scraping);
    for i in 0..MAX_CONCURRENT_FETCHES {
        match batch.advance(&scraping) {
            Step::Fetch { index, url, normalized } => {
                assert_eq!(index, i);
                assert_eq!(url, format!("https://s{}.example", i));
                assert_eq!(normalized, format!("https://s{}.example", i));
            }
            _ => panic!("a slot is free"),
        }
    }
    assert!(matches!(batch.advance(&scraping), Step::Wait));
    batch.complete(&scraping, 3, FetchOutcome::Failure("refused".to_string()));
    assert!(!batch.is_in_flight(3));
    assert!(matches!(batch.advance(&scraping), Step::Fetch { index: 10, .. }));
    assert_eq!(batch.len(), 12);
}
