use googlexity::models::{
    Candidate, Content, GoogleAiGenerateContentResponse, Part, UsageMetadata,
};
use googlexity::search::{split_search_queries, take_at_most};

#[test]
fn queries_split_at_semicolons_without_newlines() {
    assert_eq!(
        split_search_queries("fix faucet;faucet\nrepair;how to fix\n"),
        vec!["fix faucet".to_string(), "faucetrepair".to_string(), "how to fix".to_string()]
    );
}

#[test]
fn query_without_semicolon_is_kept_whole() {
    assert_eq!(split_search_queries("best pizza\n"), vec!["best pizza\n".to_string()]);
    assert_eq!(split_search_queries(""), vec![String::new()]);
}

#[test]
fn empty_pieces_are_kept() {
    assert_eq!(
        split_search_queries(";a;;"),
        vec![String::new(), "a".to_string(), String::new(), String::new()]
    );
}

#[test]
fn limits_apply_only_when_given_and_not_negative() {
    assert_eq!(take_at_most(vec![1, 2, 3], Some(2)), vec![1, 2]);
    assert_eq!(take_at_most(vec![1, 2, 3], Some(0)), Vec::<i32>::new());
    assert_eq!(take_at_most(vec![1, 2, 3], Some(5)), vec![1, 2, 3]);
    assert_eq!(take_at_most(vec![1, 2, 3], Some(-1)), vec![1, 2, 3]);
    assert_eq!(take_at_most(vec![1, 2, 3], None), vec![1, 2, 3]);
}

fn reply(parts: Vec<&str>) -> GoogleAiGenerateContentResponse {
    GoogleAiGenerateContentResponse {
        candidates: vec![Candidate {
            content: Content {
                parts: parts.into_iter().map(|t| Part { text: t.to_string() }).collect(),
                role: "model".to_string(),
            },
            finish_reason: "STOP".to_string(),
            index: 0,
            safety_ratings: Vec::new(),
        }],
        usage_metadata: UsageMetadata {
            prompt_token_count: 1,
            candidates_token_count: 2,
            total_token_count: 3,
        },
    }
}

#[test]
fn first_candidate_text_is_read() {
    assert_eq!(reply(vec!["answer", "more"]).first_candidate_text(), Some("answer".to_string()));
    assert_eq!(reply(Vec::new()).first_candidate_text(), None);
    let mut none = reply(vec!["x"]);
    none.candidates.clear();
    assert_eq!(none.first_candidate_text(), None);
}
