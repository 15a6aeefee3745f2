use lawfirm_agents::connectors::opensearch::create_client;
use lawfirm_agents::constants::OpenSearchConfig;
use lawfirm_agents::tools::searcher::{
    available_topics, extract_search_results, format_topic_choices, search_clauses, search_fields,
    OpenSearcher, SearchClause, SearchMethod,
};

fn json(text: &str) -> serde_json::Value {
    serde_json::from_str(text).unwrap()
}

fn hit(topic: &str, url: &str, page: &str, text: &str) -> String {
    format!(
        r#"{{"fields": {{"topic_title": [{}], "file_url": [{}], "page_number": [{}], "text": [{}]}}}}"#,
        topic, url, page, text
    )
}

#[test]
fn reads_the_first_three_hits() {
    let reply = json(&format!(
        r#"{{"hits": {{"hits": [{}, {}, {}, {}]}}}}"#,
        hit("\"T\"", "\"u1\"", "3", "\"a\""),
        hit("\"T\"", "\"u2\"", "\"x\"", "\"b\""),
        hit("\"T\"", "\"u3\"", "5", "\"c\""),
        hit("\"T\"", "\"u4\"", "6", "\"d\""),
    ));
    let results = extract_search_results(&reply);
    assert_eq!(results.len(), 2);
    assert_eq!(results[0].url, "u1");
    assert_eq!(results[0].page, 3);
    assert_eq!(results[0].text, "a");
    assert_eq!(results[1].url, "u3");
    assert_eq!(results[1].topic, "T");
}

#[test]
fn page_numbers_keep_their_low_bits() {
    let reply = json(&format!(
        r#"{{"hits": {{"hits": [{}, {}, {}]}}}}"#,
        hit("\"T\"", "\"u\"", "4294967297", "\"a\""),
        hit("\"T\"", "\"u\"", "-1", "\"b\""),
        hit("\"T\"", "\"u\"", "1.5", "\"c\""),
    ));
    let results = extract_search_results(&reply);
    assert_eq!(results.len(), 1);
    assert_eq!(results[0].page, 1);
}

#[test]
fn fewer_hits_or_none() {
    let short = json(&format!(r#"{{"hits": {{"hits": [{}]}}}}"#, hit("\"T\"", "\"u\"", "1", "\"a\"")));
    let results = extract_search_results(&short);
    assert_eq!(results.len(), 1);
    assert_eq!(results[0].topic, "T");
    assert_eq!(results[0].url, "u");
    assert_eq!(results[0].page, 1);
    assert_eq!(results[0].text, "a");
    let empty = json(r#"{"hits": {"hits": []}}"#);
    assert_eq!(extract_search_results(&empty).len(), 0);
    let none = json(r#"{"took": 3}"#);
    assert_eq!(extract_search_results(&none).len(), 0);
}

#[test]
fn topics_are_distinct_sorted_and_numbered() {
    let reply = json(
        r#"{"aggregations": {"distinct_sources": {"buckets": [
            {"key": {"topic_title": "Fund Manager Code of Conduct", "file_url": "a"}, "doc_count": 3},
            {"key": {"topic_title": "Code on Real Estate Investment Trusts", "file_url": "b"}},
            {"key": {"topic_title": "Fund Manager Code of Conduct", "file_url": "c"}},
            {"key": {"topic_title": "Orphan"}},
            {"key": {"topic_title": "Code of Conduct for Share Registrars", "file_url": "d"}}
        ]}}}"#,
    );
    let (topics, choices) = available_topics(&reply).unwrap();
    assert_eq!(
        topics,
        vec![
            "Code of Conduct for Share Registrars".to_string(),
            "Code on Real Estate Investment Trusts".to_string(),
            "Fund Manager Code of Conduct".to_string(),
        ]
    );
    assert_eq!(
        choices,
        "1. Code of Conduct for Share Registrars\n2. Code on Real Estate Investment Trusts\n3. Fund Manager Code of Conduct"
    );
    assert!(available_topics(&json(r#"{"aggregations": {}}"#)).is_none());
    assert!(available_topics(&json(r#"{"aggregations": {"distinct_sources": {"buckets": []}}}"#)).is_none());
    assert!(available_topics(&json(
        r#"{"aggregations": {"distinct_sources": {"buckets": [{"key": {"topic_title": "Orphan"}}]}}}"#
    ))
    .is_none());
}

#[test]
fn topic_order_is_string_order() {
    let names = vec!["b", "B", "a\u{e9}", "ab", "a", "\u{1F600}", "aa"];
    let buckets: Vec<String> = names
        .iter()
        .map(|n| format!(r#"{{"key": {{"topic_title": "{}", "file_url": "x"}}}}"#, n))
        .collect();
    let reply = json(&format!(
        r#"{{"aggregations": {{"distinct_sources": {{"buckets": [{}]}}}}}}"#,
        buckets.join(",")
    ));
    let (topics, _) = available_topics(&reply).unwrap();
    let mut expected: Vec<String> = names.iter().map(|s| s.to_string()).collect();
    expected.sort();
    assert_eq!(topics, expected);
}

#[test]
fn numbered_choices_past_nine() {
    let topics: Vec<String> = (0..11).map(|i| format!("t{}", i)).collect();
    let choices = format_topic_choices(&topics);
    let lines: Vec<&str> = choices.split('\n').collect();
    assert_eq!(lines.len(), 11);
    assert_eq!(lines[9], "10. t9");
    assert_eq!(lines[10], "11. t10");
}

#[test]
fn search_conditions() {
    let text = search_clauses("real estate", SearchMethod::Text, Some("REIT"));
    assert!(matches!(&text[0], SearchClause::MatchText { query } if query == "real estate"));
    assert_eq!(text.len(), 2);
    assert!(matches!(&text[1], SearchClause::MatchTopic { topic } if topic == "REIT"));
    let vector = search_clauses("q", SearchMethod::Vector, None);
    assert!(matches!(&vector[0], SearchClause::NearestVectors { query, k: 5 } if query == "q"));
    assert_eq!(vector.len(), 1);
    assert_eq!(search_fields(), vec!["id", "topic_title", "text", "file_url", "page_number"]);
}

#[test]
fn searcher_keeps_its_client() {
    let config = OpenSearchConfig {
        username: "admin".to_string(),
        password: "SECRET-REDACTED".to_string(),
        url: "http://localhost:9200".to_string(),
    };
    let searcher = OpenSearcher::new(create_client(&config).unwrap());
    let _client: &opensearch::OpenSearch = searcher.client();
}
