use lawfirm_agents::flow::{Flow, FlowAction, FlowError, FlowEvent, FlowStage};

fn json(text: &str) -> serde_json::Value {
    serde_json::from_str(text).unwrap()
}

fn topics_reply() -> serde_json::Value {
    json(
        r#"{"aggregations": {"distinct_sources": {"buckets": [
            {"key": {"topic_title": "Code on Real Estate Investment Trusts", "file_url": "https://x/reit.pdf"}},
            {"key": {"topic_title": "Code on Pooled Retirement Funds", "file_url": "https://x/prf.pdf"}}
        ]}}}"#,
    )
}

fn hits(pages: [u32; 3], url: &str) -> serde_json::Value {
    let hits: Vec<String> = pages
        .iter()
        .map(|p| {
            format!(
                r#"{{"fields": {{"topic_title": ["T"], "file_url": ["{}"], "page_number": [{}], "text": ["text {}"]}}}}"#,
                url, p, p
            )
        })
        .collect();
    json(&format!(r#"{{"hits": {{"hits": [{}]}}}}"#, hits.join(",")))
}

fn start_to_topic_choice() -> Flow {
    let mut flow = Flow::new("I want to invest in real estates. What detail should I know?");
    assert!(matches!(flow.step(FlowEvent::Start), FlowAction::ListTopics));
    match flow.step(FlowEvent::TopicsReply(topics_reply())) {
        FlowAction::AskTopic { prompt } => {
            assert!(prompt.contains("# Available source:\n1. Code on Pooled Retirement Funds\n2. Code on Real Estate Investment Trusts\n\n# Question:\nI want to invest"));
        },
        other => panic!("{:?}", other),
    }
    assert_eq!(flow.topics().len(), 2);
    flow
}

#[test]
fn flow_answers_from_useful_summaries() {
    let mut flow = start_to_topic_choice();
    match flow.step(FlowEvent::ModelReply(" 2\n".to_string())) {
        FlowAction::BuildQuery { prompt } => assert!(prompt.ends_with("What detail should I know?")),
        other => panic!("{:?}", other),
    }
    assert_eq!(flow.topic(), "Code on Real Estate Investment Trusts");
    match flow.step(FlowEvent::ModelReply("real estate investment".to_string())) {
        FlowAction::Search { query, topic } => {
            assert_eq!(query, "real estate investment");
            assert_eq!(topic, "Code on Real Estate Investment Trusts");
        },
        other => panic!("{:?}", other),
    }
    assert_eq!(flow.query(), "real estate investment");
    let prompts = match flow.step(FlowEvent::SearchReplies(hits([30, 35, 37], "https://x/reit.pdf"), hits([43, 75, 78], "https://y"))) {
        FlowAction::Summarize { prompts } => prompts,
        other => panic!("{:?}", other),
    };
    assert_eq!(prompts.len(), 6);
    assert!(prompts[0].starts_with("# Source:\ntext 30\n"));
    assert!(prompts[5].starts_with("# Source:\ntext 78\n"));
    let mut replies = vec!["{\"is_useful\": false, \"summarize\": \"\"}".to_string(); 6];
    replies[1] = "```json\n{\"is_useful\": true, \"summarize\": \"Invest 75%\"}\n```".to_string();
    replies[4] = "{\"is_useful\": true, \"summarize\": \"Know the laws\"}".to_string();
    match flow.step(FlowEvent::SummaryReplies(replies)) {
        FlowAction::StreamAnswer { prompt } => {
            assert!(prompt.contains("Document: Code on Real Estate Investment Trusts\nInvest 75% - Page: 35\n- Know the laws - Page: 75\nURL: https://x/reit.pdf\n"));
        },
        other => panic!("{:?}", other),
    }
    assert!(matches!(flow.step(FlowEvent::Streamed), FlowAction::Finish));
    assert_eq!(flow.stage(), FlowStage::Finished);
    assert!(matches!(flow.step(FlowEvent::Start), FlowAction::Finish));
}

#[test]
fn no_matching_topic_is_declined() {
    let mut flow = start_to_topic_choice();
    match flow.step(FlowEvent::ModelReply("0".to_string())) {
        FlowAction::StreamRejection { prompt } => {
            assert!(prompt.starts_with("Please generate a polite rejection message explaining that we don't have sufficient information"));
        },
        other => panic!("{:?}", other),
    }
    assert_eq!(flow.stage(), FlowStage::Rejecting);
}

#[test]
fn no_useful_summary_is_declined() {
    let mut flow = start_to_topic_choice();
    flow.step(FlowEvent::ModelReply("1".to_string()));
    flow.step(FlowEvent::ModelReply("q".to_string()));
    flow.step(FlowEvent::SearchReplies(hits([1, 2, 3], "u"), hits([4, 5, 6], "v")));
    let replies = vec!["{\"is_useful\": false, \"summarize\": \"\"}".to_string(); 6];
    assert!(matches!(flow.step(FlowEvent::SummaryReplies(replies)), FlowAction::StreamRejection { .. }));
}

#[test]
fn empty_search_is_declined() {
    let mut flow = start_to_topic_choice();
    flow.step(FlowEvent::ModelReply("1".to_string()));
    flow.step(FlowEvent::ModelReply("q".to_string()));
    let none = json("{}");
    assert!(matches!(flow.step(FlowEvent::SearchReplies(none.clone(), none)), FlowAction::StreamRejection { .. }));
}

#[test]
fn topic_question_is_asked_at_most_five_times() {
    let mut flow = start_to_topic_choice();
    for tried in 1..5u16 {
        assert!(matches!(flow.step(FlowEvent::ModelReply("none".to_string())), FlowAction::AskTopic { .. }));
        assert_eq!(flow.stage(), FlowStage::SelectingTopic { tried });
    }
    match flow.step(FlowEvent::ModelReply("none".to_string())) {
        FlowAction::Fail { error } => assert_eq!(error, FlowError::TopicNotRead),
        other => panic!("{:?}", other),
    }
}

#[test]
fn flow_errors() {
    let mut flow = start_to_topic_choice();
    assert!(matches!(flow.step(FlowEvent::ModelReply("9".to_string())), FlowAction::AskTopic { .. }));
    assert_eq!(flow.stage(), FlowStage::SelectingTopic { tried: 1 });
    assert!(matches!(flow.step(FlowEvent::ModelReply("2".to_string())), FlowAction::BuildQuery { .. }));
    assert_eq!(flow.topic(), "Code on Real Estate Investment Trusts");

    let mut flow = Flow::new("q");
    flow.step(FlowEvent::Start);
    match flow.step(FlowEvent::TopicsReply(json("{}"))) {
        FlowAction::Fail { error } => assert_eq!(error, FlowError::NoTopics),
        other => panic!("{:?}", other),
    }
    assert_eq!(flow.stage(), FlowStage::Failed { error: FlowError::NoTopics });

    let mut flow = Flow::new("q");
    flow.step(FlowEvent::Start);
    let empty = json(r#"{"aggregations": {"distinct_sources": {"buckets": []}}}"#);
    match flow.step(FlowEvent::TopicsReply(empty)) {
        FlowAction::Fail { error } => assert_eq!(error, FlowError::NoTopics),
        other => panic!("{:?}", other),
    }

    let mut flow = Flow::new("q");
    flow.step(FlowEvent::Start);
    match flow.step(FlowEvent::Streamed) {
        FlowAction::Fail { error } => assert_eq!(error, FlowError::UnexpectedEvent),
        other => panic!("{:?}", other),
    }

    let mut flow = start_to_topic_choice();
    flow.step(FlowEvent::ModelReply("1".to_string()));
    flow.step(FlowEvent::ModelReply("q".to_string()));
    let short = json(r#"{"hits": {"hits": []}}"#);
    match flow.step(FlowEvent::SearchReplies(short, hits([1, 2, 3], "u"))) {
        FlowAction::Summarize { prompts } => assert_eq!(prompts.len(), 3),
        other => panic!("{:?}", other),
    }

    let mut flow = start_to_topic_choice();
    flow.step(FlowEvent::ModelReply("1".to_string()));
    flow.step(FlowEvent::ModelReply("q".to_string()));
    flow.step(FlowEvent::SearchReplies(hits([1, 2, 3], "u"), hits([4, 5, 6], "v")));
    match flow.step(FlowEvent::SummaryReplies(vec!["{}".to_string(); 6])) {
        FlowAction::Fail { error } => assert_eq!(error, FlowError::UnreadableSummary),
        other => panic!("{:?}", other),
    }

    let mut flow = start_to_topic_choice();
    flow.step(FlowEvent::ModelReply("1".to_string()));
    flow.step(FlowEvent::ModelReply("q".to_string()));
    flow.step(FlowEvent::SearchReplies(hits([1, 2, 3], "u"), hits([4, 5, 6], "v")));
    match flow.step(FlowEvent::SummaryReplies(vec![])) {
        FlowAction::Fail { error } => assert_eq!(error, FlowError::MissingSummaries),
        other => panic!("{:?}", other),
    }
}

#[test]
fn agents_of_the_flow() {
    let flow = Flow::new("q");
    assert_eq!(flow.topic_selector().llm_connector().url(), "http://localhost:11434/api/chat");
    assert_eq!(flow.summarizer().llm_connector().model(), "gemma2:latest");
    assert_eq!(flow.rejector().llm_connector().authorization(), Some("Bearer Not use".to_string()));
    assert_eq!(flow.user_interactive().llm_connector().config().len(), 4);
    assert_eq!(flow.text_query_builder().llm_connector().chat_messages("x").len(), 2);
}
