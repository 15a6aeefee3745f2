use lawfirm_agents::agents::rejector::RejectorAgent;
use lawfirm_agents::agents::source_summarizer::SourceSummarizer;
use lawfirm_agents::agents::text_query_builder::TextQueryBuilder;
use lawfirm_agents::agents::topic_selector::{TopicSelector, TopicStep};
use lawfirm_agents::agents::user_interactive::UserInteractive;
use lawfirm_agents::types::SearchResult;

const URL: &str = "http://localhost:11434/api/chat";
const MODEL: &str = "gemma2:latest";

#[test]
fn agents_start_with_their_system_prompt() {
    let agent = RejectorAgent::new(URL.to_string(), MODEL.to_string(), "Not use".to_string(), None);
    let messages = agent.llm_connector().chat_messages("hi");
    assert_eq!(messages.len(), 2);
    assert_eq!(messages[0].role, "system");
    assert!(messages[0].content.starts_with("You are a professional legal assistant"));
    assert_eq!(agent.llm_connector().config().len(), 4);

    let selector = TopicSelector::new(URL.to_string(), MODEL.to_string(), "k".to_string(), Some(vec![]));
    let messages = selector.llm_connector().chat_messages("q");
    assert_eq!(
        messages[0].content,
        "Pick a choice, please answer only a number and do not include prologue, prefix or suffix"
    );
    assert_eq!(selector.llm_connector().config().len(), 0);
}

#[test]
fn rejection_prompts() {
    let agent = RejectorAgent::new(URL.to_string(), MODEL.to_string(), "Not use".to_string(), None);
    assert_eq!(
        agent.construct_prompt("What's the weather like today?", "not_legal"),
        "Please generate a polite rejection message for the following non-legal question:\n\nQuestion: What's the weather like today?\n\nRejection message:"
    );
    assert_eq!(
        agent.construct_prompt("Q?", "no_info"),
        "Please generate a polite rejection message explaining that we don't have sufficient information to answer this legal question:\n\nQuestion: Q?\n\nRejection message:"
    );
    assert!(RejectorAgent::is_known_reason("not_legal"));
    assert!(RejectorAgent::is_known_reason("no_info"));
    assert!(!RejectorAgent::is_known_reason("other"));
}

#[test]
fn topic_prompt() {
    let selector = TopicSelector::new(URL.to_string(), MODEL.to_string(), "Not use".to_string(), None);
    let expected = format!("# Instruction:
Pick an index of document that you think that it can help answer the following question or pick 0 if you think they are not helpful. Please answer only as a number and do not include prologue, prefix or suffix.

# Available source:
{}

# Question:
{}", "1. A\n2. B", "Which?");
    assert_eq!(selector.construct_prompt("Which?", "1. A\n2. B"), expected);
}

#[test]
fn topic_answers() {
    assert_eq!(TopicSelector::read_answer("6"), Some(6));
    assert_eq!(TopicSelector::read_answer(" 6\n"), Some(6));
    assert_eq!(TopicSelector::read_answer("0"), Some(0));
    assert_eq!(TopicSelector::read_answer("Topic 6"), None);
    assert_eq!(TopicSelector::read_answer("6."), None);
}

#[test]
fn topic_steps_retry_then_give_up() {
    assert_eq!(TopicSelector::select_topic_step(0, "3", 14), TopicStep::Selected(3));
    assert_eq!(TopicSelector::select_topic_step(0, "0", 14), TopicStep::Selected(0));
    assert_eq!(TopicSelector::select_topic_step(0, "14", 14), TopicStep::Selected(14));
    assert_eq!(TopicSelector::select_topic_step(0, "99", 14), TopicStep::AskAgain(1));
    assert_eq!(TopicSelector::select_topic_step(0, "15", 14), TopicStep::AskAgain(1));
    assert_eq!(TopicSelector::select_topic_step(0, "three", 14), TopicStep::AskAgain(1));
    assert_eq!(TopicSelector::select_topic_step(3, "three", 14), TopicStep::AskAgain(4));
    assert_eq!(TopicSelector::select_topic_step(4, "three", 14), TopicStep::GiveUp);
    assert_eq!(TopicSelector::select_topic_step(4, "99", 14), TopicStep::GiveUp);
    assert_eq!(TopicSelector::select_topic_step(4, "2", 14), TopicStep::Selected(2));
}

#[test]
fn query_prompt() {
    let builder = TextQueryBuilder::new(URL.to_string(), MODEL.to_string(), "Not use".to_string(), None);
    assert_eq!(
        builder.construct_prompt("I want to invest in real estates. What detail should I know?"),
        "# Instruction:\n\nBased on the following question, what keywords should be queried in Opensearch\n\n# Question:\nI want to invest in real estates. What detail should I know?"
    );
}

#[test]
fn summary_prompt_and_replies() {
    let summarizer = SourceSummarizer::new(URL.to_string(), MODEL.to_string(), "Not use".to_string(), None);
    assert_eq!(summarizer.construct_prompt("text", "why?"), "# Source:\ntext\n\n# question:\n\nwhy?");

    let s = SourceSummarizer::read_summary(
        "```json\n{\"is_useful\": true, \"summarize\": \"75% in real estate\"}\n```",
        37,
    )
    .unwrap();
    assert!(s.is_useful);
    assert_eq!(s.summarize, "75% in real estate");
    assert_eq!(s.page, 37);

    let s = SourceSummarizer::read_summary("{\"is_useful\": false, \"summarize\": \"\"}", 2).unwrap();
    assert!(!s.is_useful);
    assert_eq!(s.summarize, "");

    let s = SourceSummarizer::summarize_reply("json{\"is_useful\": true, \"summarize\": \"s\"}", 9);
    assert!(s.is_useful);
    assert_eq!(s.summarize, "s");
    assert_eq!(s.page, 9);
    assert!(SourceSummarizer::read_summary("not json", 1).is_none());
    assert!(SourceSummarizer::read_summary("I think yes", 1).is_none());
    assert!(SourceSummarizer::read_summary("{\"is_useful\": \"yes\", \"summarize\": \"x\"}", 1).is_none());
    assert!(SourceSummarizer::read_summary("{\"is_useful\": true}", 1).is_none());
}

#[test]
fn context_prompts_follow_results() {
    let summarizer = SourceSummarizer::new(URL.to_string(), MODEL.to_string(), "Not use".to_string(), None);
    let results = vec![
        SearchResult { topic: "T".to_string(), url: "u".to_string(), page: 1, text: "first".to_string() },
        SearchResult { topic: "T".to_string(), url: "u".to_string(), page: 2, text: "second".to_string() },
    ];
    let prompts = summarizer.context_prompts(&results, "q");
    assert_eq!(prompts, vec![
        "# Source:\nfirst\n\n# question:\n\nq".to_string(),
        "# Source:\nsecond\n\n# question:\n\nq".to_string(),
    ]);
}

#[test]
fn answer_prompt() {
    let agent = UserInteractive::new(URL.to_string(), MODEL.to_string(), "Not use".to_string(), None);
    let prompt = agent.construct_prompt(
        "Q?",
        "Code on Real Estate Investment Trusts",
        vec!["one - Page: 3".to_string(), "two - Page: 4".to_string()],
        "https://example.org/reit.pdf",
    );
    assert_eq!(
        prompt,
        "\n# question:\nQ?\n\n# Prepared data source:\nDocument: Code on Real Estate Investment Trusts\none - Page: 3\n- two - Page: 4\nURL: https://example.org/reit.pdf\n"
    );
}

#[test]
fn agent_requests() {
    let rejector = RejectorAgent::new(URL.to_string(), MODEL.to_string(), "Not use".to_string(), None);
    let r = rejector.rejection_request("Q?", "no_info");
    assert!(r.stream);
    assert_eq!(r.messages.len(), 2);
    assert_eq!(r.messages[0].role, "system");
    assert_eq!(r.messages[1].role, "user");
    assert_eq!(r.messages[1].content, rejector.construct_prompt("Q?", "no_info"));

    let builder = TextQueryBuilder::new(URL.to_string(), MODEL.to_string(), "Not use".to_string(), None);
    let r = builder.build_request("Q?");
    assert!(!r.stream);
    assert_eq!(r.messages[1].content, builder.construct_prompt("Q?"));

    let selector = TopicSelector::new(URL.to_string(), MODEL.to_string(), "Not use".to_string(), None);
    let r = selector.topic_request("Q?", "1. A");
    assert!(!r.stream);
    assert_eq!(r.messages[1].content, selector.construct_prompt("Q?", "1. A"));

    let summarizer = SourceSummarizer::new(URL.to_string(), MODEL.to_string(), "Not use".to_string(), None);
    let result = SearchResult { topic: "T".to_string(), url: "u".to_string(), page: 4, text: "body".to_string() };
    let r = summarizer.context_request(&result, "Q?");
    assert_eq!(r.messages[1].content, "# Source:\nbody\n\n# question:\n\nQ?");

    let agent = UserInteractive::new(URL.to_string(), MODEL.to_string(), "Not use".to_string(), None);
    let r = agent.answer_request("Q?", "T", vec!["c - Page: 1".to_string()], "u");
    assert!(r.stream);
    assert_eq!(r.messages[1].content, "\n# question:\nQ?\n\n# Prepared data source:\nDocument: T\nc - Page: 1\nURL: u\n");
}
