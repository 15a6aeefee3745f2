use lawfirm_agents::connectors::llm::{BodyField, ConfigValue, LLMConnector, Message};
use lawfirm_agents::connectors::opensearch::{client_for_config, create_client, ClientError};
use lawfirm_agents::connectors::text_embedder::{embedding_size, EmbeddingError};
use lawfirm_agents::constants::OpenSearchConfig;

fn json(text: &str) -> serde_json::Value {
    serde_json::from_str(text).unwrap()
}

fn connector(config: Option<Vec<(String, ConfigValue)>>, api_key: &str) -> LLMConnector {
    LLMConnector::new(
        "http://localhost:11434/api/chat".to_string(),
        "gemma2:latest".to_string(),
        api_key.to_string(),
        config,
        Some(vec![Message { role: "system".to_string(), content: "be brief".to_string() }]),
    )
}

#[test]
fn default_config_is_used_without_one() {
    let c = connector(None, "Not use");
    let keys: Vec<&str> = c.config().iter().map(|(k, _)| k.as_str()).collect();
    assert_eq!(keys, vec!["max_tokens", "temperature", "top_p", "repetition_penalty"]);
    assert!(matches!(c.config()[0].1, ConfigValue::Integer(512)));
    assert!(matches!(c.config()[1].1, ConfigValue::Decimal { mantissa: 6, scale: 1 }));
    assert!(matches!(c.config()[2].1, ConfigValue::Decimal { mantissa: 95, scale: 2 }));
    assert!(matches!(c.config()[3].1, ConfigValue::Decimal { mantissa: 105, scale: 2 }));
    assert_eq!(c.url(), "http://localhost:11434/api/chat");
    assert_eq!(c.model(), "gemma2:latest");
}

#[test]
fn conversation_ends_with_the_prompt() {
    let c = connector(None, "Not use");
    let messages = c.chat_messages("What is a REIT?");
    assert_eq!(messages.len(), 2);
    assert_eq!(messages[0].role, "system");
    assert_eq!(messages[0].content, "be brief");
    assert_eq!(messages[1].role, "user");
    assert_eq!(messages[1].content, "What is a REIT?");
}

#[test]
fn authorization_header() {
    assert_eq!(connector(None, "Not use").authorization(), Some("Bearer Not use".to_string()));
    assert_eq!(connector(None, "bad\nkey").authorization(), None);
    assert_eq!(connector(None, "tab\tis fine").authorization(), Some("Bearer tab\tis fine".to_string()));
}

#[test]
fn request_fields_with_config_overrides() {
    let c = connector(
        Some(vec![
            ("stream".to_string(), ConfigValue::Integer(1)),
            ("seed".to_string(), ConfigValue::Integer(3)),
            ("seed".to_string(), ConfigValue::Integer(4)),
        ]),
        "k",
    );
    let mut fields: Vec<(String, BodyField)> = c.request_fields();
    fields.sort_by(|a, b| a.0.cmp(&b.0));
    assert_eq!(
        fields,
        vec![
            ("messages".to_string(), BodyField::Messages),
            ("model".to_string(), BodyField::Model),
            ("seed".to_string(), BodyField::Config(2)),
            ("stream".to_string(), BodyField::Config(0)),
        ]
    );
}

#[test]
fn request_fields_with_default_config() {
    let c = connector(None, "k");
    let fields = c.request_fields();
    assert_eq!(fields.len(), 7);
    assert_eq!(fields[0], ("model".to_string(), BodyField::Model));
    assert_eq!(fields[3], ("max_tokens".to_string(), BodyField::Config(0)));
}

#[test]
fn reply_content_reads_message_content() {
    let reply = json(r#"{"message": {"role": "assistant", "content": "6"}, "done": true}"#);
    assert_eq!(LLMConnector::reply_content(&reply), "6");
    assert_eq!(LLMConnector::reply_content(&json(r#"{"message": {}}"#)), "");
    assert_eq!(LLMConnector::reply_content(&json(r#"{"message": {"content": 5}}"#)), "");
    assert_eq!(LLMConnector::reply_content(&json("[1]")), "");
}

#[test]
fn stream_chunks() {
    let chunk = br#"{"message": {"role": "assistant", "content": "Hel"}, "done": false}"#;
    assert_eq!(LLMConnector::stream_chunk_content(chunk), Some("Hel".to_string()));
    assert_eq!(LLMConnector::stream_chunk_content(b"{\"message\": {}}"), None);
    assert_eq!(LLMConnector::stream_chunk_content(b"not json"), None);
    assert_eq!(LLMConnector::stream_chunk_content(&[0xff, 0xfe]), None);
    let unicode = "{\"message\": {\"content\": \"caf\u{e9}\"}}".as_bytes();
    assert_eq!(LLMConnector::stream_chunk_content(unicode), Some("caf\u{e9}".to_string()));
}

#[test]
fn client_for_invalid_url_is_refused() {
    let config = OpenSearchConfig {
        username: "admin".to_string(),
        password: "SECRET-REDACTED".to_string(),
        url: "not a url".to_string(),
    };
    assert!(matches!(client_for_config(&config), Err(ClientError::InvalidUrl)));
}

#[test]
fn client_for_valid_url() {
    let config = OpenSearchConfig {
        username: "admin".to_string(),
        password: "SECRET-REDACTED".to_string(),
        url: "http://localhost:9200".to_string(),
    };
    assert!(create_client(&config).is_some());
    assert!(client_for_config(&config).is_ok());
}

#[test]
fn embedding_checks() {
    assert_eq!(embedding_size(&json(r#"{"embeddings": [[0.5, -1, 2e3]]}"#)), Ok(3));
    assert_eq!(embedding_size(&json(r#"{"embeddings": [[]]}"#)), Ok(0));
    assert_eq!(embedding_size(&json(r#"{"embeddings": []}"#)), Err(EmbeddingError::Missing));
    assert_eq!(embedding_size(&json(r#"{"error": "no model"}"#)), Err(EmbeddingError::Missing));
    assert_eq!(
        embedding_size(&json(r#"{"embeddings": [[1, "x", null]]}"#)),
        Err(EmbeddingError::NotANumber(1))
    );
}

#[test]
fn chat_request_bundles_the_settings() {
    let c = connector(None, "Not use");
    let request = c.chat_request("Q", true);
    assert_eq!(request.url, "http://localhost:11434/api/chat");
    assert_eq!(request.authorization, Some("Bearer Not use".to_string()));
    assert!(request.stream);
    assert_eq!(request.messages.len(), 2);
    assert_eq!(request.messages[1].content, "Q");
    assert_eq!(request.fields.len(), 7);
    assert!(!c.chat_request("Q", false).stream);
    assert_eq!(connector(None, "bad\u{7f}").chat_request("Q", false).authorization, None);
}
