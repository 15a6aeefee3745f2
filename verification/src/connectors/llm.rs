//! The connection settings of a chat language model and what the library
//! computes around each request: the conversation, the request body, the
//! authorization header, and the content of a reply.

use vstd::prelude::*;
use crate::json::{
    json_as_str, json_child, json_member, json_text, json_tree, parse_json, parsed_json, JsonLeaf,
    JsonStep,
};
use crate::text::str_equal;

verus! {

/// One message of a chat conversation.
#[derive(Debug, Clone)]
pub struct Message {
    pub role: String,
    pub content: String,
}

/// The contents of a `Message`.
pub struct MessageView {
    pub role: Seq<char>,
    pub content: Seq<char>,
}

impl View for Message {
    type V = MessageView;

    open spec fn view(&self) -> MessageView {
        MessageView { role: self.role@, content: self.content@ }
    }
}

/// The contents of each message of a list.
pub open spec fn message_views(v: Seq<Message>) -> Seq<MessageView> {
    v.map_values(|m: Message| m@)
}

impl Message {
    /// A copy of this message.
    pub fn duplicate(&self) -> (r: Message)
        ensures
            r@ == self@,
    {
        Message { role: self.role.clone(), content: self.content.clone() }
    }
}

/// A value of the model's configuration, sent as a member of each request body.
#[derive(Debug)]
pub enum ConfigValue {
    /// A JSON integer.
    Integer(i64),
    /// The JSON number `mantissa` × 10^(-`scale`), such as 0.6 written as `(6, 1)`.
    Decimal { mantissa: i64, scale: u32 },
    /// Any other JSON value.
    Json(serde_json::Value),
}

/// A configuration entry with the characters of its key.
pub open spec fn config_entry_view(e: (String, ConfigValue)) -> (Seq<char>, ConfigValue) {
    (e.0@, e.1)
}

/// The entries of a configuration with the characters of their keys.
pub open spec fn config_views(c: Seq<(String, ConfigValue)>) -> Seq<(Seq<char>, ConfigValue)> {
    c.map_values(|e: (String, ConfigValue)| config_entry_view(e))
}

/// The configuration that a connector gets where none is given.
pub open spec fn default_config() -> Seq<(Seq<char>, ConfigValue)> {
    seq![
        ("max_tokens"@, ConfigValue::Integer(512)),
        ("temperature"@, ConfigValue::Decimal { mantissa: 6, scale: 1 }),
        ("top_p"@, ConfigValue::Decimal { mantissa: 95, scale: 2 }),
        ("repetition_penalty"@, ConfigValue::Decimal { mantissa: 105, scale: 2 }),
    ]
}

/// The connection settings of a chat model.
pub struct LLMConnector {
    api_key: String,
    model: String,
    url: String,
    config: Vec<(String, ConfigValue)>,
    initial_message: Vec<Message>,
}

/// The contents of an `LLMConnector`.
pub struct LLMConnectorView {
    pub api_key: Seq<char>,
    pub model: Seq<char>,
    pub url: Seq<char>,
    pub config: Seq<(Seq<char>, ConfigValue)>,
    pub initial_message: Seq<MessageView>,
}

impl View for LLMConnector {
    type V = LLMConnectorView;

    closed spec fn view(&self) -> LLMConnectorView {
        LLMConnectorView {
            api_key: self.api_key@,
            model: self.model@,
            url: self.url@,
            config: config_views(self.config@),
            initial_message: message_views(self.initial_message@),
        }
    }
}

/// What a connector made with the given settings holds.
pub open spec fn connector_spec(
    url: Seq<char>,
    model: Seq<char>,
    api_key: Seq<char>,
    config: Option<Seq<(Seq<char>, ConfigValue)>>,
    initial_message: Option<Seq<MessageView>>,
) -> LLMConnectorView {
    LLMConnectorView {
        api_key,
        model,
        url,
        config: match config {
            Some(c) => c,
            None => default_config(),
        },
        initial_message: match initial_message {
            Some(m) => m,
            None => Seq::empty(),
        },
    }
}

/// The settings of a connector whose conversation starts with `system_prompt`.
pub open spec fn agent_connector(
    url: Seq<char>,
    model: Seq<char>,
    api_key: Seq<char>,
    config: Option<Vec<(String, ConfigValue)>>,
    system_prompt: Seq<char>,
) -> LLMConnectorView {
    connector_spec(
        url,
        model,
        api_key,
        match config {
            Some(c) => Some(config_views(c@)),
            None => None,
        },
        Some(seq![MessageView { role: "system"@, content: system_prompt }]),
    )
}

/// The conversation sent for a prompt: the initial messages, then the prompt
/// as a message of the user.
pub open spec fn conversation(initial: Seq<MessageView>, prompt: Seq<char>) -> Seq<MessageView> {
    initial.push(MessageView { role: "user"@, content: prompt })
}

/// Where the value of a member of a request body comes from.
#[derive(Debug, PartialEq, Eq, Structural)]
pub enum BodyField {
    /// The model's name, as a JSON string.
    Model,
    /// The conversation, as a JSON array of messages.
    Messages,
    /// Whether the reply is streamed, as a JSON boolean.
    Stream,
    /// The value of the configuration entry at this position.
    Config(usize),
}

/// The members of a request body: `model`, `messages` and `stream`, then each
/// configuration entry set in turn, a later one replacing an earlier one of the
/// same key.
pub open spec fn request_body(config_keys: Seq<Seq<char>>) -> Map<Seq<char>, BodyField>
    decreases config_keys.len(),
{
    if config_keys.len() == 0 {
        Map::empty().insert("model"@, BodyField::Model).insert(
            "messages"@,
            BodyField::Messages,
        ).insert("stream"@, BodyField::Stream)
    } else {
        request_body(config_keys.drop_last()).insert(
            config_keys.last(),
            BodyField::Config((config_keys.len() - 1) as usize),
        )
    }
}

/// The keys of a configuration.
pub open spec fn config_keys(c: Seq<(Seq<char>, ConfigValue)>) -> Seq<Seq<char>> {
    c.map_values(|e: (Seq<char>, ConfigValue)| e.0)
}

/// A list of members with distinct keys that holds exactly the members of `body`.
pub open spec fn lists_members(fields: Seq<(String, BodyField)>, body: Map<Seq<char>, BodyField>) -> bool {
    &&& forall|i: int, j: int|
        0 <= i < j < fields.len() ==> (#[trigger] fields[i]).0@ != (#[trigger] fields[j]).0@
    &&& forall|i: int|
        0 <= i < fields.len() ==> body.contains_key((#[trigger] fields[i]).0@) && body[fields[i].0@]
            == fields[i].1
    &&& forall|k: Seq<char>|
        #[trigger] body.contains_key(k) ==> exists|i: int| 0 <= i < fields.len() && (#[trigger] fields[i]).0@ == k
}

proof fn lemma_body_base(keys: Seq<Seq<char>>, k: Seq<char>)
    requires
        !keys.contains(k),
    ensures
        request_body(keys).contains_key(k) == request_body(Seq::empty()).contains_key(k),
        request_body(keys)[k] == request_body(Seq::empty())[k],
    decreases keys.len(),
{
    if keys.len() > 0 {
        let rest = keys.drop_last();
        assert(keys[keys.len() - 1] != k);
        if rest.contains(k) {
            let i = choose|i: int| 0 <= i < rest.len() && rest[i] == k;
            assert(keys[i] == k);
        }
        lemma_body_base(rest, k);
    }
}

proof fn lemma_body_config(keys: Seq<Seq<char>>, i: int)
    requires
        0 <= i < keys.len(),
        forall|j: int| i < j < keys.len() ==> keys[j] != keys[i],
    ensures
        request_body(keys).contains_key(keys[i]),
        request_body(keys)[keys[i]] == BodyField::Config(i as usize),
    decreases keys.len(),
{
    if i < keys.len() - 1 {
        let rest = keys.drop_last();
        assert(keys[keys.len() - 1] != keys[i]);
        assert forall|j: int| i < j < rest.len() implies rest[j] != rest[i] by {
            assert(keys[j] != keys[i]);
        }
        lemma_body_config(rest, i);
    }
}

proof fn lemma_last_occurrence(keys: Seq<Seq<char>>, m: int) -> (l: int)
    requires
        0 <= m < keys.len(),
    ensures
        m <= l < keys.len(),
        keys[l] == keys[m],
        forall|j: int| l < j < keys.len() ==> keys[j] != keys[m],
    decreases keys.len() - m,
{
    let later = choose|j: int| m < j < keys.len() && keys[j] == keys[m];
    if exists|j: int| m < j < keys.len() && keys[j] == keys[m] {
        let l = lemma_last_occurrence(keys, later);
        l
    } else {
        m
    }
}

/// The members of a request body: `model`, `messages` and `stream`, and each key
/// of the configuration. A configuration entry sets its key to its own value
/// unless a later entry has the same key; `model`, `messages` and `stream` hold
/// the model's name, the conversation and the stream flag unless the
/// configuration sets them.
pub proof fn law_request_body_members(keys: Seq<Seq<char>>, k: Seq<char>, i: int)
    ensures
        keys.contains(k) ==> request_body(keys).contains_key(k),
        0 <= i < keys.len() && keys[i] == k && (forall|j: int| i < j < keys.len() ==> keys[j] != k)
            ==> request_body(keys)[k] == BodyField::Config(i as usize),
        !keys.contains(k) ==> (request_body(keys).contains_key(k) <==> (k == "model"@ || k
            == "messages"@ || k == "stream"@)),
        !keys.contains(k) && k == "model"@ ==> request_body(keys)[k] == BodyField::Model,
        !keys.contains(k) && k == "messages"@ ==> request_body(keys)[k] == BodyField::Messages,
        !keys.contains(k) && k == "stream"@ ==> request_body(keys)[k] == BodyField::Stream,
{
    reveal_strlit("model");
    reveal_strlit("messages");
    reveal_strlit("stream");
    if keys.contains(k) {
        let m = choose|m: int| 0 <= m < keys.len() && keys[m] == k;
        let last = lemma_last_occurrence(keys, m);
        lemma_body_config(keys, last);
    } else {
        lemma_body_base(keys, k);
        assert("model"@.len() == 5 && "messages"@.len() == 8 && "stream"@.len() == 6);
        let base = request_body(Seq::<Seq<char>>::empty());
        assert(base == Map::<Seq<char>, BodyField>::empty().insert("model"@, BodyField::Model).insert(
            "messages"@,
            BodyField::Messages,
        ).insert("stream"@, BodyField::Stream));
    }
    if 0 <= i < keys.len() && keys[i] == k && (forall|j: int| i < j < keys.len() ==> keys[j] != k) {
        lemma_body_config(keys, i);
    }
}

/// One request to the chat model: where it goes, its `Authorization` header, the
/// conversation, whether the reply is streamed, and the members of its body.
#[derive(Debug)]
pub struct ChatRequest {
    pub url: String,
    /// `None` where the API key does not make a valid header value.
    pub authorization: Option<String>,
    pub messages: Vec<Message>,
    pub stream: bool,
    pub fields: Vec<(String, BodyField)>,
}

/// The request that a connector sends for `prompt`: to its URL, with `Bearer`
/// and its API key as authorization (where that is a valid header value), the
/// conversation of its initial messages and the prompt, the stream flag, and the
/// members of the body.
pub open spec fn is_chat_request(
    r: ChatRequest,
    c: LLMConnectorView,
    prompt: Seq<char>,
    stream: bool,
) -> bool {
    &&& r.url@ == c.url
    &&& match r.authorization {
        Some(a) => header_value_accepts("Bearer "@ + c.api_key) && a@ == "Bearer "@ + c.api_key,
        None => !header_value_accepts("Bearer "@ + c.api_key),
    }
    &&& message_views(r.messages@) == conversation(c.initial_message, prompt)
    &&& r.stream == stream
    &&& lists_members(r.fields@, request_body(config_keys(c.config)))
}

/// Characters that an HTTP header value accepts: a tab, or anything from the
/// space on but the delete character.
pub open spec fn header_value_accepts(s: Seq<char>) -> bool {
    forall|i: int| 0 <= i < s.len() ==> (#[trigger] s[i] == '\t' || (' ' <= s[i] && s[i] != '\u{7f}'))
}

/// Whether `HeaderValue::from_str` accepts the text.
#[verifier::external_body]
fn header_value_ok(s: &str) -> (r: bool)
    ensures
        r == header_value_accepts(s@),
{
    reqwest::header::HeaderValue::from_str(s).is_ok()
}

/// Decodes bytes as UTF-8 (`std::str::from_utf8`); `None` where they are not UTF-8.
#[verifier::external_body]
fn utf8_text(bytes: &[u8]) -> (r: Option<&str>)
    ensures
        match r {
            Some(s) => vstd::utf8::valid_utf8(bytes@) && s@ == vstd::utf8::decode_utf8(bytes@),
            None => !vstd::utf8::valid_utf8(bytes@),
        },
{
    std::str::from_utf8(bytes).ok()
}

/// The text at `message.content` of a chat reply, if it is a string.
pub open spec fn message_content(t: Map<Seq<JsonStep>, JsonLeaf>) -> Option<Seq<char>> {
    json_text(json_child(json_child(t, JsonStep::Key("message"@)), JsonStep::Key("content"@)))
}

/// The text that a streamed chunk carries: its bytes must be UTF-8, form a JSON
/// document, and hold a string at `message.content`.
pub open spec fn stream_chunk(bytes: Seq<u8>) -> Option<Seq<char>> {
    if vstd::utf8::valid_utf8(bytes) {
        match parsed_json(vstd::utf8::decode_utf8(bytes)) {
            Some(t) => message_content(t),
            None => None,
        }
    } else {
        None
    }
}

fn message_content_of(reply: &serde_json::Value) -> (r: Option<String>)
    ensures
        match r {
            Some(s) => message_content(json_tree(*reply)) == Some(s@),
            None => message_content(json_tree(*reply)) is None,
        },
{
    let message = json_member(reply, "message");
    let content = json_member(message, "content");
    match json_as_str(content) {
        Some(s) => Some(String::from_str(s)),
        None => None,
    }
}

impl LLMConnector {
    /// A connector whose conversation starts with `system_prompt` as the system's message.
    pub fn with_system_prompt(
        url: String,
        model: String,
        api_key: String,
        config: Option<Vec<(String, ConfigValue)>>,
        system_prompt: &str,
    ) -> (r: Self)
        ensures
            r@ == agent_connector(url@, model@, api_key@, config, system_prompt@),
    {
        let mut initial_message: Vec<Message> = Vec::new();
        initial_message.push(
            Message { role: String::from_str("system"), content: String::from_str(system_prompt) },
        );
        proof {
            assert(message_views(initial_message@) =~= seq![
                MessageView { role: "system"@, content: system_prompt@ },
            ]);
        }
        LLMConnector::new(url, model, api_key, config, Some(initial_message))
    }

    /// Creates a connector; without a configuration it takes the default one
    /// (512 tokens at most, temperature 0.6, top-p 0.95, repetition penalty 1.05),
    /// and without initial messages an empty conversation.
    pub fn new(
        url: String,
        model: String,
        api_key: String,
        config: Option<Vec<(String, ConfigValue)>>,
        initial_message: Option<Vec<Message>>,
    ) -> (r: Self)
        ensures
            r@ == connector_spec(
                url@,
                model@,
                api_key@,
                match config {
                    Some(c) => Some(config_views(c@)),
                    None => None,
                },
                match initial_message {
                    Some(m) => Some(message_views(m@)),
                    None => None,
                },
            ),
    {
        let config = match config {
            Some(c) => c,
            None => Self::default_config(),
        };
        let initial_message = match initial_message {
            Some(m) => m,
            None => Vec::new(),
        };
        proof {
            assert(message_views(Seq::<Message>::empty()) =~= Seq::<MessageView>::empty());
        }
        LLMConnector { api_key, model, url, config, initial_message }
    }

    /// The configuration of a connector made without one.
    pub fn default_config() -> (r: Vec<(String, ConfigValue)>)
        ensures
            config_views(r@) == default_config(),
    {
        let mut r: Vec<(String, ConfigValue)> = Vec::new();
        r.push((String::from_str("max_tokens"), ConfigValue::Integer(512)));
        r.push((String::from_str("temperature"), ConfigValue::Decimal { mantissa: 6, scale: 1 }));
        r.push((String::from_str("top_p"), ConfigValue::Decimal { mantissa: 95, scale: 2 }));
        r.push(
            (
                String::from_str("repetition_penalty"),
                ConfigValue::Decimal { mantissa: 105, scale: 2 },
            ),
        );
        assert(config_views(r@) =~= default_config());
        r
    }

    /// The address of the chat service.
    pub fn url(&self) -> (r: &str)
        ensures
            r@ == self@.url,
    {
        self.url.as_str()
    }

    /// The model's name.
    pub fn model(&self) -> (r: &str)
        ensures
            r@ == self@.model,
    {
        self.model.as_str()
    }

    /// The configuration entries, in the order they were given.
    pub fn config(&self) -> (r: &Vec<(String, ConfigValue)>)
        ensures
            config_views(r@) == self@.config,
    {
        &self.config
    }

    /// The conversation sent for a prompt: the initial messages followed by the
    /// prompt as the user's message.
    pub fn chat_messages(&self, prompt: &str) -> (r: Vec<Message>)
        ensures
            message_views(r@) == conversation(self@.initial_message, prompt@),
    {
        let mut r: Vec<Message> = Vec::new();
        let n = self.initial_message.len();
        let mut i: usize = 0;
        while i < n
            invariant
                i <= n,
                n == self.initial_message@.len(),
                r@.len() == i,
                message_views(r@) == message_views(self.initial_message@).take(i as int),
            decreases n - i,
        {
            let m = self.initial_message[i].duplicate();
            let ghost before = r@;
            r.push(m);
            assert(r@ == before.push(m));
            assert(message_views(r@) =~= message_views(self.initial_message@).take(i + 1)) by {
                assert forall|k: int| 0 <= k < i + 1 implies #[trigger] message_views(r@)[k]
                    == message_views(self.initial_message@)[k] by {
                    if k < i {
                        assert(message_views(before)[k] == message_views(self.initial_message@).take(i as int)[k]);
                        assert(r@[k] == before[k]);
                    } else {
                        assert(r@[k] == m);
                        assert(m@ == self.initial_message@[k]@);
                    }
                }
            }
            i = i + 1;
        }
        let ghost before = r@;
        r.push(Message { role: String::from_str("user"), content: String::from_str(prompt) });
        assert(message_views(r@) =~= conversation(self@.initial_message, prompt@)) by {
            assert(message_views(before) =~= message_views(self.initial_message@));
            assert forall|k: int| 0 <= k < n implies #[trigger] message_views(r@)[k]
                == message_views(self.initial_message@)[k] by {
                assert(message_views(before)[k] == message_views(self.initial_message@)[k]);
            }
        }
        r
    }

    /// The value of the `Authorization` header, `Bearer` and the API key; `None`
    /// where the key holds a character that a header value does not accept.
    pub fn authorization(&self) -> (r: Option<String>)
        ensures
            match r {
                Some(s) => header_value_accepts("Bearer "@ + self@.api_key) && s@ == "Bearer "@
                    + self@.api_key,
                None => !header_value_accepts("Bearer "@ + self@.api_key),
            },
    {
        let value = String::from_str("Bearer ").concat(self.api_key.as_str());
        if header_value_ok(value.as_str()) {
            Some(value)
        } else {
            None
        }
    }

    /// The members of the JSON body of a request, each with where its value comes from.
    pub fn request_fields(&self) -> (r: Vec<(String, BodyField)>)
        ensures
            lists_members(r@, request_body(config_keys(self@.config))),
    {
        let mut r: Vec<(String, BodyField)> = Vec::new();
        r.push((String::from_str("model"), BodyField::Model));
        r.push((String::from_str("messages"), BodyField::Messages));
        r.push((String::from_str("stream"), BodyField::Stream));
        proof {
            reveal_strlit("model");
            reveal_strlit("messages");
            reveal_strlit("stream");
            let keys = config_keys(self@.config);
            assert(keys.take(0) =~= Seq::<Seq<char>>::empty());
            let body = request_body(keys.take(0));
            assert(r@[0].0@ == "model"@);
            assert(r@[1].0@ == "messages"@);
            assert(r@[2].0@ == "stream"@);
            assert(body["model"@] == BodyField::Model);
            assert(body["messages"@] == BodyField::Messages);
            assert(body["stream"@] == BodyField::Stream);
            assert forall|k: Seq<char>| #[trigger] body.contains_key(k) implies exists|i: int|
                0 <= i < r@.len() && (#[trigger] r@[i]).0@ == k by {
                if k == "model"@ {
                    assert(r@[0].0@ == k);
                } else if k == "messages"@ {
                    assert(r@[1].0@ == k);
                } else {
                    assert(r@[2].0@ == k);
                }
            }
        }
        let n = self.config.len();
        let mut i: usize = 0;
        while i < n
            invariant
                i <= n,
                n == self.config@.len(),
                n == config_keys(self@.config).len(),
                lists_members(r@, request_body(config_keys(self@.config).take(i as int))),
            decreases n - i,
        {
            let key = &self.config[i].0;
            let ghost keys = config_keys(self@.config);
            let ghost before = request_body(keys.take(i as int));
            proof {
                assert(keys.take(i + 1).drop_last() =~= keys.take(i as int));
                assert(keys[i as int] == key@);
            }
            let ghost old_r = r@;
            let mut j: usize = 0;
            while j < r.len() && !str_equal(r[j].0.as_str(), key.as_str())
                invariant
                    j <= r.len(),
                    r@ == old_r,
                    forall|k: int| 0 <= k < j ==> (#[trigger] r@[k]).0@ != key@,
                decreases r.len() - j,
            {
                j = j + 1;
            }
            let found = j < r.len();
            assert(found ==> j < r.len() && r@[j as int].0@ == key@);
            assert(!found ==> forall|k: int| 0 <= k < r.len() ==> (#[trigger] r@[k]).0@ != key@);
            if found {
                r.set(j, (key.clone(), BodyField::Config(i)));
            } else {
                r.push((key.clone(), BodyField::Config(i)));
            }
            proof {
                let after = request_body(keys.take(i + 1));
                assert(after == before.insert(key@, BodyField::Config(i)));
                assert forall|k: Seq<char>| #[trigger] after.contains_key(k) implies exists|m: int|
                    0 <= m < r@.len() && (#[trigger] r@[m]).0@ == k by {
                    if k == key@ {
                        if found {
                            assert(r@[j as int].0@ == k);
                        } else {
                            assert(r@[r@.len() - 1].0@ == k);
                        }
                    } else {
                        assert(before.contains_key(k));
                        let m = choose|m: int| 0 <= m < old_r.len() && (#[trigger] old_r[m]).0@ == k;
                        assert(r@[m].0@ == k);
                    }
                }
            }
            i = i + 1;
        }
        proof {
            assert(config_keys(self@.config).take(n as int) =~= config_keys(self@.config));
        }
        r
    }

    /// The request to send for `prompt`, streamed or not.
    pub fn chat_request(&self, prompt: &str, stream: bool) -> (r: ChatRequest)
        ensures
            is_chat_request(r, self@, prompt@, stream),
    {
        ChatRequest {
            url: self.url.clone(),
            authorization: self.authorization(),
            messages: self.chat_messages(prompt),
            stream,
            fields: self.request_fields(),
        }
    }

    /// The text of a chat reply: the string at `message.content`, or the empty
    /// text where there is none.
    pub fn reply_content(reply: &serde_json::Value) -> (r: String)
        ensures
            r@ == match message_content(json_tree(*reply)) {
                Some(s) => s,
                None => Seq::empty(),
            },
    {
        match message_content_of(reply) {
            Some(s) => s,
            None => String::new(),
        }
    }

    /// The text that one chunk of a streamed reply carries.
    pub fn stream_chunk_content(bytes: &[u8]) -> (r: Option<String>)
        ensures
            match r {
                Some(s) => stream_chunk(bytes@) == Some(s@),
                None => stream_chunk(bytes@) is None,
            },
    {
        match utf8_text(bytes) {
            Some(line) => match parse_json(line) {
                Some(chunk) => message_content_of(&chunk),
                None => None,
            },
            None => None,
        }
    }
}

} // verus!
