//! Rejection agent: asks the model for a polite message declining a question that
//! is not legal or that the documents cannot answer.

use vstd::prelude::*;
use crate::connectors::llm::{
    agent_connector, is_chat_request, ChatRequest, ConfigValue, LLMConnector, LLMConnectorView,
};
use crate::text::str_equal;

verus! {

/// System prompt that instructs the LLM to generate polite rejection messages
pub const SYSTEM_PROMPT: &'static str = "You are a professional legal assistant who needs to politely reject questions that are either not legal-related or when we don't have sufficient information to answer them. Your responses should be:
1. Professional and courteous
2. Clear about why we cannot assist
3. Maintain a helpful tone while setting appropriate boundaries
4. Keep the message concise but informative

Return only the rejection message without any additional text or formatting.";

/// Agent responsible for generating rejection messages.
pub struct RejectorAgent {
    llm_connector: LLMConnector,
}

impl View for RejectorAgent {
    type V = LLMConnectorView;

    closed spec fn view(&self) -> LLMConnectorView {
        self.llm_connector@
    }
}

/// The reasons for a rejection: `not_legal` for a question that is not about law,
/// `no_info` for one that the documents cannot answer.
pub open spec fn known_reason(reason: Seq<char>) -> bool {
    reason == "not_legal"@ || reason == "no_info"@
}

/// The prompt that asks for a rejection of `question` for `reason`.
pub open spec fn rejection_prompt(question: Seq<char>, reason: Seq<char>) -> Seq<char> {
    if reason == "not_legal"@ {
        "Please generate a polite rejection message for the following non-legal question:\n\nQuestion: "@
            + question + "\n\nRejection message:"@
    } else {
        "Please generate a polite rejection message explaining that we don't have sufficient information to answer this legal question:\n\nQuestion: "@
            + question + "\n\nRejection message:"@
    }
}

impl RejectorAgent {
    /// Creates an agent whose model is told to write polite rejections.
    pub fn new(
        url: String,
        model: String,
        api_key: String,
        config: Option<Vec<(String, ConfigValue)>>,
    ) -> (r: Self)
        ensures
            r@ == agent_connector(url@, model@, api_key@, config, SYSTEM_PROMPT@),
    {
        RejectorAgent {
            llm_connector: LLMConnector::with_system_prompt(url, model, api_key, config, SYSTEM_PROMPT),
        }
    }

    /// The connector used for requests to the language model.
    pub fn llm_connector(&self) -> (r: &LLMConnector)
        ensures
            r@ == self@,
    {
        &self.llm_connector
    }

    /// Whether `reason` is one that a rejection can be written for.
    pub fn is_known_reason(reason: &str) -> (r: bool)
        ensures
            r == known_reason(reason@),
    {
        str_equal(reason, "not_legal") || str_equal(reason, "no_info")
    }

    /// The prompt that asks for a rejection of `question`, for the reason
    /// `not_legal` or `no_info`.
    pub fn construct_prompt(&self, question: &str, reason: &str) -> (r: String)
        requires
            known_reason(reason@),
        ensures
            r@ == rejection_prompt(question@, reason@),
    {
        if str_equal(reason, "not_legal") {
            String::from_str(
                "Please generate a polite rejection message for the following non-legal question:\n\nQuestion: ",
            ).concat(question).concat("\n\nRejection message:")
        } else {
            String::from_str(
                "Please generate a polite rejection message explaining that we don't have sufficient information to answer this legal question:\n\nQuestion: ",
            ).concat(question).concat("\n\nRejection message:")
        }
    }

    /// The streamed request for a rejection of `question`, for the reason
    /// `not_legal` or `no_info`.
    pub fn rejection_request(&self, question: &str, reason: &str) -> (r: ChatRequest)
        requires
            known_reason(reason@),
        ensures
            is_chat_request(r, self@, rejection_prompt(question@, reason@), true),
    {
        let prompt = self.construct_prompt(question, reason);
        self.llm_connector.chat_request(prompt.as_str(), true)
    }
}

} // verus!
