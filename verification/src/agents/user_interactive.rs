//! Answering agent: asks the model to answer the question from the prepared
//! summaries, citing the source document.

use vstd::prelude::*;
use crate::connectors::llm::{
    agent_connector, is_chat_request, ChatRequest, ConfigValue, LLMConnector, LLMConnectorView,
};
use crate::text::{join, join_strings, string_views};

verus! {

/// System prompt that instructs the LLM to answer from the prepared data source
pub const SYSTEM_PROMPT: &'static str = "You are an humble expert in lawfirm, and your secretary already
prepared gists from the related document for you to answer user's question 
Your duty is to answer the question with confidence using the prepared data source as a reference.
Please also add the reference of data source with URL to PDF file with page number and encourage user to find out more information with it";

/// Agent that writes the answer to the user.
pub struct UserInteractive {
    llm_connector: LLMConnector,
}

impl View for UserInteractive {
    type V = LLMConnectorView;

    closed spec fn view(&self) -> LLMConnectorView {
        self.llm_connector@
    }
}

/// The prompt that asks for the answer: the question, the document's topic, the
/// contexts joined one per line after "- ", and the document's URL.
pub open spec fn answer_prompt(
    question: Seq<char>,
    topic: Seq<char>,
    contexts: Seq<Seq<char>>,
    source_url: Seq<char>,
) -> Seq<char> {
    "\n# question:\n"@ + question + "\n\n# Prepared data source:\nDocument: "@ + topic + "\n"@
        + join(contexts, "\n- "@) + "\nURL: "@ + source_url + "\n"@
}

impl UserInteractive {
    /// Creates an agent whose model is told to answer from the prepared sources.
    pub fn new(
        url: String,
        model: String,
        api_key: String,
        config: Option<Vec<(String, ConfigValue)>>,
    ) -> (r: Self)
        ensures
            r@ == agent_connector(url@, model@, api_key@, config, SYSTEM_PROMPT@),
    {
        UserInteractive {
            llm_connector: LLMConnector::with_system_prompt(url, model, api_key, config, SYSTEM_PROMPT),
        }
    }

    /// The connector used for requests to the language model.
    pub fn llm_connector(&self) -> (r: &LLMConnector)
        ensures
            r@ == self@,
    {
        &self.llm_connector
    }

    /// The prompt that asks for the answer to `question` from `contexts`.
    pub fn construct_prompt(
        &self,
        question: &str,
        topic: &str,
        contexts: Vec<String>,
        source_url: &str,
    ) -> (r: String)
        ensures
            r@ == answer_prompt(question@, topic@, string_views(contexts@), source_url@),
    {
        let context_prompt = join_strings(&contexts, "\n- ");
        String::from_str("\n# question:\n").concat(question).concat(
            "\n\n# Prepared data source:\nDocument: ",
        ).concat(topic).concat("\n").concat(context_prompt.as_str()).concat("\nURL: ").concat(
            source_url,
        ).concat("\n")
    }

    /// The streamed request for the answer to `question` from `contexts`.
    pub fn answer_request(
        &self,
        question: &str,
        topic: &str,
        contexts: Vec<String>,
        source_url: &str,
    ) -> (r: ChatRequest)
        ensures
            is_chat_request(
                r,
                self@,
                answer_prompt(question@, topic@, string_views(contexts@), source_url@),
                true,
            ),
    {
        let prompt = self.construct_prompt(question, topic, contexts, source_url);
        self.llm_connector.chat_request(prompt.as_str(), true)
    }
}

} // verus!
