//! Text query builder agent: asks the model which keywords to query in OpenSearch
//! for a question.

use vstd::prelude::*;
use crate::connectors::llm::{
    agent_connector, is_chat_request, ChatRequest, ConfigValue, LLMConnector, LLMConnectorView,
};

verus! {

/// System prompt that instructs the LLM to act as an OpenSearch query expert
pub const SYSTEM_PROMPT: &'static str = "We have an Opensearch instant storing documents about code of conduct.
You are a data engineer who expertise Opensearch query.
Please suggest text query based on user's question return your answer only  and do not include prologue, prefix or suffix";

/// Agent that turns natural-language questions into OpenSearch text queries.
pub struct TextQueryBuilder {
    llm_connector: LLMConnector,
}

/// The prompt that asks for the keywords of a question.
pub open spec fn query_prompt(question: Seq<char>) -> Seq<char> {
    "# Instruction:\n\nBased on the following question, what keywords should be queried in Opensearch\n\n# Question:\n"@
        + question
}

impl View for TextQueryBuilder {
    type V = LLMConnectorView;

    closed spec fn view(&self) -> LLMConnectorView {
        self.llm_connector@
    }
}

impl TextQueryBuilder {
    /// Creates a builder whose model is told to act as an OpenSearch query expert.
    pub fn new(
        url: String,
        model: String,
        api_key: String,
        config: Option<Vec<(String, ConfigValue)>>,
    ) -> (r: Self)
        ensures
            r@ == agent_connector(url@, model@, api_key@, config, SYSTEM_PROMPT@),
    {
        TextQueryBuilder {
            llm_connector: LLMConnector::with_system_prompt(url, model, api_key, config, SYSTEM_PROMPT),
        }
    }

    /// The connector used for requests to the language model.
    pub fn llm_connector(&self) -> (r: &LLMConnector)
        ensures
            r@ == self@,
    {
        &self.llm_connector
    }

    /// The prompt that asks which keywords to query for `question`.
    pub fn construct_prompt(&self, question: &str) -> (r: String)
        ensures
            r@ == query_prompt(question@),
    {
        String::from_str(
            "# Instruction:\n\nBased on the following question, what keywords should be queried in Opensearch\n\n# Question:\n",
        ).concat(question)
    }

    /// The request that asks which keywords to query for `question`; its reply's
    /// text is the query.
    pub fn build_request(&self, question: &str) -> (r: ChatRequest)
        ensures
            is_chat_request(r, self@, query_prompt(question@), false),
    {
        let prompt = self.construct_prompt(question);
        self.llm_connector.chat_request(prompt.as_str(), false)
    }
}

} // verus!
