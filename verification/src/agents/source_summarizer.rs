//! Source summarization agent: asks the model whether a retrieved text helps
//! answer a question and for a summary of it, and reads its JSON reply.

use vstd::prelude::*;
use crate::json::{
    json_as_bool, json_as_str, json_bool, json_child, json_member, json_text, parse_json,
    parsed_json, JsonStep,
};
use crate::connectors::llm::{
    agent_connector, is_chat_request, ChatRequest, ConfigValue, LLMConnector, LLMConnectorView,
};
use crate::text::{trim, trim_by, TrimSet};
use crate::types::{search_result_views, SearchResult, Summary, SummaryView};

verus! {

/// System prompt that instructs the LLM to evaluate and summarize legal documents
pub const SYSTEM_PROMPT: &'static str = "You are an expert in lawfirm who are assigned to consider whether a text data source is useful to answer a user question or not. If yes, you will summarize the text which corespond user's question for another expert to write answer the user , otherwise, do nothing. You answer must be in JSON format with field:
\"is_useful\": boolean determining whether the source is useful,
\"summarize\": string your summarization refering the part for the text or empty string if not useful

return your answer only and do not include prologue, prefix or suffix";

/// Agent that judges retrieved texts and summarizes the useful ones.
pub struct SourceSummarizer {
    llm_connector: LLMConnector,
}

impl View for SourceSummarizer {
    type V = LLMConnectorView;

    closed spec fn view(&self) -> LLMConnectorView {
        self.llm_connector@
    }
}

/// The prompt that asks about one text source.
pub open spec fn summary_prompt(text_source: Seq<char>, question: Seq<char>) -> Seq<char> {
    "# Source:\n"@ + text_source + "\n\n# question:\n\n"@ + question
}

/// What a reply of the model says of a source: the reply, stripped of the
/// characters of "`json" at both ends, must be a JSON document with a boolean
/// `is_useful` and a string `summarize`.
pub open spec fn summary_fields(reply: Seq<char>) -> Option<(bool, Seq<char>)> {
    match parsed_json(trim(reply, TrimSet::CodeFence)) {
        Some(t) => match (
            json_bool(json_child(t, JsonStep::Key("is_useful"@))),
            json_text(json_child(t, JsonStep::Key("summarize"@))),
        ) {
            (Some(is_useful), Some(summarize)) => Some((is_useful, summarize)),
            _ => None,
        },
        None => None,
    }
}

/// The summary that a reply gives of a source on page `page`.
pub open spec fn summary_reply(reply: Seq<char>, page: u32) -> Option<SummaryView> {
    match summary_fields(reply) {
        Some((is_useful, summarize)) => Some(SummaryView { is_useful, summarize, page }),
        None => None,
    }
}

fn read_fields(reply: &str) -> (r: Option<(bool, String)>)
    ensures
        match r {
            Some((b, s)) => summary_fields(reply@) == Some((b, s@)),
            None => summary_fields(reply@) is None,
        },
{
    let trimmed = trim_by(reply, TrimSet::CodeFence);
    match parse_json(trimmed) {
        Some(v) => {
            let is_useful = json_as_bool(json_member(&v, "is_useful"));
            let summarize = json_as_str(json_member(&v, "summarize"));
            match (is_useful, summarize) {
                (Some(b), Some(s)) => Some((b, String::from_str(s))),
                _ => None,
            }
        },
        None => None,
    }
}

impl SourceSummarizer {
    /// Creates a summarizer whose model is told to answer in JSON.
    pub fn new(
        url: String,
        model: String,
        api_key: String,
        config: Option<Vec<(String, ConfigValue)>>,
    ) -> (r: Self)
        ensures
            r@ == agent_connector(url@, model@, api_key@, config, SYSTEM_PROMPT@),
    {
        SourceSummarizer {
            llm_connector: LLMConnector::with_system_prompt(url, model, api_key, config, SYSTEM_PROMPT),
        }
    }

    /// The connector used for requests to the language model.
    pub fn llm_connector(&self) -> (r: &LLMConnector)
        ensures
            r@ == self@,
    {
        &self.llm_connector
    }

    /// The prompt that asks whether `text_source` helps answer `question`.
    pub fn construct_prompt(&self, text_source: &str, question: &str) -> (r: String)
        ensures
            r@ == summary_prompt(text_source@, question@),
    {
        String::from_str("# Source:\n").concat(text_source).concat("\n\n# question:\n\n").concat(
            question,
        )
    }

    /// The prompts for each search result, in order: each asks about the result's text.
    pub fn context_prompts(&self, search_results: &Vec<SearchResult>, question: &str) -> (r: Vec<
        String,
    >)
        ensures
            r@.len() == search_results@.len(),
            forall|i: int|
                0 <= i < r@.len() ==> (#[trigger] r@[i])@ == summary_prompt(
                    search_result_views(search_results@)[i].text,
                    question@,
                ),
    {
        let mut r: Vec<String> = Vec::new();
        let mut i: usize = 0;
        while i < search_results.len()
            invariant
                i <= search_results@.len(),
                r@.len() == i,
                forall|k: int|
                    0 <= k < i ==> (#[trigger] r@[k])@ == summary_prompt(
                        search_result_views(search_results@)[k].text,
                        question@,
                    ),
            decreases search_results.len() - i,
        {
            r.push(self.construct_prompt(search_results[i].text.as_str(), question));
            i = i + 1;
        }
        r
    }

    /// The request that asks about one search result: about its text, the reply
    /// being read with its page (`summarize_reply(reply, search_result.page)`).
    pub fn context_request(&self, search_result: &SearchResult, question: &str) -> (r: ChatRequest)
        ensures
            is_chat_request(r, self@, summary_prompt(search_result@.text, question@), false),
    {
        let prompt = self.construct_prompt(search_result.text.as_str(), question);
        self.llm_connector.chat_request(prompt.as_str(), false)
    }

    /// The summary that the model's reply gives of a source on page `page`; the
    /// reply must be the JSON asked for.
    pub fn summarize_reply(reply: &str, page: u32) -> (r: Summary)
        requires
            summary_fields(reply@) is Some,
        ensures
            summary_reply(reply@, page) == Some(r@),
    {
        match read_fields(reply) {
            Some((is_useful, summarize)) => Summary { is_useful, summarize, page },
            None => {
                proof {
                    assert(false);
                }
                Summary { is_useful: false, summarize: String::new(), page }
            },
        }
    }

    /// The summary that the model's reply gives of a source on page `page`, or
    /// `None` where the reply is not JSON with a boolean `is_useful` and a string
    /// `summarize`.
    pub fn read_summary(reply: &str, page: u32) -> (r: Option<Summary>)
        ensures
            match r {
                Some(s) => summary_reply(reply@, page) == Some(s@),
                None => summary_reply(reply@, page) is None,
            },
    {
        match read_fields(reply) {
            Some(_) => Some(Self::summarize_reply(reply, page)),
            None => None,
        }
    }
}

} // verus!
