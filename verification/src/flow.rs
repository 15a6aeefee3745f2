//! The research flow: list the available topics, let the model pick one, build a
//! text query, search, summarize the hits, and answer from the useful summaries;
//! where no topic or no summary helps, the question is politely declined.
//!
//! The flow is a state machine: `Flow::step` takes what the outside world
//! answered and says what to do next. Whoever drives it performs each action
//! (an OpenSearch request or a model request) and hands back the reply.

use vstd::prelude::*;
use crate::agents::rejector::{rejection_prompt, RejectorAgent};
use crate::agents::source_summarizer::{summary_prompt, summary_reply, SourceSummarizer};
use crate::agents::text_query_builder::{query_prompt, TextQueryBuilder};
use crate::agents::topic_selector::{topic_answer, topic_prompt, topic_step, TopicSelector, TopicStep};
use crate::agents::user_interactive::{answer_prompt, UserInteractive};
use crate::constants::{LLM_HOST, MODEL, RETRY_COUNT};
use crate::json::{json_tree, JsonLeaf, JsonStep};
use crate::text::{
    all_digits, decimal, fmt_decimal, is_digit, law_parse_reads_decimal, lemma_decimal_digits, string_views, trim, TrimSet,
};
use crate::tools::searcher::{
    available_topics, available_topics_of, extract_search_results, lists_topics, numbered_topics,
    search_results_of, topic_choices,
};
use crate::types::{search_result_views, SearchResult, SearchResultView, Summary, SummaryView};

verus! {

/// Where the flow stands.
#[derive(Debug, Clone, Copy, PartialEq, Eq, Structural)]
pub enum FlowStage {
    /// Nothing has been asked yet.
    Start,
    /// Waiting for the list of topics.
    ListingTopics,
    /// Waiting for the model to name a topic, `tried` replies having been read.
    SelectingTopic { tried: u16 },
    /// Waiting for the model's text query.
    BuildingQuery,
    /// Waiting for the replies of the text and the vector search.
    Searching,
    /// Waiting for the model's reply about each search result.
    Summarizing,
    /// Waiting for the answer to have been streamed to the user.
    Answering,
    /// Waiting for the rejection to have been streamed to the user.
    Rejecting,
    /// The user has been answered.
    Finished,
    /// The flow stopped on an error.
    Failed { error: FlowError },
}

/// Why the flow stopped.
#[derive(Debug, Clone, Copy, PartialEq, Eq, Structural)]
pub enum FlowError {
    /// The reply to the topic aggregation lists no topic.
    NoTopics,
    /// No reply of the model named a topic in `RETRY_COUNT` attempts.
    TopicNotRead,
    /// There is not one reply for each search result to summarize.
    MissingSummaries,
    /// A reply about a search result is not the JSON the summarizer asks for.
    UnreadableSummary,
    /// An event came that the current stage does not wait for.
    UnexpectedEvent,
}

/// What the outside world answered.
pub enum FlowEvent {
    /// Begin the flow.
    Start,
    /// OpenSearch's reply to the topic aggregation.
    TopicsReply(serde_json::Value),
    /// The text of the model's reply to the last prompt.
    ModelReply(String),
    /// OpenSearch's replies to the text search and to the vector search.
    SearchReplies(serde_json::Value, serde_json::Value),
    /// The text of the model's reply to each summary prompt, in order.
    SummaryReplies(Vec<String>),
    /// The answer or the rejection has been streamed to the user.
    Streamed,
}

/// The contents of a `FlowEvent`.
pub enum FlowEventView {
    Start,
    TopicsReply(Map<Seq<JsonStep>, JsonLeaf>),
    ModelReply(Seq<char>),
    SearchReplies(Map<Seq<JsonStep>, JsonLeaf>, Map<Seq<JsonStep>, JsonLeaf>),
    SummaryReplies(Seq<Seq<char>>),
    Streamed,
}

impl View for FlowEvent {
    type V = FlowEventView;

    open spec fn view(&self) -> FlowEventView {
        match self {
            FlowEvent::Start => FlowEventView::Start,
            FlowEvent::TopicsReply(v) => FlowEventView::TopicsReply(json_tree(*v)),
            FlowEvent::ModelReply(s) => FlowEventView::ModelReply(s@),
            FlowEvent::SearchReplies(a, b) => FlowEventView::SearchReplies(json_tree(*a), json_tree(*b)),
            FlowEvent::SummaryReplies(v) => FlowEventView::SummaryReplies(string_views(v@)),
            FlowEvent::Streamed => FlowEventView::Streamed,
        }
    }
}

/// What to do next.
#[derive(Debug)]
pub enum FlowAction {
    /// Ask OpenSearch for the topic aggregation.
    ListTopics,
    /// Send the prompt to the topic selector's model.
    AskTopic { prompt: String },
    /// Send the prompt to the query builder's model.
    BuildQuery { prompt: String },
    /// Run the text and the vector search for `query` within `topic`.
    Search { query: String, topic: String },
    /// Send each prompt to the summarizer's model.
    Summarize { prompts: Vec<String> },
    /// Stream the answering model's reply to the prompt to the user.
    StreamAnswer { prompt: String },
    /// Stream the rejecting model's reply to the prompt to the user.
    StreamRejection { prompt: String },
    /// Nothing more: the user has been answered.
    Finish,
    /// Nothing more: the flow stopped on an error.
    Fail { error: FlowError },
}

/// The contents of a `FlowAction`.
pub enum FlowActionView {
    ListTopics,
    AskTopic { prompt: Seq<char> },
    BuildQuery { prompt: Seq<char> },
    Search { query: Seq<char>, topic: Seq<char> },
    Summarize { prompts: Seq<Seq<char>> },
    StreamAnswer { prompt: Seq<char> },
    StreamRejection { prompt: Seq<char> },
    Finish,
    Fail { error: FlowError },
}

impl View for FlowAction {
    type V = FlowActionView;

    open spec fn view(&self) -> FlowActionView {
        match self {
            FlowAction::ListTopics => FlowActionView::ListTopics,
            FlowAction::AskTopic { prompt } => FlowActionView::AskTopic { prompt: prompt@ },
            FlowAction::BuildQuery { prompt } => FlowActionView::BuildQuery { prompt: prompt@ },
            FlowAction::Search { query, topic } => FlowActionView::Search {
                query: query@,
                topic: topic@,
            },
            FlowAction::Summarize { prompts } => FlowActionView::Summarize {
                prompts: string_views(prompts@),
            },
            FlowAction::StreamAnswer { prompt } => FlowActionView::StreamAnswer { prompt: prompt@ },
            FlowAction::StreamRejection { prompt } => FlowActionView::StreamRejection {
                prompt: prompt@,
            },
            FlowAction::Finish => FlowActionView::Finish,
            FlowAction::Fail { error } => FlowActionView::Fail { error: *error },
        }
    }
}

/// The line that a useful summary contributes to the answer's sources.
pub open spec fn context_line(s: SummaryView) -> Seq<char> {
    s.summarize + " - Page: "@ + decimal(s.page as nat)
}

/// The lines of the useful summaries, in order.
pub open spec fn useful_contexts(s: Seq<SummaryView>) -> Seq<Seq<char>>
    decreases s.len(),
{
    if s.len() == 0 {
        Seq::empty()
    } else {
        let before = useful_contexts(s.drop_last());
        if s.last().is_useful {
            before.push(context_line(s.last()))
        } else {
            before
        }
    }
}

/// The summaries read from one reply per search result, where every reply reads.
pub open spec fn read_replies(replies: Seq<Seq<char>>, results: Seq<SearchResultView>) -> Option<
    Seq<SummaryView>,
> {
    if forall|i: int|
        0 <= i < results.len() ==> #[trigger] summary_reply(replies[i], results[i].page) is Some {
        Some(
            Seq::new(results.len(), |i: int| summary_reply(replies[i], results[i].page)->0),
        )
    } else {
        None
    }
}

/// The contents of a `Flow`.
pub struct FlowView {
    pub question: Seq<char>,
    pub stage: FlowStage,
    pub topics: Seq<Seq<char>>,
    pub topic_choices: Seq<char>,
    pub topic: Seq<char>,
    pub query: Seq<char>,
    pub results: Seq<SearchResultView>,
}

/// The reason given to the rejecting agent: the documents hold nothing that answers.
pub open spec fn no_info() -> Seq<char> {
    "no_info"@
}

/// `t` is `s` at another stage.
pub open spec fn at_stage(s: FlowView, t: FlowView, stage: FlowStage) -> bool {
    t == FlowView { stage, ..s }
}

/// `t` is `s` stopped on `error`, with action `a`.
pub open spec fn fails(s: FlowView, t: FlowView, a: FlowActionView, error: FlowError) -> bool {
    at_stage(s, t, FlowStage::Failed { error }) && a == (FlowActionView::Fail { error })
}

/// `t` is `s` rejecting its question, with action `a`.
pub open spec fn rejects(s: FlowView, t: FlowView, a: FlowActionView) -> bool {
    at_stage(s, t, FlowStage::Rejecting) && a == (FlowActionView::StreamRejection {
        prompt: rejection_prompt(s.question, no_info()),
    })
}

/// The step from `ListingTopics`: the topics listed by the reply are kept, sorted
/// and numbered, and the model is asked to pick one.
#[verifier::opaque]
pub open spec fn listing_next(s: FlowView, e: FlowEventView, t: FlowView, a: FlowActionView) -> bool {
    match e {
        FlowEventView::TopicsReply(reply) => if lists_topics(reply) {
            &&& t.topics.len() > 0
            &&& available_topics_of(reply, t.topics, t.topic_choices)
            &&& t == FlowView {
                stage: FlowStage::SelectingTopic { tried: 0 },
                topics: t.topics,
                topic_choices: t.topic_choices,
                ..s
            }
            &&& a == (FlowActionView::AskTopic { prompt: topic_prompt(s.question, t.topic_choices) })
        } else {
            fails(s, t, a, FlowError::NoTopics)
        },
        _ => fails(s, t, a, FlowError::UnexpectedEvent),
    }
}

/// The step from `SelectingTopic`: a reply naming 0 declines the question, one
/// naming a listed number selects the topic written after that number, and one
/// naming no number or a number beyond the list is asked again, until
/// `RETRY_COUNT` replies have been read.
#[verifier::opaque]
pub open spec fn selecting_next(
    s: FlowView,
    tried: u16,
    e: FlowEventView,
    t: FlowView,
    a: FlowActionView,
) -> bool {
    match e {
        FlowEventView::ModelReply(reply) => match topic_step(tried, reply, s.topics.len()) {
            TopicStep::Selected(k) => if k == 0 {
                rejects(s, t, a)
            } else {
                &&& t == FlowView { stage: FlowStage::BuildingQuery, topic: s.topics[k - 1], ..s }
                &&& a == (FlowActionView::BuildQuery { prompt: query_prompt(s.question) })
            },
            TopicStep::AskAgain(next) => at_stage(s, t, FlowStage::SelectingTopic { tried: next })
                && a == (FlowActionView::AskTopic {
                prompt: topic_prompt(s.question, s.topic_choices),
            }),
            TopicStep::GiveUp => fails(s, t, a, FlowError::TopicNotRead),
        },
        _ => fails(s, t, a, FlowError::UnexpectedEvent),
    }
}

/// The step from `BuildingQuery`: the reply is the query, searched within the topic.
#[verifier::opaque]
pub open spec fn querying_next(s: FlowView, e: FlowEventView, t: FlowView, a: FlowActionView) -> bool {
    match e {
        FlowEventView::ModelReply(query) => t == FlowView {
            stage: FlowStage::Searching,
            query,
            ..s
        } && a == (FlowActionView::Search { query, topic: s.topic }),
        _ => fails(s, t, a, FlowError::UnexpectedEvent),
    }
}

/// The step from `Searching`: the results of the text search and then of the
/// vector search are kept; without any the question is declined, otherwise the
/// model is asked about each.
#[verifier::opaque]
pub open spec fn searching_next(s: FlowView, e: FlowEventView, t: FlowView, a: FlowActionView) -> bool {
    match e {
        FlowEventView::SearchReplies(text_reply, vector_reply) => {
            let results = search_results_of(text_reply) + search_results_of(vector_reply);
            if results.len() == 0 {
                rejects(FlowView { results, ..s }, t, a)
            } else {
                &&& t == FlowView { stage: FlowStage::Summarizing, results, ..s }
                &&& a == (FlowActionView::Summarize {
                    prompts: Seq::new(
                        results.len(),
                        |i: int| summary_prompt(results[i].text, s.question),
                    ),
                })
            }
        },
        _ => fails(s, t, a, FlowError::UnexpectedEvent),
    }
}

/// The step from `Summarizing`: with one readable reply per result, the useful
/// summaries become the answer's sources, and without any the question is declined.
#[verifier::opaque]
pub open spec fn summarizing_next(s: FlowView, e: FlowEventView, t: FlowView, a: FlowActionView) -> bool {
    match e {
        FlowEventView::SummaryReplies(replies) => if replies.len() != s.results.len() {
            fails(s, t, a, FlowError::MissingSummaries)
        } else {
            match read_replies(replies, s.results) {
                Some(summaries) => {
                    let contexts = useful_contexts(summaries);
                    if contexts.len() == 0 {
                        rejects(s, t, a)
                    } else {
                        at_stage(s, t, FlowStage::Answering) && a == (FlowActionView::StreamAnswer {
                            prompt: answer_prompt(s.question, s.topic, contexts, s.results[0].url),
                        })
                    }
                },
                None => fails(s, t, a, FlowError::UnreadableSummary),
            }
        },
        _ => fails(s, t, a, FlowError::UnexpectedEvent),
    }
}

/// One step of the flow: from `s`, on event `e`, to `t` with action `a`. An event
/// that the stage does not wait for stops the flow; a finished or failed flow
/// stays as it is.
pub open spec fn flow_next(s: FlowView, e: FlowEventView, t: FlowView, a: FlowActionView) -> bool {
    match s.stage {
        FlowStage::Start => at_stage(s, t, FlowStage::ListingTopics) && a == FlowActionView::ListTopics,
        FlowStage::ListingTopics => listing_next(s, e, t, a),
        FlowStage::SelectingTopic { tried } => selecting_next(s, tried, e, t, a),
        FlowStage::BuildingQuery => querying_next(s, e, t, a),
        FlowStage::Searching => searching_next(s, e, t, a),
        FlowStage::Summarizing => summarizing_next(s, e, t, a),
        FlowStage::Answering | FlowStage::Rejecting => match e {
            FlowEventView::Streamed => at_stage(s, t, FlowStage::Finished) && a == FlowActionView::Finish,
            _ => fails(s, t, a, FlowError::UnexpectedEvent),
        },
        FlowStage::Finished => t == s && a == FlowActionView::Finish,
        FlowStage::Failed { error } => t == s && a == (FlowActionView::Fail { error }),
    }
}

/// A flow state that the machine can be in: a topic is selected only while
/// fewer than `RETRY_COUNT` replies have been read, and summaries are awaited
/// only for a non-empty list of search results.
pub open spec fn flow_wf(s: FlowView) -> bool {
    &&& (s.stage matches FlowStage::SelectingTopic { tried } ==> tried < RETRY_COUNT)
    &&& (s.stage == FlowStage::Summarizing ==> s.results.len() > 0)
}


/// A measure of how far the flow is from its end; each step lowers it.
pub open spec fn flow_rank(s: FlowView) -> int {
    match s.stage {
        FlowStage::Start => 20,
        FlowStage::ListingTopics => 19,
        FlowStage::SelectingTopic { tried } => 18 - tried,
        FlowStage::BuildingQuery => 4,
        FlowStage::Searching => 3,
        FlowStage::Summarizing => 2,
        FlowStage::Answering => 1,
        FlowStage::Rejecting => 1,
        FlowStage::Finished => 0,
        FlowStage::Failed { .. } => 0,
    }
}

/// A flow that has finished or failed.
pub open spec fn flow_ended(s: FlowView) -> bool {
    s.stage == FlowStage::Finished || s.stage is Failed
}

/// Every step of a flow that has not ended brings it closer to its end and keeps
/// it well formed, so that the flow ends after at most twenty steps; an ended
/// flow stays as it is. Each question for a topic counts one more attempt, and a
/// well-formed flow has made fewer than `RETRY_COUNT`, so the model is asked for a
/// topic at most `RETRY_COUNT` times.
pub proof fn law_flow_progress(s: FlowView, e: FlowEventView, t: FlowView, a: FlowActionView)
    requires
        flow_wf(s),
        flow_next(s, e, t, a),
    ensures
        flow_wf(t),
        flow_ended(s) ==> t == s,
        !flow_ended(s) ==> 0 <= flow_rank(t) < flow_rank(s),
        a is AskTopic ==> (s.stage == FlowStage::ListingTopics && t.stage == (FlowStage::SelectingTopic {
            tried: 0,
        })) || (s.stage matches FlowStage::SelectingTopic { tried } && t.stage == (
        FlowStage::SelectingTopic { tried: (tried + 1) as u16 })),
{
    reveal(listing_next);
    reveal(selecting_next);
    reveal(querying_next);
    reveal(searching_next);
    reveal(summarizing_next);
}

/// The topic that the model's reply selects is the one written after the number
/// it names in the list of choices: answering `k` (with or without surrounding
/// white space) while choosing among `n >= k >= 1` topics moves the flow on to
/// build a query within topic `k`, which the choices list as "k. topic".
pub proof fn law_listed_number_selects_topic(s: FlowView, e: FlowEventView, t: FlowView, a: FlowActionView, k: usize)
    requires
        flow_wf(s),
        s.stage is SelectingTopic,
        1 <= k <= s.topics.len(),
        e == FlowEventView::ModelReply(decimal(k as nat)),
        flow_next(s, e, t, a),
    ensures
        numbered_topics(s.topics)[k - 1] == decimal(k as nat) + ". "@ + t.topic,
        t.topic == s.topics[k - 1],
        t.stage == FlowStage::BuildingQuery,
        a == (FlowActionView::BuildQuery { prompt: query_prompt(s.question) }),
{
    reveal(selecting_next);
    law_parse_reads_decimal(k);
    lemma_decimal_digits(k as nat);
    lemma_digits_untrimmed(decimal(k as nat));
}

proof fn lemma_digits_untrimmed(d: Seq<char>)
    requires
        d.len() > 0,
        all_digits(d),
    ensures
        trim(d, TrimSet::WhiteSpace) == d,
{
    assert(is_digit(d[0]));
    assert(is_digit(d.last()));
}

/// A question for which the model names no document (it answers 0) is declined:
/// nothing is searched, and the rejecting agent is asked to explain that the
/// documents hold nothing to answer it.
pub proof fn law_no_topic_declines(s: FlowView, e: FlowEventView, t: FlowView, a: FlowActionView)
    requires
        flow_wf(s),
        s.stage is SelectingTopic,
        e matches FlowEventView::ModelReply(reply) && topic_answer(reply) == Some(0usize),
        flow_next(s, e, t, a),
    ensures
        t.stage == FlowStage::Rejecting,
        a == (FlowActionView::StreamRejection { prompt: rejection_prompt(s.question, "no_info"@) }),
{
    reveal(selecting_next);
}

/// Where none of the summaries is useful, the question is declined instead of
/// answered; where some are, the answer is asked for from exactly the useful
/// ones, in order, each with its page.
pub proof fn law_answer_from_useful_summaries(s: FlowView, e: FlowEventView, t: FlowView, a: FlowActionView)
    requires
        flow_wf(s),
        s.stage == FlowStage::Summarizing,
        e matches FlowEventView::SummaryReplies(replies) && replies.len() == s.results.len()
            && read_replies(replies, s.results) is Some,
        flow_next(s, e, t, a),
    ensures
        ({
            let contexts = useful_contexts(
                read_replies(e->SummaryReplies_0, s.results)->0,
            );
            &&& contexts.len() == 0 ==> t.stage == FlowStage::Rejecting && a == (
            FlowActionView::StreamRejection { prompt: rejection_prompt(s.question, "no_info"@) })
            &&& contexts.len() > 0 ==> t.stage == FlowStage::Answering && a == (
            FlowActionView::StreamAnswer {
                prompt: answer_prompt(s.question, s.topic, contexts, s.results[0].url),
            })
        }),
{
    reveal(summarizing_next);
}

/// The summaries read from the replies follow the search results: one per
/// result, in order, the `i`-th being what the `i`-th reply says of the `i`-th
/// result, on that result's page. (The `i`-th reply answers the `i`-th prompt of
/// the `Summarize` action, which asks about the `i`-th result's text.)
pub proof fn law_summaries_follow_results(replies: Seq<Seq<char>>, results: Seq<SearchResultView>)
    requires
        read_replies(replies, results) is Some,
    ensures
        ({
            let s = read_replies(replies, results)->0;
            &&& s.len() == results.len()
            &&& forall|i: int|
                0 <= i < results.len() ==> Some(#[trigger] s[i]) == summary_reply(
                    replies[i],
                    results[i].page,
                ) && s[i].page == results[i].page
        }),
{
    let s = read_replies(replies, results)->0;
    assert forall|i: int| 0 <= i < results.len() implies Some(#[trigger] s[i]) == summary_reply(
        replies[i],
        results[i].page,
    ) && s[i].page == results[i].page by {
        assert(summary_reply(replies[i], results[i].page) is Some);
    }
}

/// No step changes the question: every prompt the flow builds is about the
/// question it was created for. Once listed, the topics and their numbered
/// choices stay as they are.
pub proof fn law_question_kept(s: FlowView, e: FlowEventView, t: FlowView, a: FlowActionView)
    requires
        flow_next(s, e, t, a),
    ensures
        t.question == s.question,
        s.stage != FlowStage::ListingTopics ==> t.topics == s.topics && t.topic_choices
            == s.topic_choices,
{
    reveal(listing_next);
    reveal(selecting_next);
    reveal(querying_next);
    reveal(searching_next);
    reveal(summarizing_next);
}

/// Every question for a topic, the first and each one asked again, sends the
/// same prompt: the flow's own question and its numbered list of the listed
/// topics, the list under "# Available source:" and the question under
/// "# Question:". The list is written when the topics are listed and is not
/// changed by the questions that follow.
pub proof fn law_topic_questions(s: FlowView, e: FlowEventView, t: FlowView, a: FlowActionView)
    requires
        flow_next(s, e, t, a),
        a is AskTopic,
    ensures
        a->AskTopic_prompt == topic_prompt(s.question, t.topic_choices),
        s.stage == FlowStage::ListingTopics ==> t.topics.len() > 0 && t.topic_choices
            == topic_choices(t.topics),
        s.stage is SelectingTopic ==> t.topic_choices == s.topic_choices && t.topics == s.topics,
        t.question == s.question,
{
    reveal(listing_next);
    reveal(selecting_next);
    reveal(querying_next);
    reveal(searching_next);
    reveal(summarizing_next);
}

/// After a search with results, the model is asked about each result in turn:
/// the `i`-th prompt gives the `i`-th result's text as the source and asks the
/// question the flow was created for (not the query built for the search).
pub proof fn law_summary_prompts(s: FlowView, e: FlowEventView, t: FlowView, a: FlowActionView)
    requires
        flow_next(s, e, t, a),
        a is Summarize,
    ensures
        s.stage == FlowStage::Searching,
        t.stage == FlowStage::Summarizing,
        a->Summarize_prompts.len() == t.results.len(),
        t.results.len() > 0,
        forall|i: int|
            0 <= i < t.results.len() ==> #[trigger] a->Summarize_prompts[i] == "# Source:\n"@
                + t.results[i].text + "\n\n# question:\n\n"@ + s.question,
        forall|i: int|
            0 <= i < t.results.len() ==> a->Summarize_prompts[i] == summary_prompt(
                t.results[i].text,
                s.question,
            ),
{
    reveal(listing_next);
    reveal(selecting_next);
    reveal(querying_next);
    reveal(searching_next);
    reveal(summarizing_next);
}

/// The answer's sources are one line per useful summary, in order, and no
/// other: the useful summaries, each written as its text, " - Page: " and its
/// page number. There are as many lines as useful summaries.
pub proof fn law_useful_contexts(s: Seq<SummaryView>)
    ensures
        useful_contexts(s) == s.filter(|x: SummaryView| x.is_useful).map_values(
            |x: SummaryView| x.summarize + " - Page: "@ + decimal(x.page as nat),
        ),
        useful_contexts(s).len() == s.filter(|x: SummaryView| x.is_useful).len(),
    decreases s.len(),
{
    reveal(Seq::filter);
    let pred = |x: SummaryView| x.is_useful;
    let line = |x: SummaryView| x.summarize + " - Page: "@ + decimal(x.page as nat);
    if s.len() > 0 {
        law_useful_contexts(s.drop_last());
        let before = s.drop_last().filter(pred);
        if s.last().is_useful {
            assert(before.push(s.last()).map_values(line) =~= before.map_values(line).push(
                line(s.last()),
            ));
        }
    } else {
        assert(s.filter(pred).map_values(line) =~= Seq::<Seq<char>>::empty());
    }
}

/// The research flow for one question.
pub struct Flow {
    question: String,
    stage: FlowStage,
    topics: Vec<String>,
    topic_choices: String,
    topic: String,
    query: String,
    results: Vec<SearchResult>,
    topic_selector: TopicSelector,
    text_query_builder: TextQueryBuilder,
    summarizer: SourceSummarizer,
    user_interactive: UserInteractive,
    rejector: RejectorAgent,
}

impl View for Flow {
    type V = FlowView;

    closed spec fn view(&self) -> FlowView {
        FlowView {
            question: self.question@,
            stage: self.stage,
            topics: string_views(self.topics@),
            topic_choices: self.topic_choices@,
            topic: self.topic@,
            query: self.query@,
            results: search_result_views(self.results@),
        }
    }
}

fn read_summary_replies(replies: &Vec<String>, results: &Vec<SearchResult>) -> (r: Option<
    Vec<Summary>,
>)
    requires
        replies@.len() == results@.len(),
    ensures
        match r {
            Some(v) => read_replies(string_views(replies@), search_result_views(results@)) == Some(
                crate::types::summary_views(v@),
            ),
            None => read_replies(string_views(replies@), search_result_views(results@)) is None,
        },
{
    let ghost rs = string_views(replies@);
    let ghost res = search_result_views(results@);
    let mut summaries: Vec<Summary> = Vec::new();
    let mut i: usize = 0;
    while i < results.len()
        invariant
            i <= results@.len(),
            replies@.len() == results@.len(),
            rs == string_views(replies@),
            res == search_result_views(results@),
            summaries@.len() == i,
            forall|k: int|
                0 <= k < i ==> summary_reply(rs[k], res[k].page) == Some(
                    (#[trigger] summaries@[k])@,
                ),
        decreases results@.len() - i,
    {
        match SourceSummarizer::read_summary(replies[i].as_str(), results[i].page) {
            Some(summary) => {
                summaries.push(summary);
            },
            None => {
                assert(summary_reply(rs[i as int], res[i as int].page) is None);
                return None;
            },
        }
        i = i + 1;
    }
    assert forall|k: int| 0 <= k < res.len() implies #[trigger] summary_reply(rs[k], res[k].page) is Some by {
        assert(summary_reply(rs[k], res[k].page) == Some(summaries@[k]@));
    }
    assert(crate::types::summary_views(summaries@) =~= Seq::new(
        res.len(),
        |k: int| summary_reply(rs[k], res[k].page)->0,
    ));
    Some(summaries)
}

fn combined_results(text_reply: &serde_json::Value, vector_reply: &serde_json::Value) -> (r: Vec<
    SearchResult,
>)
    ensures
        search_result_views(r@) == search_results_of(json_tree(*text_reply)) + search_results_of(
            json_tree(*vector_reply),
        ),
{
    let mut results = extract_search_results(text_reply);
    let mut more = extract_search_results(vector_reply);
    let ghost a_part = search_result_views(results@);
    let ghost b_part = search_result_views(more@);
    results.append(&mut more);
    assert(search_result_views(results@) =~= a_part + b_part);
    results
}

fn useful_context_lines(summaries: &Vec<Summary>) -> (r: Vec<String>)
    ensures
        string_views(r@) == useful_contexts(crate::types::summary_views(summaries@)),
{
    let ghost sv = crate::types::summary_views(summaries@);
    let mut r: Vec<String> = Vec::new();
    let mut i: usize = 0;
    while i < summaries.len()
        invariant
            i <= summaries@.len(),
            sv == crate::types::summary_views(summaries@),
            string_views(r@) == useful_contexts(sv.take(i as int)),
        decreases summaries@.len() - i,
    {
        assert(sv.take(i + 1).drop_last() =~= sv.take(i as int));
        let summary = &summaries[i];
        if summary.is_useful {
            let line = summary.summarize.clone().concat(" - Page: ").concat(
                fmt_decimal(summary.page as u64).as_str(),
            );
            let ghost before = r@;
            r.push(line);
            assert(string_views(r@) =~= string_views(before).push(line@));
        }
        i = i + 1;
    }
    assert(sv.take(summaries@.len() as int) =~= sv);
    r
}

impl Flow {
    /// The agents and state of a well-formed flow: the state is one the machine
    /// can be in, and each agent talks to `LLM_HOST` with `MODEL`, no API key and
    /// the default configuration.
    pub closed spec fn wf(&self) -> bool {
        &&& flow_wf(self@)
        &&& self.topic_selector@ == crate::connectors::llm::agent_connector(
            LLM_HOST@,
            MODEL@,
            "Not use"@,
            None,
            crate::agents::topic_selector::SYSTEM_PROMPT@,
        )
        &&& self.text_query_builder@ == crate::connectors::llm::agent_connector(
            LLM_HOST@,
            MODEL@,
            "Not use"@,
            None,
            crate::agents::text_query_builder::SYSTEM_PROMPT@,
        )
        &&& self.summarizer@ == crate::connectors::llm::agent_connector(
            LLM_HOST@,
            MODEL@,
            "Not use"@,
            None,
            crate::agents::source_summarizer::SYSTEM_PROMPT@,
        )
        &&& self.user_interactive@ == crate::connectors::llm::agent_connector(
            LLM_HOST@,
            MODEL@,
            "Not use"@,
            None,
            crate::agents::user_interactive::SYSTEM_PROMPT@,
        )
        &&& self.rejector@ == crate::connectors::llm::agent_connector(
            LLM_HOST@,
            MODEL@,
            "Not use"@,
            None,
            crate::agents::rejector::SYSTEM_PROMPT@,
        )
    }

    /// A flow for `question` that has not asked anything yet.
    pub fn new(question: &str) -> (r: Self)
        ensures
            r.wf(),
            flow_wf(r@),
            r@ == (FlowView {
                question: question@,
                stage: FlowStage::Start,
                topics: Seq::empty(),
                topic_choices: Seq::empty(),
                topic: Seq::empty(),
                query: Seq::empty(),
                results: Seq::empty(),
            }),
    {
        let r = Flow {
            question: String::from_str(question),
            stage: FlowStage::Start,
            topics: Vec::new(),
            topic_choices: String::new(),
            topic: String::new(),
            query: String::new(),
            results: Vec::new(),
            topic_selector: TopicSelector::new(
                String::from_str(LLM_HOST),
                String::from_str(MODEL),
                String::from_str("Not use"),
                None,
            ),
            text_query_builder: TextQueryBuilder::new(
                String::from_str(LLM_HOST),
                String::from_str(MODEL),
                String::from_str("Not use"),
                None,
            ),
            summarizer: SourceSummarizer::new(
                String::from_str(LLM_HOST),
                String::from_str(MODEL),
                String::from_str("Not use"),
                None,
            ),
            user_interactive: UserInteractive::new(
                String::from_str(LLM_HOST),
                String::from_str(MODEL),
                String::from_str("Not use"),
                None,
            ),
            rejector: RejectorAgent::new(
                String::from_str(LLM_HOST),
                String::from_str(MODEL),
                String::from_str("Not use"),
                None,
            ),
        };
        assert(string_views(r.topics@) =~= Seq::<Seq<char>>::empty());
        assert(search_result_views(r.results@) =~= Seq::<SearchResultView>::empty());
        r
    }

    /// A well-formed flow is in a state that the machine can be in, so that the
    /// laws over `flow_next` apply to it.
    pub proof fn lemma_wf(&self)
        requires
            self.wf(),
        ensures
            flow_wf(self@),
    {
    }

    /// The agent that picks the topic.
    pub fn topic_selector(&self) -> (r: &TopicSelector)
        requires
            self.wf(),
        ensures
            r@ == crate::connectors::llm::agent_connector(
                LLM_HOST@,
                MODEL@,
                "Not use"@,
                None,
                crate::agents::topic_selector::SYSTEM_PROMPT@,
            ),
    {
        &self.topic_selector
    }

    /// The agent that builds the text query.
    pub fn text_query_builder(&self) -> (r: &TextQueryBuilder)
        requires
            self.wf(),
        ensures
            r@ == crate::connectors::llm::agent_connector(
                LLM_HOST@,
                MODEL@,
                "Not use"@,
                None,
                crate::agents::text_query_builder::SYSTEM_PROMPT@,
            ),
    {
        &self.text_query_builder
    }

    /// The agent that summarizes the search results.
    pub fn summarizer(&self) -> (r: &SourceSummarizer)
        requires
            self.wf(),
        ensures
            r@ == crate::connectors::llm::agent_connector(
                LLM_HOST@,
                MODEL@,
                "Not use"@,
                None,
                crate::agents::source_summarizer::SYSTEM_PROMPT@,
            ),
    {
        &self.summarizer
    }

    /// The agent that answers the user.
    pub fn user_interactive(&self) -> (r: &UserInteractive)
        requires
            self.wf(),
        ensures
            r@ == crate::connectors::llm::agent_connector(
                LLM_HOST@,
                MODEL@,
                "Not use"@,
                None,
                crate::agents::user_interactive::SYSTEM_PROMPT@,
            ),
    {
        &self.user_interactive
    }

    /// The agent that declines the question.
    pub fn rejector(&self) -> (r: &RejectorAgent)
        requires
            self.wf(),
        ensures
            r@ == crate::connectors::llm::agent_connector(
                LLM_HOST@,
                MODEL@,
                "Not use"@,
                None,
                crate::agents::rejector::SYSTEM_PROMPT@,
            ),
    {
        &self.rejector
    }

    /// Where the flow stands.
    pub fn stage(&self) -> (r: FlowStage)
        ensures
            r == self@.stage,
    {
        self.stage
    }

    /// The available topics, once listed.
    pub fn topics(&self) -> (r: &Vec<String>)
        ensures
            string_views(r@) == self@.topics,
    {
        &self.topics
    }

    /// The numbered list of topics offered to the model, once listed.
    pub fn topic_choices(&self) -> (r: &str)
        ensures
            r@ == self@.topic_choices,
    {
        self.topic_choices.as_str()
    }

    /// The selected topic, once selected.
    pub fn topic(&self) -> (r: &str)
        ensures
            r@ == self@.topic,
    {
        self.topic.as_str()
    }

    /// The text query, once built.
    pub fn query(&self) -> (r: &str)
        ensures
            r@ == self@.query,
    {
        self.query.as_str()
    }

    fn fail(&mut self, error: FlowError) -> (a: FlowAction)
        requires
            old(self).wf(),
        ensures
            final(self).wf(),
            fails(old(self)@, final(self)@, a@, error),
    {
        self.stage = FlowStage::Failed { error };
        FlowAction::Fail { error }
    }

    fn reject(&mut self) -> (a: FlowAction)
        requires
            old(self).wf(),
        ensures
            final(self).wf(),
            rejects(old(self)@, final(self)@, a@),
    {
        proof {
            reveal_strlit("no_info");
            reveal_strlit("not_legal");
        }
        let prompt = self.rejector.construct_prompt(self.question.as_str(), "no_info");
        self.stage = FlowStage::Rejecting;
        FlowAction::StreamRejection { prompt }
    }

    fn on_topics(&mut self, event: FlowEvent) -> (a: FlowAction)
        requires
            old(self).wf(),
            old(self)@.stage == FlowStage::ListingTopics,
        ensures
            final(self).wf(),
            flow_next(old(self)@, event@, final(self)@, a@),
    {
        reveal(listing_next);
        match event {
            FlowEvent::TopicsReply(reply) => match available_topics(&reply) {
                Some((topics, choices)) => {
                    let prompt = self.topic_selector.construct_prompt(
                        self.question.as_str(),
                        choices.as_str(),
                    );
                    self.topics = topics;
                    self.topic_choices = choices;
                    self.stage = FlowStage::SelectingTopic { tried: 0 };
                    FlowAction::AskTopic { prompt }
                },
                None => self.fail(FlowError::NoTopics),
            },
            _ => self.fail(FlowError::UnexpectedEvent),
        }
    }

    fn on_topic_reply(&mut self, tried: u16, event: FlowEvent) -> (a: FlowAction)
        requires
            old(self).wf(),
            old(self)@.stage == (FlowStage::SelectingTopic { tried }),
        ensures
            final(self).wf(),
            flow_next(old(self)@, event@, final(self)@, a@),
    {
        reveal(selecting_next);
        match event {
            FlowEvent::ModelReply(reply) => match TopicSelector::select_topic_step(
                tried,
                reply.as_str(),
                self.topics.len(),
            ) {
                TopicStep::Selected(k) => {
                    if k == 0 {
                        self.reject()
                    } else {
                        self.topic = self.topics[k - 1].clone();
                        self.stage = FlowStage::BuildingQuery;
                        let prompt = self.text_query_builder.construct_prompt(self.question.as_str());
                        FlowAction::BuildQuery { prompt }
                    }
                },
                TopicStep::AskAgain(next) => {
                    self.stage = FlowStage::SelectingTopic { tried: next };
                    let prompt = self.topic_selector.construct_prompt(
                        self.question.as_str(),
                        self.topic_choices.as_str(),
                    );
                    FlowAction::AskTopic { prompt }
                },
                TopicStep::GiveUp => self.fail(FlowError::TopicNotRead),
            },
            _ => self.fail(FlowError::UnexpectedEvent),
        }
    }

    fn on_query(&mut self, event: FlowEvent) -> (a: FlowAction)
        requires
            old(self).wf(),
            old(self)@.stage == FlowStage::BuildingQuery,
        ensures
            final(self).wf(),
            flow_next(old(self)@, event@, final(self)@, a@),
    {
        reveal(querying_next);
        match event {
            FlowEvent::ModelReply(query) => {
                let topic = self.topic.clone();
                self.query = query.clone();
                self.stage = FlowStage::Searching;
                FlowAction::Search { query, topic }
            },
            _ => self.fail(FlowError::UnexpectedEvent),
        }
    }

    fn on_search(&mut self, event: FlowEvent) -> (a: FlowAction)
        requires
            old(self).wf(),
            old(self)@.stage == FlowStage::Searching,
        ensures
            final(self).wf(),
            flow_next(old(self)@, event@, final(self)@, a@),
    {
        reveal(searching_next);
        match event {
            FlowEvent::SearchReplies(text_reply, vector_reply) => {
                let results = combined_results(&text_reply, &vector_reply);
                self.results = results;
                if self.results.len() == 0 {
                    self.reject()
                } else {
                    let prompts = self.summarizer.context_prompts(
                        &self.results,
                        self.question.as_str(),
                    );
                    self.stage = FlowStage::Summarizing;
                    proof {
                        let res = search_result_views(self.results@);
                        assert(string_views(prompts@) =~= Seq::new(
                            res.len(),
                            |i: int| summary_prompt(res[i].text, self.question@),
                        ));
                    }
                    FlowAction::Summarize { prompts }
                }
            },
            _ => self.fail(FlowError::UnexpectedEvent),
        }
    }

    fn on_summaries(&mut self, event: FlowEvent) -> (a: FlowAction)
        requires
            old(self).wf(),
            old(self)@.stage == FlowStage::Summarizing,
        ensures
            final(self).wf(),
            flow_next(old(self)@, event@, final(self)@, a@),
    {
        reveal(summarizing_next);
        match event {
            FlowEvent::SummaryReplies(replies) => {
                if replies.len() != self.results.len() {
                    self.fail(FlowError::MissingSummaries)
                } else {
                    match read_summary_replies(&replies, &self.results) {
                        Some(summaries) => {
                            let contexts = useful_context_lines(&summaries);
                            if contexts.len() == 0 {
                                self.reject()
                            } else {
                                let prompt = self.user_interactive.construct_prompt(
                                    self.question.as_str(),
                                    self.topic.as_str(),
                                    contexts,
                                    self.results[0].url.as_str(),
                                );
                                self.stage = FlowStage::Answering;
                                FlowAction::StreamAnswer { prompt }
                            }
                        },
                        None => self.fail(FlowError::UnreadableSummary),
                    }
                }
            },
            _ => self.fail(FlowError::UnexpectedEvent),
        }
    }

    /// Takes the outside world's answer and says what to do next.
    pub fn step(&mut self, event: FlowEvent) -> (a: FlowAction)
        requires
            old(self).wf(),
        ensures
            final(self).wf(),
            flow_wf(final(self)@),
            flow_next(old(self)@, event@, final(self)@, a@),
    {
        match self.stage {
            FlowStage::Start => {
                self.stage = FlowStage::ListingTopics;
                FlowAction::ListTopics
            },
            FlowStage::ListingTopics => self.on_topics(event),
            FlowStage::SelectingTopic { tried } => self.on_topic_reply(tried, event),
            FlowStage::BuildingQuery => self.on_query(event),
            FlowStage::Searching => self.on_search(event),
            FlowStage::Summarizing => self.on_summaries(event),
            FlowStage::Answering | FlowStage::Rejecting => match event {
                FlowEvent::Streamed => {
                    self.stage = FlowStage::Finished;
                    FlowAction::Finish
                },
                _ => self.fail(FlowError::UnexpectedEvent),
            },
            FlowStage::Finished => FlowAction::Finish,
            FlowStage::Failed { error } => FlowAction::Fail { error },
        }
    }
}

} // verus!
