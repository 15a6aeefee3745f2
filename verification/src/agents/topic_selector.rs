//! Topic selection agent: asks the model which of the available legal topics can
//! answer a question, and reads the number it answers.

use vstd::prelude::*;
use crate::constants::RETRY_COUNT;
use crate::connectors::llm::{
    agent_connector, is_chat_request, ChatRequest, ConfigValue, LLMConnector, LLMConnectorView,
};
use crate::text::{parse_usize, parse_usize_spec, trim, trim_by, TrimSet};

verus! {

/// System prompt used to instruct the LLM to return only a numeric response
pub const SYSTEM_PROMPT: &'static str =
    "Pick a choice, please answer only a number and do not include prologue, prefix or suffix";

/// The message returned when no reply could be read as a number.
pub const SELECTION_FAILED: &'static str = "Cannot parse to usize";

/// Agent that selects the most relevant legal topic for a question.
pub struct TopicSelector {
    llm_connector: LLMConnector,
}

impl View for TopicSelector {
    type V = LLMConnectorView;

    closed spec fn view(&self) -> LLMConnectorView {
        self.llm_connector@
    }
}

/// The prompt that asks for the index of a topic.
pub open spec fn topic_prompt(user_prompt: Seq<char>, topics_prompt: Seq<char>) -> Seq<char> {
    "# Instruction:\nPick an index of document that you think that it can help answer the following question or pick 0 if you think they are not helpful. Please answer only as a number and do not include prologue, prefix or suffix.\n\n# Available source:\n"@
        + topics_prompt + "\n\n# Question:\n"@ + user_prompt
}

/// The index that a reply of the model names: the reply without surrounding white
/// space, read as an unsigned number.
pub open spec fn topic_answer(reply: Seq<char>) -> Option<usize> {
    parse_usize_spec(trim(reply, TrimSet::WhiteSpace))
}

/// The index that a reply validly names when `topic_count` topics are listed: a
/// number from 0 (no topic helps) to `topic_count`.
pub open spec fn valid_answer(reply: Seq<char>, topic_count: nat) -> Option<usize> {
    match topic_answer(reply) {
        Some(k) => if k <= topic_count {
            Some(k)
        } else {
            None
        },
        None => None,
    }
}

/// What the selection does after a reply.
#[derive(Debug, PartialEq, Eq, Structural)]
pub enum TopicStep {
    /// The reply named this valid index: the selection is done.
    Selected(usize),
    /// The reply named no valid index: ask again, this many replies having been read.
    AskAgain(u16),
    /// No reply named a valid index in `RETRY_COUNT` attempts.
    GiveUp,
}

/// The step after reading `reply` when `tried` replies have been read before it
/// and `topic_count` topics are listed.
pub open spec fn topic_step(tried: u16, reply: Seq<char>, topic_count: nat) -> TopicStep {
    match valid_answer(reply, topic_count) {
        Some(i) => TopicStep::Selected(i),
        None => if tried + 1 < RETRY_COUNT {
            TopicStep::AskAgain((tried + 1) as u16)
        } else {
            TopicStep::GiveUp
        },
    }
}

/// Where reading `replies` in turn ends, `tried` replies having been read before
/// them: the step that ends the selection and the number of replies read for it,
/// or `None` where the replies run out first.
pub open spec fn selection_run(tried: u16, replies: Seq<Seq<char>>, topic_count: nat) -> Option<
    (TopicStep, nat),
>
    decreases replies.len(),
{
    if replies.len() == 0 {
        None
    } else {
        match topic_step(tried, replies[0], topic_count) {
            TopicStep::AskAgain(next) => match selection_run(next, replies.drop_first(), topic_count) {
                Some((step, n)) => Some((step, n + 1)),
                None => None,
            },
            step => Some((step, 1)),
        }
    }
}

proof fn lemma_run_selected(tried: u16, replies: Seq<Seq<char>>, topic_count: nat, k: int)
    requires
        tried < RETRY_COUNT,
        0 <= k < RETRY_COUNT - tried,
        k < replies.len(),
        valid_answer(replies[k], topic_count) is Some,
        forall|j: int| 0 <= j < k ==> #[trigger] valid_answer(replies[j], topic_count) is None,
    ensures
        selection_run(tried, replies, topic_count) == Some(
            (TopicStep::Selected(valid_answer(replies[k], topic_count)->0), (k + 1) as nat),
        ),
    decreases k,
{
    if k > 0 {
        assert(valid_answer(replies[0], topic_count) is None);
        let rest = replies.drop_first();
        assert forall|j: int| 0 <= j < k - 1 implies #[trigger] valid_answer(rest[j], topic_count) is None by {
            assert(rest[j] == replies[j + 1]);
            assert(valid_answer(replies[j + 1], topic_count) is None);
        }
        assert(rest[k - 1] == replies[k]);
        lemma_run_selected((tried + 1) as u16, rest, topic_count, k - 1);
    }
}

proof fn lemma_run_gives_up(tried: u16, replies: Seq<Seq<char>>, topic_count: nat)
    requires
        tried < RETRY_COUNT,
        replies.len() >= RETRY_COUNT - tried,
        forall|j: int| 0 <= j < RETRY_COUNT - tried ==> #[trigger] valid_answer(replies[j], topic_count) is None,
    ensures
        selection_run(tried, replies, topic_count) == Some((TopicStep::GiveUp, (RETRY_COUNT - tried) as nat)),
    decreases RETRY_COUNT - tried,
{
    assert(valid_answer(replies[0], topic_count) is None);
    if tried + 1 < RETRY_COUNT {
        let rest = replies.drop_first();
        assert forall|j: int| 0 <= j < RETRY_COUNT - (tried + 1) implies #[trigger] valid_answer(
            rest[j],
            topic_count,
        ) is None by {
            assert(rest[j] == replies[j + 1]);
            assert(valid_answer(replies[j + 1], topic_count) is None);
        }
        lemma_run_gives_up((tried + 1) as u16, rest, topic_count);
    }
}

/// The selection over successive replies, `topic_count` topics being listed: it
/// ends at the first of the first `RETRY_COUNT` replies that names a valid index
/// (from 0 to `topic_count`), with that index, after reading that many replies;
/// where none of them names one, it gives up after exactly `RETRY_COUNT` replies.
pub proof fn law_select_topic_run(replies: Seq<Seq<char>>, topic_count: nat)
    requires
        replies.len() >= RETRY_COUNT,
    ensures
        forall|k: int|
            0 <= k < RETRY_COUNT && (#[trigger] valid_answer(replies[k], topic_count)) is Some && (forall|j: int|
                0 <= j < k ==> valid_answer(replies[j], topic_count) is None) ==> selection_run(0, replies, topic_count) == Some(
                (TopicStep::Selected(valid_answer(replies[k], topic_count)->0), (k + 1) as nat),
            ),
        (forall|j: int| 0 <= j < RETRY_COUNT ==> #[trigger] valid_answer(replies[j], topic_count) is None)
            ==> selection_run(0, replies, topic_count) == Some((TopicStep::GiveUp, RETRY_COUNT as nat)),
{
    assert forall|k: int|
        0 <= k < RETRY_COUNT && (#[trigger] valid_answer(replies[k], topic_count)) is Some && (forall|j: int|
            0 <= j < k ==> valid_answer(replies[j], topic_count) is None) implies selection_run(0, replies, topic_count)
        == Some((TopicStep::Selected(valid_answer(replies[k], topic_count)->0), (k + 1) as nat)) by {
        lemma_run_selected(0, replies, topic_count, k);
    }
    if forall|j: int| 0 <= j < RETRY_COUNT ==> #[trigger] valid_answer(replies[j], topic_count) is None {
        lemma_run_gives_up(0, replies, topic_count);
    }
}

impl TopicSelector {
    /// Creates a selector whose model is told to answer with a number only.
    pub fn new(
        url: String,
        model: String,
        api_key: String,
        config: Option<Vec<(String, ConfigValue)>>,
    ) -> (r: Self)
        ensures
            r@ == agent_connector(url@, model@, api_key@, config, SYSTEM_PROMPT@),
    {
        TopicSelector {
            llm_connector: LLMConnector::with_system_prompt(url, model, api_key, config, SYSTEM_PROMPT),
        }
    }

    /// The connector used for requests to the language model.
    pub fn llm_connector(&self) -> (r: &LLMConnector)
        ensures
            r@ == self@,
    {
        &self.llm_connector
    }

    /// The prompt that asks which of the topics of `topics_prompt` helps answer
    /// `user_prompt`.
    pub fn construct_prompt(&self, user_prompt: &str, topics_prompt: &str) -> (r: String)
        ensures
            r@ == topic_prompt(user_prompt@, topics_prompt@),
    {
        String::from_str(
            "# Instruction:\nPick an index of document that you think that it can help answer the following question or pick 0 if you think they are not helpful. Please answer only as a number and do not include prologue, prefix or suffix.\n\n# Available source:\n",
        ).concat(topics_prompt).concat("\n\n# Question:\n").concat(user_prompt)
    }

    /// The index that a reply names, if it names one.
    pub fn read_answer(reply: &str) -> (r: Option<usize>)
        ensures
            r == topic_answer(reply@),
    {
        parse_usize(trim_by(reply, TrimSet::WhiteSpace))
    }

    /// What to do after reading `reply`, `tried` replies having been read before
    /// it and `topic_count` topics being listed: stop at the first reply that
    /// names a valid index (from 0 to `topic_count`), ask again otherwise, and
    /// give up once `RETRY_COUNT` replies have been read.
    pub fn select_topic_step(tried: u16, reply: &str, topic_count: usize) -> (r: TopicStep)
        requires
            tried < RETRY_COUNT,
        ensures
            r == topic_step(tried, reply@, topic_count as nat),
    {
        match Self::read_answer(reply) {
            Some(i) if i <= topic_count => TopicStep::Selected(i),
            _ => if tried + 1 < RETRY_COUNT {
                TopicStep::AskAgain(tried + 1)
            } else {
                TopicStep::GiveUp
            },
        }
    }

    /// The request that asks which of the topics of `topics_prompt` helps answer
    /// `user_prompt`; every attempt of the selection sends it.
    pub fn topic_request(&self, user_prompt: &str, topics_prompt: &str) -> (r: ChatRequest)
        ensures
            is_chat_request(r, self@, topic_prompt(user_prompt@, topics_prompt@), false),
    {
        let prompt = self.construct_prompt(user_prompt, topics_prompt);
        self.llm_connector.chat_request(prompt.as_str(), false)
    }
}

} // verus!
