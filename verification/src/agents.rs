//! The language-model agents of the research pipeline: each holds a connector
//! whose conversation starts with the agent's own system prompt, and writes the
//! prompts that it sends.

pub mod rejector;
pub mod source_summarizer;
pub mod text_query_builder;
pub mod topic_selector;
pub mod user_interactive;
