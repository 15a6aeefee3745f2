//! Verified core of a legal-research assistant that routes a question through
//! several language-model agents and an OpenSearch index.

pub mod agents;
pub mod connectors;
pub mod constants;
pub mod json;
pub mod text;
pub mod tools;
pub mod types;
pub mod flow;
