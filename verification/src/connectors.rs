//! Connections to the outside services: the chat model and OpenSearch.

pub mod llm;
pub mod opensearch;
pub mod text_embedder;
