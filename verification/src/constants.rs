//! Application-wide constants and configuration.

use vstd::prelude::*;

verus! {

/// Configuration for the OpenSearch connection.
///
/// * `username` - The username for OpenSearch authentication
/// * `password` - The password for OpenSearch authentication
/// * `url` - The URL of the OpenSearch instance
pub struct OpenSearchConfig {
    pub username: String,
    pub password: String,
    pub url: String,
}

/// The LLM model to use for text generation
pub const MODEL: &'static str = "gemma2:latest";

/// The model to use for text embeddings
pub const EMBEDDING_MODEL: &'static str = "all-minilm:latest";

/// The URL endpoint for the embedding service
pub const EMBEDDING_URL: &'static str = "http://localhost:11434/api/embed";

/// The URL endpoint for the LLM chat service
pub const LLM_HOST: &'static str = "http://localhost:11434/api/chat";

/// Maximum number of attempts for operations that are retried
pub const RETRY_COUNT: u16 = 5;

/// Number of top results to select in search operations
pub const SELECT_TOP_RESULTS: u16 = 3;

/// Name of the OpenSearch index for code preprocessing
pub const INDEX_NAME: &'static str = "sfc_code_preprocess";

/// Number of top results to return in search operations
pub const SEARCH_TOP_RESULTS: usize = 3;

} // verus!
