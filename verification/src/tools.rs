//! Tools the pipeline uses besides the language model.

pub mod searcher;
