//! Common types used throughout the legal research pipeline.

use vstd::prelude::*;

verus! {

/// A search result from legal document analysis.
///
/// * `topic` - The main subject or topic of the search result
/// * `url` - The source URL where the information was found
/// * `page` - The page number in the source document
/// * `text` - The extracted text content from the source
#[derive(Debug, Clone)]
pub struct SearchResult {
    pub topic: String,
    pub url: String,
    pub page: u32,
    pub text: String,
}

/// The contents of a `SearchResult`.
pub struct SearchResultView {
    pub topic: Seq<char>,
    pub url: Seq<char>,
    pub page: u32,
    pub text: Seq<char>,
}

impl View for SearchResult {
    type V = SearchResultView;

    open spec fn view(&self) -> SearchResultView {
        SearchResultView { topic: self.topic@, url: self.url@, page: self.page, text: self.text@ }
    }
}

/// The contents of each search result of a list.
pub open spec fn search_result_views(v: Seq<SearchResult>) -> Seq<SearchResultView> {
    v.map_values(|r: SearchResult| r@)
}

impl SearchResult {
    /// A copy of this search result.
    pub fn duplicate(&self) -> (r: SearchResult)
        ensures
            r@ == self@,
    {
        SearchResult {
            topic: self.topic.clone(),
            url: self.url.clone(),
            page: self.page,
            text: self.text.clone(),
        }
    }
}

/// A summary of a legal document with its relevance and content.
///
/// * `is_useful` - Whether the document contains relevant information
/// * `summarize` - A concise summary of the relevant content
/// * `page` - The page number in the source document
#[derive(Debug)]
pub struct Summary {
    pub is_useful: bool,
    pub summarize: String,
    pub page: u32,
}

/// The contents of a `Summary`.
pub struct SummaryView {
    pub is_useful: bool,
    pub summarize: Seq<char>,
    pub page: u32,
}

impl View for Summary {
    type V = SummaryView;

    open spec fn view(&self) -> SummaryView {
        SummaryView { is_useful: self.is_useful, summarize: self.summarize@, page: self.page }
    }
}

/// The contents of each summary of a list.
pub open spec fn summary_views(v: Seq<Summary>) -> Seq<SummaryView> {
    v.map_values(|s: Summary| s@)
}

} // verus!
