//! Search over the legal documents in OpenSearch: the searcher, the search
//! methods, and what the library reads from OpenSearch's replies (the hits of a
//! search and the list of available topics).

use vstd::prelude::*;
use crate::constants::SEARCH_TOP_RESULTS;
use crate::json::{
    json_array_len, json_as_array, json_as_str, json_as_u64, json_child, json_element,
    json_member, json_text, json_tree, json_u64, JsonLeaf, JsonStep,
};
use crate::text::{decimal, fmt_decimal, join, join_strings, str_equal, string_views};
use crate::types::{search_result_views, SearchResult, SearchResultView};

verus! {

/// The available search methods.
///
/// * `Text` - Traditional text-based search using keyword matching
/// * `Vector` - Semantic search using vector embeddings
#[derive(Debug, Clone, Copy, PartialEq, Eq, Structural)]
pub enum SearchMethod {
    Text,
    Vector,
}

/// A searcher over an OpenSearch client.
pub struct OpenSearcher {
    client: ::opensearch::OpenSearch,
}

impl View for OpenSearcher {
    type V = ::opensearch::OpenSearch;

    closed spec fn view(&self) -> ::opensearch::OpenSearch {
        self.client
    }
}

impl OpenSearcher {
    /// Creates a searcher that sends its requests through `client`.
    pub fn new(client: ::opensearch::OpenSearch) -> (r: Self)
        ensures
            r@ == client,
    {
        OpenSearcher { client }
    }

    /// The client that requests go through.
    pub fn client(&self) -> (r: &::opensearch::OpenSearch)
        ensures
            *r == self@,
    {
        &self.client
    }
}

/// One condition that every hit of a search must meet.
#[derive(Debug)]
pub enum SearchClause {
    /// The text matches the query.
    MatchText { query: String },
    /// The embedding is among the `k` nearest to the embedding of the query.
    NearestVectors { query: String, k: u32 },
    /// The topic title matches the topic.
    MatchTopic { topic: String },
}

/// The contents of a `SearchClause`.
pub enum SearchClauseView {
    MatchText { query: Seq<char> },
    NearestVectors { query: Seq<char>, k: u32 },
    MatchTopic { topic: Seq<char> },
}

impl View for SearchClause {
    type V = SearchClauseView;

    open spec fn view(&self) -> SearchClauseView {
        match self {
            SearchClause::MatchText { query } => SearchClauseView::MatchText { query: query@ },
            SearchClause::NearestVectors { query, k } => SearchClauseView::NearestVectors {
                query: query@,
                k: *k,
            },
            SearchClause::MatchTopic { topic } => SearchClauseView::MatchTopic { topic: topic@ },
        }
    }
}

/// The conditions of a search: the query matched as text, or the five nearest
/// embeddings to the query's, and, where a topic is given, the topic as a filter.
pub open spec fn search_conditions(
    query: Seq<char>,
    method: SearchMethod,
    topic_title: Option<Seq<char>>,
) -> Seq<SearchClauseView> {
    let by_query = match method {
        SearchMethod::Text => SearchClauseView::MatchText { query },
        SearchMethod::Vector => SearchClauseView::NearestVectors { query, k: 5 },
    };
    match topic_title {
        Some(topic) => seq![by_query, SearchClauseView::MatchTopic { topic }],
        None => seq![by_query],
    }
}

/// The conditions that a search for `query` by `search_method`, filtered by
/// `topic_title` where one is given, puts on its hits, all of which must hold.
pub fn search_clauses(query: &str, search_method: SearchMethod, topic_title: Option<&str>) -> (r: Vec<
    SearchClause,
>)
    ensures
        r@.map_values(|c: SearchClause| c@) == search_conditions(
            query@,
            search_method,
            match topic_title {
                Some(t) => Some(t@),
                None => None,
            },
        ),
{
    let mut r: Vec<SearchClause> = Vec::new();
    match search_method {
        SearchMethod::Text => r.push(SearchClause::MatchText { query: String::from_str(query) }),
        SearchMethod::Vector => r.push(
            SearchClause::NearestVectors { query: String::from_str(query), k: 5 },
        ),
    }
    match topic_title {
        Some(t) => r.push(SearchClause::MatchTopic { topic: String::from_str(t) }),
        None => {},
    }
    assert(r@.map_values(|c: SearchClause| c@) =~= search_conditions(
        query@,
        search_method,
        match topic_title {
            Some(t) => Some(t@),
            None => None,
        },
    ));
    r
}

/// The fields that a search asks OpenSearch to return for each hit.
pub open spec fn hit_fields() -> Seq<Seq<char>> {
    seq!["id"@, "topic_title"@, "text"@, "file_url"@, "page_number"@]
}

/// The names of the fields returned for each hit.
pub fn search_fields() -> (r: Vec<String>)
    ensures
        string_views(r@) == hit_fields(),
{
    let mut r: Vec<String> = Vec::new();
    r.push(String::from_str("id"));
    r.push(String::from_str("topic_title"));
    r.push(String::from_str("text"));
    r.push(String::from_str("file_url"));
    r.push(String::from_str("page_number"));
    assert(string_views(r@) =~= hit_fields());
    r
}

/// The first value of the field `name` of a search hit (`hit["fields"][name][0]`).
pub open spec fn hit_field(hit: Map<Seq<JsonStep>, JsonLeaf>, name: Seq<char>) -> Map<
    Seq<JsonStep>,
    JsonLeaf,
> {
    json_child(
        json_child(json_child(hit, JsonStep::Key("fields"@)), JsonStep::Key(name)),
        JsonStep::At(0),
    )
}

/// The search result that a hit describes, where it has a string topic title,
/// file URL and text and a non-negative integer page number; the page number is
/// cut to its low 32 bits.
pub open spec fn hit_result(hit: Map<Seq<JsonStep>, JsonLeaf>) -> Option<SearchResultView> {
    match (
        json_text(hit_field(hit, "topic_title"@)),
        json_text(hit_field(hit, "file_url"@)),
        json_u64(hit_field(hit, "page_number"@)),
        json_text(hit_field(hit, "text"@)),
    ) {
        (Some(topic), Some(url), Some(page), Some(text)) => Some(
            SearchResultView { topic, url, page: page as u32, text },
        ),
        _ => None,
    }
}

/// The hits of a search reply (`reply["hits"]["hits"]`).
pub open spec fn search_hits(reply: Map<Seq<JsonStep>, JsonLeaf>) -> Map<Seq<JsonStep>, JsonLeaf> {
    json_child(json_child(reply, JsonStep::Key("hits"@)), JsonStep::Key("hits"@))
}

/// The results described by the first `n` hits, in order, skipping hits that
/// describe none.
pub open spec fn hits_results(hits: Map<Seq<JsonStep>, JsonLeaf>, n: nat) -> Seq<SearchResultView>
    decreases n,
{
    if n == 0 {
        Seq::empty()
    } else {
        let before = hits_results(hits, (n - 1) as nat);
        match hit_result(json_child(hits, JsonStep::At((n - 1) as nat))) {
            Some(r) => before.push(r),
            None => before,
        }
    }
}

/// How many hits of a reply with `n` hits are read: the first
/// `SEARCH_TOP_RESULTS`, or all of them where there are fewer.
pub open spec fn hits_read(n: nat) -> nat {
    if n < SEARCH_TOP_RESULTS {
        n
    } else {
        SEARCH_TOP_RESULTS as nat
    }
}

/// The results of a search reply: those of its first `SEARCH_TOP_RESULTS` hits
/// (of all its hits where it has fewer), or none where it has no array of hits.
pub open spec fn search_results_of(reply: Map<Seq<JsonStep>, JsonLeaf>) -> Seq<SearchResultView> {
    match json_array_len(search_hits(reply)) {
        Some(n) => hits_results(search_hits(reply), hits_read(n)),
        None => Seq::empty(),
    }
}

proof fn lemma_hits_results_len(hits: Map<Seq<JsonStep>, JsonLeaf>, n: nat)
    ensures
        hits_results(hits, n).len() <= n,
    decreases n,
{
    if n > 0 {
        lemma_hits_results_len(hits, (n - 1) as nat);
    }
}

/// A search reply gives at most `SEARCH_TOP_RESULTS` results.
pub proof fn law_search_results_bounded(reply: Map<Seq<JsonStep>, JsonLeaf>)
    ensures
        search_results_of(reply).len() <= SEARCH_TOP_RESULTS,
{
    if json_array_len(search_hits(reply)) is Some {
        lemma_hits_results_len(search_hits(reply), hits_read(json_array_len(search_hits(reply))->0));
    }
}

proof fn lemma_hits_results_complete(hits: Map<Seq<JsonStep>, JsonLeaf>, n: nat)
    requires
        forall|i: nat| i < n ==> (#[trigger] hit_result(json_child(hits, JsonStep::At(i)))) is Some,
    ensures
        hits_results(hits, n).len() == n,
        forall|i: int|
            0 <= i < n ==> Some(#[trigger] hits_results(hits, n)[i]) == hit_result(
                json_child(hits, JsonStep::At(i as nat)),
            ),
    decreases n,
{
    if n > 0 {
        lemma_hits_results_complete(hits, (n - 1) as nat);
        assert(hit_result(json_child(hits, JsonStep::At((n - 1) as nat))) is Some);
    }
}

/// A search reads the first `SEARCH_TOP_RESULTS` hits of its reply, or all of
/// them where there are fewer: where each of those hits has a topic title, file
/// URL, page number and text, the results are exactly those hits, in order, one
/// result per hit. So a reply with `SEARCH_TOP_RESULTS` or more complete hits
/// gives `SEARCH_TOP_RESULTS` results, the `i`-th from the `i`-th hit.
pub proof fn law_top_hits_read(reply: Map<Seq<JsonStep>, JsonLeaf>, n: nat)
    requires
        json_array_len(search_hits(reply)) == Some(n),
        forall|i: nat|
            i < n && i < SEARCH_TOP_RESULTS ==> (#[trigger] hit_result(
                json_child(search_hits(reply), JsonStep::At(i)),
            )) is Some,
    ensures
        ({
            let m: nat = if n < SEARCH_TOP_RESULTS {
                n
            } else {
                SEARCH_TOP_RESULTS as nat
            };
            &&& search_results_of(reply).len() == m
            &&& forall|i: int|
                0 <= i < m ==> Some(#[trigger] search_results_of(reply)[i]) == hit_result(
                    json_child(search_hits(reply), JsonStep::At(i as nat)),
                )
        }),
{
    let m: nat = if n < SEARCH_TOP_RESULTS {
        n
    } else {
        SEARCH_TOP_RESULTS as nat
    };
    assert(hits_read(n) == m);
    lemma_hits_results_complete(search_hits(reply), m);
}

/// Every search, text or vector, is filtered by the chosen topic: the
/// conditions for a topic are those without one, followed by a match on that
/// topic, whatever the method.
pub proof fn law_topic_filter(query: Seq<char>, method: SearchMethod, topic: Seq<char>)
    ensures
        search_conditions(query, method, Some(topic)) == search_conditions(query, method, None).push(
            SearchClauseView::MatchTopic { topic },
        ),
        search_conditions(query, method, Some(topic)).contains(SearchClauseView::MatchTopic { topic }),
        search_conditions(query, method, None).len() == 1,
        !(search_conditions(query, method, None)[0] is MatchTopic),
{
    assert(search_conditions(query, method, Some(topic)) =~= search_conditions(query, method, None).push(
        SearchClauseView::MatchTopic { topic },
    ));
    assert(search_conditions(query, method, Some(topic))[1] == SearchClauseView::MatchTopic { topic });
}

fn first_str<'a>(fields: &'a serde_json::Value, name: &str) -> (r: Option<&'a str>)
    ensures
        match r {
            Some(s) => json_text(
                json_child(json_child(json_tree(*fields), JsonStep::Key(name@)), JsonStep::At(0)),
            ) == Some(s@),
            None => json_text(
                json_child(json_child(json_tree(*fields), JsonStep::Key(name@)), JsonStep::At(0)),
            ) is None,
        },
{
    json_as_str(json_element(json_member(fields, name), 0))
}

fn read_hit(hit: &serde_json::Value) -> (r: Option<SearchResult>)
    ensures
        match r {
            Some(x) => hit_result(json_tree(*hit)) == Some(x@),
            None => hit_result(json_tree(*hit)) is None,
        },
{
    let fields = json_member(hit, "fields");
    let topic = first_str(fields, "topic_title");
    let url = first_str(fields, "file_url");
    let page = json_as_u64(json_element(json_member(fields, "page_number"), 0));
    let text = first_str(fields, "text");
    match (topic, url, page, text) {
        (Some(topic), Some(url), Some(page), Some(text)) => Some(
            SearchResult {
                topic: String::from_str(topic),
                url: String::from_str(url),
                page: page as u32,
                text: String::from_str(text),
            },
        ),
        _ => None,
    }
}

/// Reads the results of a search reply: those of its first
/// `SEARCH_TOP_RESULTS` hits (all of them where there are fewer) that have a
/// topic title, file URL, page number and text, in order.
pub fn extract_search_results(json_result: &serde_json::Value) -> (r: Vec<SearchResult>)
    ensures
        search_result_views(r@) == search_results_of(json_tree(*json_result)),
{
    let mut r: Vec<SearchResult> = Vec::new();
    let hits_value = json_member(json_member(json_result, "hits"), "hits");
    let ghost hits = search_hits(json_tree(*json_result));
    match json_as_array(hits_value) {
        Some(hits_array) => {
            let count: usize = if hits_array.len() < SEARCH_TOP_RESULTS {
                hits_array.len()
            } else {
                SEARCH_TOP_RESULTS
            };
            let mut i: usize = 0;
            while i < count
                invariant
                    i <= count <= hits_array@.len(),
                    forall|k: int|
                        0 <= k < hits_array@.len() ==> json_tree(#[trigger] hits_array@[k])
                            == json_child(hits, JsonStep::At(k as nat)),
                    search_result_views(r@) == hits_results(hits, i as nat),
                decreases count - i,
            {
                let found = read_hit(&hits_array[i]);
                assert(json_tree(hits_array@[i as int]) == json_child(hits, JsonStep::At(i as nat)));
                match found {
                    Some(x) => {
                        let ghost before = r@;
                        r.push(x);
                        assert(search_result_views(r@) =~= search_result_views(before).push(x@));
                    },
                    None => {},
                }
                i = i + 1;
            }
        },
        None => {
            assert(search_result_views(r@) =~= Seq::<SearchResultView>::empty());
        },
    }
    r
}

/// The order of `String`s: lexicographic by characters. (Rust orders strings by
/// their UTF-8 bytes, which orders characters as their code points.)
pub open spec fn text_less(a: Seq<char>, b: Seq<char>) -> bool
    decreases a.len(),
{
    if a.len() == 0 {
        b.len() > 0
    } else if b.len() == 0 {
        false
    } else if a[0] != b[0] {
        (a[0] as int) < (b[0] as int)
    } else {
        text_less(a.drop_first(), b.drop_first())
    }
}

proof fn lemma_text_less_irreflexive(a: Seq<char>)
    ensures
        !text_less(a, a),
    decreases a.len(),
{
    if a.len() > 0 {
        lemma_text_less_irreflexive(a.drop_first());
    }
}

proof fn lemma_text_less_transitive(a: Seq<char>, b: Seq<char>, c: Seq<char>)
    requires
        text_less(a, b),
        text_less(b, c),
    ensures
        text_less(a, c),
    decreases a.len(),
{
    if a.len() > 0 && b.len() > 0 && c.len() > 0 && a[0] == b[0] && b[0] == c[0] {
        lemma_text_less_transitive(a.drop_first(), b.drop_first(), c.drop_first());
    }
}

proof fn lemma_text_less_total(a: Seq<char>, b: Seq<char>)
    requires
        a != b,
    ensures
        text_less(a, b) || text_less(b, a),
    decreases a.len(),
{
    if a.len() > 0 && b.len() > 0 {
        if a[0] == b[0] {
            if a.drop_first() == b.drop_first() {
                assert(a =~= seq![a[0]] + a.drop_first());
                assert(b =~= seq![b[0]] + b.drop_first());
            }
            lemma_text_less_total(a.drop_first(), b.drop_first());
        } else {
            assert((a[0] as int) != (b[0] as int));
        }
    } else if a.len() == 0 && b.len() == 0 {
        assert(a =~= b);
    }
}

/// Each text comes before every later one, so that none occurs twice.
pub open spec fn strictly_sorted(s: Seq<Seq<char>>) -> bool {
    forall|i: int, j: int| 0 <= i < j < s.len() ==> text_less(#[trigger] s[i], #[trigger] s[j])
}

fn string_less(a: &str, b: &str) -> (r: bool)
    ensures
        r == text_less(a@, b@),
{
    let n = a.unicode_len();
    let m = b.unicode_len();
    let mut i: usize = 0;
    assert(a@.skip(0) =~= a@);
    assert(b@.skip(0) =~= b@);
    while i < n && i < m && a.get_char(i) == b.get_char(i)
        invariant
            i <= n,
            i <= m,
            n == a@.len(),
            m == b@.len(),
            text_less(a@, b@) == text_less(a@.skip(i as int), b@.skip(i as int)),
        decreases n - i,
    {
        assert(a@.skip(i as int).drop_first() =~= a@.skip(i + 1));
        assert(b@.skip(i as int).drop_first() =~= b@.skip(i + 1));
        i = i + 1;
    }
    if i == n {
        i < m
    } else if i == m {
        false
    } else {
        let ca = a.get_char(i);
        let cb = b.get_char(i);
        assert(a@.skip(i as int)[0] == ca);
        assert(b@.skip(i as int)[0] == cb);
        (ca as u32) < (cb as u32)
    }
}

/// Adds `s` to a sorted list of texts unless it holds it already.
fn insert_sorted(list: &mut Vec<String>, s: &str)
    requires
        strictly_sorted(string_views(old(list)@)),
    ensures
        strictly_sorted(string_views(final(list)@)),
        forall|x: Seq<char>|
            #[trigger] string_views(final(list)@).contains(x) <==> (string_views(old(list)@).contains(x)
                || x == s@),
{
    let ghost old_views = string_views(list@);
    let mut p: usize = 0;
    while p < list.len() && string_less(list[p].as_str(), s)
        invariant
            p <= list@.len(),
            string_views(list@) == old_views,
            forall|k: int| 0 <= k < p ==> text_less(#[trigger] old_views[k], s@),
        decreases list@.len() - p,
    {
        p = p + 1;
    }
    if p < list.len() && str_equal(list[p].as_str(), s) {
        assert(old_views[p as int] == s@);
        return;
    }
    proof {
        if p < list@.len() {
            assert(!text_less(old_views[p as int], s@));
            lemma_text_less_total(old_views[p as int], s@);
        }
    }
    list.insert(p, String::from_str(s));
    let ghost new_views = string_views(list@);
    proof {
        assert(new_views =~= old_views.insert(p as int, s@));
        old_views.insert_ensures(p as int, s@);
        assert forall|i: int, j: int| 0 <= i < j < new_views.len() implies text_less(
            #[trigger] new_views[i],
            #[trigger] new_views[j],
        ) by {
            if j < p {
                assert(new_views[i] == old_views[i] && new_views[j] == old_views[j]);
            } else if j == p {
                assert(new_views[i] == old_views[i]);
            } else if i < p {
                assert(new_views[i] == old_views[i] && new_views[j] == old_views[j - 1]);
                if j - 1 == p as int {
                    lemma_text_less_transitive(old_views[i], s@, old_views[j - 1]);
                } else {
                    lemma_text_less_transitive(old_views[i], s@, old_views[p as int]);
                    lemma_text_less_transitive(old_views[i], old_views[p as int], old_views[j - 1]);
                }
            } else if i == p {
                assert(new_views[j] == old_views[j - 1]);
                if j - 1 > p {
                    lemma_text_less_transitive(s@, old_views[p as int], old_views[j - 1]);
                }
            } else {
                assert(new_views[i] == old_views[i - 1] && new_views[j] == old_views[j - 1]);
            }
        }
        assert forall|x: Seq<char>| #[trigger] new_views.contains(x) <==> (old_views.contains(x)
            || x == s@) by {
            if new_views.contains(x) {
                let k = choose|k: int| 0 <= k < new_views.len() && new_views[k] == x;
                if k < p {
                    assert(old_views[k] == x);
                } else if k > p {
                    assert(old_views[k - 1] == x);
                }
            }
            if old_views.contains(x) {
                let k = choose|k: int| 0 <= k < old_views.len() && old_views[k] == x;
                if k < p {
                    assert(new_views[k] == x);
                } else {
                    assert(new_views[k + 1] == x);
                }
            }
            if x == s@ {
                assert(new_views[p as int] == x);
            }
        }
    }
}

/// The buckets of the topic aggregation in a reply
/// (`reply["aggregations"]["distinct_sources"]["buckets"]`).
pub open spec fn topic_buckets(reply: Map<Seq<JsonStep>, JsonLeaf>) -> Map<Seq<JsonStep>, JsonLeaf> {
    json_child(
        json_child(json_child(reply, JsonStep::Key("aggregations"@)), JsonStep::Key("distinct_sources"@)),
        JsonStep::Key("buckets"@),
    )
}

/// The topic title of a bucket whose key holds a string topic title and a
/// string file URL.
pub open spec fn bucket_topic(bucket: Map<Seq<JsonStep>, JsonLeaf>) -> Option<Seq<char>> {
    let key = json_child(bucket, JsonStep::Key("key"@));
    match (
        json_text(json_child(key, JsonStep::Key("topic_title"@))),
        json_text(json_child(key, JsonStep::Key("file_url"@))),
    ) {
        (Some(topic), Some(_)) => Some(topic),
        _ => None,
    }
}

/// Whether one of the first `n` buckets has the topic title `topic`.
pub open spec fn listed_topic(buckets: Map<Seq<JsonStep>, JsonLeaf>, n: nat, topic: Seq<char>) -> bool {
    exists|i: int| 0 <= i < n && #[trigger] bucket_topic(json_child(buckets, JsonStep::At(i as nat))) == Some(topic)
}

/// Each topic written after its number, counted from 1: "1. first", "2. second", ...
pub open spec fn numbered_topics(topics: Seq<Seq<char>>) -> Seq<Seq<char>> {
    Seq::new(topics.len(), |i: int| decimal((i + 1) as nat) + ". "@ + topics[i])
}

/// The list of topic choices: the numbered topics, one per line.
pub open spec fn topic_choices(topics: Seq<Seq<char>>) -> Seq<char> {
    join(numbered_topics(topics), "\n"@)
}

/// Whether a reply to the topic aggregation lists a topic: it has an array of
/// buckets, one of which has a topic title and a file URL.
pub open spec fn lists_topics(reply: Map<Seq<JsonStep>, JsonLeaf>) -> bool {
    &&& json_array_len(topic_buckets(reply)) is Some
    &&& exists|i: int|
        0 <= i < json_array_len(topic_buckets(reply))->0 && (#[trigger] bucket_topic(
            json_child(topic_buckets(reply), JsonStep::At(i as nat)),
        )) is Some
}

/// The topics that a reply to the topic aggregation lists, and the numbered
/// choices offered to the model.
pub open spec fn available_topics_of(
    reply: Map<Seq<JsonStep>, JsonLeaf>,
    topics: Seq<Seq<char>>,
    choices: Seq<char>,
) -> bool {
    &&& json_array_len(topic_buckets(reply)) is Some
    &&& strictly_sorted(topics)
    &&& forall|t: Seq<char>| #[trigger] topics.contains(t) <==> listed_topic(
        topic_buckets(reply),
        json_array_len(topic_buckets(reply))->0,
        t,
    )
    &&& choices == topic_choices(topics)
}

fn bucket_topic_of<'a>(bucket: &'a serde_json::Value) -> (r: Option<&'a str>)
    ensures
        match r {
            Some(s) => bucket_topic(json_tree(*bucket)) == Some(s@),
            None => bucket_topic(json_tree(*bucket)) is None,
        },
{
    let key = json_member(bucket, "key");
    let topic = json_as_str(json_member(key, "topic_title"));
    let url = json_as_str(json_member(key, "file_url"));
    match (topic, url) {
        (Some(t), Some(_)) => Some(t),
        _ => None,
    }
}

/// Writes the numbered list of topics, one per line.
pub fn format_topic_choices(topics: &Vec<String>) -> (r: String)
    ensures
        r@ == topic_choices(string_views(topics@)),
{
    let mut lines: Vec<String> = Vec::new();
    let mut i: usize = 0;
    while i < topics.len()
        invariant
            i <= topics@.len(),
            lines@.len() == i,
            string_views(lines@) == numbered_topics(string_views(topics@)).take(i as int),
        decreases topics@.len() - i,
    {
        let number: u64 = (i + 1) as u64;
        let line = fmt_decimal(number).concat(". ").concat(topics[i].as_str());
        let ghost before = lines@;
        lines.push(line);
        assert(lines@ == before.push(line));
        assert(string_views(lines@) =~= numbered_topics(string_views(topics@)).take(i + 1)) by {
            assert forall|k: int| 0 <= k < i + 1 implies #[trigger] string_views(lines@)[k]
                == numbered_topics(string_views(topics@)).take(i + 1)[k] by {
                if k < i {
                    assert(lines@[k] == before[k]);
                    assert(string_views(before)[k] == numbered_topics(string_views(topics@)).take(
                        i as int,
                    )[k]);
                } else {
                    assert(lines@[k] == line);
                }
            }
        }
        i = i + 1;
    }
    assert(numbered_topics(string_views(topics@)).take(topics@.len() as int) =~= numbered_topics(
        string_views(topics@),
    ));
    join_strings(&lines, "\n")
}

/// Reads the topics that a reply to the topic aggregation lists: the distinct
/// topic titles of the buckets that have a topic title and a file URL, sorted,
/// together with their numbered list; `None` where no topic is available (the
/// reply has no array of buckets, or no bucket has both).
pub fn available_topics(reply: &serde_json::Value) -> (r: Option<(Vec<String>, String)>)
    ensures
        match r {
            Some((topics, choices)) => lists_topics(json_tree(*reply)) && topics@.len() > 0
                && available_topics_of(json_tree(*reply), string_views(topics@), choices@),
            None => !lists_topics(json_tree(*reply)),
        },
{
    let buckets_value = json_member(
        json_member(json_member(reply, "aggregations"), "distinct_sources"),
        "buckets",
    );
    let ghost buckets = topic_buckets(json_tree(*reply));
    let buckets_array = match json_as_array(buckets_value) {
        Some(a) => a,
        None => return None,
    };
    let mut topics: Vec<String> = Vec::new();
    let mut i: usize = 0;
    while i < buckets_array.len()
        invariant
            i <= buckets_array@.len(),
            forall|k: int|
                0 <= k < buckets_array@.len() ==> json_tree(#[trigger] buckets_array@[k])
                    == json_child(buckets, JsonStep::At(k as nat)),
            strictly_sorted(string_views(topics@)),
            forall|t: Seq<char>| #[trigger] string_views(topics@).contains(t) <==> listed_topic(
                buckets,
                i as nat,
                t,
            ),
        decreases buckets_array@.len() - i,
    {
        let ghost before = string_views(topics@);
        assert(json_tree(buckets_array@[i as int]) == json_child(buckets, JsonStep::At(i as nat)));
        match bucket_topic_of(&buckets_array[i]) {
            Some(topic) => insert_sorted(&mut topics, topic),
            None => {},
        }
        proof {
            assert forall|t: Seq<char>| #[trigger] string_views(topics@).contains(t) <==> listed_topic(
                buckets,
                (i + 1) as nat,
                t,
            ) by {
                if listed_topic(buckets, (i + 1) as nat, t) {
                    let k = choose|k: int| 0 <= k < i + 1 && #[trigger] bucket_topic(
                        json_child(buckets, JsonStep::At(k as nat)),
                    ) == Some(t);
                    if k < i {
                        assert(listed_topic(buckets, i as nat, t));
                    }
                }
                if before.contains(t) {
                    assert(listed_topic(buckets, i as nat, t));
                    let k = choose|k: int| 0 <= k < i && #[trigger] bucket_topic(
                        json_child(buckets, JsonStep::At(k as nat)),
                    ) == Some(t);
                    assert(listed_topic(buckets, (i + 1) as nat, t));
                }
            }
        }
        i = i + 1;
    }
    proof {
        if lists_topics(json_tree(*reply)) {
            let k = choose|k: int|
                0 <= k < buckets_array@.len() && (#[trigger] bucket_topic(
                    json_child(buckets, JsonStep::At(k as nat)),
                )) is Some;
            let t = bucket_topic(json_child(buckets, JsonStep::At(k as nat)))->0;
            assert(listed_topic(buckets, buckets_array@.len() as nat, t));
            assert(string_views(topics@).contains(t));
        }
    }
    if topics.len() == 0 {
        return None;
    }
    proof {
        let t = string_views(topics@)[0];
        assert(string_views(topics@).contains(t));
        assert(listed_topic(buckets, buckets_array@.len() as nat, t));
        let k = choose|k: int|
            0 <= k < buckets_array@.len() && #[trigger] bucket_topic(
                json_child(buckets, JsonStep::At(k as nat)),
            ) == Some(t);
        assert(bucket_topic(json_child(buckets, JsonStep::At(k as nat))) is Some);
    }
    let choices = format_topic_choices(&topics);
    Some((topics, choices))
}

} // verus!
