//! Reading the reply of the embedding service: where the embedding vector is,
//! and whether each of its entries is a number.

use vstd::prelude::*;
use crate::json::{
    json_array_len, json_as_array, json_child, json_element, json_is_number, json_member, json_root,
    json_tree, JsonLeaf, JsonStep,
};

verus! {

/// Why a reply of the embedding service holds no usable embedding.
#[derive(Debug, PartialEq, Eq, Structural)]
pub enum EmbeddingError {
    /// The reply has no array as the first element of `embeddings`.
    Missing,
    /// The entry at this position of the embedding is not a number.
    NotANumber(usize),
}

/// The embedding in a reply: the first element of its `embeddings` array.
pub open spec fn embedding_values(reply: Map<Seq<JsonStep>, JsonLeaf>) -> Map<Seq<JsonStep>, JsonLeaf> {
    json_child(json_child(reply, JsonStep::Key("embeddings"@)), JsonStep::At(0))
}

/// Whether entry `i` of an embedding is a number.
pub open spec fn is_number_at(values: Map<Seq<JsonStep>, JsonLeaf>, i: int) -> bool {
    json_root(json_child(values, JsonStep::At(i as nat))) is Number
}

/// Checks the embedding in a reply of the embedding service: its length where it
/// is an array of numbers, `Missing` where there is no such array, and the first
/// entry that is not a number otherwise.
pub fn embedding_size(reply: &serde_json::Value) -> (r: Result<usize, EmbeddingError>)
    ensures
        ({
            let t = embedding_values(json_tree(*reply));
            match r {
                Ok(n) => json_array_len(t) == Some(n as nat) && forall|i: int|
                    0 <= i < n ==> #[trigger] is_number_at(t, i),
                Err(e) => match e {
                    EmbeddingError::Missing => json_array_len(t) is None,
                    EmbeddingError::NotANumber(k) => {
                        &&& json_array_len(t) matches Some(n) && k < n
                        &&& !is_number_at(t, k as int)
                        &&& forall|i: int| 0 <= i < k ==> #[trigger] is_number_at(t, i)
                    },
                },
            }
        }),
{
    let values = json_element(json_member(reply, "embeddings"), 0);
    let ghost t = embedding_values(json_tree(*reply));
    let entries = match json_as_array(values) {
        Some(a) => a,
        None => return Err(EmbeddingError::Missing),
    };
    let mut i: usize = 0;
    while i < entries.len()
        invariant
            i <= entries@.len(),
            t == embedding_values(json_tree(*reply)),
            json_array_len(t) == Some(entries@.len() as nat),
            forall|k: int|
                0 <= k < entries@.len() ==> json_tree(#[trigger] entries@[k]) == json_child(
                    t,
                    JsonStep::At(k as nat),
                ),
            forall|k: int| 0 <= k < i ==> #[trigger] is_number_at(t, k),
        decreases entries@.len() - i,
    {
        assert(json_tree(entries@[i as int]) == json_child(t, JsonStep::At(i as nat)));
        if !json_is_number(&entries[i]) {
            return Err(EmbeddingError::NotANumber(i));
        }
        i = i + 1;
    }
    Ok(entries.len())
}

} // verus!
