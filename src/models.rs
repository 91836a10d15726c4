use vstd::prelude::*;
use mongodb::bson::{Bson, Document};
use mongodb::results::{DeleteResult, InsertManyResult, InsertOneResult, UpdateResult};
use std::collections::HashMap;

verus! {

/// The (database, collection) pair that a request names; either may be blank.
#[derive(Debug, Clone)]
pub struct NamespacePayload {
    pub database: String,
    pub collection: String,
}

#[derive(Debug)]
pub struct InsertOneResponse {
    pub inserted_id: Bson,
}

#[derive(Debug)]
pub struct InsertManyResponse {
    pub inserted_ids: Vec<Bson>,
}

#[derive(Debug)]
pub struct FindOneResponse {
    pub document: Document,
}

#[derive(Debug)]
pub struct FindManyResponse {
    pub documents: Vec<Document>,
}

#[derive(Debug)]
pub struct UpdateResponse {
    pub matched_count: u64,
    pub modified_count: u64,
    pub upserted_id: Option<Bson>,
}

#[derive(Debug)]
pub struct DeleteResponse {
    pub deleted_count: u64,
}

#[derive(Debug, Clone)]
pub struct CollectionQuery {
    pub database: String,
}

#[derive(Debug)]
pub struct CollectionsResponse {
    pub collections: Vec<String>,
}


impl UpdateResponse {
    pub fn from_update_result(result: UpdateResult) -> (r: UpdateResponse)
        ensures
            r.matched_count == result.matched_count,
            r.modified_count == result.modified_count,
            r.upserted_id == result.upserted_id,
    {
        Self::from_parts(result.matched_count, result.modified_count, result.upserted_id)
    }

    pub fn from_parts(matched_count: u64, modified_count: u64, upserted_id: Option<Bson>) -> (r:
        UpdateResponse)
        ensures
            r.matched_count == matched_count,
            r.modified_count == modified_count,
            r.upserted_id == upserted_id,
    {
        UpdateResponse { matched_count, modified_count, upserted_id }
    }
}

impl DeleteResponse {
    pub fn from_result(result: DeleteResult) -> (r: DeleteResponse)
        ensures
            r.deleted_count == result.deleted_count,
    {
        DeleteResponse { deleted_count: result.deleted_count }
    }
}

/// `ks` lists every key of `m` once, in increasing order.
pub open spec fn is_key_order<V>(m: Map<usize, V>, ks: Seq<usize>) -> bool {
    &&& forall|i: int, j: int| 0 <= i < j < ks.len() ==> ks[i] < ks[j]
    &&& forall|i: int| 0 <= i < ks.len() ==> m.contains_key(#[trigger] ks[i])
    &&& forall|k: usize| m.contains_key(k) ==> ks.contains(k)
}

/// `ids` holds the values of `m` in the order of their keys.
pub open spec fn in_key_order<V>(m: Map<usize, V>, ids: Seq<V>) -> bool {
    exists|ks: Seq<usize>| is_key_order(m, ks) && ids == ks.map_values(|k: usize| m[k])
}

/// Relies on `Vec`'s `FromIterator` over a consumed `HashMap`, which moves
/// each key-value pair out of the map once, in arbitrary order.
#[verifier::external_body]
fn map_entries(m: HashMap<usize, Bson>) -> (r: Vec<(usize, Bson)>)
    ensures
        forall|i: int| 0 <= i < r@.len() ==> m@.contains_key(#[trigger] r@[i].0) && m@[r@[i].0] == r@[i].1,
        forall|i: int, j: int| 0 <= i < r@.len() && 0 <= j < r@.len() && i != j ==> r@[i].0 != r@[j].0,
        forall|k: usize| m@.contains_key(k) ==> exists|i: int| 0 <= i < r@.len() && #[trigger] r@[i].0 == k,
{
    Vec::from_iter(m)
}

impl InsertOneResponse {
    pub fn from_result(result: InsertOneResult) -> (r: InsertOneResponse)
        ensures
            r.inserted_id == result.inserted_id,
    {
        InsertOneResponse { inserted_id: result.inserted_id }
    }
}

impl InsertManyResponse {
    pub fn from_result(result: InsertManyResult) -> (r: InsertManyResponse)
        ensures
            in_key_order(result.inserted_ids@, r.inserted_ids@),
    {
        Self::from_inserted_ids(result.inserted_ids)
    }

    /// The identifiers in the order of the positions they are keyed by.
    pub fn from_inserted_ids(inserted_ids: HashMap<usize, Bson>) -> (r: InsertManyResponse)
        ensures
            in_key_order(inserted_ids@, r.inserted_ids@),
    {
        let ghost m = inserted_ids@;
        let mut entries = map_entries(inserted_ids);
        let mut ids: Vec<Bson> = Vec::new();
        let ghost mut ks: Seq<usize> = Seq::empty();
        while entries.len() > 0
            invariant
                forall|i: int| 0 <= i < entries@.len() ==> m.contains_key(#[trigger] entries@[i].0) && m[entries@[i].0] == entries@[i].1,
                forall|i: int, j: int| 0 <= i < entries@.len() && 0 <= j < entries@.len() && i != j ==> entries@[i].0 != entries@[j].0,
                ids@.len() == ks.len(),
                forall|i: int| 0 <= i < ks.len() ==> #[trigger] ids@[i] == m[ks[i]],
                forall|i: int, j: int| 0 <= i < j < ks.len() ==> ks[i] < ks[j],
                forall|i: int| 0 <= i < ks.len() ==> m.contains_key(#[trigger] ks[i]),
                forall|i: int, j: int| 0 <= i < ks.len() && 0 <= j < entries@.len() ==> #[trigger] ks[i] < #[trigger] entries@[j].0,
                forall|k: usize| m.contains_key(k) ==> ks.contains(k) || exists|i: int| 0 <= i < entries@.len() && #[trigger] entries@[i].0 == k,
            decreases entries.len(),
        {
            let mut best: usize = 0;
            let mut j: usize = 1;
            while j < entries.len()
                invariant
                    0 <= best < j <= entries@.len(),
                    forall|t: int| 0 <= t < j ==> entries@[best as int].0 <= #[trigger] entries@[t].0,
                decreases entries.len() - j,
            {
                if entries[j].0 < entries[best].0 {
                    best = j;
                }
                j = j + 1;
            }
            let ghost old_entries = entries@;
            let ghost old_ks = ks;
            let (k, v) = entries.remove(best);
            ids.push(v);
            proof {
                ks = ks.push(k);
                assert forall|i: int| 0 <= i < entries@.len() implies k < #[trigger] entries@[i].0 by {
                    let t = if i < best { i } else { i + 1 };
                    assert(entries@[i] == old_entries[t]);
                }
                assert forall|i: int| 0 <= i < ks.len() implies #[trigger] ids@[i] == m[ks[i]] by {
                    if i < old_ks.len() {
                        assert(ks[i] == old_ks[i]);
                    }
                }
                assert forall|kk: usize| m.contains_key(kk) implies ks.contains(kk) || exists|i: int| 0 <= i < entries@.len() && #[trigger] entries@[i].0 == kk by {
                    if old_ks.contains(kk) {
                        let w = choose|w: int| 0 <= w < old_ks.len() && old_ks[w] == kk;
                        assert(ks[w] == kk);
                    } else {
                        let w = choose|w: int| 0 <= w < old_entries.len() && #[trigger] old_entries[w].0 == kk;
                        if w == best {
                            assert(ks[old_ks.len() as int] == kk);
                        } else if w < best {
                            assert(entries@[w] == old_entries[w]);
                        } else {
                            assert(entries@[w - 1] == old_entries[w]);
                        }
                    }
                }
            }
        }
        proof {
            assert(is_key_order(m, ks));
            assert(ids@ =~= ks.map_values(|k: usize| m[k]));
        }
        InsertManyResponse { inserted_ids: ids }
    }
}

proof fn lemma_key_order_at_least_index<V>(m: Map<usize, V>, ks: Seq<usize>, i: int)
    requires
        is_key_order(m, ks),
        0 <= i < ks.len(),
    ensures
        ks[i] >= i,
    decreases i,
{
    if i > 0 {
        lemma_key_order_at_least_index(m, ks, i - 1);
    }
}

proof fn lemma_key_order_is_index<V>(m: Map<usize, V>, ks: Seq<usize>, n: usize, i: int)
    requires
        is_key_order(m, ks),
        forall|k: usize| m.contains_key(k) <==> k < n,
        0 <= i < ks.len(),
    ensures
        ks[i] == i,
    decreases i,
{
    lemma_key_order_at_least_index(m, ks, i);
    assert(m.contains_key(ks[i]));
    let k = i as usize;
    assert(m.contains_key(k));
    assert(ks.contains(k));
    let w = choose|w: int| 0 <= w < ks.len() && ks[w] == k;
    if w < i {
        lemma_key_order_is_index(m, ks, n, w);
    } else if w > i {
        assert(ks[i] < ks[w]);
    }
}

/// Where the keys of `m` are exactly the positions `0..n`, the values in key
/// order are the values at positions `0`, `1`, ..., `n - 1`: identifiers keyed
/// by the position of their document come out in the documents' order.
pub proof fn lemma_ids_follow_positions<V>(m: Map<usize, V>, ids: Seq<V>, n: usize)
    requires
        in_key_order(m, ids),
        forall|k: usize| m.contains_key(k) <==> k < n,
    ensures
        ids.len() == n,
        forall|i: int| 0 <= i < n ==> #[trigger] ids[i] == m[i as usize],
{
    let ks = choose|ks: Seq<usize>| is_key_order(m, ks) && ids == ks.map_values(|k: usize| m[k]);
    assert forall|i: int| 0 <= i < ks.len() implies #[trigger] ks[i] == i by {
        lemma_key_order_is_index(m, ks, n, i);
    }
    if n > 0 {
        let last = (n - 1) as usize;
        assert(m.contains_key(last));
        assert(ks.contains(last));
        let w = choose|w: int| 0 <= w < ks.len() && ks[w] == last;
        assert(ks[w] == w);
    }
    if ks.len() > n {
        assert(ks[n as int] == n);
        assert(m.contains_key(ks[n as int]));
    }
}

} // verus!
