//! Looking things up by id in a sequence.

use vstd::prelude::*;

verus! {

/// The index of the first occurrence of `id` in `ids` at or after `start`;
/// the length of `ids` if there is none.
pub open spec fn first_index_from(ids: Seq<i32>, id: i32, start: int) -> int
    decreases ids.len() - start,
{
    if start < 0 || start >= ids.len() {
        ids.len() as int
    } else if ids[start] == id {
        start
    } else {
        first_index_from(ids, id, start + 1)
    }
}

/// The index of the first occurrence of `id` in `ids`; the length of `ids`
/// if there is none.
pub open spec fn first_index(ids: Seq<i32>, id: i32) -> int {
    first_index_from(ids, id, 0)
}

/// Whether `id` occurs in `ids`.
pub open spec fn has_id(ids: Seq<i32>, id: i32) -> bool {
    first_index(ids, id) < ids.len()
}

/// Whether no id occurs twice in `ids`.
pub open spec fn distinct(ids: Seq<i32>) -> bool {
    forall|i: int, j: int| 0 <= i < j < ids.len() ==> ids[i] != ids[j]
}

/// Whether every id in `ids` is larger than the one before it.
pub open spec fn increasing(ids: Seq<i32>) -> bool {
    forall|i: int, j: int| 0 <= i < j < ids.len() ==> ids[i] < ids[j]
}

/// The first occurrence is an occurrence, and nothing before it is one.
pub proof fn lemma_first_index_from(ids: Seq<i32>, id: i32, start: int)
    requires
        0 <= start <= ids.len(),
    ensures
        start <= first_index_from(ids, id, start) <= ids.len(),
        first_index_from(ids, id, start) < ids.len() ==> ids[first_index_from(ids, id, start)]
            == id,
        forall|k: int| start <= k < first_index_from(ids, id, start) ==> ids[k] != id,
    decreases ids.len() - start,
{
    if start < ids.len() && ids[start] != id {
        lemma_first_index_from(ids, id, start + 1);
    }
}

/// The first occurrence is an occurrence, and nothing before it is one; an
/// id occurs exactly if it has a first occurrence.
pub proof fn lemma_first_index(ids: Seq<i32>, id: i32)
    ensures
        0 <= first_index(ids, id) <= ids.len(),
        has_id(ids, id) ==> ids[first_index(ids, id)] == id,
        forall|k: int| 0 <= k < first_index(ids, id) ==> ids[k] != id,
        has_id(ids, id) <==> exists|k: int| 0 <= k < ids.len() && ids[k] == id,
{
    lemma_first_index_from(ids, id, 0);
    if has_id(ids, id) {
        assert(ids[first_index(ids, id)] == id);
    }
}

/// An index at which `id` occurs, and before which it does not, is its
/// first occurrence; and so is the length, if `id` occurs nowhere.
pub proof fn lemma_first_index_is(ids: Seq<i32>, id: i32, at: int)
    requires
        0 <= at <= ids.len(),
        at < ids.len() ==> ids[at] == id,
        forall|k: int| 0 <= k < at ==> ids[k] != id,
    ensures
        first_index(ids, id) == at,
{
    lemma_first_index_from(ids, id, 0);
}

/// Among distinct ids, every occurrence is the first.
pub proof fn lemma_distinct_index(ids: Seq<i32>, at: int)
    requires
        distinct(ids),
        0 <= at < ids.len(),
    ensures
        first_index(ids, ids[at]) == at,
        has_id(ids, ids[at]),
{
    lemma_first_index_from(ids, ids[at], 0);
}

} // verus!
