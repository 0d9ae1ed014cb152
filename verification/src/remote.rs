//! A mathematical model of the remote index under the synchronization
//! protocol: what batched upserts keyed by id and the trailing deletion
//! pass leave behind. The laws here are what make full rescans safe —
//! resubmission changes nothing, and the deletion pass removes exactly
//! the records a walk no longer produced.

use vstd::prelude::*;

verus! {

use crate::config::ProjectConfigView;
use crate::file_index::EntryView;
use crate::indexer::{lemma_walk_entries_wf, spec_flatten, spec_walk_entries};
use crate::scan::ScannedPathView;

/// One upsert: the record replaces whatever the index held under its id.
pub open spec fn spec_upsert_one(
    m: Map<Seq<char>, EntryView>,
    e: EntryView,
) -> Map<Seq<char>, EntryView> {
    m.insert(e.uuid, e)
}

/// A batch upsert: the batch's records applied in order, later ones
/// winning on an id collision.
pub open spec fn spec_upsert_batch(
    m: Map<Seq<char>, EntryView>,
    b: Seq<EntryView>,
) -> Map<Seq<char>, EntryView>
    decreases b.len(),
{
    if b.len() == 0 {
        m
    } else {
        spec_upsert_one(spec_upsert_batch(m, b.drop_last()), b.last())
    }
}

/// The record a batch leaves under one id: its last record with that id,
/// if it has any.
pub open spec fn spec_batch_lookup(b: Seq<EntryView>, id: Seq<char>) -> Option<EntryView>
    decreases b.len(),
{
    if b.len() == 0 {
        None
    } else if b.last().uuid == id {
        Some(b.last())
    } else {
        spec_batch_lookup(b.drop_last(), id)
    }
}

/// What a batch upsert leaves under each id: the batch's last record with
/// that id, else whatever the index held before, and nothing else appears
/// or disappears.
pub proof fn lemma_upsert_batch_lookup(m: Map<Seq<char>, EntryView>, b: Seq<EntryView>, id: Seq<
    char,
>)
    ensures
        spec_upsert_batch(m, b).contains_key(id) == (m.contains_key(id) || spec_batch_lookup(
            b,
            id,
        ) is Some),
        spec_upsert_batch(m, b).contains_key(id) ==> spec_upsert_batch(m, b)[id] == (
        match spec_batch_lookup(b, id) {
            Some(e) => e,
            None => m[id],
        }),
    decreases b.len(),
{
    if b.len() > 0 {
        lemma_upsert_batch_lookup(m, b.drop_last(), id);
    }
}

/// Submitting the same batch a second time changes nothing: the index is
/// already in the state the batch puts it in.
pub proof fn lemma_upsert_batch_idempotent(m: Map<Seq<char>, EntryView>, b: Seq<EntryView>)
    ensures
        spec_upsert_batch(spec_upsert_batch(m, b), b) == spec_upsert_batch(m, b),
{
    let m1 = spec_upsert_batch(m, b);
    let m2 = spec_upsert_batch(m1, b);
    assert forall|id: Seq<char>|
        #[trigger] m2.contains_key(id) == m1.contains_key(id) && (m1.contains_key(id) ==> m2[id]
            == m1[id]) by {
        lemma_upsert_batch_lookup(m, b, id);
        lemma_upsert_batch_lookup(m1, b, id);
    }
    assert(m2 =~= m1);
}

/// Upserting a concatenation is upserting its parts in order.
pub proof fn lemma_upsert_batch_concat(
    m: Map<Seq<char>, EntryView>,
    b1: Seq<EntryView>,
    b2: Seq<EntryView>,
)
    ensures
        spec_upsert_batch(m, b1 + b2) == spec_upsert_batch(spec_upsert_batch(m, b1), b2),
    decreases b2.len(),
{
    if b2.len() == 0 {
        assert(b1 + b2 =~= b1);
    } else {
        lemma_upsert_batch_concat(m, b1, b2.drop_last());
        assert((b1 + b2).drop_last() =~= b1 + b2.drop_last());
        assert((b1 + b2).last() == b2.last());
    }
}

/// A walk's batches submitted one after the other, in submission order.
pub open spec fn spec_submit_batches(
    m: Map<Seq<char>, EntryView>,
    bs: Seq<Seq<EntryView>>,
) -> Map<Seq<char>, EntryView>
    decreases bs.len(),
{
    if bs.len() == 0 {
        m
    } else {
        spec_upsert_batch(spec_submit_batches(m, bs.drop_last()), bs.last())
    }
}

/// Submitting a walk's batches one by one is the same as upserting all its
/// records in one stream.
pub proof fn lemma_submit_batches_is_flatten(m: Map<Seq<char>, EntryView>, bs: Seq<Seq<EntryView>>)
    ensures
        spec_submit_batches(m, bs) == spec_upsert_batch(m, spec_flatten(bs)),
    decreases bs.len(),
{
    if bs.len() > 0 {
        lemma_submit_batches_is_flatten(m, bs.drop_last());
        lemma_upsert_batch_concat(m, spec_flatten(bs.drop_last()), bs.last());
    }
}

/// Idempotence of a completed walk's submission: submitting the same
/// walk's batches twice leaves the remote index exactly as submitting
/// them once does.
pub proof fn lemma_submit_batches_idempotent(m: Map<Seq<char>, EntryView>, bs: Seq<Seq<EntryView>>)
    ensures
        spec_submit_batches(spec_submit_batches(m, bs), bs) == spec_submit_batches(m, bs),
{
    let m1 = spec_submit_batches(m, bs);
    lemma_submit_batches_is_flatten(m, bs);
    lemma_submit_batches_is_flatten(m1, bs);
    lemma_upsert_batch_idempotent(m, spec_flatten(bs));
}

/// The deletion pass: removes every record of the given project whose
/// last refresh strictly predates the cutoff; every other record is kept
/// untouched.
pub open spec fn spec_delete_stale(
    m: Map<Seq<char>, EntryView>,
    project_id: Seq<char>,
    cutoff: i64,
) -> Map<Seq<char>, EntryView> {
    Map::new(
        |id: Seq<char>|
            m.contains_key(id) && !(m[id].project_id == project_id
                && m[id].entry_last_updated < cutoff),
        |id: Seq<char>| m[id],
    )
}

/// Deletion correctness: a project's record from an earlier walk whose
/// path has disappeared — so the new walk submits no record under its id —
/// is gone once the new walk's upserts and deletion pass have run.
pub proof fn lemma_deletion_removes_vanished(
    m: Map<Seq<char>, EntryView>,
    b: Seq<EntryView>,
    project_id: Seq<char>,
    cutoff: i64,
    id: Seq<char>,
)
    requires
        m.contains_key(id),
        m[id].project_id == project_id,
        m[id].entry_last_updated < cutoff,
        spec_batch_lookup(b, id) is None,
    ensures
        !spec_delete_stale(spec_upsert_batch(m, b), project_id, cutoff).contains_key(id),
{
    lemma_upsert_batch_lookup(m, b, id);
}

/// Records the walk refreshed survive its own deletion pass: whatever the
/// walk's stream leaves under an id, stamped no earlier than the cutoff,
/// is still there unchanged after the deletion pass.
pub proof fn lemma_deletion_keeps_refreshed(
    m: Map<Seq<char>, EntryView>,
    b: Seq<EntryView>,
    project_id: Seq<char>,
    cutoff: i64,
    id: Seq<char>,
)
    requires
        spec_batch_lookup(b, id) matches Some(e) && e.entry_last_updated >= cutoff,
    ensures
        spec_delete_stale(spec_upsert_batch(m, b), project_id, cutoff).contains_key(id),
        spec_delete_stale(spec_upsert_batch(m, b), project_id, cutoff)[id] == spec_batch_lookup(
            b,
            id,
        ).unwrap(),
{
    lemma_upsert_batch_lookup(m, b, id);
}

/// What a batch leaves under an id is one of its own records.
pub proof fn lemma_batch_lookup_member(b: Seq<EntryView>, id: Seq<char>)
    ensures
        spec_batch_lookup(b, id) matches Some(e) ==> exists|j: int| 0 <= j < b.len() && b[j] == e,
    decreases b.len(),
{
    if b.len() > 0 && b.last().uuid != id {
        lemma_batch_lookup_member(b.drop_last(), id);
        if spec_batch_lookup(b.drop_last(), id) is Some {
            let e = spec_batch_lookup(b.drop_last(), id).unwrap();
            let j = choose|j: int| 0 <= j < b.drop_last().len() && b.drop_last()[j] == e;
            assert(b[j] == e);
        }
    }
}

/// A completed walk's own records survive its own deletion pass: every
/// record the walk's stream leaves under an id carries the walk's
/// reference time, so the deletion pass with that time as cutoff keeps it
/// unchanged — the pass removes only what the walk did not refresh.
pub proof fn lemma_walk_survives_own_deletion(
    m: Map<Seq<char>, EntryView>,
    p: ProjectConfigView,
    raws: Seq<ScannedPathView>,
    reference_time: i64,
    id: Seq<char>,
)
    requires
        spec_batch_lookup(spec_walk_entries(p, raws, reference_time), id) is Some,
    ensures
        ({
            let stream = spec_walk_entries(p, raws, reference_time);
            let after = spec_delete_stale(
                spec_upsert_batch(m, stream),
                p.id,
                reference_time,
            );
            after.contains_key(id) && after[id] == spec_batch_lookup(stream, id).unwrap()
        }),
{
    let stream = spec_walk_entries(p, raws, reference_time);
    lemma_batch_lookup_member(stream, id);
    lemma_walk_entries_wf(p, raws, reference_time);
    lemma_deletion_keeps_refreshed(m, stream, p.id, reference_time, id);
}

} // verus!
