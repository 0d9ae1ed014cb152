//! Bounded batching of records. A walk may produce far more records than
//! one submission should carry, so records are buffered and handed out in
//! batches of a fixed maximum size, in arrival order.

use vstd::prelude::*;

verus! {

use crate::file_index::{EntryView, FileSystemEntry};

/// Most records one submission batch may hold. Each serialized record is a
/// few kilobytes at most, so this many stay well under the backend's
/// default payload cap.
pub const MEILISEARCH_BATCH_ENTRIES_LIMIT: usize = 10000;

/// The views of the records of one batch, in order.
pub open spec fn batch_view(b: Seq<FileSystemEntry>) -> Seq<EntryView> {
    b.map_values(|e: FileSystemEntry| e@)
}

/// Buffers records as a walk produces them and emits a full batch the
/// moment the size limit is reached, keeping arrival order. Between calls
/// it never holds a full batch.
pub struct Batcher {
    buf: Vec<FileSystemEntry>,
}

impl Batcher {
    /// The records currently buffered, in arrival order.
    pub closed spec fn buffered(self) -> Seq<EntryView> {
        batch_view(self.buf@)
    }

    /// A batcher's buffer always has room for at least one more record.
    pub open spec fn wf(self) -> bool {
        self.buffered().len() < MEILISEARCH_BATCH_ENTRIES_LIMIT
    }

    /// An empty batcher.
    pub fn new() -> (b: Batcher)
        ensures
            b.wf(),
            b.buffered() == Seq::<EntryView>::empty(),
    {
        let b = Batcher { buf: Vec::new() };
        proof {
            assert(b.buffered() =~= Seq::<EntryView>::empty());
        }
        b
    }

    /// Takes one record. When the record completes a batch, the batch is
    /// handed out — exactly the records taken since the last emission, in
    /// order — and the buffer starts over; otherwise the record is kept.
    pub fn push(&mut self, e: FileSystemEntry) -> (out: Option<Vec<FileSystemEntry>>)
        requires
            old(self).wf(),
        ensures
            final(self).wf(),
            match out {
                None => {
                    &&& final(self).buffered() == old(self).buffered().push(e@)
                    &&& final(self).buffered().len() < MEILISEARCH_BATCH_ENTRIES_LIMIT
                },
                Some(full) => {
                    &&& batch_view(full@) == old(self).buffered().push(e@)
                    &&& full@.len() == MEILISEARCH_BATCH_ENTRIES_LIMIT
                    &&& final(self).buffered() == Seq::<EntryView>::empty()
                },
            },
    {
        self.buf.push(e);
        proof {
            assert(batch_view(self.buf@) =~= old(self).buffered().push(e@));
        }
        if self.buf.len() == MEILISEARCH_BATCH_ENTRIES_LIMIT {
            let mut full: Vec<FileSystemEntry> = Vec::new();
            core::mem::swap(&mut self.buf, &mut full);
            proof {
                assert(self.buffered() =~= Seq::<EntryView>::empty());
            }
            Some(full)
        } else {
            None
        }
    }

    /// Ends the walk's batching: hands out whatever is buffered as the
    /// final, possibly partial batch.
    pub fn finish(self) -> (b: Vec<FileSystemEntry>)
        ensures
            batch_view(b@) == self.buffered(),
            self.wf() ==> b@.len() < MEILISEARCH_BATCH_ENTRIES_LIMIT,
    {
        self.buf
    }
}

} // verus!
