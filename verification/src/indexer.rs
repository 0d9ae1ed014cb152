//! The per-project indexing pipeline: classifying scanned paths into
//! records, batching them for submission, and phrasing the reconciliation
//! filter that removes records the walk did not refresh.

use vstd::prelude::*;

verus! {

use crate::batch::{batch_view, Batcher, MEILISEARCH_BATCH_ENTRIES_LIMIT};
use crate::config::{MeiliSearchConfig, ProjectConfig, ProjectConfigView};
use crate::decimal::{i64_to_dec, spec_dec_int};
use crate::entry_id::{derive_entry_id, uuid_of};
use crate::file_index::{entry_wf, EntryView, FileSystemEntry, IndexEntryType};
use crate::scan::{
    admit_scanned, is_hidden_name, spec_admit, spec_is_hidden_name, ScannedPath, ScannedPathView,
};

/// Drives one project's walks: holds the project definition and the name
/// of the remote index the records go to. The network client itself lives
/// with the caller; this type owns every decision that does not need it.
#[derive(Clone, Debug)]
pub struct Indexer {
    pub project_config: ProjectConfig,
    pub meili_index_name: String,
}

/// What the classifier makes of one scanned path: `None` when the entry is
/// skipped (no metadata, no base name, or neither file nor folder), else
/// the record, with the id derived from the path, a size for files only,
/// and the walk's reference time stamped on.
pub open spec fn spec_entry_to_index(
    s: ScannedPathView,
    project_id: Seq<char>,
    update_time: i64,
) -> Option<EntryView> {
    match (s.meta, s.name) {
        (Some(m), Some(name)) => if m.is_file {
            Some(
                EntryView {
                    uuid: uuid_of(s.path),
                    path: s.path,
                    name: name,
                    entry_type: IndexEntryType::File,
                    size: Some(m.size),
                    modified_date: m.modified,
                    is_hidden: spec_is_hidden_name(name),
                    preview: None,
                    project_id: project_id,
                    entry_last_updated: update_time,
                },
            )
        } else if m.is_dir {
            Some(
                EntryView {
                    uuid: uuid_of(s.path),
                    path: s.path,
                    name: name,
                    entry_type: IndexEntryType::Folder,
                    size: None,
                    modified_date: m.modified,
                    is_hidden: spec_is_hidden_name(name),
                    preview: None,
                    project_id: project_id,
                    entry_last_updated: update_time,
                },
            )
        } else {
            None
        },
        _ => None,
    }
}

/// The filter expression whose matches the reconciliation pass deletes:
/// records of this project whose last refresh predates the cutoff.
pub open spec fn spec_deletion_filter(project_id: Seq<char>, cutoff: i64) -> Seq<char> {
    "(project_id = "@ + project_id + ") AND (entry_last_updated < "@ + spec_dec_int(
        cutoff as int,
    ) + ")"@
}

impl Indexer {
    /// Sets a project's indexer up. Succeeds exactly when the backend URL
    /// and API key are both present; without them no run could reach the
    /// remote index.
    pub fn new(project_config: &ProjectConfig, meilisearch_config: &MeiliSearchConfig) -> (r:
        Option<Indexer>)
        ensures
            (r is Some) <==> (meilisearch_config.meilisearch_url@.len() > 0
                && meilisearch_config.meilisearch_api_key@.len() > 0),
            r matches Some(ix) ==> ix.project_config@ == project_config@
                && ix.meili_index_name@ == meilisearch_config.meilisearch_index_name@,
    {
        if meilisearch_config.meilisearch_url.as_str().is_empty()
            || meilisearch_config.meilisearch_api_key.as_str().is_empty() {
            return None;
        }
        let custom_ignore_rule_file = match &project_config.custom_ignore_rule_file {
            Some(f) => Some(f.clone()),
            None => None,
        };
        Some(
            Indexer {
                project_config: ProjectConfig {
                    root: project_config.root.clone(),
                    crontab: project_config.crontab.clone(),
                    max_depth: project_config.max_depth,
                    custom_ignore_rule_file,
                    index_hidden: project_config.index_hidden,
                    follow_symlinks: project_config.follow_symlinks,
                    id: project_config.id.clone(),
                },
                meili_index_name: meilisearch_config.meilisearch_index_name.clone(),
            },
        )
    }

    /// Classifies one scanned path into a record, or skips it. Skipping is
    /// per entry and never an error: one unreadable path must not stop the
    /// indexing of its siblings.
    pub fn entry_to_index(&self, s: &ScannedPath, update_time: i64) -> (r: Option<FileSystemEntry>)
        ensures
            match r {
                Some(e) => spec_entry_to_index(s@, self.project_config.id@, update_time) == Some(
                    e@,
                ),
                None => spec_entry_to_index(s@, self.project_config.id@, update_time) is None,
            },
    {
        let meta = match &s.meta {
            Some(m) => *m,
            None => {
                return None;
            },
        };
        let name: &String = match &s.name {
            Some(n) => n,
            None => {
                return None;
            },
        };
        let entry_type = if meta.is_file {
            IndexEntryType::File
        } else if meta.is_dir {
            IndexEntryType::Folder
        } else {
            return None;
        };
        let size = if meta.is_file {
            Some(meta.size)
        } else {
            None
        };
        let is_hidden = is_hidden_name(name.as_str());
        let uuid = derive_entry_id(s.path.as_str());
        Some(
            FileSystemEntry {
                uuid,
                path: s.path.clone(),
                name: name.clone(),
                entry_type,
                size,
                modified_date: meta.modified,
                is_hidden,
                preview: None,
                project_id: self.project_config.id.clone(),
                entry_last_updated: update_time,
            },
        )
    }

    /// The reconciliation filter for a walk with the given reference time:
    /// it matches exactly the remote records of this project that the walk
    /// did not refresh.
    pub fn deletion_filter(&self, update_time: i64) -> (s: String)
        ensures
            s@ == spec_deletion_filter(self.project_config.id@, update_time),
    {
        let mut s: String = "(project_id = ".to_owned();
        s.append(self.project_config.id.as_str());
        s.append(") AND (entry_last_updated < ");
        let num = i64_to_dec(update_time);
        s.append(num.as_str());
        s.append(")");
        proof {
            assert(s@ =~= spec_deletion_filter(self.project_config.id@, update_time));
        }
        s
    }

    /// Plans a whole walk for a given reference time: classifies every
    /// scanned path, groups the records into batches in visitation order —
    /// every batch full except the final partial one — counts them, and
    /// phrases the deletion filter for the reconciliation pass.
    pub fn plan_with_time(&self, raws: &Vec<ScannedPath>, reference_time: i64) -> (plan: WalkPlan)
        ensures
            plan.reference_time == reference_time,
            plan.total == spec_walk_entries(
                self.project_config@,
                scans_view(raws@),
                reference_time,
            ).len(),
            spec_flatten(batches_view(plan.batches@)) == spec_walk_entries(
                self.project_config@,
                scans_view(raws@),
                reference_time,
            ),
            plan.batches@.len() >= 1,
            forall|j: int|
                0 <= j < plan.batches@.len() - 1 ==> (#[trigger] plan.batches@[j])@.len()
                    == MEILISEARCH_BATCH_ENTRIES_LIMIT,
            plan.batches@.last()@.len() < MEILISEARCH_BATCH_ENTRIES_LIMIT,
            plan.deletion_filter@ == spec_deletion_filter(self.project_config.id@, reference_time),
    {
        let ghost p = self.project_config@;
        let ghost rv = scans_view(raws@);
        let mut batches: Vec<Vec<FileSystemEntry>> = Vec::new();
        let mut batcher = Batcher::new();
        let mut total: usize = 0;
        let mut i: usize = 0;
        proof {
            assert(rv.take(0) =~= Seq::<ScannedPathView>::empty());
            assert(spec_flatten(batches_view(batches@)) + batcher.buffered() =~= spec_walk_entries(
                p,
                rv.take(0),
                reference_time,
            ));
        }
        while i < raws.len()
            invariant
                i <= raws@.len(),
                p == self.project_config@,
                rv == scans_view(raws@),
                batcher.wf(),
                total <= i,
                total == spec_walk_entries(p, rv.take(i as int), reference_time).len(),
                spec_flatten(batches_view(batches@)) + batcher.buffered() == spec_walk_entries(
                    p,
                    rv.take(i as int),
                    reference_time,
                ),
                forall|j: int|
                    0 <= j < batches@.len() ==> (#[trigger] batches@[j])@.len()
                        == MEILISEARCH_BATCH_ENTRIES_LIMIT,
            decreases raws@.len() - i,
        {
            let r = &raws[i];
            let ghost prefix = spec_walk_entries(p, rv.take(i as int), reference_time);
            if admit_scanned(&self.project_config, r) {
                match self.entry_to_index(r, reference_time) {
                    Some(e) => {
                        let ghost ev = e@;
                        total = total + 1;
                        match batcher.push(e) {
                            Some(full) => {
                                proof {
                                    lemma_flatten_push(batches_view(batches@), batch_view(full@));
                                    assert(batches_view(batches@.push(full)) =~= batches_view(
                                        batches@,
                                    ).push(batch_view(full@)));
                                }
                                batches.push(full);
                                proof {
                                    assert(spec_flatten(batches_view(batches@))
                                        + batcher.buffered() =~= prefix.push(ev));
                                }
                            },
                            None => {
                                proof {
                                    assert(spec_flatten(batches_view(batches@))
                                        + batcher.buffered() =~= prefix.push(ev));
                                }
                            },
                        }
                    },
                    None => {},
                }
            }
            i = i + 1;
            proof {
                assert(rv.take(i as int).drop_last() =~= rv.take(i - 1));
                assert(rv.take(i as int).last() == raws@[i - 1]@);
            }
        }
        proof {
            assert(rv.take(i as int) =~= rv);
        }
        let last_batch = batcher.finish();
        proof {
            lemma_flatten_push(batches_view(batches@), batch_view(last_batch@));
            assert(batches_view(batches@.push(last_batch)) =~= batches_view(batches@).push(
                batch_view(last_batch@),
            ));
        }
        batches.push(last_batch);
        let deletion_filter = self.deletion_filter(reference_time);
        WalkPlan { batches, total, reference_time, deletion_filter }
    }

    /// Runs the planning side of one walk: stamps the walk with the
    /// current wall-clock time and plans batches, count and deletion
    /// filter for it. Whatever reference time the clock hands back, the
    /// plan is exactly the one `plan_with_time` computes for it.
    pub fn index_files(&self, raws: &Vec<ScannedPath>) -> (plan: WalkPlan)
        ensures
            plan.total == spec_walk_entries(
                self.project_config@,
                scans_view(raws@),
                plan.reference_time,
            ).len(),
            spec_flatten(batches_view(plan.batches@)) == spec_walk_entries(
                self.project_config@,
                scans_view(raws@),
                plan.reference_time,
            ),
            plan.batches@.len() >= 1,
            forall|j: int|
                0 <= j < plan.batches@.len() - 1 ==> (#[trigger] plan.batches@[j])@.len()
                    == MEILISEARCH_BATCH_ENTRIES_LIMIT,
            plan.batches@.last()@.len() < MEILISEARCH_BATCH_ENTRIES_LIMIT,
            plan.deletion_filter@ == spec_deletion_filter(
                self.project_config.id@,
                plan.reference_time,
            ),
    {
        let reference_time = walk_reference_time();
        self.plan_with_time(raws, reference_time)
    }
}

/// The views of a sequence of scanned paths, in order.
pub open spec fn scans_view(s: Seq<ScannedPath>) -> Seq<ScannedPathView> {
    s.map_values(|r: ScannedPath| r@)
}

/// The views of a sequence of batches, in order.
pub open spec fn batches_view(bs: Seq<Vec<FileSystemEntry>>) -> Seq<Seq<EntryView>> {
    bs.map_values(|b: Vec<FileSystemEntry>| batch_view(b@))
}

/// All batches laid end to end, in submission order.
pub open spec fn spec_flatten(bs: Seq<Seq<EntryView>>) -> Seq<EntryView>
    decreases bs.len(),
{
    if bs.len() == 0 {
        Seq::empty()
    } else {
        spec_flatten(bs.drop_last()) + bs.last()
    }
}

/// Flattening distributes over appending one batch.
pub proof fn lemma_flatten_push(bs: Seq<Seq<EntryView>>, b: Seq<EntryView>)
    ensures
        spec_flatten(bs.push(b)) == spec_flatten(bs) + b,
{
    assert(bs.push(b).drop_last() =~= bs);
}

/// The records one walk produces: every scanned path that passes the
/// project's per-entry policy and classifies as a file or folder, turned
/// into a record, in visitation order.
pub open spec fn spec_walk_entries(
    p: ProjectConfigView,
    raws: Seq<ScannedPathView>,
    update_time: i64,
) -> Seq<EntryView>
    decreases raws.len(),
{
    if raws.len() == 0 {
        Seq::empty()
    } else {
        let rest = spec_walk_entries(p, raws.drop_last(), update_time);
        if spec_admit(p, raws.last()) {
            match spec_entry_to_index(raws.last(), p.id, update_time) {
                Some(e) => rest.push(e),
                None => rest,
            }
        } else {
            rest
        }
    }
}

/// Every record a walk produces is well formed, belongs to the walked
/// project, and carries the walk's reference time — one shared timestamp
/// per walk, which is what the reconciliation pass compares against.
pub proof fn lemma_walk_entries_wf(
    p: ProjectConfigView,
    raws: Seq<ScannedPathView>,
    update_time: i64,
)
    ensures
        forall|j: int|
            0 <= j < spec_walk_entries(p, raws, update_time).len() ==> {
                let e = #[trigger] spec_walk_entries(p, raws, update_time)[j];
                &&& entry_wf(e)
                &&& e.project_id == p.id
                &&& e.entry_last_updated == update_time
            },
    decreases raws.len(),
{
    if raws.len() > 0 {
        lemma_walk_entries_wf(p, raws.drop_last(), update_time);
    }
}

/// A walk over plainly visible paths misses nothing: when every scanned
/// path is within the depth bound, none is hidden below the root, and
/// each has a base name and reads as a file or a folder, the walk
/// produces exactly one record per scanned path — files, subfolders and
/// the root alike, since the walker yields the root as its own entry.
pub proof fn lemma_walk_counts_everything(
    p: ProjectConfigView,
    raws: Seq<ScannedPathView>,
    update_time: i64,
)
    requires
        forall|j: int| 0 <= j < raws.len() ==> spec_admit(p, #[trigger] raws[j]),
        forall|j: int|
            0 <= j < raws.len() ==> spec_entry_to_index(#[trigger] raws[j], p.id, update_time)
                is Some,
    ensures
        spec_walk_entries(p, raws, update_time).len() == raws.len(),
    decreases raws.len(),
{
    if raws.len() > 0 {
        assert forall|j: int| 0 <= j < raws.drop_last().len() implies spec_admit(
            p,
            #[trigger] raws.drop_last()[j],
        ) && spec_entry_to_index(raws.drop_last()[j], p.id, update_time) is Some by {
            assert(raws.drop_last()[j] == raws[j]);
        }
        lemma_walk_counts_everything(p, raws.drop_last(), update_time);
    }
}

/// With no dot-prefixed names among the scanned paths, toggling the
/// hidden-entry flag while holding all else constant changes nothing: the
/// two walks produce the same records. Together with the per-entry toggle
/// law, only dot-prefixed entries can ever differ between the two.
pub proof fn lemma_walk_hidden_toggle(
    p_on: ProjectConfigView,
    p_off: ProjectConfigView,
    raws: Seq<ScannedPathView>,
    update_time: i64,
)
    requires
        p_on == (ProjectConfigView { index_hidden: true, ..p_off }),
        forall|j: int|
            0 <= j < raws.len() ==> !((#[trigger] raws[j]).name matches Some(n)
                && spec_is_hidden_name(n)),
    ensures
        spec_walk_entries(p_on, raws, update_time) == spec_walk_entries(p_off, raws, update_time),
    decreases raws.len(),
{
    if raws.len() > 0 {
        assert forall|j: int|
            0 <= j < raws.drop_last().len() implies !((#[trigger] raws.drop_last()[j]).name
            matches Some(n) && spec_is_hidden_name(n)) by {
            assert(raws.drop_last()[j] == raws[j]);
        }
        lemma_walk_hidden_toggle(p_on, p_off, raws.drop_last(), update_time);
    }
}

/// A file's record carries exactly the file's byte length; a folder's
/// record carries no size — for every path the classifier accepts.
pub proof fn lemma_size_iff_kind(s: ScannedPathView, project_id: Seq<char>, update_time: i64)
    ensures
        spec_entry_to_index(s, project_id, update_time) matches Some(e) ==> {
            &&& (e.entry_type is File <==> e.size is Some)
            &&& (e.entry_type is File ==> e.size == Some(s.meta.unwrap().size))
            &&& (e.entry_type is Folder ==> e.size is None)
        },
{
}

/// Everything one walk-and-sync run submits: the batches in submission
/// order (the last one partial, possibly empty), the total record count,
/// the walk's reference time, and the filter of the deletion pass that
/// runs after the last batch.
pub struct WalkPlan {
    pub batches: Vec<Vec<FileSystemEntry>>,
    pub total: usize,
    pub reference_time: i64,
    pub deletion_filter: String,
}

/// The id of a record is a function of its path alone: however often a
/// path is visited, and whatever project, walk time or metadata the visit
/// carries, the derived id is the same.
pub proof fn lemma_id_deterministic(
    s1: ScannedPathView,
    s2: ScannedPathView,
    pid1: Seq<char>,
    pid2: Seq<char>,
    t1: i64,
    t2: i64,
)
    requires
        s1.path == s2.path,
        spec_entry_to_index(s1, pid1, t1) is Some,
        spec_entry_to_index(s2, pid2, t2) is Some,
    ensures
        spec_entry_to_index(s1, pid1, t1).unwrap().uuid == spec_entry_to_index(
            s2,
            pid2,
            t2,
        ).unwrap().uuid,
{
}

/// Relies on `chrono::Utc::now`: the walk's reference time, read from the
/// system clock as Unix seconds. Nothing is promised of the value; every
/// caller must cope with any timestamp that comes back.
#[verifier::external_body]
pub(crate) fn walk_reference_time() -> i64 {
    chrono::Utc::now().timestamp()
}

} // verus!
