//! What a walk hands the classifier: one scanned path per visited node,
//! with the metadata snapshot the walker could read, and the per-entry
//! policy that decides which scanned paths are indexed.

use vstd::prelude::*;

verus! {

use crate::config::{opt_str_view, ProjectConfig, ProjectConfigView};

/// Metadata snapshot of one path. `is_file` and `is_dir` follow symbolic
/// links, as a plain metadata read does; `modified` is Unix seconds, absent
/// when the filesystem could not supply a modification time.
#[derive(Clone, Copy, Debug)]
pub struct ScannedMeta {
    pub is_file: bool,
    pub is_dir: bool,
    pub size: u64,
    pub modified: Option<i64>,
}

/// The mathematical view of a scanned path.
pub struct ScannedPathView {
    pub path: Seq<char>,
    pub name: Option<Seq<char>>,
    pub depth: nat,
    pub meta: Option<ScannedMeta>,
}

/// One path yielded by a walk: its absolute path string, its base name (a
/// path such as `/` has none), how many levels below the walk root it
/// lies (the root itself is at depth 0), and its metadata snapshot, absent
/// when the read failed and the entry is to be skipped.
#[derive(Clone, Debug)]
pub struct ScannedPath {
    pub path: String,
    pub name: Option<String>,
    pub depth: usize,
    pub meta: Option<ScannedMeta>,
}

impl View for ScannedPath {
    type V = ScannedPathView;

    open spec fn view(&self) -> ScannedPathView {
        ScannedPathView {
            path: self.path@,
            name: opt_str_view(self.name),
            depth: self.depth as nat,
            meta: self.meta,
        }
    }
}

/// Whether a base name marks its entry as hidden: a leading dot.
pub open spec fn spec_is_hidden_name(name: Seq<char>) -> bool {
    name.len() > 0 && name[0] == '.'
}

/// An entry is hidden exactly when its base name starts with `.`.
pub fn is_hidden_name(name: &str) -> (r: bool)
    ensures
        r == spec_is_hidden_name(name@),
{
    if name.is_empty() {
        false
    } else {
        name.get_char(0) == '.'
    }
}

/// Whether an entry at `depth` levels below the root is within the
/// project's depth bound: 0 means unbounded recursion, any positive value
/// bounds recursion to that many levels below the root.
pub open spec fn spec_depth_allowed(max_depth: nat, depth: nat) -> bool {
    max_depth == 0 || depth <= max_depth
}

/// Whether the hidden-entry policy lets an entry through. The walk root
/// itself is always visited; below the root, a dot-prefixed name is let
/// through only when the project indexes hidden entries.
pub open spec fn spec_hidden_allowed(
    index_hidden: bool,
    depth: nat,
    name: Option<Seq<char>>,
) -> bool {
    index_hidden || depth == 0 || !(name matches Some(n) && spec_is_hidden_name(n))
}

/// Whether a scanned path passes the project's per-entry policy: both the
/// depth bound and the hidden-entry policy.
pub open spec fn spec_admit(p: ProjectConfigView, s: ScannedPathView) -> bool {
    spec_depth_allowed(p.max_depth, s.depth) && spec_hidden_allowed(p.index_hidden, s.depth, s.name)
}

/// Decides whether one scanned path is indexed under the project's policy.
pub fn admit_scanned(project: &ProjectConfig, s: &ScannedPath) -> (r: bool)
    ensures
        r == spec_admit(project@, s@),
{
    let depth_ok = project.max_depth == 0 || s.depth <= project.max_depth;
    let hidden_ok = project.index_hidden || s.depth == 0 || match &s.name {
        Some(n) => !is_hidden_name(n.as_str()),
        None => true,
    };
    depth_ok && hidden_ok
}

/// A dot-prefixed entry below the root, within the depth bound, is
/// admitted exactly when the project indexes hidden entries.
pub proof fn lemma_hidden_iff_flag(p: ProjectConfigView, s: ScannedPathView)
    requires
        s.depth > 0,
        s.name matches Some(n) && spec_is_hidden_name(n),
        spec_depth_allowed(p.max_depth, s.depth),
    ensures
        spec_admit(p, s) <==> p.index_hidden,
{
}

/// Toggling the hidden-entry flag, all else equal, changes the admission
/// of an entry only if that entry has a dot-prefixed name below the root;
/// and switching the flag on never excludes an entry that was included.
pub proof fn lemma_hidden_toggle_changes_only_hidden(
    p_on: ProjectConfigView,
    p_off: ProjectConfigView,
    s: ScannedPathView,
)
    requires
        p_on.index_hidden,
        !p_off.index_hidden,
        p_on == (ProjectConfigView { index_hidden: true, ..p_off }),
    ensures
        spec_admit(p_on, s) != spec_admit(p_off, s) ==> s.depth > 0 && (s.name matches Some(n)
            && spec_is_hidden_name(n)),
        spec_admit(p_off, s) ==> spec_admit(p_on, s),
{
}

/// Depth limiting: with a depth bound of 1, an entry nested two or more
/// levels below the root is never admitted, and an entry at most one level
/// below the root is admitted whenever the hidden-entry policy lets it
/// through.
pub proof fn lemma_depth_limit(p: ProjectConfigView, s: ScannedPathView)
    requires
        p.max_depth == 1,
    ensures
        s.depth >= 2 ==> !spec_admit(p, s),
        s.depth <= 1 && spec_hidden_allowed(p.index_hidden, s.depth, s.name) ==> spec_admit(p, s),
{
}

} // verus!
