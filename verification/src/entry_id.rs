//! Stable identifier derivation. A record's id is a deterministic function
//! of its absolute path string, so repeated walks of an unchanged tree
//! produce byte-identical ids, which is what makes upserts idempotent and
//! the deletion pass precise.

use vstd::prelude::*;

verus! {

/// The hyphenated text form of the version-5 UUID, in the URL namespace, of
/// a path string. The digest itself is not written out here: all the
/// synchronization logic needs is that it is a fixed function of the path
/// characters alone, identical across runs and machines.
pub uninterp spec fn uuid_of(path: Seq<char>) -> Seq<char>;

/// Relies on `uuid::Uuid::new_v5` and the hyphenated `Display` form of a
/// `Uuid`: the result is the SHA-1-based name UUID of the URL namespace and
/// the path bytes, a pure function of the path string alone.
#[verifier::external_body]
pub(crate) fn derive_entry_id(path: &str) -> (r: String)
    ensures
        r@ == uuid_of(path@),
{
    uuid::Uuid::new_v5(&uuid::Uuid::NAMESPACE_URL, path.as_bytes()).to_string()
}

} // verus!
