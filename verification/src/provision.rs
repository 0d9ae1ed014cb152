//! One-time provisioning of the remote index schema: the attribute sets
//! the index must allow filtering and sorting on, the tokenizer separators
//! to suppress so paths survive as whole tokens, and the check that tells
//! whether the remote schema still needs to be pushed.

use vstd::prelude::*;

verus! {

/// The attributes the index must allow filtering on; the reconciliation
/// pass filters on `project_id` and `entry_last_updated`.
pub open spec fn spec_filterable_attributes() -> Seq<Seq<char>> {
    seq![
        "path"@,
        "name"@,
        "entry_type"@,
        "size"@,
        "modified_date"@,
        "is_hidden"@,
        "preview"@,
        "project_id"@,
        "entry_last_updated"@,
    ]
}

/// The attributes the index must allow sorting on.
pub open spec fn spec_sortable_attributes() -> Seq<Seq<char>> {
    seq!["path"@, "name"@, "size"@, "modified_date"@]
}

/// The characters the tokenizer must not treat as separators, so that
/// paths, symbols and numbers stay searchable as written.
pub open spec fn spec_non_separator_tokens() -> Seq<Seq<char>> {
    seq![
        "."@,
        "/"@,
        "\\"@,
        "@"@,
        "#"@,
        "$"@,
        "%"@,
        "^"@,
        "&"@,
        "*"@,
        "("@,
        ")"@,
        "-"@,
        "_"@,
        "+"@,
        "="@,
        " "@,
    ]
}

/// The filterable attribute set, as sent to the backend.
pub fn filterable_attributes() -> (v: Vec<String>)
    ensures
        v@.map_values(|s: String| s@) == spec_filterable_attributes(),
{
    let mut v: Vec<String> = Vec::new();
    v.push("path".to_owned());
    v.push("name".to_owned());
    v.push("entry_type".to_owned());
    v.push("size".to_owned());
    v.push("modified_date".to_owned());
    v.push("is_hidden".to_owned());
    v.push("preview".to_owned());
    v.push("project_id".to_owned());
    v.push("entry_last_updated".to_owned());
    proof {
        assert(v@.map_values(|s: String| s@) =~= spec_filterable_attributes());
    }
    v
}

/// The sortable attribute set, as sent to the backend.
pub fn sortable_attributes() -> (v: Vec<String>)
    ensures
        v@.map_values(|s: String| s@) == spec_sortable_attributes(),
{
    let mut v: Vec<String> = Vec::new();
    v.push("path".to_owned());
    v.push("name".to_owned());
    v.push("size".to_owned());
    v.push("modified_date".to_owned());
    proof {
        assert(v@.map_values(|s: String| s@) =~= spec_sortable_attributes());
    }
    v
}

/// The non-separator token set, as sent to the backend.
pub fn non_separator_tokens() -> (v: Vec<String>)
    ensures
        v@.map_values(|s: String| s@) == spec_non_separator_tokens(),
{
    let mut v: Vec<String> = Vec::new();
    v.push(".".to_owned());
    v.push("/".to_owned());
    v.push("\\".to_owned());
    v.push("@".to_owned());
    v.push("#".to_owned());
    v.push("$".to_owned());
    v.push("%".to_owned());
    v.push("^".to_owned());
    v.push("&".to_owned());
    v.push("*".to_owned());
    v.push("(".to_owned());
    v.push(")".to_owned());
    v.push("-".to_owned());
    v.push("_".to_owned());
    v.push("+".to_owned());
    v.push("=".to_owned());
    v.push(" ".to_owned());
    proof {
        assert(v@.map_values(|s: String| s@) =~= spec_non_separator_tokens());
    }
    v
}

/// Whether one of the strings reads as `s`.
pub open spec fn spec_contains_string(v: Seq<String>, s: Seq<char>) -> bool {
    exists|i: int| 0 <= i < v.len() && v[i]@ == s
}

/// Looks a string up in a list of strings.
pub fn contains_string(v: &Vec<String>, s: &String) -> (r: bool)
    ensures
        r == spec_contains_string(v@, s@),
{
    let mut i: usize = 0;
    while i < v.len()
        invariant
            i <= v@.len(),
            forall|j: int| 0 <= j < i ==> (#[trigger] v@[j])@ != s@,
        decreases v@.len() - i,
    {
        if s.eq(&v[i]) {
            return true;
        }
        i = i + 1;
    }
    false
}

/// Whether any required attribute is absent from the set the backend
/// reports — exactly then must the schema be pushed again.
pub fn attributes_missing(existing: &Vec<String>, required: &Vec<String>) -> (r: bool)
    ensures
        r == exists|i: int|
            0 <= i < required@.len() && !spec_contains_string(
                existing@,
                (#[trigger] required@[i])@,
            ),
{
    let mut i: usize = 0;
    while i < required.len()
        invariant
            i <= required@.len(),
            forall|j: int|
                0 <= j < i ==> spec_contains_string(existing@, (#[trigger] required@[j])@),
        decreases required@.len() - i,
    {
        if !contains_string(existing, &required[i]) {
            return true;
        }
        i = i + 1;
    }
    false
}

} // verus!
