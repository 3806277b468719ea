use vstd::prelude::*;

verus! {

/// The name of the diff-application script inside a patch archive.
pub const PATCH_SCRIPT: &'static str = "apply_patch.sh";

/// The helper binary-diff tool shipped beside the script.
pub const DIFF_HELPER: &'static str = "hpatchz";

/// One entry of a directory listing, as the driver saw it.
#[derive(Clone, Debug, PartialEq, Eq)]
pub struct ScanEntry {
    /// The entry's file name.
    pub name: String,
    /// Whether the entry is a directory.
    pub is_dir: bool,
    /// For a directory: whether it directly holds the script.
    pub holds_script: bool,
}

/// Whether the entry is, or directly holds, the diff-application script.
pub open spec fn is_script_site(e: ScanEntry) -> bool {
    if e.is_dir {
        e.holds_script
    } else {
        e.name@ == PATCH_SCRIPT@
    }
}

/// Whether the entry is a file named `name`.
pub open spec fn is_file_named(e: ScanEntry, name: Seq<char>) -> bool {
    !e.is_dir && e.name@ == name
}

/// Picks, in a listing of the extracted root, the first entry that is the
/// script or a directory holding it: the search goes one level deep only.
pub fn find_patch_script(entries: &Vec<ScanEntry>) -> (r: Option<usize>)
    ensures
        match r {
            Some(i) => i < entries@.len() && is_script_site(entries@[i as int]) && forall|j: int|
                0 <= j < i ==> !is_script_site(#[trigger] entries@[j]),
            None => forall|j: int| 0 <= j < entries@.len() ==> !is_script_site(#[trigger] entries@[j]),
        },
{
    let script = String::from_str(PATCH_SCRIPT);
    let mut i: usize = 0;
    while i < entries.len()
        invariant
            i <= entries@.len(),
            script@ == PATCH_SCRIPT@,
            forall|j: int| 0 <= j < i ==> !is_script_site(#[trigger] entries@[j]),
        decreases entries@.len() - i,
    {
        let e = &entries[i];
        let hit = if e.is_dir {
            e.holds_script
        } else {
            e.name == script
        };
        if hit {
            return Some(i);
        }
        i = i + 1;
    }
    None
}

/// Picks, in a depth-first listing of a scratch tree, the first file named
/// `name`.
pub fn find_file_recursive(entries: &Vec<ScanEntry>, name: &String) -> (r: Option<usize>)
    ensures
        match r {
            Some(i) => i < entries@.len() && is_file_named(entries@[i as int], name@) && forall|
                j: int,
            | 0 <= j < i ==> !is_file_named(#[trigger] entries@[j], name@),
            None => forall|j: int|
                0 <= j < entries@.len() ==> !is_file_named(#[trigger] entries@[j], name@),
        },
{
    let mut i: usize = 0;
    while i < entries.len()
        invariant
            i <= entries@.len(),
            forall|j: int| 0 <= j < i ==> !is_file_named(#[trigger] entries@[j], name@),
        decreases entries@.len() - i,
    {
        let e = &entries[i];
        if !e.is_dir && e.name == *name {
            return Some(i);
        }
        i = i + 1;
    }
    None
}

} // verus!
