use vstd::prelude::*;
use crate::error::PipelineError;

verus! {

/// One installable version of the catalog: its name, the digest of its
/// content and the link to its chunk-store index.
#[derive(Clone, Debug, PartialEq, Eq)]
pub struct GameVersion {
    pub name: String,
    pub hash: String,
    pub link: String,
}

/// An update artifact and the digest it must have once downloaded.
#[derive(Clone, Debug, PartialEq, Eq)]
pub struct PatchInfo {
    pub url: String,
    pub sha256: String,
}

/// The version manifest: the latest version, the version that each known
/// content digest identifies, and the patch that upgrades each outdated
/// version. Tables are kept as lists of pairs; a lookup takes the first pair
/// whose key matches.
#[derive(Clone, Debug, PartialEq, Eq)]
pub struct PatchManifest {
    pub latest: String,
    pub file_hash_map: Vec<(String, String)>,
    pub patches: Vec<(String, PatchInfo)>,
}

/// The version that `h` identifies in the pairs `m`: the value of the first
/// pair whose key is `h`.
pub open spec fn version_of(m: Seq<(String, String)>, h: Seq<char>) -> Option<Seq<char>>
    decreases m.len(),
{
    if m.len() == 0 {
        None
    } else if m[0].0@ == h {
        Some(m[0].1@)
    } else {
        version_of(m.drop_first(), h)
    }
}

/// The patch listed for version `v` in the pairs `p`: the first one whose key
/// is `v`.
pub open spec fn patch_of(p: Seq<(String, PatchInfo)>, v: Seq<char>) -> Option<PatchInfo>
    decreases p.len(),
{
    if p.len() == 0 {
        None
    } else if p[0].0@ == v {
        Some(p[0].1)
    } else {
        patch_of(p.drop_first(), v)
    }
}

impl PatchInfo {
    /// A copy of this entry.
    pub fn duplicate(&self) -> (r: PatchInfo)
        ensures
            r == *self,
    {
        PatchInfo { url: self.url.clone(), sha256: self.sha256.clone() }
    }
}

/// No two pairs of `p` have the same key, as in a map.
pub open spec fn keys_unique<V>(p: Seq<(String, V)>) -> bool {
    forall|i: int, j: int| 0 <= i < j < p.len() ==> #[trigger] p[i].0@ != #[trigger] p[j].0@
}

impl PatchManifest {
    /// Each table maps a key to one value: its keys are unique.
    pub open spec fn wf(&self) -> bool {
        keys_unique(self.file_hash_map@) && keys_unique(self.patches@)
    }

    /// The version that content with digest `h` has, per this manifest.
    pub open spec fn current_version(&self, h: Seq<char>) -> Option<Seq<char>> {
        version_of(self.file_hash_map@, h)
    }

    /// The patch that this manifest lists for version `v`.
    pub open spec fn patch_for(&self, v: Seq<char>) -> Option<PatchInfo> {
        patch_of(self.patches@, v)
    }
}

/// Identifies the version of local content from its digest alone, by an
/// exact lookup in the manifest's hash map.
pub fn resolve_current_version(manifest: &PatchManifest, content_hash: &String) -> (r: Result<
    String,
    PipelineError,
>)
    ensures
        match manifest.current_version(content_hash@) {
            Some(v) => r matches Ok(s) && s@ == v,
            None => r == Err::<String, PipelineError>(PipelineError::UnrecognizedVersion),
        },
{
    let n = manifest.file_hash_map.len();
    let mut i: usize = 0;
    assert(manifest.file_hash_map@.subrange(0, n as int) =~= manifest.file_hash_map@);
    while i < n
        invariant
            n == manifest.file_hash_map@.len(),
            i <= n,
            version_of(manifest.file_hash_map@, content_hash@) == version_of(
                manifest.file_hash_map@.subrange(i as int, n as int),
                content_hash@,
            ),
        decreases n - i,
    {
        let entry = &manifest.file_hash_map[i];
        assert(manifest.file_hash_map@.subrange(i as int + 1, n as int)
            =~= manifest.file_hash_map@.subrange(i as int, n as int).drop_first());
        if entry.0 == *content_hash {
            return Ok(entry.1.clone());
        }
        i = i + 1;
    }
    assert(manifest.file_hash_map@.subrange(n as int, n as int).len() == 0);
    Err(PipelineError::UnrecognizedVersion)
}

/// The patch that upgrades `version`. A missing entry is a hard stop, also
/// for a version other than the latest: no chain of patches is computed.
pub fn resolve_patch(manifest: &PatchManifest, version: &String) -> (r: Result<
    PatchInfo,
    PipelineError,
>)
    ensures
        match manifest.patch_for(version@) {
            Some(p) => r == Ok::<PatchInfo, PipelineError>(p),
            None => r matches Err(PipelineError::NoPatchAvailable(v)) && v@ == version@,
        },
{
    let n = manifest.patches.len();
    let mut i: usize = 0;
    assert(manifest.patches@.subrange(0, n as int) =~= manifest.patches@);
    while i < n
        invariant
            n == manifest.patches@.len(),
            i <= n,
            patch_of(manifest.patches@, version@) == patch_of(
                manifest.patches@.subrange(i as int, n as int),
                version@,
            ),
        decreases n - i,
    {
        let entry = &manifest.patches[i];
        assert(manifest.patches@.subrange(i as int + 1, n as int)
            =~= manifest.patches@.subrange(i as int, n as int).drop_first());
        if entry.0 == *version {
            return Ok(entry.1.duplicate());
        }
        i = i + 1;
    }
    assert(manifest.patches@.subrange(n as int, n as int).len() == 0);
    Err(PipelineError::NoPatchAvailable(version.clone()))
}

/// In a table with unique keys, looking up the key of any pair gives that
/// pair's value: the lists behave as maps.
pub proof fn lemma_version_lookup(m: Seq<(String, String)>, i: int)
    requires
        keys_unique(m),
        0 <= i < m.len(),
    ensures
        version_of(m, m[i].0@) == Some(m[i].1@),
    decreases i,
{
    if i > 0 {
        assert(m[0].0@ != m[i].0@);
        assert(keys_unique(m.drop_first())) by {
            assert forall|a: int, b: int| 0 <= a < b < m.drop_first().len() implies
                #[trigger] m.drop_first()[a].0@ != #[trigger] m.drop_first()[b].0@ by {
                assert(m.drop_first()[a] == m[a + 1]);
                assert(m.drop_first()[b] == m[b + 1]);
            }
        }
        lemma_version_lookup(m.drop_first(), i - 1);
        assert(m.drop_first()[i - 1] == m[i]);
    }
}

/// In a patch table with unique keys, looking up the version of any entry
/// gives that entry's patch.
pub proof fn lemma_patch_lookup(p: Seq<(String, PatchInfo)>, i: int)
    requires
        keys_unique(p),
        0 <= i < p.len(),
    ensures
        patch_of(p, p[i].0@) == Some(p[i].1),
    decreases i,
{
    if i > 0 {
        assert(p[0].0@ != p[i].0@);
        assert(keys_unique(p.drop_first())) by {
            assert forall|a: int, b: int| 0 <= a < b < p.drop_first().len() implies
                #[trigger] p.drop_first()[a].0@ != #[trigger] p.drop_first()[b].0@ by {
                assert(p.drop_first()[a] == p[a + 1]);
                assert(p.drop_first()[b] == p[b + 1]);
            }
        }
        lemma_patch_lookup(p.drop_first(), i - 1);
        assert(p.drop_first()[i - 1] == p[i]);
    }
}

} // verus!
