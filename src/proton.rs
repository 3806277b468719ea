use vstd::prelude::*;

verus! {

/// The version name that asks for the newest Proton found.
pub const AUTO_DETECT: &'static str = "Auto-detect";

/// Where Steam keeps its own Proton builds, under the Steam root.
pub const COMMON_DIR: &'static str = "steamapps/common";

/// Where user-installed compatibility tools live, under the Steam root.
pub const COMPAT_DIR: &'static str = "compatibilitytools.d";

/// `b` appended to path `a`, with one separator between them; an absolute
/// `b` replaces `a`.
pub open spec fn path_join(a: Seq<char>, b: Seq<char>) -> Seq<char> {
    if b.len() > 0 && b[0] == '/' {
        b
    } else if a.len() > 0 && a.last() != '/' {
        a + seq!['/'] + b
    } else {
        a + b
    }
}

/// Appends `b` to path `a`, with one separator between them; an absolute
/// `b` replaces `a`.
pub fn join(a: &String, b: &str) -> (r: String)
    ensures
        r@ == path_join(a@, b@),
{
    let n = a.as_str().unicode_len();
    proof {
        reveal_strlit("/");
    }
    if b.unicode_len() > 0 && b.get_char(0) == '/' {
        String::from_str(b)
    } else if n > 0 && a.as_str().get_char(n - 1) != '/' {
        a.clone().concat("/").concat(b)
    } else {
        a.clone().concat(b)
    }
}

/// The text that `str::to_lowercase` makes of `s`.
pub uninterp spec fn lower_of(s: Seq<char>) -> Seq<char>;

/// Relies on str::to_lowercase: the lower-case form, which depends on the
/// characters alone.
#[verifier::external_body]
fn to_lower(s: &str) -> (r: String)
    ensures
        r@ == lower_of(s@),
{
    s.to_lowercase()
}

/// Whether `t` occurs in `s` as a run of consecutive characters.
pub open spec fn occurs_in(t: Seq<char>, s: Seq<char>) -> bool {
    exists|i: int| 0 <= i && i + t.len() <= s.len() && #[trigger] s.subrange(i, i + t.len()) == t
}

/// Whether `t` occurs in `s`, as `str::contains` with a `&str` pattern.
pub fn contains_text(s: &str, t: &str) -> (r: bool)
    ensures
        r == occurs_in(t@, s@),
{
    let n = s.unicode_len();
    let m = t.unicode_len();
    if m > n {
        return false;
    }
    if m == 0 {
        assert(s@.subrange(0int, 0int + t@.len()) =~= t@);
        return true;
    }
    let mut i: usize = 0;
    while i <= n - m
        invariant
            n == s@.len(),
            m == t@.len(),
            0 < m <= n,
            i <= n - m + 1,
            forall|k: int| 0 <= k < i ==> #[trigger] s@.subrange(k, k + m) != t@,
        decreases n - i,
    {
        let mut j: usize = 0;
        let mut same = true;
        while j < m && same
            invariant
                n == s@.len(),
                m == t@.len(),
                0 < m <= n,
                i <= n - m,
                forall|k: int| 0 <= k < i ==> #[trigger] s@.subrange(k, k + m) != t@,
                j <= m,
                same ==> forall|jj: int| 0 <= jj < j ==> s@[i + jj] == #[trigger] t@[jj],
                !same ==> s@.subrange(i as int, i + m) != t@,
            decreases m - j + (if same { 1int } else { 0int }),
        {
            if s.get_char(i + j) != t.get_char(j) {
                assert(s@.subrange(i as int, i + m)[j as int] == s@[i + j]);
                same = false;
            } else {
                j = j + 1;
            }
        }
        if same {
            assert(s@.subrange(i as int, i + m) =~= t@);
            return true;
        }
        i = i + 1;
    }
    assert forall|k: int| 0 <= k && k + t@.len() <= s@.len() implies #[trigger] s@.subrange(
        k,
        k + t@.len(),
    ) != t@ by {
        assert(k < i);
    }
    false
}

/// Lexicographic order of character sequences by code point; the order of
/// `String` values, whose bytes are UTF-8.
pub open spec fn lex_le(a: Seq<char>, b: Seq<char>) -> bool
    decreases a.len(),
{
    if a.len() == 0 {
        true
    } else if b.len() == 0 {
        false
    } else if a[0] != b[0] {
        (a[0] as u32) < (b[0] as u32)
    } else {
        lex_le(a.drop_first(), b.drop_first())
    }
}

/// Relies on slice::sort on `String`s: the same strings, in ascending order.
#[verifier::external_body]
fn sort_strings(v: &mut Vec<String>)
    ensures
        final(v)@.to_multiset() == old(v)@.to_multiset(),
        forall|i: int, j: int|
            0 <= i < j < final(v)@.len() ==> lex_le(#[trigger] final(v)@[i]@, #[trigger] final(v)@[j]@),
{
    v.sort()
}

/// Whether a directory name names a Proton build: it holds "proton" in any
/// case.
pub open spec fn is_proton_name(name: Seq<char>) -> bool {
    occurs_in("proton"@, lower_of(name))
}

/// The names of `names` that name Proton builds, in their order.
pub open spec fn proton_names(names: Seq<String>) -> Seq<String>
    decreases names.len(),
{
    if names.len() == 0 {
        Seq::empty()
    } else if is_proton_name(names.last()@) {
        proton_names(names.drop_last()).push(names.last())
    } else {
        proton_names(names.drop_last())
    }
}

/// Finds and launches Proton builds under a Steam root.
pub struct ProtonLauncher {
    pub steam_path: String,
}

impl ProtonLauncher {
    pub fn new(steam_path: String) -> (r: ProtonLauncher)
        ensures
            r.steam_path == steam_path,
    {
        ProtonLauncher { steam_path }
    }

    /// The places where `version`'s launcher script may be, in the order in
    /// which they are tried.
    pub open spec fn candidates(&self, version: Seq<char>) -> Seq<Seq<char>> {
        seq![
            path_join(path_join(path_join(self.steam_path@, COMMON_DIR@), version), "proton"@),
            path_join(path_join(path_join(self.steam_path@, COMPAT_DIR@), version), "proton"@),
        ]
    }

    /// The places where `version`'s launcher script may be.
    pub fn proton_candidates(&self, version: &str) -> (r: Vec<String>)
        ensures
            r@.len() == 2,
            r@[0]@ == self.candidates(version@)[0],
            r@[1]@ == self.candidates(version@)[1],
    {
        let common = join(&join(&join(&self.steam_path, COMMON_DIR), version), "proton");
        let compat = join(&join(&join(&self.steam_path, COMPAT_DIR), version), "proton");
        let mut r: Vec<String> = Vec::new();
        r.push(common);
        r.push(compat);
        r
    }

    /// The Proton builds among the directory names `names`, sorted.
    pub fn detect_proton_versions(&self, names: &Vec<String>) -> (r: Vec<String>)
        ensures
            r@.to_multiset() == proton_names(names@).to_multiset(),
            forall|i: int, j: int| 0 <= i < j < r@.len() ==> lex_le(#[trigger] r@[i]@, #[trigger] r@[j]@),
    {
        let pattern = String::from_str("proton");
        let mut found: Vec<String> = Vec::new();
        let mut i: usize = 0;
        while i < names.len()
            invariant
                i <= names@.len(),
                pattern@ == "proton"@,
                found@ == proton_names(names@.subrange(0, i as int)),
            decreases names@.len() - i,
        {
            let lowered = to_lower(names[i].as_str());
            let keep = contains_text(lowered.as_str(), pattern.as_str());
            proof {
                let s = names@.subrange(0, i as int + 1);
                assert(s.drop_last() =~= names@.subrange(0, i as int));
                assert(s.last() == names@[i as int]);
            }
            if keep {
                found.push(names[i].clone());
            }
            i = i + 1;
        }
        assert(names@.subrange(0, names@.len() as int) =~= names@);
        sort_strings(&mut found);
        found
    }

    /// The version whose launcher is looked up: the newest of `detected`
    /// (sorted) for auto-detection, else `version` itself.
    pub fn lookup_version(&self, version: &String, detected: &Vec<String>) -> (r: Option<String>)
        ensures
            version@ == AUTO_DETECT@ ==> (if detected@.len() == 0 {
                r is None
            } else {
                r == Some(detected@.last())
            }),
            version@ != AUTO_DETECT@ ==> r == Some(*version),
    {
        let auto = String::from_str(AUTO_DETECT);
        if *version == auto {
            if detected.len() == 0 {
                None
            } else {
                Some(detected[detected.len() - 1].clone())
            }
        } else {
            Some(version.clone())
        }
    }

    /// The first candidate of `version` that exists; `present[i]` tells
    /// whether candidate `i` exists, and a missing flag counts as absent.
    pub fn find_proton_executable(&self, version: &str, present: &Vec<bool>) -> (r: Option<String>)
        ensures
            ({
                let has = |i: int| i < present@.len() && present@[i];
                if has(0) {
                    r matches Some(p) && p@ == self.candidates(version@)[0]
                } else if has(1) {
                    r matches Some(p) && p@ == self.candidates(version@)[1]
                } else {
                    r is None
                }
            }),
    {
        let c = self.proton_candidates(version);
        let mut i: usize = 0;
        while i < 2
            invariant
                i <= 2,
                c@.len() == 2,
                c@[0]@ == self.candidates(version@)[0],
                c@[1]@ == self.candidates(version@)[1],
                forall|j: int| 0 <= j < i ==> !(j < present@.len() && #[trigger] present@[j]),
            decreases 2 - i,
        {
            if i < present.len() && present[i] {
                return Some(c[i].clone());
            }
            i = i + 1;
        }
        None
    }

    /// The Proton launcher for `version`: `present` tells which candidates of
    /// `lookup_version(version, detected)` exist.
    pub fn get_proton_path(&self, version: &String, detected: &Vec<String>, present: &Vec<bool>) -> (r:
        Option<String>)
        ensures
            ({
                let has = |i: int| i < present@.len() && present@[i];
                let v = if version@ == AUTO_DETECT@ {
                    if detected@.len() == 0 {
                        None
                    } else {
                        Some(detected@.last()@)
                    }
                } else {
                    Some(version@)
                };
                match v {
                    None => r is None,
                    Some(name) => if has(0) {
                        r matches Some(p) && p@ == self.candidates(name)[0]
                    } else if has(1) {
                        r matches Some(p) && p@ == self.candidates(name)[1]
                    } else {
                        r is None
                    },
                }
            }),
    {
        match self.lookup_version(version, detected) {
            None => None,
            Some(v) => self.find_proton_executable(v.as_str(), present),
        }
    }
}

} // verus!
