use vstd::prelude::*;
use sha2::Digest;

verus! {

/// The upper-case hexadecimal SHA-256 digest of a byte sequence.
pub uninterp spec fn sha256_upper_hex(b: Seq<u8>) -> Seq<char>;

/// Whether every character of `s` is an upper-case hexadecimal digit.
pub open spec fn is_upper_hex(s: Seq<char>) -> bool {
    forall|i: int| 0 <= i < s.len() ==> ('0' <= #[trigger] s[i] <= '9' || 'A' <= s[i] <= 'F')
}

/// A SHA-256 state, held opaque: Verus cannot take the type of `sha2`'s
/// hasher, whose parameters are type-level numbers.
#[verifier::external_body]
pub struct Sha256State {
    inner: sha2::Sha256,
}

/// The bytes fed so far to a SHA-256 state.
pub uninterp spec fn absorbed(h: Sha256State) -> Seq<u8>;

/// Relies on sha2::Sha256::new (through `Digest`): a state that has absorbed
/// nothing.
#[verifier::external_body]
fn hasher_new() -> (r: Sha256State)
    ensures
        absorbed(r) == Seq::<u8>::empty(),
{
    Sha256State { inner: sha2::Sha256::new() }
}

/// Relies on sha2::Sha256::update (through `Digest`): the state goes on as if
/// `data` had been appended to what it absorbed.
#[verifier::external_body]
fn hasher_update(h: &mut Sha256State, data: &[u8])
    ensures
        absorbed(*final(h)) == absorbed(*old(h)) + data@,
{
    h.inner.update(data)
}

/// Relies on sha2::Sha256::finalize (through `Digest`), printed with `{:X}`
/// (generic-array's `UpperHex`: two upper-case hexadecimal digits per byte of
/// the 32-byte output): the digest of everything absorbed, the same as for
/// one update with all of it.
#[verifier::external_body]
fn hasher_finish(h: Sha256State) -> (r: String)
    ensures
        r@ == sha256_upper_hex(absorbed(h)),
        r@.len() == 64,
        is_upper_hex(r@),
{
    format!("{:X}", h.inner.finalize())
}

/// A digest computed over bytes handed in chunk by chunk, so that a large
/// source never has to be held whole.
pub struct StreamingDigest {
    state: Sha256State,
}

impl StreamingDigest {
    /// The bytes handed in so far.
    pub closed spec fn fed(&self) -> Seq<u8> {
        absorbed(self.state)
    }

    pub fn new() -> (r: StreamingDigest)
        ensures
            r.fed() == Seq::<u8>::empty(),
    {
        StreamingDigest { state: hasher_new() }
    }

    /// Hands in the next chunk.
    pub fn update(&mut self, chunk: &[u8])
        ensures
            final(self).fed() == old(self).fed() + chunk@,
    {
        hasher_update(&mut self.state, chunk);
    }

    /// The digest of all bytes handed in: what `digest` gives for them at
    /// once.
    pub fn finish(self) -> (r: String)
        ensures
            r@ == sha256_upper_hex(self.fed()),
            r@.len() == 64,
            is_upper_hex(r@),
    {
        hasher_finish(self.state)
    }
}

/// The digest of `data`, as 64 upper-case hexadecimal characters.
pub fn digest(data: &[u8]) -> (r: String)
    ensures
        r@ == sha256_upper_hex(data@),
        r@.len() == 64,
        is_upper_hex(r@),
{
    let mut d = StreamingDigest::new();
    d.update(data);
    assert(Seq::<u8>::empty() + data@ =~= data@);
    d.finish()
}

/// The text that `str::to_uppercase` makes of `s`.
pub uninterp spec fn upper_of(s: Seq<char>) -> Seq<char>;

/// Relies on str::to_uppercase: the upper-case form, which depends on the
/// characters alone. Digits and the letters A to F have no other upper-case
/// form, so text made of them comes back unchanged.
#[verifier::external_body]
fn to_upper(s: &str) -> (r: String)
    ensures
        r@ == upper_of(s@),
        is_upper_hex(s@) ==> r@ == s@,
{
    s.to_uppercase()
}

/// Two digests name the same content when they are equal once upper-cased.
pub open spec fn same_digest(a: Seq<char>, b: Seq<char>) -> bool {
    upper_of(a) == upper_of(b)
}

/// Compares two hexadecimal digests without regard to case.
pub fn digests_match(a: &String, b: &String) -> (r: bool)
    ensures
        r == same_digest(a@, b@),
        is_upper_hex(a@) ==> upper_of(a@) == a@ && r == (a@ == upper_of(b@)),
{
    let ua = to_upper(a.as_str());
    let ub = to_upper(b.as_str());
    ua == ub
}

/// Whether `data` has the digest `declared`, compared without regard to case.
pub fn artifact_matches(data: &[u8], declared: &String) -> (r: bool)
    ensures
        r == same_digest(sha256_upper_hex(data@), declared@),
        r == (sha256_upper_hex(data@) == upper_of(declared@)),
        upper_of(sha256_upper_hex(data@)) == sha256_upper_hex(data@),
{
    let d = digest(data);
    digests_match(&d, declared)
}

/// The digest is a function of the bytes: equal inputs give equal digests,
/// and those digests match one another under case-insensitive comparison.
pub proof fn lemma_digest_deterministic(a: Seq<u8>, b: Seq<u8>)
    requires
        a == b,
    ensures
        sha256_upper_hex(a) == sha256_upper_hex(b),
        same_digest(sha256_upper_hex(a), sha256_upper_hex(b)),
{
}

/// Case-insensitive digest comparison is an equivalence: reflexive,
/// symmetric and transitive, so the verdict on an artifact does not depend
/// on the casing or the order in which two digests are given.
pub proof fn lemma_same_digest_equivalence(a: Seq<char>, b: Seq<char>, c: Seq<char>)
    ensures
        same_digest(a, a),
        same_digest(a, b) == same_digest(b, a),
        same_digest(a, b) && same_digest(b, c) ==> same_digest(a, c),
{
}

} // verus!
