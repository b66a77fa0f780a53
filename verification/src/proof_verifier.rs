//! Content-addressed proof verification.
//!
//! A proof blob is `[4-byte big-endian count N][N x 32-byte public inputs][proof bytes]`.
//! A blob of that shape is identified by the Keccak-256 digest of all its
//! bytes, and every identifier that was accepted is remembered.

use vstd::prelude::*;

verus! {

/// Why the verifier turned a request down.
#[derive(Clone, Copy, Debug, PartialEq, Eq, Structural)]
pub enum Error {
    VkNotSet,
    InvalidProofFormat,
    VerificationFailed,
}

impl Error {
    /// The number under which the error is reported on the ledger.
    pub fn code(&self) -> (code: u32)
        ensures
            code == match *self {
                Error::VkNotSet => 1u32,
                Error::InvalidProofFormat => 2u32,
                Error::VerificationFailed => 3u32,
            },
    {
        match self {
            Error::VkNotSet => 1,
            Error::InvalidProofFormat => 2,
            Error::VerificationFailed => 3,
        }
    }
}

/// Longest input, in bytes, that is handed to the hash function.
pub const MAX_HASH_INPUT: usize = 1_048_576;

/// Bytes of proof that must follow the public inputs.
pub const MIN_PROOF_BYTES: usize = 100;

/// The Keccak-256 digest of `data`, as the host computes it.
pub uninterp spec fn keccak256(data: Seq<u8>) -> Seq<u8>;

/// Calls `soroban_sdk::crypto::Crypto::keccak256` on a host environment of its
/// own and copies the digest out.
///
/// Trusted: the 32 bytes returned are the Keccak-256 digest of `data`, a
/// function of the bytes alone. The host charges every call against a budget
/// and fails once it is spent; hashing on a fresh environment costs under 47
/// instructions and about one byte of budget per input byte, so an input of
/// at most `MAX_HASH_INPUT` bytes stays below half of the default limits.
#[verifier::external_body]
fn keccak256_digest(data: &Vec<u8>) -> (digest: [u8; 32])
    requires
        data.len() <= MAX_HASH_INPUT,
    ensures
        digest@ == keccak256(data@),
{
    let env = soroban_sdk::Env::default();
    let bytes = soroban_sdk::Bytes::from_slice(&env, data.as_slice());
    env.crypto().keccak256(&bytes).to_array()
}

/// The 32-byte word whose bytes are the digest of `data`.
pub open spec fn digest_of(data: Seq<u8>) -> [u8; 32] {
    choose|id: [u8; 32]| id@ == keccak256(data)
}

/// The number of public inputs that the first four bytes declare.
pub open spec fn declared_inputs(blob: Seq<u8>) -> int
    recommends
        blob.len() >= 4,
{
    blob[0] * 0x100_0000 + blob[1] * 0x1_0000 + blob[2] * 0x100 + blob[3]
}

/// A blob has the expected shape when it holds the count, the public inputs
/// that the count declares, and at least `MIN_PROOF_BYTES` more.
pub open spec fn well_formed(blob: Seq<u8>) -> bool {
    &&& blob.len() >= 4
    &&& blob.len() >= 4 + 32 * declared_inputs(blob) + MIN_PROOF_BYTES
}

/// The default verification material: the two bytes `{}`.
pub open spec fn default_vk() -> Seq<u8> {
    seq![0x7bu8, 0x7du8]
}

/// What a verifier remembers.
pub struct VerifierState {
    /// The verification material, once some was stored.
    pub vk: Option<Seq<u8>>,
    /// The digest of the material that `set_vk` stored last.
    pub vk_hash: Option<[u8; 32]>,
    /// The identifiers of the proofs accepted so far.
    pub verified: Set<[u8; 32]>,
}

/// The verifier after a request to verify `blob`, and its answer.
///
/// A malformed blob is refused and changes nothing. A well-formed one is
/// accepted under its digest, which joins the accepted identifiers; where no
/// material was stored, the default takes its place.
pub open spec fn verify_step(s: VerifierState, blob: Seq<u8>) -> (VerifierState, Result<[u8; 32], Error>) {
    if well_formed(blob) {
        (
            VerifierState {
                vk: Some(if s.vk is Some { s.vk->0 } else { default_vk() }),
                vk_hash: s.vk_hash,
                verified: s.verified.insert(digest_of(blob)),
            },
            Ok(digest_of(blob)),
        )
    } else {
        (s, Err(Error::InvalidProofFormat))
    }
}

/// Whether `blob` has the expected shape.
pub fn has_valid_format(blob: &Vec<u8>) -> (ok: bool)
    ensures
        ok == well_formed(blob@),
{
    if blob.len() < 4 {
        return false;
    }
    let count: u64 = (blob[0] as u64) * 0x100_0000 + (blob[1] as u64) * 0x1_0000 + (blob[2] as u64)
        * 0x100 + (blob[3] as u64);
    let min_size: u64 = 4 + count * 32 + (MIN_PROOF_BYTES as u64);
    (blob.len() as u64) >= min_size
}

/// The verifier: stored verification material and the identifiers of the
/// proofs it accepted, none of them twice.
pub struct SimpleVerifier {
    vk: Option<Vec<u8>>,
    vk_hash: Option<[u8; 32]>,
    verified: Vec<[u8; 32]>,
}

impl View for SimpleVerifier {
    type V = VerifierState;

    closed spec fn view(&self) -> VerifierState {
        VerifierState {
            vk: match self.vk {
                Some(vk) => Some(vk@),
                None => None,
            },
            vk_hash: self.vk_hash,
            verified: self.verified@.to_set(),
        }
    }
}

impl SimpleVerifier {
    /// No identifier is remembered twice.
    pub closed spec fn wf(&self) -> bool {
        self.verified@.no_duplicates()
    }

    /// A verifier with the given material and no accepted proof.
    pub fn restore(vk: Option<Vec<u8>>, vk_hash: Option<[u8; 32]>) -> (verifier: SimpleVerifier)
        ensures
            verifier.wf(),
            verifier@ == (VerifierState {
                vk: match vk {
                    Some(vk) => Some(vk@),
                    None => None,
                },
                vk_hash,
                verified: Set::empty(),
            }),
    {
        let verifier = SimpleVerifier { vk, vk_hash, verified: Vec::new() };
        assert(verifier.verified@.to_set() =~= Set::<[u8; 32]>::empty());
        verifier
    }

    /// A verifier that has stored nothing yet.
    pub fn new() -> (verifier: SimpleVerifier)
        ensures
            verifier.wf(),
            verifier@ == (VerifierState { vk: None, vk_hash: None, verified: Set::empty() }),
    {
        SimpleVerifier::restore(None, None)
    }

    /// The stored verification material.
    pub fn vk(&self) -> (vk: Option<&Vec<u8>>)
        ensures
            match vk {
                Some(vk) => self@.vk == Some(vk@),
                None => self@.vk is None,
            },
    {
        self.vk.as_ref()
    }

    /// The digest of the material that `set_vk` stored last.
    pub fn vk_hash(&self) -> (hash: Option<[u8; 32]>)
        ensures
            hash == self@.vk_hash,
    {
        self.vk_hash
    }

    /// How many proofs were accepted.
    pub fn verified_count(&self) -> (count: usize)
        requires
            self.wf(),
        ensures
            self@.verified.finite(),
            count == self@.verified.len(),
    {
        proof {
            self.verified@.unique_seq_to_set();
        }
        self.verified.len()
    }

    fn position(&self, proof_id: &[u8; 32]) -> (found: Option<usize>)
        ensures
            match found {
                Some(i) => i < self.verified.len() && self.verified[i as int] == *proof_id,
                None => !self.verified@.contains(*proof_id),
            },
    {
        let mut i: usize = 0;
        while i < self.verified.len()
            invariant
                0 <= i <= self.verified.len(),
                forall|j: int| 0 <= j < i ==> self.verified[j] != *proof_id,
            decreases self.verified.len() - i,
        {
            if crate::address::bytes32_eq(&self.verified[i], proof_id) {
                return Some(i);
            }
            i += 1;
        }
        None
    }

    /// Whether the proof named `proof_id` was accepted before.
    pub fn is_verified(&self, proof_id: &[u8; 32]) -> (known: bool)
        ensures
            known == self@.verified.contains(*proof_id),
    {
        self.position(proof_id).is_some()
    }

    /// Remembers `proof_id` as accepted; says whether it was new.
    pub fn mark_verified(&mut self, proof_id: [u8; 32]) -> (fresh: bool)
        requires
            old(self).wf(),
        ensures
            final(self).wf(),
            fresh == !old(self)@.verified.contains(proof_id),
            final(self)@ == (VerifierState {
                verified: old(self)@.verified.insert(proof_id),
                ..old(self)@
            }),
    {
        match self.position(&proof_id) {
            Some(_) => {
                assert(old(self)@.verified.insert(proof_id) =~= old(self)@.verified);
                false
            },
            None => {
                self.verified.push(proof_id);
                assert(self.verified@.to_set() =~= old(self).verified@.to_set().insert(proof_id)) by {
                    let before = old(self).verified@;
                    let after = self.verified@;
                    assert(after == before.push(proof_id));
                    assert forall|id: [u8; 32]| #[trigger]
                        after.contains(id) == (before.contains(id) || id == proof_id) by {
                        if before.contains(id) {
                            let i = choose|i: int| 0 <= i < before.len() && before[i] == id;
                            assert(after[i] == id);
                        }
                        if id == proof_id {
                            assert(after[before.len() as int] == id);
                        }
                    }
                }
                true
            },
        }
    }

    /// Stores verification material and returns its digest.
    pub fn set_vk(&mut self, vk_json: Vec<u8>) -> (hash: Result<[u8; 32], Error>)
        requires
            vk_json.len() <= MAX_HASH_INPUT,
        ensures
            final(self).wf() == old(self).wf(),
            hash == Ok::<[u8; 32], Error>(digest_of(vk_json@)),
            digest_of(vk_json@)@ == keccak256(vk_json@),
            final(self)@ == (VerifierState {
                vk: Some(vk_json@),
                vk_hash: Some(digest_of(vk_json@)),
                ..old(self)@
            }),
    {
        let hash = keccak256_digest(&vk_json);
        proof {
            lemma_digest_named(vk_json@, hash);
        }
        self.vk = Some(vk_json);
        self.vk_hash = Some(hash);
        Ok(hash)
    }

    /// The identifier under which `blob` would be accepted.
    pub fn proof_id(blob: &Vec<u8>) -> (id: Result<[u8; 32], Error>)
        requires
            blob.len() <= MAX_HASH_INPUT,
        ensures
            id == if well_formed(blob@) {
                Ok::<[u8; 32], Error>(digest_of(blob@))
            } else {
                Err::<[u8; 32], Error>(Error::InvalidProofFormat)
            },
            well_formed(blob@) ==> digest_of(blob@)@ == keccak256(blob@),
    {
        if !has_valid_format(blob) {
            return Err(Error::InvalidProofFormat);
        }
        let id = keccak256_digest(blob);
        proof {
            lemma_digest_named(blob@, id);
        }
        Ok(id)
    }

    /// Verifies `blob` against the stored material.
    ///
    /// A blob of the wrong shape is refused with `InvalidProofFormat` and
    /// nothing changes. Any other blob is accepted under its digest: the
    /// digest is remembered, and the default material is stored where none
    /// was.
    pub fn verify_proof_with_stored_vk(&mut self, proof_blob: &Vec<u8>) -> (id: Result<
        [u8; 32],
        Error,
    >)
        requires
            old(self).wf(),
            proof_blob.len() <= MAX_HASH_INPUT,
        ensures
            final(self).wf(),
            (final(self)@, id) == verify_step(old(self)@, proof_blob@),
            well_formed(proof_blob@) ==> digest_of(proof_blob@)@ == keccak256(proof_blob@),
    {
        let proof_id = match SimpleVerifier::proof_id(proof_blob) {
            Ok(proof_id) => proof_id,
            Err(e) => {
                return Err(e);
            },
        };
        if self.vk.is_none() {
            let mut vk: Vec<u8> = Vec::new();
            vk.push(0x7b);
            vk.push(0x7d);
            assert(vk@ =~= default_vk());
            self.vk = Some(vk);
        }
        self.mark_verified(proof_id);
        Ok(proof_id)
    }

    /// Stores `vk_json` as the verification material, then verifies `blob`
    /// against it. A refused blob leaves the stored material as it was.
    pub fn verify_proof(&mut self, vk_json: Vec<u8>, proof_blob: &Vec<u8>) -> (id: Result<
        [u8; 32],
        Error,
    >)
        requires
            old(self).wf(),
            proof_blob.len() <= MAX_HASH_INPUT,
        ensures
            final(self).wf(),
            (final(self)@, id) == if well_formed(proof_blob@) {
                verify_step(VerifierState { vk: Some(vk_json@), ..old(self)@ }, proof_blob@)
            } else {
                (old(self)@, Err::<[u8; 32], Error>(Error::InvalidProofFormat))
            },
            well_formed(proof_blob@) ==> digest_of(proof_blob@)@ == keccak256(proof_blob@),
    {
        if !has_valid_format(proof_blob) {
            return Err(Error::InvalidProofFormat);
        }
        self.vk = Some(vk_json);
        self.verify_proof_with_stored_vk(proof_blob)
    }
}

/// A 32-byte word with the bytes of the digest of `data` is `digest_of(data)`.
proof fn lemma_digest_named(data: Seq<u8>, id: [u8; 32])
    requires
        id@ == keccak256(data),
    ensures
        id == digest_of(data),
        digest_of(data)@ == keccak256(data),
{
    assert(id@ =~= digest_of(data)@);
    assert(id =~= digest_of(data));
}

/// Verifying a well-formed blob a second time gives the same identifier and
/// leaves the verifier as the first time left it; both times together add at
/// most one identifier to those remembered.
pub proof fn lemma_verification_idempotent(s: VerifierState, blob: Seq<u8>)
    requires
        s.verified.finite(),
        well_formed(blob),
    ensures
        ({
            let (s1, id1) = verify_step(s, blob);
            let (s2, id2) = verify_step(s1, blob);
            &&& id1 is Ok
            &&& id2 == id1
            &&& s2 == s1
            &&& s2.verified.finite()
            &&& s2.verified.len() <= s.verified.len() + 1
        }),
{
    let (s1, id1) = verify_step(s, blob);
    let (s2, id2) = verify_step(s1, blob);
    assert(s2.verified =~= s1.verified);
}

} // verus!
