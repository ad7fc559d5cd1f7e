//! Attestations: cross-checking a succinct attestation against the
//! transferable one derived from it, and encoding the result for an
//! on-chain verifier.

use vstd::prelude::*;

verus! {

/// The public part of a succinct attestation: the journal that it commits
/// to and the digest of the state that it claims to end in.
#[derive(Clone, Debug, PartialEq, Eq)]
pub struct StarkSummary {
    pub journal: Vec<u8>,
    pub post_state_digest: [u8; 32],
}

/// A transferable attestation as the conversion service returns it.
#[derive(Clone, Debug, PartialEq, Eq)]
pub struct SnarkReceipt {
    /// The encoded proof blob.
    pub seal: Vec<u8>,
    pub post_state_digest: Vec<u8>,
    pub journal: Vec<u8>,
}

/// What cross-validation found. A mismatch is a signal to the caller, who
/// decides what to do with it.
#[derive(Clone, Copy, Debug, PartialEq, Eq, Structural)]
pub struct CrossValidation {
    pub digest_mismatch: bool,
    pub journal_mismatch: bool,
}

/// Why a conversion result cannot be cross-validated.
#[derive(Clone, Copy, Debug, PartialEq, Eq, Structural)]
pub enum ConversionError {
    /// The transferable attestation's digest has this many bytes, not 32.
    BadDigestLength(usize),
}

/// What checking a finished attestation found.
#[derive(Clone, Copy, Debug, PartialEq, Eq, Structural)]
pub struct AttestationCheck {
    /// The attestation verified against the expected program image.
    pub image_verified: bool,
    /// The journal holds the output that the caller expected.
    pub output_matches: bool,
}

/// Why an attestation cannot be encoded.
#[derive(Clone, Copy, Debug, PartialEq, Eq, Structural)]
pub enum EncodeError {
    /// Journal, digest and seal together exceed `MAX_ENCODED_PARTS` bytes.
    TooLarge,
}

/// The most bytes that journal, digest and seal may hold together: the
/// encoder counts in 32-bit numbers.
pub const MAX_ENCODED_PARTS: usize = 0x4000_0000;

/// Whether two byte strings are equal.
pub fn bytes_eq(a: &[u8], b: &[u8]) -> (r: bool)
    ensures
        r == (a@ == b@),
{
    if a.len() != b.len() {
        return false;
    }
    let mut i: usize = 0;
    while i < a.len()
        invariant
            a@.len() == b@.len(),
            i <= a@.len(),
            forall|j: int| 0 <= j < i ==> a@[j] == b@[j],
        decreases a@.len() - i,
    {
        if a[i] != b[i] {
            return false;
        }
        i += 1;
    }
    assert(a@ =~= b@);
    true
}

/// The cross-validation of two attestations of one computation: they must
/// agree on the post-state digest and, byte for byte, on the journal.
pub open spec fn cross_validation(
    stark_digest: Seq<u8>,
    stark_journal: Seq<u8>,
    snark_digest: Seq<u8>,
    snark_journal: Seq<u8>,
) -> CrossValidation {
    CrossValidation {
        digest_mismatch: stark_digest != snark_digest,
        journal_mismatch: stark_journal != snark_journal,
    }
}

/// What cross-validating a transferable attestation against the succinct
/// one gives: an error only where the transferable attestation's digest is
/// not 32 bytes long; mismatches are reported, not failed on.
pub open spec fn cross_checked(stark: StarkSummary, snark: SnarkReceipt) -> Result<
    CrossValidation,
    ConversionError,
> {
    if snark.post_state_digest@.len() == 32 {
        Ok(
            cross_validation(
                stark.post_state_digest@,
                stark.journal@,
                snark.post_state_digest@,
                snark.journal@,
            ),
        )
    } else {
        Err(ConversionError::BadDigestLength(snark.post_state_digest@.len() as usize))
    }
}

/// Cross-validates a transferable attestation against the succinct one it
/// was converted from.
pub fn cross_validate(stark: &StarkSummary, snark: &SnarkReceipt) -> (r: Result<
    CrossValidation,
    ConversionError,
>)
    ensures
        r == cross_checked(*stark, *snark),
{
    if snark.post_state_digest.len() != 32 {
        return Err(ConversionError::BadDigestLength(snark.post_state_digest.len()));
    }
    let digest_mismatch = !bytes_eq(
        stark.post_state_digest.as_slice(),
        snark.post_state_digest.as_slice(),
    );
    let journal_mismatch = !bytes_eq(stark.journal.as_slice(), snark.journal.as_slice());
    Ok(CrossValidation { digest_mismatch, journal_mismatch })
}

/// Two journals of one length that differ in a byte are a journal
/// mismatch, whatever the digests are.
pub proof fn lemma_one_byte_difference_is_mismatch(
    stark_digest: Seq<u8>,
    stark_journal: Seq<u8>,
    snark_digest: Seq<u8>,
    snark_journal: Seq<u8>,
    at: int,
)
    requires
        0 <= at < stark_journal.len(),
        stark_journal.len() == snark_journal.len(),
        stark_journal[at] != snark_journal[at],
    ensures
        cross_validation(
            stark_digest,
            stark_journal,
            snark_digest,
            snark_journal,
        ).journal_mismatch,
{
}

/// Attestations that agree on digest and journal pass cross-validation
/// without a signal, and only those do.
pub proof fn lemma_cross_validation_clean(
    stark_digest: Seq<u8>,
    stark_journal: Seq<u8>,
    snark_digest: Seq<u8>,
    snark_journal: Seq<u8>,
)
    ensures
        cross_validation(stark_digest, stark_journal, snark_digest, snark_journal) == (
        CrossValidation { digest_mismatch: false, journal_mismatch: false }) <==> (stark_digest
            == snark_digest && stark_journal == snark_journal),
{
}

/// Checks a finished attestation: `image_verified` says whether it
/// verified against the expected program image, and the journal is held
/// against the output that the caller expected.
pub fn check_attestation(image_verified: bool, journal: &Vec<u8>, expected: &Vec<u8>) -> (r:
    AttestationCheck)
    ensures
        r == (AttestationCheck { image_verified, output_matches: journal@ == expected@ }),
{
    AttestationCheck {
        image_verified,
        output_matches: bytes_eq(journal.as_slice(), expected.as_slice()),
    }
}

/// The summary made of a journal and a digest, where both are there.
pub fn summary_of(journal: Option<Vec<u8>>, digest: Option<[u8; 32]>) -> (r: Option<StarkSummary>)
    ensures
        journal is Some && digest is Some ==> r == Some(
            StarkSummary { journal: journal->Some_0, post_state_digest: digest->Some_0 },
        ),
        journal is None || digest is None ==> r is None,
{
    match (journal, digest) {
        (Some(journal), Some(post_state_digest)) => Some(
            StarkSummary { journal, post_state_digest },
        ),
        _ => None,
    }
}

/// The ABI encoding of the tuple (dynamic bytes, fixed bytes, dynamic
/// bytes), as the `ethers_core` encoder produces it.
pub uninterp spec fn abi_tuple_encoding(journal: Seq<u8>, digest: Seq<u8>, seal: Seq<u8>) -> Seq<u8>;

/// Calls `ethers_core::abi::encode` on the three tokens `Bytes(journal)`,
/// `FixedBytes(digest)` and `Bytes(seal)`. The encoder is a function of the
/// tokens alone; its result is named, not spelled out. It counts words in
/// 32-bit numbers, so the parts are bounded.
#[verifier::external_body]
fn abi_encode_tuple(journal: Vec<u8>, digest: Vec<u8>, seal: Vec<u8>) -> (out: Vec<u8>)
    requires
        journal@.len() + digest@.len() + seal@.len() <= MAX_ENCODED_PARTS,
    ensures
        out@ == abi_tuple_encoding(journal@, digest@, seal@),
{
    let tokens = [
        ethers_core::abi::Token::Bytes(journal),
        ethers_core::abi::Token::FixedBytes(digest),
        ethers_core::abi::Token::Bytes(seal),
    ];
    ethers_core::abi::encode(&tokens)
}

/// Encodes a transferable attestation for an on-chain verifier: the
/// journal, the post-state digest and the seal, as one ABI tuple.
pub fn groth16_snark_encode(snark_receipt: SnarkReceipt) -> (r: Result<Vec<u8>, EncodeError>)
    ensures
        snark_receipt.journal@.len() + snark_receipt.post_state_digest@.len()
            + snark_receipt.seal@.len() <= MAX_ENCODED_PARTS ==> r is Ok && r->Ok_0@
            == abi_tuple_encoding(
            snark_receipt.journal@,
            snark_receipt.post_state_digest@,
            snark_receipt.seal@,
        ),
        snark_receipt.journal@.len() + snark_receipt.post_state_digest@.len()
            + snark_receipt.seal@.len() > MAX_ENCODED_PARTS ==> r == Err::<Vec<u8>, EncodeError>(
            EncodeError::TooLarge,
        ),
{
    let journal_len = snark_receipt.journal.len();
    let digest_len = snark_receipt.post_state_digest.len();
    let seal_len = snark_receipt.seal.len();
    if journal_len > MAX_ENCODED_PARTS || digest_len > MAX_ENCODED_PARTS - journal_len || seal_len
        > MAX_ENCODED_PARTS - journal_len - digest_len {
        return Err(EncodeError::TooLarge);
    }
    Ok(
        abi_encode_tuple(
            snark_receipt.journal,
            snark_receipt.post_state_digest,
            snark_receipt.seal,
        ),
    )
}

} // verus!
