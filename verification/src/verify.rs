//! The verifier: holds the block hashes that an artifact commits to
//! against the hashes that the chain reports now.

use vstd::prelude::*;
use crate::witness::digest_eq;

verus! {

/// What the verify command is asked to do.
#[derive(Clone, Debug, PartialEq, Eq)]
pub struct VerifyArgs {
    /// The path of the proof artifact.
    pub path: String,
    /// The node that is asked for the live block hashes.
    pub rpc_url: String,
}

/// What an artifact's journal commits to.
#[derive(Clone, Debug, PartialEq, Eq)]
pub struct VmOutput {
    /// The blocks that the replay looked up, each with the hash it saw.
    pub block_hashes: Vec<(u64, [u8; 32])>,
    /// The state difference that the replay produced.
    pub state_diff: Vec<u8>,
}

/// Why an artifact does not hold.
#[derive(Clone, Copy, Debug, PartialEq, Eq)]
pub enum VerifyError {
    /// The attestation does not verify against the program image.
    AttestationInvalid,
    /// No live hash was given for the block with this number.
    MissingLiveHash(u64),
    /// The chain now reports another hash for the block with this number.
    ChainReorganizationDetected(u64),
}

/// Whether the live hash of the `i`-th committed block is there and equal.
pub open spec fn agrees(committed: Seq<(u64, [u8; 32])>, live: Seq<[u8; 32]>, i: int) -> bool {
    i < live.len() && live[i]@ == committed[i].1@
}

/// Whether `i` is the first committed block whose live hash is missing or
/// different.
pub open spec fn first_divergence(committed: Seq<(u64, [u8; 32])>, live: Seq<[u8; 32]>, i: int) -> bool {
    &&& 0 <= i < committed.len()
    &&& !agrees(committed, live, i)
    &&& forall|j: int| 0 <= j < i ==> agrees(committed, live, j)
}

/// The error for a committed block whose live hash is missing or different.
pub open spec fn divergence_error(committed: Seq<(u64, [u8; 32])>, live: Seq<[u8; 32]>, i: int) -> VerifyError {
    if i < live.len() {
        VerifyError::ChainReorganizationDetected(committed[i].0)
    } else {
        VerifyError::MissingLiveHash(committed[i].0)
    }
}

/// Holds one committed block against the hash that the chain reports now.
pub fn check_block(number: u64, committed: &[u8; 32], live: &[u8; 32]) -> (r: Result<(), VerifyError>)
    ensures
        committed@ == live@ ==> r == Ok::<(), VerifyError>(()),
        committed@ != live@ ==> r == Err::<(), VerifyError>(
            VerifyError::ChainReorganizationDetected(number),
        ),
{
    if digest_eq(committed, live) {
        Ok(())
    } else {
        Err(VerifyError::ChainReorganizationDetected(number))
    }
}

/// Checks what an artifact commits to against the live chain: `attested`
/// says whether its attestation verified, `vm_output` is what its journal
/// commits to, and `live` holds, in the order of the committed blocks, the
/// hashes that the chain reports now. Returns the state difference if every
/// committed hash is still the live one, else the error for the first block
/// that differs.
pub fn check_commitments(attested: bool, vm_output: VmOutput, live: &Vec<[u8; 32]>) -> (r: Result<
    Vec<u8>,
    VerifyError,
>)
    ensures
        r is Ok <==> attested && forall|i: int|
            0 <= i < vm_output.block_hashes@.len() ==> agrees(vm_output.block_hashes@, live@, i),
        r is Ok ==> r->Ok_0 == vm_output.state_diff,
        !attested ==> r == Err::<Vec<u8>, VerifyError>(VerifyError::AttestationInvalid),
        attested && r is Err ==> exists|i: int|
            first_divergence(vm_output.block_hashes@, live@, i) && r->Err_0 == divergence_error(
                vm_output.block_hashes@,
                live@,
                i,
            ),
{
    if !attested {
        return Err(VerifyError::AttestationInvalid);
    }
    let mut i: usize = 0;
    while i < vm_output.block_hashes.len()
        invariant
            attested,
            i <= vm_output.block_hashes@.len(),
            forall|j: int| 0 <= j < i ==> agrees(vm_output.block_hashes@, live@, j),
        decreases vm_output.block_hashes@.len() - i,
    {
        let number = vm_output.block_hashes[i].0;
        if i >= live.len() {
            assert(first_divergence(vm_output.block_hashes@, live@, i as int));
            return Err(VerifyError::MissingLiveHash(number));
        }
        match check_block(number, &vm_output.block_hashes[i].1, &live[i]) {
            Ok(_) => {},
            Err(e) => {
                assert(first_divergence(vm_output.block_hashes@, live@, i as int));
                return Err(e);
            },
        }
        i += 1;
    }
    Ok(vm_output.state_diff)
}

impl VerifyArgs {
    /// Checks an artifact against the live chain: `attested` says whether
    /// its attestation verified against the program image, `vm_output` is
    /// what its journal commits to, and `live` holds, in the order of the
    /// committed blocks, the hashes that the chain reports now. The state
    /// difference is returned exactly if the attestation verified and every
    /// committed hash is still the live one; else the error is the
    /// attestation's, or that of the first block that differs.
    pub fn run(&self, attested: bool, vm_output: VmOutput, live: &Vec<[u8; 32]>) -> (r: Result<
        Vec<u8>,
        VerifyError,
    >)
        ensures
            r is Ok <==> attested && forall|i: int|
                0 <= i < vm_output.block_hashes@.len() ==> agrees(
                    vm_output.block_hashes@,
                    live@,
                    i,
                ),
            r is Ok ==> r->Ok_0 == vm_output.state_diff,
            !attested ==> r == Err::<Vec<u8>, VerifyError>(VerifyError::AttestationInvalid),
            attested && r is Err ==> exists|i: int|
                first_divergence(vm_output.block_hashes@, live@, i) && r->Err_0
                    == divergence_error(vm_output.block_hashes@, live@, i),
    {
        check_commitments(attested, vm_output, live)
    }
}

} // verus!
