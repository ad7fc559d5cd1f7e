//! The witness builder's outcome policy: from the result of replaying one
//! call, and the state that the replay touched, to a witness bundle or the
//! reason why none is produced.

use vstd::prelude::*;
use crate::hash::{keccak256, keccak256_of};
use crate::links::{check_codes, check_items, check_trie, codes_linked, items_linked, trie_linked};
use crate::uint256::U256;

verus! {

/// The block that a replay is pinned to. Its state root is the trust anchor
/// of the witness.
#[derive(Clone, Debug, PartialEq, Eq)]
pub struct BlockHeader {
    pub number: u64,
    pub timestamp: U256,
    pub gas_limit: U256,
    pub state_root: [u8; 32],
}

/// How the replayed call ended.
#[derive(Clone, Debug, PartialEq, Eq)]
pub enum ReplayOutcome {
    Success { gas_used: u64 },
    Revert { gas_used: u64 },
    Halt { reason: String, gas_used: u64 },
}

/// Why a replay yields no witness.
#[derive(Clone, Debug, PartialEq, Eq)]
pub enum ExecutionError {
    /// The call succeeded, but used more gas than the block allows.
    GasLimitExceeded,
    /// The call reverted after using this much gas.
    ExecutionReverted(u64),
    /// The call halted for the given reason after using this much gas.
    ExecutionHalted(String, u64),
    /// The compacted state does not hash to the header's state root.
    StateRootMismatch,
    /// A trie node, a storage trie node or a code of the compacted state
    /// is held by hash nowhere in it.
    UnlinkedState,
}

/// The state that one replay touched, compacted: the encoded nodes of the
/// state trie, its root first and each node after a node that holds its
/// hash; the encoded nodes of the storage tries, each after the node that
/// holds its hash; the codes of the contracts that were read; and the block
/// hashes that were looked up. The block hashes hang on the chain of block
/// headers, not on the state: nothing here holds them against the root.
#[derive(Clone, Debug, PartialEq, Eq)]
pub struct TraceData {
    pub state_trie: Vec<Vec<u8>>,
    pub storage_trie: Vec<Vec<u8>>,
    pub contracts: Vec<Vec<u8>>,
    pub block_hashes: Vec<(u64, [u8; 32])>,
}

/// The witness bundle: all that a proving backend needs to run the call
/// again without network access.
#[derive(Clone, Debug, PartialEq, Eq)]
pub struct VmInput {
    pub header: BlockHeader,
    pub state_trie: Vec<Vec<u8>>,
    pub storage_trie: Vec<Vec<u8>>,
    pub contracts: Vec<Vec<u8>>,
    pub block_hashes: Vec<(u64, [u8; 32])>,
    pub poc_contract: Vec<u8>,
    pub author: [u8; 20],
}

/// What the outcome policy makes of a replay: the gas used by a call that
/// succeeded within the block's gas limit, or the error.
pub open spec fn replay_verdict(outcome: ReplayOutcome, gas_limit: U256) -> Result<
    u64,
    ExecutionError,
> {
    match outcome {
        ReplayOutcome::Success { gas_used } => if gas_used as nat > gas_limit.value() {
            Err(ExecutionError::GasLimitExceeded)
        } else {
            Ok(gas_used)
        },
        ReplayOutcome::Revert { gas_used } => Err(ExecutionError::ExecutionReverted(gas_used)),
        ReplayOutcome::Halt { reason, gas_used } => Err(
            ExecutionError::ExecutionHalted(reason, gas_used),
        ),
    }
}

/// The root that a trie hashes to: the hash of its encoded root node, and
/// for a trie without nodes the hash of the encoding of the empty string.
pub open spec fn trie_root(nodes: Seq<Vec<u8>>) -> Seq<u8> {
    if nodes.len() == 0 {
        keccak256_of(seq![0x80u8])
    } else {
        keccak256_of(nodes[0]@)
    }
}

/// Whether the compacted state hangs together: every node of the state
/// trie but its root, every node of a storage trie and every code is held
/// by hash in a node that comes before it.
pub open spec fn bundle_linked(trace: TraceData) -> bool {
    &&& trie_linked(trace.state_trie@)
    &&& items_linked(trace.state_trie@, trace.storage_trie@)
    &&& codes_linked(trace.state_trie@, trace.contracts@)
}

/// The witness that a replay yields, given the root that the compacted
/// state trie hashes to and whether the compacted state hangs together:
/// none unless the verdict is a success, the root is the header's state
/// root and the state hangs together.
pub open spec fn witness_for_root(
    contract: Vec<u8>,
    header: BlockHeader,
    outcome: ReplayOutcome,
    trace: TraceData,
    author: [u8; 20],
    root: Seq<u8>,
    linked: bool,
) -> Result<VmInput, ExecutionError> {
    match replay_verdict(outcome, header.gas_limit) {
        Err(e) => Err(e),
        Ok(_) => if root != header.state_root@ {
            Err(ExecutionError::StateRootMismatch)
        } else if !linked {
            Err(ExecutionError::UnlinkedState)
        } else {
            Ok(
                VmInput {
                    header,
                    state_trie: trace.state_trie,
                    storage_trie: trace.storage_trie,
                    contracts: trace.contracts,
                    block_hashes: trace.block_hashes,
                    poc_contract: contract,
                    author,
                },
            )
        },
    }
}

/// The witness that a replay yields: none unless the verdict is a success,
/// the compacted state trie hashes to the header's state root, and all of
/// the compacted state is linked by hash to that root.
pub open spec fn witness_of(
    contract: Vec<u8>,
    header: BlockHeader,
    outcome: ReplayOutcome,
    trace: TraceData,
    author: [u8; 20],
) -> Result<VmInput, ExecutionError> {
    witness_for_root(
        contract,
        header,
        outcome,
        trace,
        author,
        trie_root(trace.state_trie@),
        bundle_linked(trace),
    )
}

/// Whether two 32-byte digests hold the same bytes.
pub fn digest_eq(a: &[u8; 32], b: &[u8; 32]) -> (r: bool)
    ensures
        r == (a@ == b@),
{
    let mut i: usize = 0;
    while i < 32
        invariant
            i <= 32,
            forall|j: int| 0 <= j < i ==> a@[j] == b@[j],
        decreases 32 - i,
    {
        if a[i] != b[i] {
            return false;
        }
        i += 1;
    }
    assert(a@ =~= b@);
    true
}

/// Applies the outcome policy to a finished replay.
pub fn judge_replay(outcome: ReplayOutcome, gas_limit: &U256) -> (r: Result<u64, ExecutionError>)
    ensures
        r == replay_verdict(outcome, *gas_limit),
{
    match outcome {
        ReplayOutcome::Success { gas_used } => {
            if gas_limit.below_u64(gas_used) {
                Err(ExecutionError::GasLimitExceeded)
            } else {
                Ok(gas_used)
            }
        },
        ReplayOutcome::Revert { gas_used } => Err(ExecutionError::ExecutionReverted(gas_used)),
        ReplayOutcome::Halt { reason, gas_used } => Err(
            ExecutionError::ExecutionHalted(reason, gas_used),
        ),
    }
}

/// The root that the encoded nodes of a trie, root first, hash to.
pub fn state_root_of(nodes: &Vec<Vec<u8>>) -> (root: [u8; 32])
    ensures
        root@ == trie_root(nodes@),
{
    if nodes.len() == 0 {
        let mut empty: Vec<u8> = Vec::new();
        empty.push(0x80);
        assert(empty@ =~= seq![0x80u8]);
        keccak256(empty.as_slice())
    } else {
        keccak256(nodes[0].as_slice())
    }
}

/// Builds the witness bundle from a finished replay, the state that it
/// touched, the root that the state trie was found to hash to, and whether
/// the state was found to hang together.
pub fn seal_witness(
    contract: Vec<u8>,
    header: BlockHeader,
    outcome: ReplayOutcome,
    trace: TraceData,
    author: [u8; 20],
    root: &[u8; 32],
    linked: bool,
) -> (r: Result<VmInput, ExecutionError>)
    ensures
        r == witness_for_root(contract, header, outcome, trace, author, root@, linked),
{
    match judge_replay(outcome, &header.gas_limit) {
        Err(e) => Err(e),
        Ok(_) => {
            if !digest_eq(root, &header.state_root) {
                Err(ExecutionError::StateRootMismatch)
            } else if !linked {
                Err(ExecutionError::UnlinkedState)
            } else {
                Ok(
                    VmInput {
                        header,
                        state_trie: trace.state_trie,
                        storage_trie: trace.storage_trie,
                        contracts: trace.contracts,
                        block_hashes: trace.block_hashes,
                        poc_contract: contract,
                        author,
                    },
                )
            }
        },
    }
}

/// Whether the compacted state hangs together.
pub fn check_links(trace: &TraceData) -> (r: bool)
    ensures
        r == bundle_linked(*trace),
{
    check_trie(&trace.state_trie) && check_items(&trace.state_trie, &trace.storage_trie)
        && check_codes(&trace.state_trie, &trace.contracts)
}

/// Builds the witness bundle from a finished replay and the state that it
/// touched. The root of the compacted state trie is computed again and held
/// against the header, and every other part of the state must be linked by
/// hash to it: no bundle is produced for state that does not hash to the
/// header's state root or does not hang together, nor for a call that
/// reverted, halted or used more gas than the block allows.
pub fn build_vminput(
    contract: Vec<u8>,
    header: BlockHeader,
    outcome: ReplayOutcome,
    trace: TraceData,
    author: [u8; 20],
) -> (r: Result<VmInput, ExecutionError>)
    ensures
        r == witness_of(contract, header, outcome, trace, author),
{
    let root = state_root_of(&trace.state_trie);
    let linked = check_links(&trace);
    seal_witness(contract, header, outcome, trace, author, &root, linked)
}

/// A call that succeeds with more gas than the header's limit never yields
/// a witness: the result is always the gas-limit error, whatever state was
/// touched.
pub proof fn lemma_gas_limit_exceeded_yields_no_witness(
    contract: Vec<u8>,
    header: BlockHeader,
    gas_used: u64,
    trace: TraceData,
    author: [u8; 20],
)
    requires
        gas_used as nat > header.gas_limit.value(),
    ensures
        witness_of(contract, header, ReplayOutcome::Success { gas_used }, trace, author) == Err::<
            VmInput,
            ExecutionError,
        >(ExecutionError::GasLimitExceeded),
{
}

/// A call that reverts or halts never yields a witness, whatever state was
/// touched: the error carries the gas used, and for a halt the reason.
pub proof fn lemma_failed_call_yields_no_witness(
    contract: Vec<u8>,
    header: BlockHeader,
    reason: String,
    gas_used: u64,
    trace: TraceData,
    author: [u8; 20],
)
    ensures
        witness_of(contract, header, ReplayOutcome::Revert { gas_used }, trace, author) == Err::<
            VmInput,
            ExecutionError,
        >(ExecutionError::ExecutionReverted(gas_used)),
        witness_of(contract, header, ReplayOutcome::Halt { reason, gas_used }, trace, author)
            == Err::<VmInput, ExecutionError>(ExecutionError::ExecutionHalted(reason, gas_used)),
{
}

/// Every witness that is produced carries the header it was built for; the
/// state trie it holds hashes to that header's state root, and every other
/// node and code in it is linked by hash to that root.
pub proof fn lemma_witness_is_anchored(
    contract: Vec<u8>,
    header: BlockHeader,
    outcome: ReplayOutcome,
    trace: TraceData,
    author: [u8; 20],
)
    requires
        witness_of(contract, header, outcome, trace, author) is Ok,
    ensures
        witness_of(contract, header, outcome, trace, author)->Ok_0.header == header,
        witness_of(contract, header, outcome, trace, author)->Ok_0.state_trie == trace.state_trie,
        trie_root(trace.state_trie@) == header.state_root@,
        bundle_linked(trace),
        outcome is Success,
        outcome->Success_gas_used as nat <= header.gas_limit.value(),
{
}

} // verus!
