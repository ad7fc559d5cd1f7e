use zkpoex::uint256::U256;
use zkpoex::links::{check_codes, check_items, check_trie, occurs, referenced};
use zkpoex::witness::{
    build_vminput, check_links, digest_eq, judge_replay, seal_witness, state_root_of, BlockHeader,
    ExecutionError, ReplayOutcome, TraceData,
};

fn header(root: [u8; 32]) -> BlockHeader {
    BlockHeader {
        number: 18_000_000,
        timestamp: U256::from_u64(1_700_000_000),
        gas_limit: U256::from_u64(30_000_000),
        state_root: root,
    }
}

fn read_code() -> Vec<u8> {
    vec![0x60, 0x00]
}

fn storage_node() -> Vec<u8> {
    vec![0xe2, 0x20, 0x01, 0x02]
}

fn leaf_node() -> Vec<u8> {
    let mut node = vec![0xf8, 0x66];
    node.extend_from_slice(&ethers_core::utils::keccak256(storage_node()));
    node.extend_from_slice(&ethers_core::utils::keccak256(read_code()));
    node
}

fn root_node() -> Vec<u8> {
    let mut node = vec![0xf8, 0x44, 0x80];
    node.extend_from_slice(&ethers_core::utils::keccak256(leaf_node()));
    node.extend_from_slice(&[0x80; 15]);
    node
}

fn root() -> [u8; 32] {
    ethers_core::utils::keccak256(root_node())
}

fn trace() -> TraceData {
    TraceData {
        state_trie: vec![root_node(), leaf_node()],
        storage_trie: vec![storage_node()],
        contracts: vec![read_code()],
        block_hashes: vec![(17_999_999, [7u8; 32])],
    }
}

#[test]
fn u256_from_u64_keeps_the_low_word() {
    let x = U256::from_u64(42);
    assert_eq!(x, U256 { w0: 42, w1: 0, w2: 0, w3: 0 });
    assert_eq!(U256::zero(), U256::from_u64(0));
}

#[test]
fn u256_gt_compares_the_high_words_first() {
    let small = U256 { w0: u64::MAX, w1: u64::MAX, w2: u64::MAX, w3: 0 };
    let big = U256 { w0: 0, w1: 0, w2: 0, w3: 1 };
    assert!(big.gt(&small));
    assert!(!small.gt(&big));
    assert!(!big.gt(&big));
    let a = U256 { w0: 5, w1: 9, w2: 0, w3: 0 };
    let b = U256 { w0: 6, w1: 8, w2: 0, w3: 0 };
    assert!(a.gt(&b));
    assert!(!b.gt(&a));
}

#[test]
fn u256_below_u64_is_strict() {
    let limit = U256::from_u64(30_000_000);
    assert!(limit.below_u64(30_000_001));
    assert!(!limit.below_u64(30_000_000));
    assert!(!limit.below_u64(21_000));
    let wide = U256 { w0: 0, w1: 1, w2: 0, w3: 0 };
    assert!(!wide.below_u64(u64::MAX));
}

#[test]
fn digest_eq_sees_one_changed_byte() {
    let a = [3u8; 32];
    let mut b = [3u8; 32];
    assert!(digest_eq(&a, &b));
    b[31] = 4;
    assert!(!digest_eq(&a, &b));
}

#[test]
fn replay_within_the_gas_limit_is_accepted() {
    let limit = U256::from_u64(30_000_000);
    assert_eq!(judge_replay(ReplayOutcome::Success { gas_used: 21_000 }, &limit), Ok(21_000));
    assert_eq!(
        judge_replay(ReplayOutcome::Success { gas_used: 30_000_000 }, &limit),
        Ok(30_000_000)
    );
}

#[test]
fn replay_over_the_gas_limit_is_refused() {
    let limit = U256::from_u64(30_000_000);
    assert_eq!(
        judge_replay(ReplayOutcome::Success { gas_used: 30_000_001 }, &limit),
        Err(ExecutionError::GasLimitExceeded)
    );
}

#[test]
fn gas_limit_exceeded_never_yields_a_witness() {
    let r = build_vminput(
        vec![0x60, 0x00],
        header(root()),
        ReplayOutcome::Success { gas_used: 30_000_001 },
        trace(),
        [1u8; 20],
    );
    assert_eq!(r, Err(ExecutionError::GasLimitExceeded));
}

#[test]
fn revert_carries_the_gas_used() {
    let r = build_vminput(
        vec![0x60, 0x00],
        header(root()),
        ReplayOutcome::Revert { gas_used: 12_345 },
        trace(),
        [1u8; 20],
    );
    assert_eq!(r, Err(ExecutionError::ExecutionReverted(12_345)));
}

#[test]
fn halt_carries_reason_and_gas_used() {
    let r = build_vminput(
        vec![0xfe],
        header(root()),
        ReplayOutcome::Halt { reason: String::from("InvalidFEOpcode"), gas_used: 30_000_000 },
        trace(),
        [1u8; 20],
    );
    assert_eq!(
        r,
        Err(ExecutionError::ExecutionHalted(String::from("InvalidFEOpcode"), 30_000_000))
    );
}

#[test]
fn state_root_mismatch_is_an_error() {
    let mut other = root();
    other[0] ^= 1;
    let r = build_vminput(
        vec![0x60, 0x00],
        header(other),
        ReplayOutcome::Success { gas_used: 21_000 },
        trace(),
        [1u8; 20],
    );
    assert_eq!(r, Err(ExecutionError::StateRootMismatch));
}

#[test]
fn perturbed_root_node_no_longer_matches_the_header() {
    let mut perturbed = trace();
    perturbed.state_trie[0][5] ^= 1;
    let r = build_vminput(
        vec![0x60, 0x00],
        header(root()),
        ReplayOutcome::Success { gas_used: 21_000 },
        perturbed,
        [1u8; 20],
    );
    assert_eq!(r, Err(ExecutionError::StateRootMismatch));
}

#[test]
fn root_of_a_trie_is_the_hash_of_its_root_node() {
    assert_eq!(state_root_of(&trace().state_trie), root());
    assert_eq!(
        hex::encode(state_root_of(&Vec::new())),
        "56e81f171bcc55a6ff8345e692c0f86e5b48e01b996cadc001622fb5e363b421"
    );
}

#[test]
fn sealing_holds_the_given_root_against_the_header() {
    let ok = seal_witness(
        vec![1],
        header([0x22; 32]),
        ReplayOutcome::Success { gas_used: 1 },
        trace(),
        [0; 20],
        &[0x22; 32],
        true,
    );
    assert!(ok.is_ok());
    let bad = seal_witness(
        vec![1],
        header([0x22; 32]),
        ReplayOutcome::Success { gas_used: 1 },
        trace(),
        [0; 20],
        &[0x23; 32],
        true,
    );
    assert_eq!(bad, Err(ExecutionError::StateRootMismatch));
    let over = seal_witness(
        vec![1],
        header([0x22; 32]),
        ReplayOutcome::Success { gas_used: 30_000_001 },
        trace(),
        [0; 20],
        &[0x22; 32],
        true,
    );
    assert_eq!(over, Err(ExecutionError::GasLimitExceeded));
}

#[test]
fn replay_of_21000_gas_yields_an_anchored_witness() {
    let code = vec![0x60, 0x00, 0x60, 0x00];
    let r = build_vminput(
        code.clone(),
        header(root()),
        ReplayOutcome::Success { gas_used: 21_000 },
        trace(),
        [9u8; 20],
    );
    let witness = r.expect("a witness");
    assert_eq!(witness.header, header(root()));
    assert_eq!(witness.header.state_root, root());
    assert_eq!(state_root_of(&witness.state_trie), witness.header.state_root);
    assert_eq!(witness.state_trie, vec![root_node(), leaf_node()]);
    assert_eq!(witness.storage_trie, vec![storage_node()]);
    assert_eq!(witness.contracts, vec![read_code()]);
    assert_eq!(witness.block_hashes, vec![(17_999_999, [7u8; 32])]);
    assert_eq!(witness.poc_contract, code);
    assert_eq!(witness.author, [9u8; 20]);
}

#[test]
fn sealing_refuses_state_that_does_not_hang_together() {
    let r = seal_witness(
        vec![1],
        header([0x22; 32]),
        ReplayOutcome::Success { gas_used: 1 },
        trace(),
        [0; 20],
        &[0x22; 32],
        false,
    );
    assert_eq!(r, Err(ExecutionError::UnlinkedState));
}

#[test]
fn perturbed_later_node_is_refused() {
    let mut perturbed = trace();
    perturbed.state_trie[1][1] ^= 1;
    let r = build_vminput(
        vec![1],
        header(root()),
        ReplayOutcome::Success { gas_used: 21_000 },
        perturbed,
        [0; 20],
    );
    assert_eq!(r, Err(ExecutionError::UnlinkedState));
}

#[test]
fn perturbed_storage_node_or_code_is_refused() {
    let mut storage = trace();
    storage.storage_trie[0][3] ^= 1;
    assert!(!check_links(&storage));
    let mut codes = trace();
    codes.contracts[0][0] ^= 1;
    assert!(!check_links(&codes));
    let mut extra = trace();
    extra.state_trie.push(vec![0xc0]);
    assert!(!check_links(&extra));
    assert!(check_links(&trace()));
    let r = build_vminput(
        vec![1],
        header(root()),
        ReplayOutcome::Success { gas_used: 21_000 },
        codes,
        [0; 20],
    );
    assert_eq!(r, Err(ExecutionError::UnlinkedState));
}

#[test]
fn hash_is_found_wherever_it_stands() {
    let hash = [0x5a; 32];
    let mut hay = vec![1, 2, 3];
    assert!(!occurs(&hash, &hay));
    hay.extend_from_slice(&hash);
    assert!(occurs(&hash, &hay));
    hay.push(9);
    assert!(occurs(&hash, &hay));
    hay[10] = 0;
    assert!(!occurs(&hash, &hay));
    assert!(occurs(&hash, &hash.to_vec()));
    assert!(!occurs(&hash, &vec![0x5a; 31]));
}

#[test]
fn reference_is_looked_for_in_the_nodes_before() {
    let hash = [0x5a; 32];
    let nodes = vec![vec![1, 2], hash.to_vec(), vec![3]];
    assert!(!referenced(&hash, &nodes, 0));
    assert!(!referenced(&hash, &nodes, 1));
    assert!(referenced(&hash, &nodes, 2));
    assert!(referenced(&hash, &nodes, 3));
    assert!(referenced(&hash, &nodes, 10));
    assert!(!referenced(&hash, &Vec::new(), 3));
}

#[test]
fn storage_node_may_hang_on_an_earlier_storage_node() {
    let inner = vec![0xc2, 0x01, 0x02];
    let mut outer = vec![0xe3];
    outer.extend_from_slice(&ethers_core::utils::keccak256(&inner));
    let mut leaf = vec![0xf8];
    leaf.extend_from_slice(&ethers_core::utils::keccak256(&outer));
    let trie = vec![leaf];
    assert!(check_trie(&trie));
    assert!(check_items(&trie, &vec![outer.clone(), inner.clone()]));
    assert!(!check_items(&trie, &vec![inner.clone(), outer.clone()]));
    assert!(!check_codes(&trie, &vec![inner]));
    assert!(check_codes(&trie, &vec![outer]));
    assert!(check_trie(&Vec::new()));
    assert!(!check_items(&Vec::new(), &vec![vec![1]]));
}
