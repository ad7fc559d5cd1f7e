use zkpoex::verify::{check_block, check_commitments, VerifyArgs, VerifyError, VmOutput};

fn args() -> VerifyArgs {
    VerifyArgs { path: String::from("proof.bin"), rpc_url: String::from("http://localhost:8545") }
}

#[test]
fn changed_block_hash_is_a_reorganization() {
    let output = VmOutput { block_hashes: vec![(18_000_000, [0xAA; 32])], state_diff: vec![1, 2, 3] };
    let live = vec![[0xBB; 32]];
    assert_eq!(
        check_commitments(true, output, &live),
        Err(VerifyError::ChainReorganizationDetected(18_000_000))
    );
}

#[test]
fn matching_block_hashes_return_the_state_difference() {
    let output = VmOutput {
        block_hashes: vec![(18_000_000, [0xAA; 32]), (17_999_999, [0x01; 32])],
        state_diff: vec![1, 2, 3],
    };
    let live = vec![[0xAA; 32], [0x01; 32]];
    assert_eq!(check_commitments(true, output, &live), Ok(vec![1, 2, 3]));
}

#[test]
fn first_differing_block_is_reported() {
    let output = VmOutput {
        block_hashes: vec![(10, [1; 32]), (11, [2; 32]), (12, [3; 32])],
        state_diff: Vec::new(),
    };
    let live = vec![[1; 32], [9; 32], [8; 32]];
    assert_eq!(check_commitments(true, output, &live), Err(VerifyError::ChainReorganizationDetected(11)));
}

#[test]
fn missing_live_hash_is_reported() {
    let output = VmOutput { block_hashes: vec![(10, [1; 32]), (11, [2; 32])], state_diff: Vec::new() };
    let live = vec![[1; 32]];
    assert_eq!(check_commitments(true, output, &live), Err(VerifyError::MissingLiveHash(11)));
}

#[test]
fn unverified_attestation_is_refused() {
    let output = VmOutput { block_hashes: Vec::new(), state_diff: vec![5] };
    assert_eq!(check_commitments(false, output, &Vec::new()), Err(VerifyError::AttestationInvalid));
}

#[test]
fn no_committed_blocks_returns_the_state_difference() {
    let output = VmOutput { block_hashes: Vec::new(), state_diff: vec![5] };
    assert_eq!(check_commitments(true, output, &Vec::new()), Ok(vec![5]));
}

#[test]
fn check_block_compares_all_bytes() {
    let mut live = [0xAA; 32];
    assert_eq!(check_block(7, &[0xAA; 32], &live), Ok(()));
    live[31] = 0xAB;
    assert_eq!(check_block(7, &[0xAA; 32], &live), Err(VerifyError::ChainReorganizationDetected(7)));
}

#[test]
fn run_gives_the_verdict_of_the_commitments() {
    let output = VmOutput { block_hashes: vec![(18_000_000, [0xAA; 32])], state_diff: vec![1] };
    assert_eq!(args().run(true, output.clone(), &vec![[0xAA; 32]]), Ok(vec![1]));
    assert_eq!(
        args().run(true, output.clone(), &vec![[0xBB; 32]]),
        Err(VerifyError::ChainReorganizationDetected(18_000_000))
    );
    assert_eq!(args().run(false, output, &vec![[0xAA; 32]]), Err(VerifyError::AttestationInvalid));
}
