use zkpoex::attest::{
    bytes_eq, check_attestation, cross_validate, groth16_snark_encode, summary_of,
    AttestationCheck, ConversionError, CrossValidation, EncodeError, SnarkReceipt, StarkSummary,
};

fn stark() -> StarkSummary {
    StarkSummary { journal: vec![1, 2, 3, 4], post_state_digest: [0xA5; 32] }
}

#[test]
fn matching_attestations_pass_cross_validation() {
    let snark = SnarkReceipt { seal: vec![9], post_state_digest: vec![0xA5; 32], journal: vec![1, 2, 3, 4] };
    assert_eq!(
        cross_validate(&stark(), &snark),
        Ok(CrossValidation { digest_mismatch: false, journal_mismatch: false })
    );
}

#[test]
fn journals_differing_by_one_byte_signal_a_mismatch() {
    let snark = SnarkReceipt { seal: vec![9], post_state_digest: vec![0xA5; 32], journal: vec![1, 2, 7, 4] };
    assert_eq!(
        cross_validate(&stark(), &snark),
        Ok(CrossValidation { digest_mismatch: false, journal_mismatch: true })
    );
}

#[test]
fn differing_digests_signal_a_mismatch() {
    let mut digest = vec![0xA5; 32];
    digest[5] = 0;
    let snark = SnarkReceipt { seal: vec![9], post_state_digest: digest, journal: vec![1, 2, 3, 4] };
    assert_eq!(
        cross_validate(&stark(), &snark),
        Ok(CrossValidation { digest_mismatch: true, journal_mismatch: false })
    );
}

#[test]
fn digest_of_wrong_length_is_refused() {
    let snark = SnarkReceipt { seal: vec![9], post_state_digest: vec![0xA5; 31], journal: vec![1, 2, 3, 4] };
    assert_eq!(cross_validate(&stark(), &snark), Err(ConversionError::BadDigestLength(31)));
}

#[test]
fn bytes_eq_compares_length_and_content() {
    assert!(bytes_eq(&[], &[]));
    assert!(bytes_eq(&[1, 2], &[1, 2]));
    assert!(!bytes_eq(&[1, 2], &[1, 2, 0]));
    assert!(!bytes_eq(&[1, 2], &[1, 3]));
}

#[test]
fn attestation_check_reports_each_anomaly() {
    assert_eq!(
        check_attestation(true, &vec![1, 2], &vec![1, 2]),
        AttestationCheck { image_verified: true, output_matches: true }
    );
    assert_eq!(
        check_attestation(true, &vec![1, 2], &vec![1, 3]),
        AttestationCheck { image_verified: true, output_matches: false }
    );
    assert_eq!(
        check_attestation(false, &vec![1, 2], &vec![1, 2]),
        AttestationCheck { image_verified: false, output_matches: true }
    );
}

#[test]
fn encoding_is_the_abi_tuple_of_journal_digest_and_seal() {
    let snark = SnarkReceipt { seal: vec![9, 9], post_state_digest: vec![0xAA; 32], journal: vec![1, 2, 3] };
    let out = groth16_snark_encode(snark).expect("encodes");
    let mut expected: Vec<u8> = Vec::new();
    let mut word = [0u8; 32];
    word[31] = 0x60;
    expected.extend_from_slice(&word);
    expected.extend_from_slice(&[0xAA; 32]);
    word[31] = 0xa0;
    expected.extend_from_slice(&word);
    word[31] = 3;
    expected.extend_from_slice(&word);
    let mut data = [0u8; 32];
    data[0] = 1;
    data[1] = 2;
    data[2] = 3;
    expected.extend_from_slice(&data);
    word[31] = 2;
    expected.extend_from_slice(&word);
    let mut seal = [0u8; 32];
    seal[0] = 9;
    seal[1] = 9;
    expected.extend_from_slice(&seal);
    assert_eq!(out.len(), 224);
    assert_eq!(out, expected);
}

#[test]
fn encoding_refuses_parts_over_the_limit() {
    let snark = SnarkReceipt {
        seal: vec![0u8; 0x4000_0000],
        post_state_digest: vec![0xAA; 32],
        journal: Vec::new(),
    };
    assert_eq!(groth16_snark_encode(snark), Err(EncodeError::TooLarge));
}

#[test]
fn summary_needs_both_parts() {
    assert_eq!(
        summary_of(Some(vec![1]), Some([2; 32])),
        Some(StarkSummary { journal: vec![1], post_state_digest: [2; 32] })
    );
    assert_eq!(summary_of(None, Some([2; 32])), None);
    assert_eq!(summary_of(Some(vec![1]), None), None);
    assert_eq!(summary_of(None, None), None);
}
