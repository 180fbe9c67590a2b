use connection_pool::{Bucket, L1BatchNumber, L1BatchProofForL1};

#[test]
fn proofs_have_a_key() {
    assert_eq!(
        L1BatchProofForL1::<()>::encode_key(L1BatchNumber(0)),
        "l1_batch_proof_0.bin"
    );
    assert_eq!(
        L1BatchProofForL1::<()>::encode_key(L1BatchNumber(120_403)),
        "l1_batch_proof_120403.bin"
    );
    assert_eq!(
        L1BatchProofForL1::<()>::encode_key(L1BatchNumber(u32::MAX)),
        "l1_batch_proof_4294967295.bin"
    );
}

#[test]
fn proofs_of_different_batches_have_different_keys() {
    let mut keys = Vec::new();
    for number in [0u32, 1, 10, 11, 100, 101] {
        keys.push(L1BatchProofForL1::<()>::encode_key(L1BatchNumber(number)));
    }
    for i in 0..keys.len() {
        for j in 0..i {
            assert_ne!(keys[i], keys[j]);
        }
    }
}

#[test]
fn proofs_have_a_bucket() {
    assert_eq!(L1BatchProofForL1::<()>::bucket(), Bucket::ProofsFri);
}

#[test]
fn proof_is_shown_by_its_coordinates() {
    let mut coords = [[0u8; 32]; 4];
    for (i, byte) in coords[1].iter_mut().enumerate() {
        *byte = 8 * i as u8;
    }
    coords[3][31] = 255;
    let proof = L1BatchProofForL1 { aggregation_result_coords: coords, scheduler_proof: "proof" };
    assert_eq!(
        proof.debug_string(),
        format!("L1BatchProofForL1 {{ aggregation_result_coords: {coords:?}, .. }}")
    );
    let zeros = vec!["0"; 32].join(", ");
    assert!(proof.debug_string().starts_with(&format!(
        "L1BatchProofForL1 {{ aggregation_result_coords: [[{zeros}], [0, 8, 16, 24, "
    )));

    let other = L1BatchProofForL1 { aggregation_result_coords: coords, scheduler_proof: 5 };
    assert_eq!(proof.debug_string(), other.debug_string());
}

#[test]
fn cloned_proof_is_the_same() {
    let proof = L1BatchProofForL1 {
        aggregation_result_coords: [[7u8; 32]; 4],
        scheduler_proof: vec![1u8, 2],
    };
    let copy = proof.clone();
    assert_eq!(copy.aggregation_result_coords, [[7u8; 32]; 4]);
    assert_eq!(copy.scheduler_proof, vec![1u8, 2]);
}
