use curv::arithmetic::traits::Converter;
use curv::cryptographic_primitives::secret_sharing::feldman_vss::{
    ShamirSecretSharing, VerifiableSS,
};
use curv::elliptic::curves::secp256_k1::{Secp256k1Point, Secp256k1Scalar};
use curv::elliptic::curves::{ECPoint, Point, Scalar, Secp256k1};
use curv::BigInt;
use fs_dkr::{
    fairness_verdict, FairnessProof, FairnessProofError, FairnessStatement, FairnessWitness,
    FsDkrError, LocalKey, RefreshMessage, VssCommitment, key_is_valid,
};
use kzen_paillier::{EncryptWithChosenRandomness, KeyGeneration, Paillier, Randomness, RawPlaintext};

fn make_keys(t: u16, n: u16) -> Vec<LocalKey> {
    let secret = Scalar::<Secp256k1>::random();
    let (_, shares) = VerifiableSS::<Secp256k1>::share(t, n, &secret);
    let keypairs: Vec<_> = (0..n)
        .map(|_| Paillier::keypair_with_modulus_size(2048).keys())
        .collect();
    let eks: Vec<_> = keypairs.iter().map(|(ek, _)| ek.clone()).collect();
    (0..n)
        .map(|i| {
            let x_i = shares[i as usize].clone();
            LocalKey {
                i: i + 1,
                t,
                n,
                paillier_key_vec: eks.clone(),
                paillier_dk: keypairs[i as usize].1.clone(),
                y: (Point::<Secp256k1>::generator() * &x_i).into_raw(),
                x_i: x_i.into_raw(),
            }
        })
        .collect()
}

fn copy_key(k: &LocalKey) -> LocalKey {
    LocalKey {
        i: k.i,
        t: k.t,
        n: k.n,
        paillier_key_vec: k.paillier_key_vec.clone(),
        paillier_dk: k.paillier_dk.clone(),
        x_i: k.x_i.clone(),
        y: k.y,
    }
}

fn copy_proof(p: &FairnessProof) -> FairnessProof {
    FairnessProof {
        e: p.e.clone(),
        z1: p.z1.clone(),
        z2: p.z2.clone(),
        A1: p.A1,
        A2: p.A2.clone(),
    }
}

fn copy_message(m: &RefreshMessage) -> RefreshMessage {
    RefreshMessage {
        fairness_proof_vec: m.fairness_proof_vec.iter().map(copy_proof).collect(),
        coefficients_committed_vec: VssCommitment {
            threshold: m.coefficients_committed_vec.threshold,
            share_count: m.coefficients_committed_vec.share_count,
            commitments: m.coefficients_committed_vec.commitments.clone(),
        },
        points_committed_vec: m.points_committed_vec.clone(),
        points_encrypted_vec: m.points_encrypted_vec.clone(),
    }
}

fn reconstruct(t: u16, n: u16, indices: &[u16], shares: &[Secp256k1Scalar]) -> Scalar<Secp256k1> {
    let vss = VerifiableSS::<Secp256k1> {
        parameters: ShamirSecretSharing { threshold: t, share_count: n },
        commitments: Vec::new(),
    };
    let shares: Vec<_> = shares.iter().map(|s| Scalar::from_raw(s.clone())).collect();
    vss.reconstruct(indices, &shares)
}

#[test]
fn test1() {
    let t = 2;
    let n = 3;
    let old_keys = make_keys(t, n);

    let mut broadcast_vec: Vec<RefreshMessage> = Vec::new();
    for i in 0..n as usize {
        broadcast_vec.push(RefreshMessage::distribute(&old_keys[i]));
    }
    let mut new_keys: Vec<LocalKey> = Vec::new();
    for i in 0..n as usize {
        new_keys.push(RefreshMessage::collect(&broadcast_vec, copy_key(&old_keys[i])).expect(""));
    }
    let old_linear_secret_key: Vec<_> = old_keys.iter().map(|k| k.x_i.clone()).collect();
    let new_linear_secret_key: Vec<_> = new_keys.iter().map(|k| k.x_i.clone()).collect();
    let indices: Vec<u16> = (0..n).collect();
    assert_eq!(
        reconstruct(t, n, &indices, &old_linear_secret_key),
        reconstruct(t, n, &indices, &new_linear_secret_key)
    );
    assert_ne!(old_linear_secret_key, new_linear_secret_key);
}

#[test]
fn refreshed_keys_keep_secret_and_public_shares_match() {
    let t = 1;
    let n = 3;
    let old_keys = make_keys(t, n);
    let broadcast: Vec<_> = old_keys.iter().map(RefreshMessage::distribute).collect();
    let new_keys: Vec<_> = old_keys
        .iter()
        .map(|k| RefreshMessage::collect(&broadcast, copy_key(k)).unwrap())
        .collect();
    for (old, new) in old_keys.iter().zip(new_keys.iter()) {
        assert_eq!(old.i, new.i);
        assert_eq!(old.t, new.t);
        assert_eq!(old.n, new.n);
        assert!(old.x_i != new.x_i);
        assert!(Secp256k1Point::generator_mul(&new.x_i) == new.y);
    }
    let old_x: Vec<_> = old_keys.iter().map(|k| k.x_i.clone()).collect();
    let new_x: Vec<_> = new_keys.iter().map(|k| k.x_i.clone()).collect();
    for pair in [[0u16, 1u16], [0, 2], [1, 2]] {
        let old_pair = [old_x[pair[0] as usize].clone(), old_x[pair[1] as usize].clone()];
        let new_pair = [new_x[pair[0] as usize].clone(), new_x[pair[1] as usize].clone()];
        assert_eq!(
            reconstruct(t, n, &pair, &old_pair),
            reconstruct(t, n, &pair, &new_pair)
        );
    }
}

#[test]
fn collect_rejects_too_few_messages() {
    let keys = make_keys(2, 3);
    let broadcast: Vec<_> = keys[..2].iter().map(RefreshMessage::distribute).collect();
    let r = RefreshMessage::collect(&broadcast, copy_key(&keys[0]));
    assert!(matches!(
        r,
        Err(FsDkrError::PartiesThresholdViolation { threshold: 2, refreshed_keys: 2 })
    ));
    let r = RefreshMessage::collect(&Vec::new(), copy_key(&keys[1]));
    assert!(matches!(
        r,
        Err(FsDkrError::PartiesThresholdViolation { threshold: 2, refreshed_keys: 0 })
    ));
}

#[test]
fn collect_reports_first_message_of_wrong_shape() {
    let keys = make_keys(1, 3);
    let mut broadcast: Vec<_> = keys.iter().map(RefreshMessage::distribute).collect();
    broadcast[1].points_encrypted_vec.pop();
    broadcast[2].fairness_proof_vec.pop();
    let r = RefreshMessage::collect(&broadcast, copy_key(&keys[0]));
    assert!(matches!(
        r,
        Err(FsDkrError::SizeMismatchError {
            refresh_message_index: 1,
            fairness_proof_len: 3,
            points_commited_len: 3,
            points_encrypted_len: 2,
        })
    ));
}

#[test]
fn collect_rejects_consistent_but_short_messages() {
    let keys = make_keys(1, 3);
    let mut broadcast: Vec<_> = keys.iter().map(RefreshMessage::distribute).collect();
    for m in broadcast.iter_mut() {
        m.points_encrypted_vec.pop();
        m.points_committed_vec.pop();
        m.fairness_proof_vec.pop();
    }
    let r = RefreshMessage::collect(&broadcast, copy_key(&keys[2]));
    assert!(matches!(
        r,
        Err(FsDkrError::SizeMismatchError {
            refresh_message_index: 0,
            fairness_proof_len: 2,
            points_commited_len: 2,
            points_encrypted_len: 2,
        })
    ));
}

#[test]
fn collect_rejects_duplicate_message() {
    let keys = make_keys(1, 3);
    let mut broadcast: Vec<_> = keys.iter().map(RefreshMessage::distribute).collect();
    let again = copy_message(&broadcast[0]);
    broadcast.push(again);
    let r = RefreshMessage::collect(&broadcast, copy_key(&keys[1]));
    assert!(matches!(r, Err(FsDkrError::DuplicatedRefreshMessage)));
}

#[test]
fn message_equality_tells_messages_apart() {
    let keys = make_keys(1, 2);
    let a = RefreshMessage::distribute(&keys[0]);
    let b = RefreshMessage::distribute(&keys[0]);
    assert!(a.equals(&copy_message(&a)));
    assert!(!a.equals(&b));
    let mut c = copy_message(&a);
    c.points_encrypted_vec[1] = BigInt::from(7u64);
    assert!(!a.equals(&c));
}

#[test]
fn collect_rejects_point_off_the_committed_polynomial() {
    let keys = make_keys(1, 3);
    let mut broadcast: Vec<_> = keys.iter().map(RefreshMessage::distribute).collect();
    let other = broadcast[2].points_committed_vec[0];
    broadcast[1].points_committed_vec[0] = other;
    let r = RefreshMessage::collect(&broadcast, copy_key(&keys[0]));
    assert!(matches!(r, Err(FsDkrError::PublicShareValidationError)));
}

#[test]
fn collect_rejects_commitment_inconsistent_with_ciphertext() {
    let keys = make_keys(1, 3);
    let mut broadcast: Vec<_> = keys.iter().map(RefreshMessage::distribute).collect();
    // the dealer commits to a second sharing but sends the first one encrypted
    let honest = RefreshMessage::distribute(&keys[1]);
    let other = RefreshMessage::distribute(&keys[1]);
    broadcast[1] = RefreshMessage {
        fairness_proof_vec: honest.fairness_proof_vec,
        coefficients_committed_vec: other.coefficients_committed_vec,
        points_committed_vec: other.points_committed_vec,
        points_encrypted_vec: honest.points_encrypted_vec,
    };
    let r = RefreshMessage::collect(&broadcast, copy_key(&keys[0]));
    assert!(matches!(r, Err(FsDkrError::FairnessProof)));
}

fn honest_statement(keys: &[LocalKey]) -> (FairnessWitness, FairnessStatement) {
    let ek = keys[0].paillier_key_vec[1].clone();
    let x = Scalar::<Secp256k1>::random();
    let r = BigInt::from(123456789u64);
    let c = Paillier::encrypt_with_chosen_randomness(
        &ek,
        RawPlaintext::from(x.to_bigint()),
        &Randomness::from(r.clone()),
    )
    .0
    .into_owned();
    let y = (Point::<Secp256k1>::generator() * &x).into_raw();
    (
        FairnessWitness { x: x.into_raw(), r },
        FairnessStatement { ek, c, Y: y },
    )
}

#[test]
fn fairness_proof_verifies_for_its_statement() {
    let keys = make_keys(1, 2);
    let (witness, statement) = honest_statement(&keys);
    let proof = FairnessProof::prove(&witness, &statement);
    assert!(proof.verify(&statement).is_ok());
    assert!(proof.equals(&copy_proof(&proof)));
}

#[test]
fn fairness_proof_fails_for_another_commitment() {
    let keys = make_keys(1, 2);
    let (witness, statement) = honest_statement(&keys);
    let proof = FairnessProof::prove(&witness, &statement);
    let other = FairnessStatement {
        ek: statement.ek.clone(),
        c: statement.c.clone(),
        Y: Secp256k1Point::generator_mul(&Scalar::<Secp256k1>::random().into_raw()),
    };
    assert!(proof.verify(&other).is_err());
    let other = FairnessStatement {
        ek: statement.ek.clone(),
        c: BigInt::from_hex("abcdef").unwrap(),
        Y: statement.Y,
    };
    assert!(proof.verify(&other).is_err());
}

#[test]
fn fairness_verdict_names_the_failed_relation() {
    assert_eq!(fairness_verdict(true, true), Ok(()));
    assert_eq!(fairness_verdict(false, true), Err(FairnessProofError::CiphertextRelation));
    assert_eq!(fairness_verdict(false, false), Err(FairnessProofError::CiphertextRelation));
    assert_eq!(fairness_verdict(true, false), Err(FairnessProofError::CommitmentRelation));
}

#[test]
fn check_structure_accepts_honest_messages() {
    let keys = make_keys(1, 2);
    let broadcast: Vec<_> = keys.iter().map(RefreshMessage::distribute).collect();
    assert_eq!(RefreshMessage::check_structure(&broadcast, 1, 2), Ok(()));
    assert_eq!(
        RefreshMessage::check_structure(&broadcast, 1, 3),
        Err(FsDkrError::SizeMismatchError {
            refresh_message_index: 0,
            fairness_proof_len: 2,
            points_commited_len: 2,
            points_encrypted_len: 2,
        })
    );
    assert_eq!(
        RefreshMessage::check_structure(&broadcast, 2, 2),
        Err(FsDkrError::PartiesThresholdViolation { threshold: 2, refreshed_keys: 2 })
    );
}

#[test]
fn distribute_shapes_its_message() {
    let keys = make_keys(2, 4);
    let m = RefreshMessage::distribute(&keys[3]);
    assert_eq!(m.fairness_proof_vec.len(), 4);
    assert_eq!(m.points_committed_vec.len(), 4);
    assert_eq!(m.points_encrypted_vec.len(), 4);
    assert_eq!(m.coefficients_committed_vec.threshold, 2);
    assert_eq!(m.coefficients_committed_vec.share_count, 4);
    assert_eq!(m.coefficients_committed_vec.commitments.len(), 3);
}

#[test]
fn well_formed_keys_are_recognised() {
    let keys = make_keys(1, 2);
    assert!(keys[0].is_well_formed());
    let mut bad = copy_key(&keys[0]);
    bad.i = 3;
    assert!(!bad.is_well_formed());
    let mut bad = copy_key(&keys[0]);
    bad.t = 2;
    assert!(!bad.is_well_formed());
    let mut bad = copy_key(&keys[0]);
    bad.paillier_key_vec[1].n = BigInt::from(0u64);
    assert!(!bad.is_well_formed());
    let mut bad = copy_key(&keys[0]);
    bad.paillier_dk.q = bad.paillier_dk.p.clone();
    assert!(!bad.is_well_formed());
    let mut bad = copy_key(&keys[0]);
    bad.paillier_dk.p = BigInt::from(15u64);
    assert!(!bad.is_well_formed());
}

#[test]
fn paillier_key_validity() {
    let keys = make_keys(1, 2);
    assert!(key_is_valid(&keys[0].paillier_key_vec[0]));
    let mut ek = keys[0].paillier_key_vec[0].clone();
    ek.nn = BigInt::from(0u64);
    assert!(!key_is_valid(&ek));
}

#[test]
fn prove_with_fixes_the_proof_from_its_nonces() {
    let keys = make_keys(1, 2);
    let (witness, statement) = honest_statement(&keys);
    let alpha = BigInt::from(1000u64);
    let beta = BigInt::from(2000u64);
    let a = FairnessProof::prove_with(&witness, &statement, &alpha, &beta);
    let b = FairnessProof::prove_with(&witness, &statement, &alpha, &beta);
    assert!(a.equals(&b));
    assert!(a.A1 == Secp256k1Point::generator_mul(&Scalar::<Secp256k1>::from(1000u16).into_raw()));
    assert!(a.z1 != alpha);
    assert!(a.verify(&statement).is_ok());
}

#[test]
fn aggregate_decrypts_the_sum_of_own_ciphertexts() {
    let keys = make_keys(1, 2);
    let broadcast: Vec<_> = keys.iter().map(RefreshMessage::distribute).collect();
    let ek = &keys[1].paillier_key_vec[1];
    let zero = Paillier::encrypt_with_chosen_randomness(
        ek,
        RawPlaintext::from(BigInt::from(0u64)),
        &Randomness::from(BigInt::from(5u64)),
    )
    .0
    .into_owned();
    let x = RefreshMessage::aggregate(&broadcast, 1, ek, &keys[1].paillier_dk, zero);
    let refreshed = RefreshMessage::collect(&broadcast, copy_key(&keys[1])).unwrap();
    assert!(x == refreshed.x_i);
}

#[test]
fn distribute_does_not_read_the_decryption_key() {
    let keys = make_keys(1, 2);
    let mut dealer = copy_key(&keys[0]);
    dealer.paillier_dk.p = BigInt::from(4u64);
    assert!(!dealer.is_well_formed());
    assert!(dealer.can_deal());
    let m = RefreshMessage::distribute(&dealer);
    assert_eq!(m.points_encrypted_vec.len(), 2);
    assert_eq!(m.coefficients_committed_vec.commitments.len(), 2);
}

#[test]
fn negative_primes_are_not_a_decryption_key() {
    let keys = make_keys(1, 2);
    let mut bad = copy_key(&keys[0]);
    bad.paillier_dk.p = BigInt::from(0u64) - &bad.paillier_dk.p;
    assert!(!bad.is_well_formed());
}
