#![allow(non_snake_case)]
mod error;
mod primitives;
mod proof_of_fairness;

pub use error::{FsDkrError, FsDkrResult};
pub use proof_of_fairness::{
    fairness_verdict, FairnessProof, FairnessProofError, FairnessStatement, FairnessWitness,
};
mod refresh_message;

pub use primitives::{
    cipher_add_of, decrypt_of, digest_of, ek_valid, enc_of, gen_mul_of, int_add_of, int_mul_of,
    int_of_u64, lagrange_of, mod_mul_of, mod_pow_of, point_add_of, point_int_of, point_mul_of,
    prime_of, scalar_int_of, scalar_mul_of, scalar_of_int, share_valid_of, sign_of,
};
pub use proof_of_fairness::{
    challenge_of, ciphertext_relation, commitment_relation, honest_proof, key_is_valid, verdict_of,
};
pub use refresh_message::{
    cipher_sum, collect_verdict, dealt, dealt_parts, first_bad_shape, has_duplicate,
    lemma_dealt_shares_valid, lemma_duplicates_rejected, lemma_quorum_enforced,
    lemma_shape_enforced, own_ciphertexts, positions_upto, proofs_valid, refreshed_share,
    same_message, shape_ok, shares_valid, size_mismatch, statement_of, structure_verdict,
    LocalKey, RefreshMessage, VssCommitment,
};
