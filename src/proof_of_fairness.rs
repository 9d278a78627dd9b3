//! A non-interactive proof that a Paillier ciphertext and an elliptic-curve
//! commitment hide the same value.
//!
//! Statement `(ek, c, Y)`, witness `(x, r)` with `c = Enc(ek, x, r)` and
//! `Y = g * x`. The prover sends `A1 = g * alpha`, `A2 = Enc(ek, alpha, beta)`,
//! `z1 = alpha + e * x` and `z2 = beta * r^e mod n^2`, where the challenge `e`
//! is a digest of the statement and of `A1`, `A2`. The verifier checks
//! `g * z1 == A1 + Y * e` and `Enc(ek, z1, z2) == A2 * c^e mod n^2`.
use vstd::prelude::*;

use crate::primitives::{
    bigint_add, bigint_eq, bigint_mul, bigint_sign, cipher_add_of, digest, digest_of, ek_valid,
    enc_of, gen_mul_of, generator_times, int_add_of, int_mul_of, mod_mul, mod_mul_of, mod_pow,
    mod_pow_of, paillier_encrypt_with_randomness, point_add, point_add_of, point_eq, point_int_of,
    point_mul_of, point_times, point_to_bigint, sample_below, scalar_from_bigint, scalar_int_of,
    scalar_of_int, scalar_to_bigint, sign_of,
};
use curv::elliptic::curves::secp256_k1::{Secp256k1Point, Secp256k1Scalar};
use curv::BigInt;
use kzen_paillier::EncryptionKey;

verus! {

/// What is proved: `c` encrypts under `ek` the discrete logarithm of `Y`.
pub struct FairnessStatement {
    pub ek: EncryptionKey,
    pub c: BigInt,
    pub Y: Secp256k1Point,
}

/// What the prover knows: the plaintext `x` and the encryption randomness `r`.
pub struct FairnessWitness {
    pub x: Secp256k1Scalar,
    pub r: BigInt,
}

pub struct FairnessProof {
    pub e: BigInt,
    pub z1: BigInt,
    pub z2: BigInt,
    pub A1: Secp256k1Point,
    pub A2: BigInt,
}

/// The proof's failure: one of the two verification equations does not hold.
#[derive(Clone, Debug, PartialEq, Eq, Structural)]
pub enum FairnessProofError {
    CiphertextRelation,
    CommitmentRelation,
}

/// The verdict of the two verification equations: the ciphertext relation is
/// examined first.
pub fn fairness_verdict(ciphertext_holds: bool, commitment_holds: bool) -> (r: Result<(), FairnessProofError>)
    ensures
        r is Ok <==> (ciphertext_holds && commitment_holds),
        ciphertext_holds && commitment_holds ==> r == Ok::<(), FairnessProofError>(()),
        !ciphertext_holds ==> r == Err::<(), FairnessProofError>(FairnessProofError::CiphertextRelation),
        ciphertext_holds && !commitment_holds ==> r == Err::<(), FairnessProofError>(
            FairnessProofError::CommitmentRelation,
        ),
{
    if !ciphertext_holds {
        Err(FairnessProofError::CiphertextRelation)
    } else if !commitment_holds {
        Err(FairnessProofError::CommitmentRelation)
    } else {
        Ok(())
    }
}

/// The Fiat-Shamir challenge: the digest of `n`, `c`, `Y`, `A1`, `A2` in order.
pub open spec fn challenge_of(statement: FairnessStatement, a1: Secp256k1Point, a2: BigInt) -> BigInt {
    digest_of(seq![statement.ek.n, statement.c, point_int_of(statement.Y), point_int_of(a1), a2])
}

/// The proof's challenge is the digest of the statement and its first message,
/// and `Enc(ek, z1, z2) == A2 * c^e mod n^2`.
pub open spec fn ciphertext_relation(proof: FairnessProof, statement: FairnessStatement) -> bool {
    let e = challenge_of(statement, proof.A1, proof.A2);
    &&& e == proof.e
    &&& enc_of(statement.ek, proof.z1, proof.z2) == mod_mul_of(
        proof.A2,
        mod_pow_of(statement.c, e, statement.ek.nn),
        statement.ek.nn,
    )
}

/// `g * z1 == A1 + Y * e`.
pub open spec fn commitment_relation(proof: FairnessProof, statement: FairnessStatement) -> bool {
    let e = challenge_of(statement, proof.A1, proof.A2);
    gen_mul_of(scalar_of_int(proof.z1)) == point_add_of(proof.A1, point_mul_of(statement.Y, scalar_of_int(e)))
}

/// What `verify` returns.
pub open spec fn verdict_of(proof: FairnessProof, statement: FairnessStatement) -> Result<(), FairnessProofError> {
    if !ciphertext_relation(proof, statement) {
        Err(FairnessProofError::CiphertextRelation)
    } else if !commitment_relation(proof, statement) {
        Err(FairnessProofError::CommitmentRelation)
    } else {
        Ok(())
    }
}

/// The proof that `prove` builds from the prover's random `alpha` and `beta`.
pub open spec fn honest_proof(
    witness: FairnessWitness,
    statement: FairnessStatement,
    alpha: BigInt,
    beta: BigInt,
) -> FairnessProof {
    let a1 = gen_mul_of(scalar_of_int(alpha));
    let a2 = enc_of(statement.ek, alpha, beta);
    let e = challenge_of(statement, a1, a2);
    FairnessProof {
        e,
        z1: int_add_of(alpha, int_mul_of(e, scalar_int_of(witness.x))),
        z2: mod_mul_of(beta, mod_pow_of(witness.r, e, statement.ek.nn), statement.ek.nn),
        A1: a1,
        A2: a2,
    }
}

impl FairnessStatement {
    /// The statement's Paillier key is one that encryption accepts.
    pub open spec fn wf(&self) -> bool {
        ek_valid(self.ek)
    }
}

/// Whether a Paillier public key is one that encryption accepts: both moduli positive.
pub fn key_is_valid(ek: &EncryptionKey) -> (r: bool)
    ensures
        r == ek_valid(*ek),
{
    bigint_sign(&ek.n) > 0 && bigint_sign(&ek.nn) > 0
}

fn challenge(statement: &FairnessStatement, a1: &Secp256k1Point, a2: &BigInt) -> (e: BigInt)
    ensures
        e == challenge_of(*statement, *a1, *a2),
        sign_of(e) >= 0,
{
    let mut values: Vec<BigInt> = Vec::new();
    values.push(statement.ek.n.clone());
    values.push(statement.c.clone());
    values.push(point_to_bigint(&statement.Y));
    values.push(point_to_bigint(a1));
    values.push(a2.clone());
    assert(values@ =~= seq![statement.ek.n, statement.c, point_int_of(statement.Y), point_int_of(*a1), *a2]);
    digest(&values)
}

impl FairnessProof {
    /// Builds the proof from the prover's nonces `alpha` and `beta`.
    pub fn prove_with(
        witness: &FairnessWitness,
        statement: &FairnessStatement,
        alpha: &BigInt,
        beta: &BigInt,
    ) -> (proof: FairnessProof)
        requires
            statement.wf(),
        ensures
            proof == honest_proof(*witness, *statement, *alpha, *beta),
    {
        let a1 = generator_times(&scalar_from_bigint(alpha));
        let a2 = paillier_encrypt_with_randomness(&statement.ek, alpha, beta);
        let e = challenge(statement, &a1, &a2);
        let z1 = bigint_add(alpha, &bigint_mul(&e, &scalar_to_bigint(&witness.x)));
        let r_to_e = mod_pow(&witness.r, &e, &statement.ek.nn);
        let z2 = mod_mul(beta, &r_to_e, &statement.ek.nn);
        FairnessProof { e, z1, z2, A1: a1, A2: a2 }
    }

    /// Proves the statement from its witness with fresh nonces below `n`,
    /// which are erased afterwards. The witness must be the true opening of
    /// the statement; otherwise the proof will not verify.
    pub fn prove(witness: &FairnessWitness, statement: &FairnessStatement) -> (proof: FairnessProof)
        requires
            statement.wf(),
        ensures
            exists|alpha: BigInt, beta: BigInt| proof == honest_proof(*witness, *statement, alpha, beta),
    {
        let mut alpha = sample_below(&statement.ek.n);
        let mut beta = sample_below(&statement.ek.n);
        let ghost nonces = (alpha, beta);
        let proof = Self::prove_with(witness, statement, &alpha, &beta);
        crate::primitives::erase_bigint(&mut alpha);
        crate::primitives::erase_bigint(&mut beta);
        assert(proof == honest_proof(*witness, *statement, nonces.0, nonces.1));
        proof
    }

    /// Checks the proof against `statement`: the challenge must be the digest
    /// of this statement and the proof's first message, and both verification
    /// equations must hold.
    pub fn verify(&self, statement: &FairnessStatement) -> (r: Result<(), FairnessProofError>)
        requires
            statement.wf(),
        ensures
            r == verdict_of(*self, *statement),
    {
        let e = challenge(statement, &self.A1, &self.A2);
        let fresh_challenge = bigint_eq(&e, &self.e);
        let enc_z = paillier_encrypt_with_randomness(&statement.ek, &self.z1, &self.z2);
        let c_to_e = mod_pow(&statement.c, &e, &statement.ek.nn);
        let a2_c_e = mod_mul(&self.A2, &c_to_e, &statement.ek.nn);
        let ciphertext_holds = fresh_challenge && bigint_eq(&enc_z, &a2_c_e);
        let g_z1 = generator_times(&scalar_from_bigint(&self.z1));
        let y_e = point_times(&statement.Y, &scalar_from_bigint(&e));
        let a1_y_e = point_add(&self.A1, &y_e);
        let commitment_holds = point_eq(&g_z1, &a1_y_e);
        fairness_verdict(ciphertext_holds, commitment_holds)
    }

    /// Field-wise equality of two proofs.
    pub fn equals(&self, other: &FairnessProof) -> (r: bool)
        ensures
            r == (*self == *other),
    {
        bigint_eq(&self.e, &other.e) && bigint_eq(&self.z1, &other.z1) && bigint_eq(&self.z2, &other.z2)
            && point_eq(&self.A1, &other.A1) && bigint_eq(&self.A2, &other.A2)
    }
}

} // verus!
