//! The refresh protocol: each party deals a fresh sharing of its additive
//! secret (`distribute`), and each party checks all dealings and derives its
//! new share from them (`collect`).
use vstd::prelude::*;

use crate::error::{FsDkrError, FsDkrResult};
use crate::primitives::{
    bigint_eq, bigint_from_u64, bigint_is_prime, bigint_sign, int_of_u64, cipher_add_of, decrypt_of, ek_valid, enc_of,
    erase_bigint, gen_mul_of, generator_times, lagrange_of, paillier_add, paillier_decrypt,
    paillier_encrypt, paillier_encrypt_with_randomness, point_eq, prime_of, sample_below,
    scalar_from_bigint, scalar_int_of, scalar_mul, scalar_mul_of, scalar_of_int, scalar_to_bigint,
    share_valid_of, sign_of, vss_lagrange_coefficient, vss_share, vss_validate_share_public,
};
use crate::proof_of_fairness::{
    honest_proof, key_is_valid, verdict_of, FairnessProof, FairnessStatement, FairnessWitness,
};
use curv::elliptic::curves::secp256_k1::{Secp256k1Point, Secp256k1Scalar};
use curv::BigInt;
use kzen_paillier::{DecryptionKey, EncryptionKey};

verus! {

/// A party's threshold key, as far as a refresh reads and writes it.
pub struct LocalKey {
    /// This party's position, from 1 to `n`.
    pub i: u16,
    /// The threshold: `t + 1` shares reconstruct the secret.
    pub t: u16,
    /// The number of parties.
    pub n: u16,
    /// One Paillier public key per party, party `j + 1` at `j`.
    pub paillier_key_vec: Vec<EncryptionKey>,
    /// This party's Paillier decryption key.
    pub paillier_dk: DecryptionKey,
    /// This party's linear share of the joint secret.
    pub x_i: Secp256k1Scalar,
    /// The public counterpart of `x_i`.
    pub y: Secp256k1Point,
}

impl LocalKey {
    /// What dealing reads: the index in `1..=n`, `t < n`, and a valid Paillier
    /// key for each party.
    pub open spec fn dealer_wf(&self) -> bool {
        &&& 1 <= self.i <= self.n
        &&& self.t < self.n
        &&& self.paillier_key_vec@.len() >= self.n
        &&& forall|j: int| 0 <= j < self.n ==> ek_valid(#[trigger] self.paillier_key_vec@[j])
    }

    /// The whole key: as for dealing, exactly one Paillier key per party, and a
    /// decryption key of two distinct positive primes.
    pub open spec fn wf(&self) -> bool {
        &&& self.dealer_wf()
        &&& self.paillier_key_vec@.len() == self.n
        &&& sign_of(self.paillier_dk.p) > 0
        &&& sign_of(self.paillier_dk.q) > 0
        &&& prime_of(self.paillier_dk.p)
        &&& prime_of(self.paillier_dk.q)
        &&& self.paillier_dk.p != self.paillier_dk.q
    }

    /// Whether the key can deal: its index in `1..=n`, `t < n`, and a valid
    /// Paillier key for each party.
    pub fn can_deal(&self) -> (r: bool)
        ensures
            r == self.dealer_wf(),
    {
        if !(1 <= self.i && self.i <= self.n && self.t < self.n && self.paillier_key_vec.len() >= self.n as usize) {
            return false;
        }
        let mut j: usize = 0;
        while j < self.n as usize
            invariant
                self.paillier_key_vec@.len() >= self.n,
                j <= self.n,
                forall|x: int| 0 <= x < j ==> ek_valid(#[trigger] self.paillier_key_vec@[x]),
            decreases self.n - j,
        {
            if !key_is_valid(&self.paillier_key_vec[j]) {
                return false;
            }
            j += 1;
        }
        true
    }

    /// Whether the key is well formed: it can deal, holds exactly one Paillier
    /// key per party, and a decryption key of two distinct positive primes.
    pub fn is_well_formed(&self) -> (r: bool)
        ensures
            r == self.wf(),
    {
        self.can_deal() && self.paillier_key_vec.len() == self.n as usize && bigint_sign(&self.paillier_dk.p) > 0
            && bigint_sign(&self.paillier_dk.q) > 0 && bigint_is_prime(&self.paillier_dk.p)
            && bigint_is_prime(&self.paillier_dk.q) && !bigint_eq(&self.paillier_dk.p, &self.paillier_dk.q)
    }
}

/// Feldman commitments to the coefficients of a dealer's polynomial, with
/// the sharing's parameters.
pub struct VssCommitment {
    pub threshold: u16,
    pub share_count: u16,
    pub commitments: Vec<Secp256k1Point>,
}

/// What one dealer broadcasts in a refresh: for each party `j + 1`, at `j`, a
/// commitment to its new share, the share encrypted under its Paillier key,
/// and a proof that the two agree.
pub struct RefreshMessage {
    pub fairness_proof_vec: Vec<FairnessProof>,
    pub coefficients_committed_vec: VssCommitment,
    pub points_committed_vec: Vec<Secp256k1Point>,
    pub points_encrypted_vec: Vec<BigInt>,
}

/// Each of the message's three sequences holds one entry per party.
pub open spec fn shape_ok(m: RefreshMessage, n: nat) -> bool {
    &&& m.fairness_proof_vec@.len() == n
    &&& m.points_committed_vec@.len() == n
    &&& m.points_encrypted_vec@.len() == n
}

/// The two messages agree in every part.
pub open spec fn same_message(a: RefreshMessage, b: RefreshMessage) -> bool {
    &&& a.fairness_proof_vec@ == b.fairness_proof_vec@
    &&& a.coefficients_committed_vec.threshold == b.coefficients_committed_vec.threshold
    &&& a.coefficients_committed_vec.share_count == b.coefficients_committed_vec.share_count
    &&& a.coefficients_committed_vec.commitments@ == b.coefficients_committed_vec.commitments@
    &&& a.points_committed_vec@ == b.points_committed_vec@
    &&& a.points_encrypted_vec@ == b.points_encrypted_vec@
}

pub open spec fn has_duplicate(ms: Seq<RefreshMessage>) -> bool {
    exists|a: int, b: int| 0 <= a < b < ms.len() && same_message(#[trigger] ms[a], #[trigger] ms[b])
}

/// `k` is the first message whose shape is wrong.
pub open spec fn first_bad_shape(ms: Seq<RefreshMessage>, n: nat, k: int) -> bool {
    &&& 0 <= k < ms.len()
    &&& !shape_ok(ms[k], n)
    &&& forall|j: int| 0 <= j < k ==> shape_ok(#[trigger] ms[j], n)
}

pub open spec fn size_mismatch(ms: Seq<RefreshMessage>, k: int) -> FsDkrError {
    FsDkrError::SizeMismatchError {
        refresh_message_index: k as usize,
        fairness_proof_len: ms[k].fairness_proof_vec@.len() as usize,
        points_commited_len: ms[k].points_committed_vec@.len() as usize,
        points_encrypted_len: ms[k].points_encrypted_vec@.len() as usize,
    }
}

/// The verdict of the checks that read the messages' structure alone, in
/// order: enough messages, every message of the right shape, no message twice.
pub open spec fn structure_verdict(ms: Seq<RefreshMessage>, t: u16, n: nat) -> FsDkrResult<()> {
    if ms.len() <= t {
        Err(FsDkrError::PartiesThresholdViolation { threshold: t, refreshed_keys: ms.len() as usize })
    } else if exists|k: int| 0 <= k < ms.len() && !shape_ok(#[trigger] ms[k], n) {
        Err(size_mismatch(ms, choose|k: int| first_bad_shape(ms, n, k)))
    } else if has_duplicate(ms) {
        Err(FsDkrError::DuplicatedRefreshMessage)
    } else {
        Ok(())
    }
}

proof fn lemma_first_bad_shape_unique(ms: Seq<RefreshMessage>, n: nat, k: int)
    requires
        first_bad_shape(ms, n, k),
    ensures
        (choose|j: int| first_bad_shape(ms, n, j)) == k,
{
    let c = choose|j: int| first_bad_shape(ms, n, j);
    assert(first_bad_shape(ms, n, c));
    if c < k {
        assert(shape_ok(ms[c], n));
    } else if k < c {
        assert(shape_ok(ms[k], n));
    }
}

/// Quorum: with at most `t` messages, the verdict is a threshold violation
/// that reports `t` and the number of messages.
pub proof fn lemma_quorum_enforced(ms: Seq<RefreshMessage>, t: u16, n: nat)
    requires
        ms.len() <= t,
    ensures
        structure_verdict(ms, t, n) == Err::<(), FsDkrError>(
            FsDkrError::PartiesThresholdViolation { threshold: t, refreshed_keys: ms.len() as usize },
        ),
{
}

/// Shape: with a quorum, a message whose sequences do not all hold `n`
/// entries gives a size mismatch that names the first such message and its
/// three lengths.
pub proof fn lemma_shape_enforced(ms: Seq<RefreshMessage>, t: u16, n: nat, k: int)
    requires
        ms.len() > t,
        0 <= k < ms.len(),
        !shape_ok(ms[k], n),
        forall|j: int| 0 <= j < k ==> shape_ok(#[trigger] ms[j], n),
    ensures
        structure_verdict(ms, t, n) == Err::<(), FsDkrError>(size_mismatch(ms, k)),
{
    assert(first_bad_shape(ms, n, k));
    lemma_first_bad_shape_unique(ms, n, k);
}

/// Duplicates: with a quorum of well-shaped messages, two messages that agree
/// in every part give a duplicate-message verdict.
pub proof fn lemma_duplicates_rejected(ms: Seq<RefreshMessage>, t: u16, n: nat, a: int, b: int)
    requires
        ms.len() > t,
        forall|j: int| 0 <= j < ms.len() ==> shape_ok(#[trigger] ms[j], n),
        0 <= a < b < ms.len(),
        same_message(ms[a], ms[b]),
    ensures
        structure_verdict(ms, t, n) == Err::<(), FsDkrError>(FsDkrError::DuplicatedRefreshMessage),
{
    assert(has_duplicate(ms));
}

/// The positions `0, 1, ..., n - 1`.
pub open spec fn positions_upto(n: u16) -> Seq<u16> {
    Seq::new(n as nat, |j: int| j as u16)
}

/// Entry `j` of a dealing: the commitment is `g * share`, the share passes the
/// public check against the polynomial commitment at position `j + 1`, the
/// ciphertext encrypts the share under `ek` with some randomness, and the
/// fairness proof is an honest proof for that encryption.
pub open spec fn dealt_parts(
    proof: FairnessProof,
    point: Secp256k1Point,
    ciphertext: BigInt,
    commitments: Seq<Secp256k1Point>,
    t: u16,
    n: u16,
    ek: EncryptionKey,
    j: int,
    share: Secp256k1Scalar,
) -> bool {
    &&& point == gen_mul_of(share)
    &&& share_valid_of(t, n, commitments, point, (j + 1) as u16)
    &&& exists|rand: BigInt, alpha: BigInt, beta: BigInt|
        ciphertext == enc_of(ek, scalar_int_of(share), rand) && proof == honest_proof(
            FairnessWitness { x: share, r: rand },
            FairnessStatement { ek, c: ciphertext, Y: point },
            alpha,
            beta,
        )
}

pub open spec fn dealt(m: RefreshMessage, keys: Seq<EncryptionKey>, j: int, share: Secp256k1Scalar) -> bool {
    dealt_parts(
        m.fairness_proof_vec@[j],
        m.points_committed_vec@[j],
        m.points_encrypted_vec@[j],
        m.coefficients_committed_vec.commitments@,
        m.coefficients_committed_vec.threshold,
        m.coefficients_committed_vec.share_count,
        keys[j],
        j,
        share,
    )
}

/// Every committed point of the message passes the public check against its
/// non-empty polynomial commitment.
pub open spec fn shares_valid(m: RefreshMessage, n: nat) -> bool {
    let vss = m.coefficients_committed_vec;
    &&& vss.commitments@.len() > 0
    &&& forall|j: int|
        0 <= j < n ==> share_valid_of(
            vss.threshold,
            vss.share_count,
            vss.commitments@,
            #[trigger] m.points_committed_vec@[j],
            (j + 1) as u16,
        )
}

/// The fairness statement of entry `j` of a message, under party `j + 1`'s key.
pub open spec fn statement_of(ek: EncryptionKey, m: RefreshMessage, j: int) -> FairnessStatement {
    FairnessStatement { ek, c: m.points_encrypted_vec@[j], Y: m.points_committed_vec@[j] }
}

/// Every fairness proof of the message verifies.
pub open spec fn proofs_valid(m: RefreshMessage, keys: Seq<EncryptionKey>, n: nat) -> bool {
    forall|j: int|
        0 <= j < n ==> (#[trigger] verdict_of(m.fairness_proof_vec@[j], statement_of(keys[j], m, j))) is Ok
}

/// The outcome of all of `collect`'s checks, in order.
pub open spec fn collect_verdict(ms: Seq<RefreshMessage>, key: LocalKey) -> FsDkrResult<()> {
    if structure_verdict(ms, key.t, key.n as nat) is Err {
        structure_verdict(ms, key.t, key.n as nat)
    } else if exists|k: int| 0 <= k < ms.len() && !shares_valid(#[trigger] ms[k], key.n as nat) {
        Err(FsDkrError::PublicShareValidationError)
    } else if exists|k: int|
        0 <= k < ms.len() && !proofs_valid(#[trigger] ms[k], key.paillier_key_vec@, key.n as nat) {
        Err(FsDkrError::FairnessProof)
    } else {
        Ok(())
    }
}

/// The ciphertexts that the messages address to position `own`, in order.
pub open spec fn own_ciphertexts(ms: Seq<RefreshMessage>, own: int) -> Seq<BigInt> {
    Seq::new(ms.len(), |k: int| ms[k].points_encrypted_vec@[own])
}

/// The homomorphic sum of `cs`, starting from `start`.
pub open spec fn cipher_sum(ek: EncryptionKey, start: BigInt, cs: Seq<BigInt>) -> BigInt
    decreases cs.len(),
{
    if cs.len() == 0 {
        start
    } else {
        cipher_add_of(ek, cipher_sum(ek, start, cs.drop_last()), cs.last())
    }
}

/// The new linear share: the decryption of the sum of the ciphertexts
/// addressed to the key's party, added to `start`.
pub open spec fn refreshed_share(ms: Seq<RefreshMessage>, key: LocalKey, start: BigInt) -> Secp256k1Scalar {
    let own = key.i - 1;
    scalar_of_int(decrypt_of(key.paillier_dk, cipher_sum(key.paillier_key_vec@[own], start, own_ciphertexts(ms, own))))
}

/// An honest dealing passes the public check: when every entry is dealt
/// against a non-empty polynomial commitment, every committed point is valid.
pub proof fn lemma_dealt_shares_valid(m: RefreshMessage, keys: Seq<EncryptionKey>, shares: Seq<Secp256k1Scalar>, n: nat)
    requires
        m.coefficients_committed_vec.commitments@.len() > 0,
        shares.len() == n,
        forall|j: int| 0 <= j < n ==> dealt(m, keys, j, #[trigger] shares[j]),
    ensures
        shares_valid(m, n),
{
    assert forall|j: int| 0 <= j < n implies share_valid_of(
        m.coefficients_committed_vec.threshold,
        m.coefficients_committed_vec.share_count,
        m.coefficients_committed_vec.commitments@,
        #[trigger] m.points_committed_vec@[j],
        (j + 1) as u16,
    ) by {
        assert(dealt(m, keys, j, shares[j]));
    }
}

fn points_equal(a: &Vec<Secp256k1Point>, b: &Vec<Secp256k1Point>) -> (r: bool)
    ensures
        r == (a@ == b@),
{
    if a.len() != b.len() {
        return false;
    }
    let mut k: usize = 0;
    while k < a.len()
        invariant
            a@.len() == b@.len(),
            k <= a@.len(),
            forall|j: int| 0 <= j < k ==> a@[j] == b@[j],
        decreases a@.len() - k,
    {
        if !point_eq(&a[k], &b[k]) {
            return false;
        }
        k += 1;
    }
    assert(a@ =~= b@);
    true
}

fn bigints_equal(a: &Vec<BigInt>, b: &Vec<BigInt>) -> (r: bool)
    ensures
        r == (a@ == b@),
{
    if a.len() != b.len() {
        return false;
    }
    let mut k: usize = 0;
    while k < a.len()
        invariant
            a@.len() == b@.len(),
            k <= a@.len(),
            forall|j: int| 0 <= j < k ==> a@[j] == b@[j],
        decreases a@.len() - k,
    {
        if !bigint_eq(&a[k], &b[k]) {
            return false;
        }
        k += 1;
    }
    assert(a@ =~= b@);
    true
}

fn proofs_equal(a: &Vec<FairnessProof>, b: &Vec<FairnessProof>) -> (r: bool)
    ensures
        r == (a@ == b@),
{
    if a.len() != b.len() {
        return false;
    }
    let mut k: usize = 0;
    while k < a.len()
        invariant
            a@.len() == b@.len(),
            k <= a@.len(),
            forall|j: int| 0 <= j < k ==> a@[j] == b@[j],
        decreases a@.len() - k,
    {
        if !a[k].equals(&b[k]) {
            return false;
        }
        k += 1;
    }
    assert(a@ =~= b@);
    true
}

impl RefreshMessage {
    /// Whether the two messages agree in every part.
    pub fn equals(&self, other: &RefreshMessage) -> (r: bool)
        ensures
            r == same_message(*self, *other),
    {
        proofs_equal(&self.fairness_proof_vec, &other.fairness_proof_vec)
            && self.coefficients_committed_vec.threshold == other.coefficients_committed_vec.threshold
            && self.coefficients_committed_vec.share_count
            == other.coefficients_committed_vec.share_count
            && points_equal(
            &self.coefficients_committed_vec.commitments,
            &other.coefficients_committed_vec.commitments,
        ) && points_equal(&self.points_committed_vec, &other.points_committed_vec)
            && bigints_equal(&self.points_encrypted_vec, &other.points_encrypted_vec)
    }

    /// The checks on the structure of the received messages: at least `t + 1`
    /// of them, each with `n` entries in each sequence (the first that has not
    /// is reported), and no message twice.
    pub fn check_structure(refresh_messages: &Vec<RefreshMessage>, t: u16, n: u16) -> (r:
        FsDkrResult<()>)
        ensures
            r == structure_verdict(refresh_messages@, t, n as nat),
    {
        let ms = Ghost(refresh_messages@);
        if refresh_messages.len() <= t as usize {
            return Err(
                FsDkrError::PartiesThresholdViolation {
                    threshold: t,
                    refreshed_keys: refresh_messages.len(),
                },
            );
        }
        let reference_len = n as usize;
        let mut k: usize = 0;
        while k < refresh_messages.len()
            invariant
                ms@ == refresh_messages@,
                reference_len == n,
                ms@.len() > t,
                k <= ms@.len(),
                forall|j: int| 0 <= j < k ==> shape_ok(#[trigger] ms@[j], n as nat),
            decreases ms@.len() - k,
        {
            let fairness_proof_len = refresh_messages[k].fairness_proof_vec.len();
            let points_commited_len = refresh_messages[k].points_committed_vec.len();
            let points_encrypted_len = refresh_messages[k].points_encrypted_vec.len();
            if !(fairness_proof_len == reference_len && points_commited_len == reference_len
                && points_encrypted_len == reference_len) {
                proof {
                    assert(!shape_ok(ms@[k as int], n as nat));
                    assert(first_bad_shape(ms@, n as nat, k as int));
                    lemma_first_bad_shape_unique(ms@, n as nat, k as int);
                }
                return Err(
                    FsDkrError::SizeMismatchError {
                        refresh_message_index: k,
                        fairness_proof_len,
                        points_commited_len,
                        points_encrypted_len,
                    },
                );
            }
            k += 1;
        }
        assert(!exists|k: int| 0 <= k < ms@.len() && !shape_ok(#[trigger] ms@[k], n as nat));
        let mut b: usize = 1;
        while b < refresh_messages.len()
            invariant
                ms@ == refresh_messages@,
                ms@.len() > t,
                forall|j: int| 0 <= j < ms@.len() ==> shape_ok(#[trigger] ms@[j], n as nat),
                1 <= b <= ms@.len(),
                forall|x: int, y: int|
                    0 <= x < y < b ==> !same_message(#[trigger] ms@[x], #[trigger] ms@[y]),
            decreases ms@.len() - b,
        {
            let mut a: usize = 0;
            while a < b
                invariant
                    ms@ == refresh_messages@,
                    ms@.len() > t,
                    forall|j: int| 0 <= j < ms@.len() ==> shape_ok(#[trigger] ms@[j], n as nat),
                    a <= b < ms@.len(),
                    forall|x: int, y: int|
                        0 <= x < y < b ==> !same_message(#[trigger] ms@[x], #[trigger] ms@[y]),
                    forall|x: int| 0 <= x < a ==> !same_message(#[trigger] ms@[x], ms@[b as int]),
                decreases b - a,
            {
                if refresh_messages[a].equals(&refresh_messages[b]) {
                    assert(same_message(ms@[a as int], ms@[b as int]));
                    assert(has_duplicate(ms@));
                    return Err(FsDkrError::DuplicatedRefreshMessage);
                }
                a += 1;
            }
            b += 1;
        }
        assert(!has_duplicate(ms@));
        Ok(())
    }

    /// Deals a fresh sharing of this party's additive secret: its linear
    /// share weighted by its Lagrange coefficient among all `n` parties. For
    /// each party the message holds the commitment to its share, the share
    /// encrypted under the party's Paillier key, and a fairness proof that
    /// the two agree.
    pub fn distribute(old_key: &LocalKey) -> (r: RefreshMessage)
        requires
            old_key.dealer_wf(),
        ensures
            shape_ok(r, old_key.n as nat),
            r.coefficients_committed_vec.threshold == old_key.t,
            r.coefficients_committed_vec.share_count == old_key.n,
            r.coefficients_committed_vec.commitments@.len() == old_key.t + 1,
            r.coefficients_committed_vec.commitments@[0] == gen_mul_of(
                scalar_mul_of(lagrange_of(old_key.t, old_key.n, (old_key.i - 1) as u16, positions_upto(old_key.n)), old_key.x_i),
            ),
            exists|shares: Seq<Secp256k1Scalar>|
                shares.len() == old_key.n && forall|j: int|
                    0 <= j < old_key.n ==> dealt(r, old_key.paillier_key_vec@, j, #[trigger] shares[j]),
            shares_valid(r, old_key.n as nat),
    {
        let n = old_key.n;
        let mut positions: Vec<u16> = Vec::new();
        let mut p: u16 = 0;
        while p < n
            invariant
                p <= n,
                positions@.len() == p,
                forall|j: int| 0 <= j < p ==> positions@[j] == j,
            decreases n - p,
        {
            positions.push(p);
            p += 1;
        }
        assert(positions@ =~= positions_upto(n));
        assert(positions@[old_key.i - 1] == old_key.i - 1);
        let li = vss_lagrange_coefficient(old_key.t, n, old_key.i - 1, &positions);
        let secret = scalar_mul(&li, &old_key.x_i);
        let (commitments, secret_shares) = vss_share(old_key.t, n, &secret);

        let mut fairness_proof_vec: Vec<FairnessProof> = Vec::new();
        let mut points_committed_vec: Vec<Secp256k1Point> = Vec::new();
        let mut points_encrypted_vec: Vec<BigInt> = Vec::new();
        let mut j: usize = 0;
        while j < n as usize
            invariant
                old_key.dealer_wf(),
                n == old_key.n,
                secret_shares@.len() == n,
                commitments@.len() == old_key.t + 1,
                forall|x: int|
                    0 <= x < n ==> share_valid_of(old_key.t, n, commitments@, gen_mul_of(#[trigger] secret_shares@[x]), (x + 1) as u16),
                j <= n,
                fairness_proof_vec@.len() == j,
                points_committed_vec@.len() == j,
                points_encrypted_vec@.len() == j,
                forall|x: int|
                    0 <= x < j ==> dealt_parts(
                        fairness_proof_vec@[x],
                        points_committed_vec@[x],
                        points_encrypted_vec@[x],
                        commitments@,
                        old_key.t,
                        n,
                        old_key.paillier_key_vec@[x],
                        x,
                        #[trigger] secret_shares@[x],
                    ),
            decreases n - j,
        {
            let ek = &old_key.paillier_key_vec[j];
            assert(ek_valid(*ek));
            let point = generator_times(&secret_shares[j]);
            let randomness = sample_below(&ek.n);
            let mut plaintext = scalar_to_bigint(&secret_shares[j]);
            let ciphertext = paillier_encrypt_with_randomness(ek, &plaintext, &randomness);
            erase_bigint(&mut plaintext);
            let ghost rand = randomness;
            let mut witness = FairnessWitness { x: secret_shares[j].clone(), r: randomness };
            let statement = FairnessStatement { ek: ek.clone(), c: ciphertext.clone(), Y: point.clone() };
            let proof = FairnessProof::prove(&witness, &statement);
            erase_bigint(&mut witness.r);
            assert(dealt_parts(proof, point, ciphertext, commitments@, old_key.t, n, *ek, j as int, secret_shares@[j as int])) by {
                assert(ciphertext == enc_of(*ek, scalar_int_of(secret_shares@[j as int]), rand));
                assert(statement == FairnessStatement { ek: *ek, c: ciphertext, Y: point });
            }
            fairness_proof_vec.push(proof);
            points_committed_vec.push(point);
            points_encrypted_vec.push(ciphertext);
            j += 1;
        }
        let r = RefreshMessage {
            fairness_proof_vec,
            coefficients_committed_vec: VssCommitment { threshold: old_key.t, share_count: n, commitments },
            points_committed_vec,
            points_encrypted_vec,
        };
        assert forall|x: int| 0 <= x < n implies dealt(r, old_key.paillier_key_vec@, x, #[trigger] secret_shares@[x]) by {
            assert(dealt_parts(
                r.fairness_proof_vec@[x],
                r.points_committed_vec@[x],
                r.points_encrypted_vec@[x],
                r.coefficients_committed_vec.commitments@,
                old_key.t,
                n,
                old_key.paillier_key_vec@[x],
                x,
                secret_shares@[x],
            ));
        }
        proof {
            lemma_dealt_shares_valid(r, old_key.paillier_key_vec@, secret_shares@, n as nat);
        }
        r
    }

    /// Adds up homomorphically, starting from `start`, the ciphertexts that
    /// the messages address to position `own`, and decrypts the sum into the
    /// scalar field.
    pub fn aggregate(
        refresh_messages: &Vec<RefreshMessage>,
        own: usize,
        ek: &EncryptionKey,
        dk: &DecryptionKey,
        start: BigInt,
    ) -> (x: Secp256k1Scalar)
        requires
            forall|k: int| 0 <= k < refresh_messages@.len() ==> own < (#[trigger] refresh_messages@[k]).points_encrypted_vec@.len(),
            ek_valid(*ek),
            sign_of(dk.p) > 0,
            sign_of(dk.q) > 0,
            prime_of(dk.p),
            prime_of(dk.q),
            dk.p != dk.q,
        ensures
            x == scalar_of_int(decrypt_of(*dk, cipher_sum(*ek, start, own_ciphertexts(refresh_messages@, own as int)))),
    {
        let ghost cs = own_ciphertexts(refresh_messages@, own as int);
        let mut sum = start;
        let mut k: usize = 0;
        while k < refresh_messages.len()
            invariant
                cs == own_ciphertexts(refresh_messages@, own as int),
                forall|k: int| 0 <= k < refresh_messages@.len() ==> own < (#[trigger] refresh_messages@[k]).points_encrypted_vec@.len(),
                ek_valid(*ek),
                k <= refresh_messages@.len(),
                sum == cipher_sum(*ek, start, cs.take(k as int)),
            decreases refresh_messages@.len() - k,
        {
            let ghost before = sum;
            sum = paillier_add(ek, &sum, &refresh_messages[k].points_encrypted_vec[own]);
            assert(cs.take(k + 1).drop_last() =~= cs.take(k as int));
            k += 1;
        }
        assert(cs.take(k as int) =~= cs);
        let mut new_share = paillier_decrypt(dk, &sum);
        let x = scalar_from_bigint(&new_share);
        erase_bigint(&mut new_share);
        x
    }

    /// Checks every received message and derives this party's new share. The
    /// checks run in order and the first failure is returned: the structure of
    /// the set (`check_structure`), every committed point against its dealer's
    /// polynomial commitment (a message with an empty polynomial commitment
    /// fails here), and every fairness proof. On success the new linear share
    /// is the decryption of the sum of the ciphertexts addressed to this party,
    /// added to a fresh encryption of zero; the rest of the key is kept.
    pub fn collect(refresh_messages: &Vec<RefreshMessage>, old_key: LocalKey) -> (r: FsDkrResult<LocalKey>)
        requires
            old_key.wf(),
        ensures
            collect_verdict(refresh_messages@, old_key) is Err ==> r == Err::<LocalKey, FsDkrError>(
                collect_verdict(refresh_messages@, old_key)->Err_0,
            ),
            collect_verdict(refresh_messages@, old_key) is Ok ==> r is Ok,
            r is Ok ==> {
                let k = r->Ok_0;
                &&& k.i == old_key.i
                &&& k.t == old_key.t
                &&& k.n == old_key.n
                &&& k.paillier_key_vec == old_key.paillier_key_vec
                &&& k.paillier_dk == old_key.paillier_dk
                &&& k.y == gen_mul_of(k.x_i)
                &&& exists|r: BigInt|
                    k.x_i == refreshed_share(
                        refresh_messages@,
                        old_key,
                        #[trigger] enc_of(old_key.paillier_key_vec@[old_key.i - 1], int_of_u64(0), r),
                    )
            },
    {
        let ms = Ghost(refresh_messages@);
        let n = old_key.n;
        match Self::check_structure(refresh_messages, old_key.t, n) {
            Err(e) => {
                return Err(e);
            },
            Ok(()) => {},
        }
        assert(!(exists|k: int| 0 <= k < ms@.len() && !shape_ok(#[trigger] ms@[k], n as nat)));

        // every committed point lies on its dealer's committed polynomial
        let mut k: usize = 0;
        while k < refresh_messages.len()
            invariant
                ms@ == refresh_messages@,
                structure_verdict(ms@, old_key.t, n as nat) is Ok,
                forall|x: int| 0 <= x < ms@.len() ==> shape_ok(#[trigger] ms@[x], n as nat),
                forall|x: int| 0 <= x < k ==> shares_valid(#[trigger] ms@[x], n as nat),
                n == old_key.n,
                k <= ms@.len(),
            decreases ms@.len() - k,
        {
            let message = &refresh_messages[k];
            assert(shape_ok(ms@[k as int], n as nat));
            let vss = &message.coefficients_committed_vec;
            assert(*message == ms@[k as int]);
            if vss.commitments.len() == 0 {
                assert(!shares_valid(ms@[k as int], n as nat));
                return Err(FsDkrError::PublicShareValidationError);
            }
            let mut j: usize = 0;
            while j < n as usize
                invariant
                    shape_ok(*message, n as nat),
                    ms@ == refresh_messages@,
                    k < ms@.len(),
                    *message == ms@[k as int],
                    structure_verdict(ms@, old_key.t, n as nat) is Ok,
                    n == old_key.n,
                    vss == message.coefficients_committed_vec,
                    vss.commitments@.len() > 0,
                    forall|x: int|
                        0 <= x < j ==> share_valid_of(
                            vss.threshold,
                            vss.share_count,
                            vss.commitments@,
                            #[trigger] message.points_committed_vec@[x],
                            (x + 1) as u16,
                        ),
                    j <= n,
                decreases n - j,
            {
                if !vss_validate_share_public(
                    vss.threshold,
                    vss.share_count,
                    &vss.commitments,
                    &message.points_committed_vec[j],
                    (j + 1) as u16,
                ) {
                    assert(!shares_valid(ms@[k as int], n as nat));
                    return Err(FsDkrError::PublicShareValidationError);
                }
                j += 1;
            }
            assert(shares_valid(ms@[k as int], n as nat));
            k += 1;
        }

        // every encrypted share agrees with its commitment
        let mut k: usize = 0;
        while k < refresh_messages.len()
            invariant
                ms@ == refresh_messages@,
                structure_verdict(ms@, old_key.t, n as nat) is Ok,
                forall|x: int| 0 <= x < ms@.len() ==> shape_ok(#[trigger] ms@[x], n as nat),
                forall|x: int| 0 <= x < ms@.len() ==> shares_valid(#[trigger] ms@[x], n as nat),
                forall|x: int| 0 <= x < k ==> proofs_valid(#[trigger] ms@[x], old_key.paillier_key_vec@, n as nat),
                old_key.wf(),
                n == old_key.n,
                k <= ms@.len(),
            decreases ms@.len() - k,
        {
            let message = &refresh_messages[k];
            assert(shape_ok(ms@[k as int], n as nat));
            let mut j: usize = 0;
            while j < n as usize
                invariant
                    shape_ok(*message, n as nat),
                    ms@ == refresh_messages@,
                    k < ms@.len(),
                    *message == ms@[k as int],
                    structure_verdict(ms@, old_key.t, n as nat) is Ok,
                    forall|x: int| 0 <= x < ms@.len() ==> shares_valid(#[trigger] ms@[x], n as nat),
                    old_key.wf(),
                    n == old_key.n,
                    forall|x: int|
                        0 <= x < j ==> (#[trigger] verdict_of(
                            message.fairness_proof_vec@[x],
                            statement_of(old_key.paillier_key_vec@[x], *message, x),
                        )) is Ok,
                    j <= n,
                decreases n - j,
            {
                let statement = FairnessStatement {
                    ek: old_key.paillier_key_vec[j].clone(),
                    c: message.points_encrypted_vec[j].clone(),
                    Y: message.points_committed_vec[j].clone(),
                };
                assert(statement == statement_of(old_key.paillier_key_vec@[j as int], *message, j as int));
                if message.fairness_proof_vec[j].verify(&statement).is_err() {
                    assert(!proofs_valid(ms@[k as int], old_key.paillier_key_vec@, n as nat));
                    return Err(FsDkrError::FairnessProof);
                }
                j += 1;
            }
            assert(proofs_valid(ms@[k as int], old_key.paillier_key_vec@, n as nat));
            k += 1;
        }

        // add up homomorphically the shares addressed to this party
        let own = (old_key.i - 1) as usize;
        let ek = &old_key.paillier_key_vec[own];
        let zero = bigint_from_u64(0);
        let start = paillier_encrypt(ek, &zero);
        let ghost start_value = start;
        let ghost r = choose|r: BigInt| start_value == enc_of(*ek, int_of_u64(0), r);
        let new_share_fe = Self::aggregate(refresh_messages, own, ek, &old_key.paillier_dk, start);
        let y = generator_times(&new_share_fe);
        let mut new_key = old_key;
        new_key.x_i = new_share_fe;
        new_key.y = y;
        assert(new_key.x_i == refreshed_share(
            refresh_messages@,
            old_key,
            enc_of(old_key.paillier_key_vec@[old_key.i - 1], int_of_u64(0), r),
        ));
        Ok(new_key)
    }
}

} // verus!
