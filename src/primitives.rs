//! The outside types this library works with, and the calls it makes into
//! curv, paillier and zk-paillier. Each function here is trusted: Verus takes
//! its contract as given.
use vstd::prelude::*;

use curv::arithmetic::traits::{Converter, Modulo, Primes, Samplable, Zero};
use curv::cryptographic_primitives::secret_sharing::feldman_vss::{
    ShamirSecretSharing, VerifiableSS,
};
use curv::elliptic::curves::secp256_k1::{Secp256k1Point, Secp256k1Scalar};
use curv::elliptic::curves::{ECPoint, ECScalar, Point, Scalar, Secp256k1};
use curv::BigInt;
use kzen_paillier::{
    Add, Decrypt, DecryptionKey, Encrypt, EncryptWithChosenRandomness, EncryptionKey, Paillier,
    Randomness, RawCiphertext, RawPlaintext,
};
use zeroize::Zeroize;

verus! {

#[verifier::external_type_specification]
#[verifier::external_body]
pub struct ExBigInt(BigInt);

#[verifier::external_type_specification]
#[verifier::external_body]
pub struct ExPoint(Secp256k1Point);

#[verifier::external_type_specification]
#[verifier::external_body]
pub struct ExScalar(Secp256k1Scalar);

/// A Paillier decryption key: its two primes `p` and `q`.
#[verifier::external_type_specification]
pub struct ExDecryptionKey(DecryptionKey);

/// A Paillier public key: its modulus `n` and `n * n`.
#[verifier::external_type_specification]
pub struct ExEncryptionKey(EncryptionKey);

/// Relies on `Clone` of `BigInt`: the copy is the same integer.
pub assume_specification[ <BigInt as Clone>::clone ](b: &BigInt) -> (r: BigInt)
    ensures
        r == *b,
;

/// Relies on the derived `Clone` of `EncryptionKey`: the copy has the same moduli.
pub assume_specification[ <EncryptionKey as Clone>::clone ](k: &EncryptionKey) -> (r: EncryptionKey)
    ensures
        r == *k,
;

/// Relies on the derived `Clone` of `Secp256k1Point`: the copy is the same point.
pub assume_specification[ <Secp256k1Point as Clone>::clone ](p: &Secp256k1Point) -> (r: Secp256k1Point)
    ensures
        r == *p,
;

/// Relies on the derived `Clone` of `Secp256k1Scalar`: the copy is the same scalar.
pub assume_specification[ <Secp256k1Scalar as Clone>::clone ](s: &Secp256k1Scalar) -> (r: Secp256k1Scalar)
    ensures
        r == *s,
;

/// The sign of an integer: -1, 0 or 1.
pub uninterp spec fn sign_of(b: BigInt) -> int;

/// Whether an integer passes the probable-prime test.
pub uninterp spec fn prime_of(b: BigInt) -> bool;

pub uninterp spec fn int_of_u64(v: u64) -> BigInt;

pub uninterp spec fn int_add_of(a: BigInt, b: BigInt) -> BigInt;

pub uninterp spec fn int_mul_of(a: BigInt, b: BigInt) -> BigInt;

pub uninterp spec fn mod_pow_of(base: BigInt, exponent: BigInt, m: BigInt) -> BigInt;

pub uninterp spec fn mod_mul_of(a: BigInt, b: BigInt, m: BigInt) -> BigInt;

pub uninterp spec fn digest_of(values: Seq<BigInt>) -> BigInt;

pub uninterp spec fn gen_mul_of(s: Secp256k1Scalar) -> Secp256k1Point;

pub uninterp spec fn point_mul_of(p: Secp256k1Point, s: Secp256k1Scalar) -> Secp256k1Point;

pub uninterp spec fn point_add_of(a: Secp256k1Point, b: Secp256k1Point) -> Secp256k1Point;

pub uninterp spec fn point_int_of(p: Secp256k1Point) -> BigInt;

pub uninterp spec fn scalar_mul_of(a: Secp256k1Scalar, b: Secp256k1Scalar) -> Secp256k1Scalar;

pub uninterp spec fn scalar_int_of(s: Secp256k1Scalar) -> BigInt;

pub uninterp spec fn scalar_of_int(b: BigInt) -> Secp256k1Scalar;

/// The Paillier ciphertext of `m` under `ek` with randomness `r`.
pub uninterp spec fn enc_of(ek: EncryptionKey, m: BigInt, r: BigInt) -> BigInt;

/// The homomorphic sum of two Paillier ciphertexts under `ek`.
pub uninterp spec fn cipher_add_of(ek: EncryptionKey, a: BigInt, b: BigInt) -> BigInt;

pub uninterp spec fn decrypt_of(dk: DecryptionKey, c: BigInt) -> BigInt;

/// Whether `point` is the commitment that the polynomial commitment
/// `commitments` implies for position `index`.
pub uninterp spec fn share_valid_of(
    threshold: u16,
    share_count: u16,
    commitments: Seq<Secp256k1Point>,
    point: Secp256k1Point,
    index: u16,
) -> bool;

pub uninterp spec fn lagrange_of(t: u16, n: u16, index: u16, s: Seq<u16>) -> Secp256k1Scalar;

/// A Paillier public key that encryption and addition accept: both moduli positive.
pub open spec fn ek_valid(ek: EncryptionKey) -> bool {
    sign_of(ek.n) > 0 && sign_of(ek.nn) > 0
}

/// Relies on `Ord` of `BigInt`: the sign of `b`.
#[verifier::external_body]
pub(crate) fn bigint_sign(b: &BigInt) -> (r: i8)
    ensures
        r == sign_of(*b),
        -1 <= r <= 1,
{
    b.cmp(&BigInt::zero()) as i8
}

/// Relies on `Primes::is_probable_prime` with 64 rounds.
#[verifier::external_body]
pub(crate) fn bigint_is_prime(b: &BigInt) -> (r: bool)
    ensures
        r == prime_of(*b),
{
    b.is_probable_prime(64)
}

/// Relies on `From<u64>` of `BigInt`.
#[verifier::external_body]
pub(crate) fn bigint_from_u64(v: u64) -> (r: BigInt)
    ensures
        r == int_of_u64(v),
{
    BigInt::from(v)
}

/// Relies on `VerifiableSS::share`: a Feldman sharing of `secret` with threshold
/// `t` (it asserts `t < n`): the commitments `g * a_l` to the `t + 1`
/// coefficients of a random polynomial `f` with `f(0) = secret`, and the shares
/// `f(1), ..., f(n)`, each of which passes the public check at its position.
#[verifier::external_body]
pub(crate) fn vss_share(t: u16, n: u16, secret: &Secp256k1Scalar) -> (r: (
    Vec<Secp256k1Point>,
    Vec<Secp256k1Scalar>,
))
    requires
        t < n,
    ensures
        r.0@.len() == t + 1,
        r.0@[0] == gen_mul_of(*secret),
        r.1@.len() == n,
        forall|j: int|
            0 <= j < n ==> share_valid_of(t, n, r.0@, gen_mul_of(#[trigger] r.1@[j]), (j + 1) as u16),
{
    let (vss, shares) = VerifiableSS::<Secp256k1>::share(t, n, &Scalar::from_raw(secret.clone()));
    let commitments = vss.commitments.iter().map(|c| c.as_raw().clone()).collect();
    (commitments, shares.iter().map(|s| s.as_raw().clone()).collect())
}

/// Relies on `VerifiableSS::validate_share_public`: whether `point` is the
/// commitment that the polynomial commitment implies for position `index`.
/// It panics on an empty commitment; a point of the wrong order is no valid share.
#[verifier::external_body]
pub(crate) fn vss_validate_share_public(
    threshold: u16,
    share_count: u16,
    commitments: &Vec<Secp256k1Point>,
    point: &Secp256k1Point,
    index: u16,
) -> (r: bool)
    requires
        commitments@.len() > 0,
    ensures
        r == share_valid_of(threshold, share_count, commitments@, *point, index),
{
    let commitments = match commitments.iter().map(|c| Point::from_raw(c.clone())).collect() {
        Ok(c) => c,
        Err(_) => return false,
    };
    let point = match Point::<Secp256k1>::from_raw(point.clone()) {
        Ok(p) => p,
        Err(_) => return false,
    };
    let vss = VerifiableSS::<Secp256k1> { parameters: ShamirSecretSharing { threshold, share_count }, commitments };
    vss.validate_share_public(&point, index).is_ok()
}

/// Relies on `VerifiableSS::map_share_to_new_params`: the Lagrange coefficient
/// at zero of position `index` among the positions `s`; it panics when `index`
/// is not among them, when two positions repeat, or when `position + 1`
/// overflows.
#[verifier::external_body]
pub(crate) fn vss_lagrange_coefficient(t: u16, n: u16, index: u16, s: &Vec<u16>) -> (r: Secp256k1Scalar)
    requires
        s@.contains(index),
        forall|a: int, b: int| 0 <= a < b < s@.len() ==> s@[a] != s@[b],
        forall|a: int| 0 <= a < s@.len() ==> s@[a] < u16::MAX,
    ensures
        r == lagrange_of(t, n, index, s@),
{
    let params = ShamirSecretSharing { threshold: t, share_count: n };
    VerifiableSS::<Secp256k1>::map_share_to_new_params(&params, index, s).into_raw()
}

/// Relies on `PartialEq` of `Secp256k1Point`: the two points are the same group
/// element. Points are taken as equal values when they are the same element; the
/// debugging label the type carries plays no part.
#[verifier::external_body]
pub(crate) fn point_eq(a: &Secp256k1Point, b: &Secp256k1Point) -> (r: bool)
    ensures
        r == (*a == *b),
{
    a == b
}

/// Relies on `PartialEq` of `BigInt`: the two integers are equal.
#[verifier::external_body]
pub(crate) fn bigint_eq(a: &BigInt, b: &BigInt) -> (r: bool)
    ensures
        r == (*a == *b),
{
    a == b
}

/// Relies on `ECPoint::generator_mul`: the generator times `s`.
#[verifier::external_body]
pub(crate) fn generator_times(s: &Secp256k1Scalar) -> (r: Secp256k1Point)
    ensures
        r == gen_mul_of(*s),
{
    Secp256k1Point::generator_mul(s)
}

/// Relies on `ECPoint::scalar_mul`: `p` times `s`.
#[verifier::external_body]
pub(crate) fn point_times(p: &Secp256k1Point, s: &Secp256k1Scalar) -> (r: Secp256k1Point)
    ensures
        r == point_mul_of(*p, *s),
{
    p.scalar_mul(s)
}

/// Relies on `ECPoint::add_point`: the sum of the two points.
#[verifier::external_body]
pub(crate) fn point_add(a: &Secp256k1Point, b: &Secp256k1Point) -> (r: Secp256k1Point)
    ensures
        r == point_add_of(*a, *b),
{
    a.add_point(b)
}

/// Relies on `ECPoint::serialize_compressed` and `Converter::from_bytes`: the
/// compressed encoding of `p`, read as an integer.
#[verifier::external_body]
pub(crate) fn point_to_bigint(p: &Secp256k1Point) -> (r: BigInt)
    ensures
        r == point_int_of(*p),
{
    BigInt::from_bytes(&p.serialize_compressed())
}

/// Relies on `ECScalar::mul`: the product in the scalar field.
#[verifier::external_body]
pub(crate) fn scalar_mul(a: &Secp256k1Scalar, b: &Secp256k1Scalar) -> (r: Secp256k1Scalar)
    ensures
        r == scalar_mul_of(*a, *b),
{
    a.mul(b)
}

/// Relies on `ECScalar::to_bigint`: the scalar as an integer, not negative.
#[verifier::external_body]
pub(crate) fn scalar_to_bigint(s: &Secp256k1Scalar) -> (r: BigInt)
    ensures
        r == scalar_int_of(*s),
{
    s.to_bigint()
}

/// Relies on `ECScalar::from_bigint`: the integer reduced into the scalar field.
#[verifier::external_body]
pub(crate) fn scalar_from_bigint(b: &BigInt) -> (r: Secp256k1Scalar)
    ensures
        r == scalar_of_int(*b),
{
    Secp256k1Scalar::from_bigint(b)
}

/// Relies on `Samplable::sample_below`: a random integer in `[0, upper)`; it
/// asserts that `upper` is positive.
#[verifier::external_body]
pub(crate) fn sample_below(upper: &BigInt) -> (r: BigInt)
    requires
        sign_of(*upper) > 0,
{
    BigInt::sample_below(upper)
}

/// Relies on `Add` of `BigInt`.
#[verifier::external_body]
pub(crate) fn bigint_add(a: &BigInt, b: &BigInt) -> (r: BigInt)
    ensures
        r == int_add_of(*a, *b),
{
    a + b
}

/// Relies on `Mul` of `BigInt`.
#[verifier::external_body]
pub(crate) fn bigint_mul(a: &BigInt, b: &BigInt) -> (r: BigInt)
    ensures
        r == int_mul_of(*a, *b),
{
    a * b
}

/// Relies on `Modulo::mod_pow`: `base` to the power `exponent`, modulo `m`; it
/// asserts a non-negative exponent, and GMP divides by `m`.
#[verifier::external_body]
pub(crate) fn mod_pow(base: &BigInt, exponent: &BigInt, m: &BigInt) -> (r: BigInt)
    requires
        sign_of(*exponent) >= 0,
        sign_of(*m) != 0,
    ensures
        r == mod_pow_of(*base, *exponent, *m),
{
    BigInt::mod_pow(base, exponent, m)
}

/// Relies on `Modulo::mod_mul`: `a * b` modulo `m`, which must not be zero.
#[verifier::external_body]
pub(crate) fn mod_mul(a: &BigInt, b: &BigInt, m: &BigInt) -> (r: BigInt)
    requires
        sign_of(*m) != 0,
    ensures
        r == mod_mul_of(*a, *b, *m),
{
    BigInt::mod_mul(a, b, m)
}

/// Relies on `zk_paillier::zkproofs::compute_digest`: the SHA-256 digest of
/// the integers in order, read as an unsigned integer.
#[verifier::external_body]
pub(crate) fn digest(values: &Vec<BigInt>) -> (r: BigInt)
    ensures
        r == digest_of(values@),
        sign_of(r) >= 0,
{
    zk_paillier::zkproofs::compute_digest(values.iter())
}

/// Relies on `Paillier::encrypt_with_chosen_randomness`: the ciphertext of
/// `m` under `ek` with randomness `r`; it raises to the power `n` and reduces
/// modulo `nn`.
#[verifier::external_body]
pub(crate) fn paillier_encrypt_with_randomness(ek: &EncryptionKey, m: &BigInt, r: &BigInt) -> (c: BigInt)
    requires
        ek_valid(*ek),
    ensures
        c == enc_of(*ek, *m, *r),
{
    Paillier::encrypt_with_chosen_randomness(ek, RawPlaintext::from(m), &Randomness::from(r)).0.into_owned()
}

/// Relies on `Paillier::encrypt`: it samples randomness below `n` and computes
/// the same formula as `encrypt_with_chosen_randomness`.
#[verifier::external_body]
pub(crate) fn paillier_encrypt(ek: &EncryptionKey, m: &BigInt) -> (c: BigInt)
    requires
        ek_valid(*ek),
    ensures
        exists|r: BigInt| c == enc_of(*ek, *m, r),
{
    let c: RawCiphertext = Paillier::encrypt(ek, RawPlaintext::from(m));
    c.0.into_owned()
}

/// Relies on `Paillier::add`: a ciphertext of the sum of the two plaintexts,
/// reduced modulo `nn`.
#[verifier::external_body]
pub(crate) fn paillier_add(ek: &EncryptionKey, a: &BigInt, b: &BigInt) -> (c: BigInt)
    requires
        ek_valid(*ek),
    ensures
        c == cipher_add_of(*ek, *a, *b),
{
    let c: RawCiphertext = Paillier::add(ek, RawCiphertext::from(a), RawCiphertext::from(b));
    c.0.into_owned()
}

/// Relies on `Paillier::decrypt`: the plaintext of `c` under `dk`. It inverts
/// `p` modulo `q` and `L(g^(p-1))` modulo `p` (and modulo `q`), which succeeds
/// when `p` and `q` are distinct positive primes (the exponents `p - 1` and
/// `q - 1` must not be negative).
#[verifier::external_body]
pub(crate) fn paillier_decrypt(dk: &DecryptionKey, c: &BigInt) -> (m: BigInt)
    requires
        sign_of(dk.p) > 0,
        sign_of(dk.q) > 0,
        prime_of(dk.p),
        prime_of(dk.q),
        dk.p != dk.q,
    ensures
        m == decrypt_of(*dk, *c),
{
    let m: RawPlaintext = Paillier::decrypt(dk, RawCiphertext::from(c));
    m.0.into_owned()
}

/// Relies on `Zeroize` of `BigInt`: overwrites the integer's memory.
#[verifier::external_body]
pub(crate) fn erase_bigint(b: &mut BigInt) {
    b.zeroize()
}

} // verus!
