//! Schnorr signing and verification over the secp256k1 group.
//!
//! A signature on a message `m` under a private scalar `x` is a pair
//! `(s, e)`: the signer draws a fresh random nonce `k`, commits to it as
//! `R = generator * k`, derives the Fiat–Shamir challenge `e` by hashing
//! the encoding of `R` followed by `m`, and answers with `s = k - x*e`
//! modulo the group order.  The verifier recomputes the commitment as
//! `generator*s + p*e` and accepts exactly when hashing it again returns
//! the challenge it was given.

use vstd::prelude::*;
use vstd::arithmetic::div_mod::lemma_add_mod_noop;
use vstd::arithmetic::div_mod::lemma_mod_bound;
use vstd::arithmetic::div_mod::lemma_mod_multiples_vanish;
use vstd::arithmetic::div_mod::lemma_small_mod;
use curv::elliptic::curves::secp256_k1::Secp256k1Point;
use curv::elliptic::curves::secp256_k1::Secp256k1Scalar;
use crate::group::add_mod;
use crate::group::be_bytes_to_nat;
use crate::group::dlog_of;
use crate::group::generator_mul;
use crate::group::group_order;
use crate::group::mul_mod;
use crate::group::point_add;
use crate::group::point_encoding_of;
use crate::group::point_mul;
use crate::group::point_to_bytes;
use crate::group::scalar_eq;
use crate::group::scalar_from_bytes;
use crate::group::scalar_mul;
use crate::group::scalar_of;
use crate::group::scalar_random;
use crate::group::scalar_sub;
use crate::group::sub_mod;
use crate::hash::hash_func;
use crate::hash::sha256_of;

verus! {

/// The Fiat–Shamir challenge for the commitment `generator * d` and the
/// message `m`: the digest of the commitment's encoding followed by the
/// raw message, read big-endian and reduced modulo the group order.
pub open spec fn challenge_of(d: nat, m: Seq<u8>) -> nat {
    be_bytes_to_nat(sha256_of(point_encoding_of(d) + m)) % group_order()
}

/// What verification means: the pair `(s, e)` passes for the public key
/// `generator * p` and the message `m` exactly when the challenge
/// recomputed from the candidate commitment `generator*s + (generator*p)*e`
/// equals `e`.
pub open spec fn schnorr_verifies(p: nat, m: Seq<u8>, s: nat, e: nat) -> bool {
    challenge_of(add_mod(s, mul_mod(p, e)), m) == e
}

/// The concatenation `a ++ b`, built once here so that the signer and the
/// verifier form their hash input the same way.
fn concat_bytes(a: &[u8], b: &[u8]) -> (r: Vec<u8>)
    ensures
        r@ == a@ + b@,
{
    let mut r: Vec<u8> = Vec::new();
    let mut i: usize = 0;
    while i < a.len()
        invariant
            i <= a.len(),
            r@ == a@.subrange(0, i as int),
        decreases a.len() - i,
    {
        r.push(a[i]);
        proof {
            assert(r@ =~= a@.subrange(0, i + 1));
        }
        i = i + 1;
    }
    proof {
        assert(r@ =~= a@ + b@.subrange(0, 0));
    }
    let mut j: usize = 0;
    while j < b.len()
        invariant
            j <= b.len(),
            r@ == a@ + b@.subrange(0, j as int),
        decreases b.len() - j,
    {
        r.push(b[j]);
        proof {
            assert(r@ =~= a@ + b@.subrange(0, j + 1));
        }
        j = j + 1;
    }
    proof {
        assert(r@ =~= a@ + b@);
    }
    r
}

/// The challenge hasher: maps an arbitrary byte string to a scalar by
/// taking its SHA-256 digest, reading the digest big-endian, and reducing
/// modulo the group order.  Deterministic and total.
pub fn hash_to_scalar(input: &[u8]) -> (r: Secp256k1Scalar)
    ensures
        scalar_of(r) == be_bytes_to_nat(sha256_of(input@)) % group_order(),
{
    let digest = hash_func(input);
    scalar_from_bytes(digest.as_slice())
}

/// Signs `m` under the private scalar `x`.  The nonce `k` is drawn fresh
/// from the secure random source on every call, so the pair returned is
/// not a function of `x` and `m`: the contract states what holds of every
/// outcome — the signature has the shape `(k - x*e mod n, challenge(k, m))`
/// for some nonzero nonce `k`, and it passes verification under the
/// matching public key `generator * x`.
pub fn sign_schnorr(x: &Secp256k1Scalar, m: &[u8]) -> (sig: (
    Secp256k1Scalar,
    Secp256k1Scalar,
))
    ensures
        exists|k: nat|
            0 < k < group_order() && scalar_of(sig.1) == #[trigger] challenge_of(k, m@)
                && scalar_of(sig.0) == sub_mod(k, mul_mod(scalar_of(*x), scalar_of(sig.1))),
        schnorr_verifies(scalar_of(*x), m@, scalar_of(sig.0), scalar_of(sig.1)),
{
    let k = scalar_random();
    let r = generator_mul(&k);
    let r_bytes = point_to_bytes(&r);
    let input = concat_bytes(r_bytes.as_slice(), m);
    let e = hash_to_scalar(input.as_slice());
    let xe = scalar_mul(x, &e);
    let s = scalar_sub(&k, &xe);
    proof {
        assert(scalar_of(e) == challenge_of(scalar_of(k), m@));
        lemma_round_trip(scalar_of(*x), scalar_of(k), m@);
    }
    (s, e)
}

/// Verifies the pair `(s, e)` on `m` under the public point `p`.  Pure and
/// total: the result is exactly `schnorr_verifies` of the models, a forged
/// or corrupted signature simply yields `false`.
pub fn verify_schnorr(
    p: &Secp256k1Point,
    m: &[u8],
    s: &(Secp256k1Scalar, Secp256k1Scalar),
) -> (r: bool)
    ensures
        r == schnorr_verifies(dlog_of(*p), m@, scalar_of(s.0), scalar_of(s.1)),
{
    let gs = generator_mul(&s.0);
    let pe = point_mul(p, &s.1);
    let rv = point_add(&gs, &pe);
    let rv_bytes = point_to_bytes(&rv);
    let input = concat_bytes(rv_bytes.as_slice(), m);
    let ev = hash_to_scalar(input.as_slice());
    scalar_eq(&ev, &s.1)
}

/// Wrapping subtraction undoes itself: adding `a` back to `k - a mod n`
/// returns `k`, for any residues `k` and `a`.
proof fn lemma_sub_add_cancel(k: nat, a: nat)
    requires
        k < group_order(),
        a < group_order(),
    ensures
        add_mod(sub_mod(k, a), a) == k,
{
    let n = group_order() as int;
    let t = k + group_order() - a;
    lemma_small_mod(a, group_order());
    lemma_add_mod_noop(t, a as int, n);
    lemma_mod_multiples_vanish(1, k as int, n);
    lemma_small_mod(k, group_order());
}

/// Round-trip validity: for every private scalar `x`, every nonce `k` and
/// every message `m`, the pair `(k - x*e mod n, e)` with
/// `e = challenge(k, m)` — the pair that signing builds when it draws `k` —
/// passes verification under the public key `generator * x`.
pub proof fn lemma_round_trip(x: nat, k: nat, m: Seq<u8>)
    requires
        k < group_order(),
    ensures
        ({
            let e = challenge_of(k, m);
            let s = sub_mod(k, mul_mod(x, e));
            schnorr_verifies(x, m, s, e)
        }),
{
    let e = challenge_of(k, m);
    let a = mul_mod(x, e);
    lemma_mod_bound((x * e) as int, group_order() as int);
    lemma_sub_add_cancel(k, a);
}

/// Determinism of verification: the outcome is a function of the public
/// key, the message and the signature alone, so any two results obtained
/// for the same inputs are equal.
pub proof fn lemma_verify_deterministic(p: nat, m: Seq<u8>, s: nat, e: nat, r1: bool, r2: bool)
    requires
        r1 == schnorr_verifies(p, m, s, e),
        r2 == schnorr_verifies(p, m, s, e),
    ensures
        r1 == r2,
{
}

} // verus!
