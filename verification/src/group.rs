//! The boundary to the elliptic-curve arithmetic provider.
//!
//! The curve library's scalars and points are opaque here; two abstraction
//! functions give them a mathematical model.  A scalar is modelled by the
//! residue it holds, a point by its discrete logarithm with respect to the
//! generator — the group has prime order `n`, so every point, the identity
//! included, is `generator * d` for exactly one `d` in `[0, n)`.

use vstd::prelude::*;
use curv::elliptic::curves::secp256_k1::Secp256k1Point;
use curv::elliptic::curves::secp256_k1::Secp256k1Scalar;
use curv::elliptic::curves::ECPoint;
use curv::elliptic::curves::ECScalar;
use curv::arithmetic::traits::Converter;

verus! {

/// The order `n` of the secp256k1 group, as a natural number:
/// `n = 0xFFFFFFFF_FFFFFFFF_FFFFFFFF_FFFFFFFE_BAAEDCE6_AF48A03B_BFD25E8C_D0364141`.
/// Every scalar is a residue in `[0, n)` and all scalar arithmetic wraps
/// modulo this constant.  The literal is split at the 64-bit boundary
/// because a single 256-bit literal does not fit a machine integer.
pub open spec fn group_order() -> nat {
    0xFFFFFFFF_FFFFFFFF_FFFFFFFF_FFFFFFFEnat * 0x1_0000_0000_0000_0000nat
        * 0x1_0000_0000_0000_0000nat + 0xBAAEDCE6_AF48A03B_BFD25E8C_D0364141nat
}

/// The value of a byte string read as a big-endian unsigned integer.
pub open spec fn be_bytes_to_nat(b: Seq<u8>) -> nat
    decreases b.len(),
{
    if b.len() == 0 {
        0
    } else {
        be_bytes_to_nat(b.drop_last()) * 256 + b.last() as nat
    }
}

/// Addition of two residues, wrapping modulo the group order.
pub open spec fn add_mod(a: nat, b: nat) -> nat {
    (a + b) % group_order()
}

/// Multiplication of two residues, wrapping modulo the group order.
pub open spec fn mul_mod(a: nat, b: nat) -> nat {
    (a * b) % group_order()
}

/// Subtraction of two residues, wrapping into `[0, n)`.
pub open spec fn sub_mod(a: nat, b: nat) -> nat {
    (((a + group_order()) - b) % (group_order() as int)) as nat
}

#[verifier::external_type_specification]
#[verifier::external_body]
pub struct ExSecp256k1Scalar(Secp256k1Scalar);

#[verifier::external_type_specification]
#[verifier::external_body]
pub struct ExSecp256k1Point(Secp256k1Point);

/// The residue a scalar holds, named but not computed here.  The curve
/// library stores scalars canonically — zero as a marker, anything else as
/// a 32-byte secret key — so the residue is a function of the value alone.
pub uninterp spec fn scalar_of(s: Secp256k1Scalar) -> nat;

/// The discrete logarithm of a point: the unique `d` in `[0, n)` with
/// `point == generator * d`.  Named but not computed here; it is a
/// function of the point alone.
pub uninterp spec fn dlog_of(p: Secp256k1Point) -> nat;

/// The canonical fixed-length byte encoding of the point `generator * d`,
/// named but not written out.  A point determines its encoding, and a
/// point of this prime-order group is determined by its discrete
/// logarithm, so the encoding is a function of `d` alone.
pub uninterp spec fn point_encoding_of(d: nat) -> Seq<u8>;

/// Relies on `Secp256k1Scalar::random`, which draws a fresh secret key from
/// a cryptographically secure generator.  A draw is a nonzero residue;
/// nothing more can be promised of any one outcome.  Exhaustion of the
/// random source aborts the call rather than degrading to a weak nonce.
#[verifier::external_body]
pub(crate) fn scalar_random() -> (r: Secp256k1Scalar)
    ensures
        0 < scalar_of(r) < group_order(),
{
    ECScalar::random()
}

/// Relies on `BigInt::from_bytes`, which reads the bytes as a big-endian
/// unsigned integer, and on `Secp256k1Scalar::from_bigint`, which reduces
/// that integer modulo the group order.
#[verifier::external_body]
pub(crate) fn scalar_from_bytes(b: &[u8]) -> (r: Secp256k1Scalar)
    ensures
        scalar_of(r) == be_bytes_to_nat(b@) % group_order(),
{
    ECScalar::from_bigint(&curv::BigInt::from_bytes(b))
}

/// Relies on `Secp256k1Scalar::mul`: the product of the two residues,
/// modulo the group order.
#[verifier::external_body]
pub(crate) fn scalar_mul(a: &Secp256k1Scalar, b: &Secp256k1Scalar) -> (r: Secp256k1Scalar)
    ensures
        scalar_of(r) == mul_mod(scalar_of(*a), scalar_of(*b)),
{
    a.mul(b)
}

/// Relies on `Secp256k1Scalar::sub`: the difference of the two residues,
/// wrapped into `[0, n)`.
#[verifier::external_body]
pub(crate) fn scalar_sub(a: &Secp256k1Scalar, b: &Secp256k1Scalar) -> (r: Secp256k1Scalar)
    ensures
        scalar_of(r) == sub_mod(scalar_of(*a), scalar_of(*b)),
{
    a.sub(b)
}

/// Relies on `PartialEq for Secp256k1Scalar`: residues are stored in a
/// canonical form, so the representations are equal exactly when the
/// residues are.
#[verifier::external_body]
pub(crate) fn scalar_eq(a: &Secp256k1Scalar, b: &Secp256k1Scalar) -> (r: bool)
    ensures
        r == (scalar_of(*a) == scalar_of(*b)),
{
    a == b
}

/// Relies on `Secp256k1Point::generator_mul`: the point `generator * s`,
/// whose discrete logarithm is the residue of `s` itself.
#[verifier::external_body]
pub(crate) fn generator_mul(s: &Secp256k1Scalar) -> (r: Secp256k1Point)
    ensures
        dlog_of(r) == scalar_of(*s),
{
    Secp256k1Point::generator_mul(s)
}

/// Relies on `Secp256k1Point::scalar_mul`: multiplying `generator * d` by
/// `s` gives `generator * (d * s mod n)`; the zero point and the zero
/// scalar are handled as the group law demands.
#[verifier::external_body]
pub(crate) fn point_mul(p: &Secp256k1Point, s: &Secp256k1Scalar) -> (r: Secp256k1Point)
    ensures
        dlog_of(r) == mul_mod(dlog_of(*p), scalar_of(*s)),
{
    p.scalar_mul(s)
}

/// Relies on `Secp256k1Point::add_point`: adding `generator * d1` and
/// `generator * d2` gives `generator * (d1 + d2 mod n)`, the zero point
/// acting as the neutral element.
#[verifier::external_body]
pub(crate) fn point_add(p: &Secp256k1Point, q: &Secp256k1Point) -> (r: Secp256k1Point)
    ensures
        dlog_of(r) == add_mod(dlog_of(*p), dlog_of(*q)),
{
    p.add_point(q)
}

/// Relies on `Secp256k1Point::serialize_uncompressed`: the canonical
/// 65-byte encoding of the point, total over the whole group — the zero
/// point encodes as 65 zero bytes.
#[verifier::external_body]
pub(crate) fn point_to_bytes(p: &Secp256k1Point) -> (r: Vec<u8>)
    ensures
        r@ == point_encoding_of(dlog_of(*p)),
        r@.len() == 65,
{
    p.serialize_uncompressed().to_vec()
}

} // verus!
