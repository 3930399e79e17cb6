//! The prime-order Ristretto group and its scalar field, as this library sees them.
//!
//! A group element is held as its canonical 32-byte Ristretto encoding and is
//! viewed as its discrete logarithm with respect to the Ristretto basepoint `B`
//! (a number below the group order `ℓ`). A scalar is held as its canonical
//! little-endian 32-byte encoding and is viewed as the number it encodes.
//! The arithmetic is done by `curve25519_dalek` behind the trusted items at the
//! bottom of this file.
use vstd::prelude::*;
use vstd::arithmetic::div_mod::*;
use curve25519_dalek::constants::RISTRETTO_BASEPOINT_POINT;
use curve25519_dalek::ristretto::CompressedRistretto;
use curve25519_dalek::scalar::Scalar as DalekScalar;
use crate::hashing::Sha512Hasher;
use crate::hashing::sha512_absorbed;
use crate::hashing::sha512_digest;

verus! {

/// The source of randomness used throughout the library.
#[verifier::external_type_specification]
#[verifier::external_body]
pub struct ExThreadRng(rand::rngs::ThreadRng);

/// The order `ℓ = 2^252 + 27742317777372353535851937790883648493` of the
/// Ristretto group, a prime.
pub open spec fn group_order() -> nat {
    7237005577332262213973186563042994240857116359379907606001950938285454250989nat
}

/// Reduction of an integer modulo the group order.
pub open spec fn zmod(x: int) -> int {
    x % (group_order() as int)
}

/// The number that a little-endian byte string encodes.
pub open spec fn le_nat(b: Seq<u8>) -> nat
    decreases b.len(),
{
    if b.len() == 0 {
        0
    } else {
        b[0] as nat + 256 * le_nat(b.drop_first())
    }
}

/// The canonical Ristretto encoding of `[k]B`, as computed by
/// `(Scalar(k) * RISTRETTO_BASEPOINT_POINT).compress()`.
pub uninterp spec fn ristretto_multiple(k: nat) -> Seq<u8>;

/// `b` is the encoding of `[k]B` with `k` reduced.
pub open spec fn encodes(b: Seq<u8>, k: nat) -> bool {
    k < group_order() && b == ristretto_multiple(k)
}

/// `b` is the encoding of exactly one reduced multiple of `B`, i.e. of a group element.
pub open spec fn is_point_encoding(b: Seq<u8>) -> bool {
    &&& exists|k: nat| #[trigger] encodes(b, k)
    &&& forall|j1: nat, j2: nat| #[trigger] encodes(b, j1) && #[trigger] encodes(b, j2) ==> j1 == j2
}

/// The discrete logarithm of an encoded element with respect to `B` (0 for a
/// byte string that encodes no element).
pub open spec fn discrete_log(b: Seq<u8>) -> nat {
    if exists|k: nat| encodes(b, k) {
        choose|k: nat| encodes(b, k)
    } else {
        0
    }
}

pub proof fn lemma_discrete_log(b: Seq<u8>, k: nat)
    requires
        is_point_encoding(b),
        encodes(b, k),
    ensures
        discrete_log(b) == k,
{
    let j = choose|j: nat| encodes(b, j);
    assert(encodes(b, j) && encodes(b, k));
}

pub proof fn lemma_discrete_log_encodes(b: Seq<u8>)
    requires
        is_point_encoding(b),
    ensures
        encodes(b, discrete_log(b)),
        discrete_log(b) < group_order(),
{
}

/// Equal-length little-endian encodings of the same number are equal.
pub proof fn lemma_le_nat_injective(a: Seq<u8>, b: Seq<u8>)
    requires
        a.len() == b.len(),
        le_nat(a) == le_nat(b),
    ensures
        a == b,
    decreases a.len(),
{
    if a.len() > 0 {
        let x = le_nat(a.drop_first());
        let y = le_nat(b.drop_first());
        let a0 = a[0] as int;
        let b0 = b[0] as int;
        assert(a0 + 256 * x == b0 + 256 * y);
        if x < y {
            assert(a0 + 256 * x < b0 + 256 * y) by (nonlinear_arith)
                requires 0 <= a0 < 256, 0 <= b0, x < y;
        } else if y < x {
            assert(b0 + 256 * y < a0 + 256 * x) by (nonlinear_arith)
                requires 0 <= b0 < 256, 0 <= a0, y < x;
        }
        assert(x == y);
        lemma_le_nat_injective(a.drop_first(), b.drop_first());
        assert(a =~= seq![a[0]] + a.drop_first());
        assert(b =~= seq![b[0]] + b.drop_first());
    }
}

pub proof fn lemma_zmod_bound(x: int)
    ensures
        0 <= zmod(x) < group_order(),
{
    lemma_mod_bound(x, group_order() as int);
}

pub proof fn lemma_zmod_small(x: int)
    requires
        0 <= x < group_order(),
    ensures
        zmod(x) == x,
{
    lemma_small_mod(x as nat, group_order());
}

pub proof fn lemma_zmod_add(a: int, b: int)
    ensures
        zmod(zmod(a) + b) == zmod(a + b),
        zmod(a + zmod(b)) == zmod(a + b),
{
    let n = group_order() as int;
    lemma_zmod_bound(a);
    lemma_zmod_bound(b);
    lemma_add_mod_noop(a, b, n);
    lemma_add_mod_noop(a % n, b, n);
    lemma_mod_twice(a, n);
    lemma_add_mod_noop(a, b % n, n);
    lemma_mod_twice(b, n);
}

pub proof fn lemma_zmod_sub(a: int, b: int)
    ensures
        zmod(zmod(a) - b) == zmod(a - b),
        zmod(a - zmod(b)) == zmod(a - b),
{
    let n = group_order() as int;
    lemma_zmod_bound(a);
    lemma_zmod_bound(b);
    lemma_sub_mod_noop(a, b, n);
    lemma_sub_mod_noop(a % n, b, n);
    lemma_mod_twice(a, n);
    lemma_sub_mod_noop_right(a, b, n);
}

pub proof fn lemma_zmod_mul(a: int, b: int)
    ensures
        zmod(zmod(a) * b) == zmod(a * b),
        zmod(a * zmod(b)) == zmod(a * b),
{
    let n = group_order() as int;
    lemma_zmod_bound(a);
    lemma_zmod_bound(b);
    lemma_mul_mod_noop_left(a, b, n);
    lemma_mul_mod_noop_right(a, b, n);
}

/// `zmod(zmod(a - b) + b) == zmod(a)`.
pub proof fn lemma_zmod_sub_add(a: int, b: int)
    ensures
        zmod(zmod(a - b) + b) == zmod(a),
{
    lemma_zmod_add(a - b, b);
}

/// The verification equation of a Schnorr-type proof holds for an honest
/// transcript: if `h = x·g`, then `g·(r + x·c) = g·r + h·c` in `ℤ/ℓℤ`.
pub proof fn lemma_schnorr_equation(g: int, h: int, x: int, r: int, c: int)
    requires
        h == zmod(g * x),
    ensures
        zmod(g * zmod(r + zmod(x * c))) == zmod(zmod(g * r) + zmod(h * c)),
{
    lemma_zmod_add(r, x * c);
    lemma_zmod_mul(g, r + x * c);
    lemma_zmod_mul(g * x, c);
    lemma_zmod_add(g * r, g * x * c);
    assert(g * (r + x * c) == g * r + g * x * c) by (nonlinear_arith);
}

/// A simulated transcript `(g·z - h·c, c, z)` satisfies the verification equation.
pub proof fn lemma_simulated_equation(g: int, h: int, z: int, c: int)
    ensures
        zmod(g * z) == zmod(zmod(zmod(g * z) - zmod(h * c)) + zmod(h * c)),
{
    lemma_zmod_sub_add(zmod(g * z) as int, zmod(h * c) as int);
    lemma_zmod_bound(g * z);
    lemma_zmod_small(zmod(g * z) as int);
}

/// `zmod(a - zmod(a - b)) == b` for a reduced `b`.
pub proof fn lemma_zmod_sub_sub(a: int, b: int)
    requires
        0 <= b < group_order(),
    ensures
        zmod(a - zmod(a - b)) == b,
{
    lemma_zmod_sub(a, a - b);
    lemma_zmod_small(b);
}

/// `zmod(zmod(a + b) - a) == b` for a reduced `b`.
pub proof fn lemma_zmod_add_sub(a: int, b: int)
    requires
        0 <= b < group_order(),
    ensures
        zmod(zmod(a + b) - a) == b,
{
    lemma_zmod_sub(a + b, a);
    lemma_zmod_small(b);
}

/// Congruences can be subtracted.
pub proof fn lemma_zmod_congruent_sub(x1: int, x2: int, y1: int, y2: int)
    requires
        zmod(x1) == zmod(y1),
        zmod(x2) == zmod(y2),
    ensures
        zmod(x1 - x2) == zmod(y1 - y2),
{
    lemma_zmod_sub(x1, x2);
    lemma_zmod_sub(zmod(x1), x2);
    lemma_zmod_sub(y1, y2);
    lemma_zmod_sub(zmod(y1), y2);
}

/// A congruence can be multiplied by any number.
pub proof fn lemma_zmod_congruent_mul(a: int, b: int, k: int)
    requires
        zmod(a) == zmod(b),
    ensures
        zmod(a * k) == zmod(b * k),
{
    lemma_zmod_mul(a, k);
    lemma_zmod_mul(b, k);
}

/// Extraction from two accepting Schnorr-type transcripts: if
/// `g·z1 = c + h·ch1` and `g·z2 = c + h·ch2` in `ℤ/ℓℤ` and `inv` inverts
/// `ch1 - ch2`, then `h = g·((z1 - z2)·inv)`.
pub proof fn lemma_schnorr_extraction(g: int, h: int, c: int, ch1: int, z1: int, ch2: int, z2: int, inv: int)
    requires
        0 <= h < group_order(),
        zmod(g * z1) == zmod(c + zmod(h * ch1)),
        zmod(g * z2) == zmod(c + zmod(h * ch2)),
        zmod(inv * (ch1 - ch2)) == 1,
    ensures
        h == zmod(g * zmod((z1 - z2) * inv)),
{
    // g·(z1 - z2) ≡ h·(ch1 - ch2)
    lemma_zmod_congruent_sub(g * z1, g * z2, c + zmod(h * ch1), c + zmod(h * ch2));
    lemma_zmod_sub(zmod(h * ch1), h * ch2);
    lemma_zmod_sub(h * ch1, h * ch2);
    assert((c + zmod(h * ch1)) - (c + zmod(h * ch2)) == zmod(h * ch1) - zmod(h * ch2));
    assert(g * z1 - g * z2 == g * (z1 - z2)) by (nonlinear_arith);
    assert(h * ch1 - h * ch2 == h * (ch1 - ch2)) by (nonlinear_arith);
    assert(zmod(g * (z1 - z2)) == zmod(h * (ch1 - ch2)));
    // multiplied by inv
    lemma_zmod_congruent_mul(g * (z1 - z2), h * (ch1 - ch2), inv);
    assert(g * (z1 - z2) * inv == g * ((z1 - z2) * inv)) by (nonlinear_arith);
    assert(h * (ch1 - ch2) * inv == h * (inv * (ch1 - ch2))) by (nonlinear_arith);
    lemma_zmod_mul(g, (z1 - z2) * inv);
    lemma_zmod_mul(h, inv * (ch1 - ch2));
    lemma_zmod_small(h);
}

/// An element of the Ristretto group, held as its canonical encoding.
#[derive(Clone, Copy, Debug, PartialEq, Eq)]
pub struct Point {
    bytes: [u8; 32],
}

impl Point {
    #[verifier::type_invariant]
    closed spec fn well_formed(self) -> bool {
        is_point_encoding(self.bytes@)
    }

    /// The canonical 32-byte encoding of this element.
    pub closed spec fn encoding(self) -> Seq<u8> {
        self.bytes@
    }
}

/// An element is viewed as its discrete logarithm with respect to `B`.
impl View for Point {
    type V = nat;

    closed spec fn view(&self) -> nat {
        discrete_log(self.bytes@)
    }
}

/// An element of `ℤ/ℓℤ`, held as its canonical little-endian encoding.
#[derive(Clone, Copy, Debug, PartialEq, Eq)]
pub struct Scalar {
    bytes: [u8; 32],
}

impl Scalar {
    #[verifier::type_invariant]
    closed spec fn canonical(self) -> bool {
        le_nat(self.bytes@) < group_order()
    }
}

/// A scalar is viewed as the residue it encodes.
impl View for Scalar {
    type V = nat;

    closed spec fn view(&self) -> nat {
        le_nat(self.bytes@) % group_order()
    }
}

/// The discrete logarithm of an element is reduced.
pub proof fn lemma_point_bound(p: Point)
    ensures
        p@ < group_order(),
{
}

pub proof fn lemma_scalar_bound(s: Scalar)
    ensures
        s@ < group_order(),
{
    lemma_mod_bound(le_nat(s.bytes@) as int, group_order() as int);
}

fn bytes_equal(a: &[u8; 32], b: &[u8; 32]) -> (r: bool)
    ensures
        r == (a@ == b@),
{
    let mut i: usize = 0;
    while i < 32
        invariant
            0 <= i <= 32,
            forall|j: int| 0 <= j < i ==> a@[j] == b@[j],
        decreases 32 - i,
    {
        if a[i] != b[i] {
            return false;
        }
        i = i + 1;
    }
    assert(a@ =~= b@);
    true
}

impl Point {
    fn from_encoding(bytes: [u8; 32], Ghost(k): Ghost<nat>) -> (r: Point)
        requires
            is_point_encoding(bytes@),
            encodes(bytes@, k),
        ensures
            r@ == k,
            r.encoding() == bytes@,
    {
        proof {
            lemma_discrete_log(bytes@, k);
        }
        Point { bytes }
    }

    /// The Ristretto basepoint `B`.
    pub fn basepoint() -> (r: Point)
        ensures
            r@ == 1,
    {
        let bytes = basepoint_encoding();
        Point::from_encoding(bytes, Ghost(1nat))
    }

    /// Decodes a canonical Ristretto encoding; `None` when `bytes` encodes no element.
    pub fn from_bytes(bytes: [u8; 32]) -> (r: Option<Point>)
        ensures
            r is Some <==> exists|k: nat| encodes(bytes@, k),
            r matches Some(p) ==> encodes(bytes@, p@) && p.encoding() == bytes@,
    {
        if decodes(&bytes) {
            let ghost k = choose|k: nat| encodes(bytes@, k);
            Some(Point::from_encoding(bytes, Ghost(k)))
        } else {
            None
        }
    }

    /// The canonical encoding of this element.
    pub fn to_bytes(&self) -> (r: [u8; 32])
        ensures
            r@ == self.encoding(),
            r@ == ristretto_multiple(self@),
            encodes(r@, self@),
    {
        proof {
            use_type_invariant(self);
        }
        self.bytes
    }

    /// Equality of group elements.
    pub fn equals(&self, other: &Point) -> (b: bool)
        ensures
            b == (self@ == other@),
    {
        proof {
            use_type_invariant(self);
            use_type_invariant(other);
            lemma_discrete_log_encodes(self.bytes@);
            lemma_discrete_log_encodes(other.bytes@);
        }
        bytes_equal(&self.bytes, &other.bytes)
    }

    /// The group operation: `self + other`.
    pub fn add(&self, other: &Point) -> (r: Point)
        ensures
            r@ == zmod(self@ + other@ as int),
    {
        let r = point_add(self, other);
        proof {
            lemma_discrete_log(r.encoding(), zmod(self@ + other@ as int) as nat);
        }
        r
    }

    /// `self - other`.
    pub fn sub(&self, other: &Point) -> (r: Point)
        ensures
            r@ == zmod(self@ - other@),
    {
        let r = point_sub(self, other);
        proof {
            lemma_discrete_log(r.encoding(), zmod(self@ - other@) as nat);
        }
        r
    }

    /// Scalar multiplication: `[k]self`.
    pub fn mul(&self, k: &Scalar) -> (r: Point)
        ensures
            r@ == zmod(self@ * k@ as int),
    {
        let r = point_mul(self, k);
        proof {
            lemma_discrete_log(r.encoding(), zmod(self@ * k@ as int) as nat);
        }
        r
    }

    /// Fixed-base scalar multiplication: `[k]B`.
    pub fn mul_basepoint(k: &Scalar) -> (r: Point)
        ensures
            r@ == k@,
    {
        let bytes = basepoint_multiple(k);
        proof {
            lemma_scalar_bound(*k);
        }
        Point::from_encoding(bytes, Ghost(k@))
    }
}

impl Scalar {
    /// Reduces a 256-bit little-endian integer modulo `ℓ`.
    pub fn from_bytes_mod_order(bytes: [u8; 32]) -> (r: Scalar)
        ensures
            r@ == le_nat(bytes@) % group_order(),
    {
        scalar_from_bytes_mod_order(bytes)
    }

    /// Reduces a 512-bit little-endian integer modulo `ℓ`.
    pub fn from_bytes_mod_order_wide(bytes: &[u8; 64]) -> (r: Scalar)
        ensures
            r@ == le_nat(bytes@) % group_order(),
    {
        scalar_from_bytes_mod_order_wide(bytes)
    }

    /// A scalar drawn uniformly at random from `ℤ/ℓℤ`.
    pub fn random(rng: &mut rand::rngs::ThreadRng) -> (r: Scalar)
        ensures
            r@ < group_order(),
    {
        let r = scalar_random(rng);
        proof {
            lemma_scalar_bound(r);
        }
        r
    }

    /// The canonical little-endian encoding of this scalar.
    pub fn to_bytes(&self) -> (r: [u8; 32])
        ensures
            le_nat(r@) == self@,
    {
        proof {
            use_type_invariant(self);
            lemma_small_mod(le_nat(self.bytes@), group_order());
        }
        self.bytes
    }

    /// `self + other` modulo `ℓ`.
    pub fn plus(&self, other: &Scalar) -> (r: Scalar)
        ensures
            r@ == zmod(self@ + other@ as int),
    {
        scalar_add(self, other)
    }

    /// `self - other` modulo `ℓ`.
    pub fn minus(&self, other: &Scalar) -> (r: Scalar)
        ensures
            r@ == zmod(self@ - other@),
    {
        scalar_sub(self, other)
    }

    /// `self * other` modulo `ℓ`.
    pub fn times(&self, other: &Scalar) -> (r: Scalar)
        ensures
            r@ == zmod(self@ * other@ as int),
    {
        scalar_mul(self, other)
    }

    /// Equality of scalars.
    pub fn equals(&self, other: &Scalar) -> (b: bool)
        ensures
            b == (self@ == other@),
    {
        proof {
            use_type_invariant(self);
            use_type_invariant(other);
            lemma_small_mod(le_nat(self.bytes@), group_order());
            lemma_small_mod(le_nat(other.bytes@), group_order());
            if le_nat(self.bytes@) == le_nat(other.bytes@) {
                lemma_le_nat_injective(self.bytes@, other.bytes@);
            }
        }
        bytes_equal(&self.bytes, &other.bytes)
    }
}

// ---------------------------------------------------------------------------
// Trusted items: calls into curve25519_dalek.
// ---------------------------------------------------------------------------

/// Calls `RISTRETTO_BASEPOINT_POINT.compress()`; claims that the result is the
/// encoding of `[1]B` and of no other reduced multiple of `B`.
#[verifier::external_body]
fn basepoint_encoding() -> (r: [u8; 32])
    ensures
        r@ == ristretto_multiple(1),
        is_point_encoding(r@),
{
    RISTRETTO_BASEPOINT_POINT.compress().to_bytes()
}

/// Calls `CompressedRistretto::decompress`; claims that it succeeds exactly on
/// the encodings of multiples of `B`, and that such an encoding names a single
/// reduced multiple (the group has prime order `ℓ` and the encoding is canonical).
#[verifier::external_body]
fn decodes(bytes: &[u8; 32]) -> (r: bool)
    ensures
        r == (exists|k: nat| k < group_order() && bytes@ == ristretto_multiple(k)),
        r ==> is_point_encoding(bytes@),
{
    CompressedRistretto(*bytes).decompress().is_some()
}

/// Calls `&Scalar * &RISTRETTO_BASEPOINT_POINT` and compresses the result; claims
/// that it is the named encoding of `[k]B`, which names only `k`.
#[verifier::external_body]
fn basepoint_multiple(k: &Scalar) -> (r: [u8; 32])
    ensures
        r@ == ristretto_multiple(k@),
        is_point_encoding(r@),
{
    let s = DalekScalar::from_bytes_mod_order(k.bytes);
    (&s * &RISTRETTO_BASEPOINT_POINT).compress().to_bytes()
}

/// Calls `RistrettoPoint + RistrettoPoint` on the decoded inputs; claims that the
/// result encodes `[a + b]B`.
#[verifier::external_body]
fn point_add(a: &Point, b: &Point) -> (r: Point)
    ensures
        r.encoding() == ristretto_multiple(zmod(a@ + b@ as int) as nat),
        is_point_encoding(r.encoding()),
{
    let pa = CompressedRistretto(a.bytes).decompress().unwrap();
    let pb = CompressedRistretto(b.bytes).decompress().unwrap();
    Point { bytes: (&pa + &pb).compress().to_bytes() }
}

/// Calls `RistrettoPoint - RistrettoPoint` on the decoded inputs; claims that the
/// result encodes `[a - b]B`.
#[verifier::external_body]
fn point_sub(a: &Point, b: &Point) -> (r: Point)
    ensures
        r.encoding() == ristretto_multiple(zmod(a@ - b@) as nat),
        is_point_encoding(r.encoding()),
{
    let pa = CompressedRistretto(a.bytes).decompress().unwrap();
    let pb = CompressedRistretto(b.bytes).decompress().unwrap();
    Point { bytes: (&pa - &pb).compress().to_bytes() }
}

/// Calls `RistrettoPoint * Scalar` on the decoded input; claims that the result
/// encodes `[a·k]B`.
#[verifier::external_body]
fn point_mul(a: &Point, k: &Scalar) -> (r: Point)
    ensures
        r.encoding() == ristretto_multiple(zmod(a@ * k@ as int) as nat),
        is_point_encoding(r.encoding()),
{
    let pa = CompressedRistretto(a.bytes).decompress().unwrap();
    let s = DalekScalar::from_bytes_mod_order(k.bytes);
    Point { bytes: (&pa * &s).compress().to_bytes() }
}

/// Calls `Scalar::from_bytes_mod_order`: the input read as a little-endian
/// integer, reduced modulo `ℓ`.
#[verifier::external_body]
fn scalar_from_bytes_mod_order(bytes: [u8; 32]) -> (r: Scalar)
    ensures
        r@ == le_nat(bytes@) % group_order(),
{
    Scalar { bytes: DalekScalar::from_bytes_mod_order(bytes).to_bytes() }
}

/// Calls `Scalar::from_bytes_mod_order_wide`: the 64-byte input read as a
/// little-endian integer, reduced modulo `ℓ`.
#[verifier::external_body]
fn scalar_from_bytes_mod_order_wide(bytes: &[u8; 64]) -> (r: Scalar)
    ensures
        r@ == le_nat(bytes@) % group_order(),
{
    Scalar { bytes: DalekScalar::from_bytes_mod_order_wide(bytes).to_bytes() }
}

/// Calls `Scalar::random`; the result depends on the generator, so nothing is
/// claimed of it beyond being a canonical scalar (the type's invariant).
#[verifier::external_body]
fn scalar_random(rng: &mut rand::rngs::ThreadRng) -> (r: Scalar) {
    Scalar { bytes: DalekScalar::random(rng).to_bytes() }
}

/// Calls `Scalar + Scalar`: addition modulo `ℓ`.
#[verifier::external_body]
fn scalar_add(a: &Scalar, b: &Scalar) -> (r: Scalar)
    ensures
        r@ == zmod(a@ + b@ as int),
{
    let sa = DalekScalar::from_bytes_mod_order(a.bytes);
    let sb = DalekScalar::from_bytes_mod_order(b.bytes);
    Scalar { bytes: (&sa + &sb).to_bytes() }
}

/// Calls `Scalar - Scalar`: subtraction modulo `ℓ`.
#[verifier::external_body]
fn scalar_sub(a: &Scalar, b: &Scalar) -> (r: Scalar)
    ensures
        r@ == zmod(a@ - b@),
{
    let sa = DalekScalar::from_bytes_mod_order(a.bytes);
    let sb = DalekScalar::from_bytes_mod_order(b.bytes);
    Scalar { bytes: (&sa - &sb).to_bytes() }
}

/// Calls `Scalar * Scalar`: multiplication modulo `ℓ`.
#[verifier::external_body]
fn scalar_mul(a: &Scalar, b: &Scalar) -> (r: Scalar)
    ensures
        r@ == zmod(a@ * b@ as int),
{
    let sa = DalekScalar::from_bytes_mod_order(a.bytes);
    let sb = DalekScalar::from_bytes_mod_order(b.bytes);
    Scalar { bytes: (&sa * &sb).to_bytes() }
}

/// Calls `Scalar::hash_from_bytes::<Sha512>`: the SHA-512 digest of the input,
/// read as a little-endian integer and reduced modulo `ℓ`.
#[verifier::external_body]
pub(crate) fn scalar_hash_from_bytes(input: &[u8]) -> (r: Scalar)
    ensures
        r@ == le_nat(sha512_digest(input@)) % group_order(),
{
    Scalar { bytes: DalekScalar::hash_from_bytes::<sha2::Sha512>(input).to_bytes() }
}

/// Calls `Scalar::from_hash`: the SHA-512 digest of what the hasher absorbed,
/// read as a little-endian integer and reduced modulo `ℓ`.
#[verifier::external_body]
pub(crate) fn scalar_from_hash(h: Sha512Hasher) -> (r: Scalar)
    ensures
        r@ == le_nat(sha512_digest(sha512_absorbed(h))) % group_order(),
{
    Scalar { bytes: DalekScalar::from_hash(h.inner).to_bytes() }
}

} // verus!
