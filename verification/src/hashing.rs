//! Convenience functions for domain separated hashing.
//!
//! A hash state is viewed as the byte string it has absorbed since it was
//! created or last reset; its digest is a function of that string alone.
use vstd::prelude::*;
use vstd::utf8::encode_utf8;
use vstd::utf8::encode_utf8_decode_utf8;
use digest::Digest;

verus! {

/// The ASCII decimal representation of `n`, without leading zeros.
pub open spec fn decimal(n: nat) -> Seq<u8>
    decreases n,
{
    if n < 10 {
        seq![(48 + n) as u8]
    } else {
        decimal(n / 10).push((48 + n % 10) as u8)
    }
}

/// A byte string with its length in decimal prepended.
pub open spec fn separator_bytes(b: Seq<u8>) -> Seq<u8> {
    decimal(b.len()) + b
}

/// The bytes of the domain separator made from the string `s`: the length of
/// its UTF-8 encoding in decimal, followed by that encoding.
pub open spec fn separator_of(s: Seq<char>) -> Seq<u8> {
    separator_bytes(encode_utf8(s))
}

/// A domain separator: a byte string fed to a hash before anything else.
pub struct DomainSeparator {
    bytes: Vec<u8>,
}

impl View for DomainSeparator {
    type V = Seq<u8>;

    closed spec fn view(&self) -> Seq<u8> {
        self.bytes@
    }
}

fn push_decimal(n: usize, out: &mut Vec<u8>)
    ensures
        final(out)@ == old(out)@ + decimal(n as nat),
    decreases n,
{
    if n >= 10 {
        push_decimal(n / 10, out);
    }
    let d: usize = n % 10;
    out.push((48 + d) as u8);
    assert(final(out)@ =~= old(out)@ + decimal(n as nat));
}

impl DomainSeparator {
    /// Creates a domain separator from a string `s`. The resulting
    /// domain separator is essentially the `into_bytes()` representation
    /// of the given string with its length prepended to avoid
    /// collisions between domain separators.
    pub fn from_string(s: String) -> (r: DomainSeparator)
        ensures
            r@ == separator_of(s@),
    {
        let b: &[u8] = s.as_str().as_bytes();
        let mut bytes: Vec<u8> = Vec::new();
        push_decimal(b.len(), &mut bytes);
        let ghost prefix = bytes@;
        let mut i: usize = 0;
        while i < b.len()
            invariant
                0 <= i <= b@.len(),
                b@ == encode_utf8(s@),
                prefix == decimal(b@.len() as nat),
                bytes@ == prefix + b@.subrange(0, i as int),
            decreases b@.len() - i,
        {
            bytes.push(b[i]);
            i = i + 1;
            assert(bytes@ =~= prefix + b@.subrange(0, i as int));
        }
        assert(b@.subrange(0, b@.len() as int) =~= b@);
        DomainSeparator { bytes }
    }

    /// The bytes of this domain separator.
    pub fn as_ref(&self) -> (r: &[u8])
        ensures
            r@ == self@,
    {
        self.bytes.as_slice()
    }
}

proof fn lemma_decimal_len(n: nat)
    ensures
        decimal(n).len() >= 1,
    decreases n,
{
    if n >= 10 {
        lemma_decimal_len(n / 10);
    }
}

proof fn lemma_decimal_len_monotone(a: nat, b: nat)
    requires
        a <= b,
    ensures
        decimal(a).len() <= decimal(b).len(),
    decreases b,
{
    lemma_decimal_len(a);
    lemma_decimal_len(b);
    if a >= 10 {
        lemma_decimal_len_monotone(a / 10, b / 10);
    }
}

/// `b` is the ASCII code of a decimal digit.
pub open spec fn is_ascii_digit(b: u8) -> bool {
    48 <= b <= 57
}

/// The number that a string of ASCII decimal digits denotes, read with the
/// most significant digit first.
pub open spec fn numeral_value(p: Seq<u8>) -> nat
    decreases p.len(),
{
    if p.len() == 0 {
        0
    } else {
        numeral_value(p.drop_last()) * 10 + (p.last() - 48) as nat
    }
}

/// `decimal(n)` is the base-10 numeral of `n`: a non-empty string of ASCII
/// digits, without a leading zero, that reads back as `n`.
pub proof fn lemma_decimal_numeral(n: nat)
    ensures
        decimal(n).len() >= 1,
        n >= 10 ==> decimal(n).len() > 1,
        forall|i: int| 0 <= i < decimal(n).len() ==> #[trigger] is_ascii_digit(decimal(n)[i]),
        decimal(n).len() > 1 ==> decimal(n)[0] != 48,
        numeral_value(decimal(n)) == n,
    decreases n,
{
    if n < 10 {
        let d = decimal(n);
        assert(d[0] == 48 + n);
        assert(d.drop_last() =~= Seq::<u8>::empty());
        assert(numeral_value(d.drop_last()) == 0);
        assert(d.last() == 48 + n);
        assert(numeral_value(d) == numeral_value(d.drop_last()) * 10 + (d.last() - 48) as nat);
    } else {
        let m = n / 10;
        lemma_decimal_numeral(m);
        let d = decimal(n);
        assert(d.drop_last() =~= decimal(m));
        assert(d.last() == 48 + n % 10);
        assert(n == m * 10 + n % 10);
        assert(numeral_value(d) == numeral_value(d.drop_last()) * 10 + (d.last() - 48) as nat);
        assert(numeral_value(d) == m * 10 + n % 10);
        assert(d[0] == decimal(m)[0]);
        assert(is_ascii_digit(decimal(m)[0]));
        if m < 10 {
            assert(decimal(m)[0] == 48 + m);
        }
    }
}

/// The layout of a domain separator: the separator made from `s` is a numeral
/// followed by the UTF-8 bytes of `s`, and the numeral (ASCII digits, no
/// leading zero) reads back as the number of those bytes.
pub proof fn lemma_separator_layout(s: Seq<char>)
    ensures
        ({
            let sep = separator_of(s);
            let bytes = encode_utf8(s);
            let prefix = sep.subrange(0, sep.len() - bytes.len());
            &&& sep.len() > bytes.len()
            &&& sep == prefix + bytes
            &&& forall|i: int| 0 <= i < prefix.len() ==> #[trigger] is_ascii_digit(prefix[i])
            &&& prefix.len() > 1 ==> prefix[0] != 48
            &&& numeral_value(prefix) == bytes.len()
        }),
{
    let bytes = encode_utf8(s);
    let sep = separator_of(s);
    lemma_decimal_numeral(bytes.len());
    let prefix = sep.subrange(0, sep.len() - bytes.len());
    assert(prefix =~= decimal(bytes.len()));
    assert(sep =~= prefix + bytes);
}

/// Prepending the decimal length makes the encoding injective: two byte
/// strings with equal separators are equal.
pub proof fn lemma_separator_bytes_injective(b1: Seq<u8>, b2: Seq<u8>)
    requires
        separator_bytes(b1) == separator_bytes(b2),
    ensures
        b1 == b2,
{
    let n1 = b1.len();
    let n2 = b2.len();
    assert(separator_bytes(b1).len() == decimal(n1).len() + n1);
    assert(separator_bytes(b2).len() == decimal(n2).len() + n2);
    if n1 < n2 {
        lemma_decimal_len_monotone(n1, n2);
    } else if n2 < n1 {
        lemma_decimal_len_monotone(n2, n1);
    } else {
        let d = decimal(n1).len();
        let t = separator_bytes(b1);
        assert(t.subrange(d as int, t.len() as int) =~= b1);
        assert(separator_bytes(b2).subrange(d as int, t.len() as int) =~= b2);
    }
}

/// Distinct strings give distinct domain separators.
pub proof fn lemma_domain_separator_injective(s1: Seq<char>, s2: Seq<char>)
    requires
        separator_of(s1) == separator_of(s2),
    ensures
        s1 == s2,
{
    lemma_separator_bytes_injective(encode_utf8(s1), encode_utf8(s2));
    encode_utf8_decode_utf8(s1);
    encode_utf8_decode_utf8(s2);
}

/// Provides several convenience methods related to domain separated hashing.
/// A state is viewed as the bytes it has absorbed since its creation or last
/// reset; its output is `spec_digest` of those bytes.
pub trait Hash: Sized {
    /// The bytes absorbed since creation or the last reset.
    spec fn absorbed(&self) -> Seq<u8>;

    /// The digest of a byte string.
    spec fn spec_digest(data: Seq<u8>) -> Seq<u8>;

    /// A fresh state.
    fn new() -> (r: Self)
        ensures
            r.absorbed() == Seq::<u8>::empty(),
    ;

    /// Absorbs `data`.
    fn update(&mut self, data: &[u8])
        ensures
            final(self).absorbed() == old(self).absorbed() + data@,
    ;

    /// Returns the digest of what was absorbed and resets the state.
    fn finalize_reset(&mut self) -> (out: Vec<u8>)
        ensures
            out@ == Self::spec_digest(old(self).absorbed()),
            final(self).absorbed() == Seq::<u8>::empty(),
    ;

    /// Resets the state.
    fn reset(&mut self)
        ensures
            final(self).absorbed() == Seq::<u8>::empty(),
    ;

    /// Similar to `Hash::new`, but updates the digest with `domain_separator`
    fn new_with_separator(domain_separator: DomainSeparator) -> (r: Self)
        ensures
            r.absorbed() == domain_separator@,
    {
        let mut hash = Self::new();
        hash.update(domain_separator.as_ref());
        assert(hash.absorbed() =~= domain_separator@);
        hash
    }

    /// Similar to `Hash::finalize_reset`, but updates the digest with `domain_separator`
    fn finalize_reset_with_separator(&mut self, domain_separator: DomainSeparator) -> (out: Vec<u8>)
        ensures
            out@ == Self::spec_digest(old(self).absorbed()),
            final(self).absorbed() == domain_separator@,
    {
        let output = self.finalize_reset();
        self.update(domain_separator.as_ref());
        assert(self.absorbed() =~= domain_separator@);
        output
    }

    /// Similar to `Hash::finalize_reset`, but writes the digest into `out` and
    /// updates the digest with `domain_separator`
    fn finalize_into_reset_with_separator(&mut self, out: &mut Vec<u8>, domain_separator: DomainSeparator)
        ensures
            final(out)@ == Self::spec_digest(old(self).absorbed()),
            final(self).absorbed() == domain_separator@,
    {
        *out = self.finalize_reset();
        self.update(domain_separator.as_ref());
        assert(self.absorbed() =~= domain_separator@);
    }

    /// Similar to `Hash::reset`, but updates the digest with `domain_separator`
    fn reset_with_separator(&mut self, domain_separator: DomainSeparator)
        ensures
            final(self).absorbed() == domain_separator@,
    {
        self.reset();
        self.update(domain_separator.as_ref());
        assert(self.absorbed() =~= domain_separator@);
    }
}

/// Represents a object that can be hashed
pub trait Hashable<H: Hash> {
    /// The bytes that `hash` feeds to the state.
    spec fn hash_input(&self) -> Seq<u8>;

    /// Provide the object as input to the given hasher `state`
    fn hash(&self, state: &mut H)
        ensures
            final(state).absorbed() == old(state).absorbed() + self.hash_input(),
    ;
}

/// A SHA-512 state.
#[verifier::external_body]
pub struct Sha512Hasher {
    pub(crate) inner: sha2::Sha512,
}

/// A SHA-256 state.
#[verifier::external_body]
pub struct Sha256Hasher {
    inner: sha2::Sha256,
}

/// What a SHA-512 state has absorbed since its creation or last reset.
pub uninterp spec fn sha512_absorbed(h: Sha512Hasher) -> Seq<u8>;

/// The SHA-512 digest of a byte string.
pub uninterp spec fn sha512_digest(data: Seq<u8>) -> Seq<u8>;

/// What a SHA-256 state has absorbed since its creation or last reset.
pub uninterp spec fn sha256_absorbed(h: Sha256Hasher) -> Seq<u8>;

/// The SHA-256 digest of a byte string.
pub uninterp spec fn sha256_digest(data: Seq<u8>) -> Seq<u8>;

impl Hash for Sha512Hasher {
    open spec fn absorbed(&self) -> Seq<u8> {
        sha512_absorbed(*self)
    }

    open spec fn spec_digest(data: Seq<u8>) -> Seq<u8> {
        sha512_digest(data)
    }

    fn new() -> (r: Self) {
        sha512_new()
    }

    fn update(&mut self, data: &[u8]) {
        sha512_update(self, data)
    }

    fn finalize_reset(&mut self) -> (out: Vec<u8>) {
        sha512_finalize_reset(self)
    }

    fn reset(&mut self) {
        sha512_reset(self)
    }
}

impl Hash for Sha256Hasher {
    open spec fn absorbed(&self) -> Seq<u8> {
        sha256_absorbed(*self)
    }

    open spec fn spec_digest(data: Seq<u8>) -> Seq<u8> {
        sha256_digest(data)
    }

    fn new() -> (r: Self) {
        sha256_new()
    }

    fn update(&mut self, data: &[u8]) {
        sha256_update(self, data)
    }

    fn finalize_reset(&mut self) -> (out: Vec<u8>) {
        sha256_finalize_reset(self)
    }

    fn reset(&mut self) {
        sha256_reset(self)
    }
}

// ---------------------------------------------------------------------------
// Trusted items: calls into sha2 through the `digest::Digest` trait.
// ---------------------------------------------------------------------------

/// Calls `Sha512::new`: a state that has absorbed nothing.
#[verifier::external_body]
fn sha512_new() -> (r: Sha512Hasher)
    ensures
        sha512_absorbed(r) == Seq::<u8>::empty(),
{
    Sha512Hasher { inner: sha2::Sha512::new() }
}

/// Calls `Digest::update` on a SHA-512 state: appends `data` to what it absorbed.
#[verifier::external_body]
fn sha512_update(h: &mut Sha512Hasher, data: &[u8])
    ensures
        sha512_absorbed(*final(h)) == sha512_absorbed(*old(h)) + data@,
{
    Digest::update(&mut h.inner, data)
}

/// Calls `Digest::finalize_reset` on a SHA-512 state: the 64-byte digest of what
/// it absorbed; the state is reset.
#[verifier::external_body]
fn sha512_finalize_reset(h: &mut Sha512Hasher) -> (out: Vec<u8>)
    ensures
        out@ == sha512_digest(sha512_absorbed(*old(h))),
        out@.len() == 64,
        sha512_absorbed(*final(h)) == Seq::<u8>::empty(),
{
    Digest::finalize_reset(&mut h.inner).to_vec()
}

/// Calls `Digest::reset` on a SHA-512 state.
#[verifier::external_body]
fn sha512_reset(h: &mut Sha512Hasher)
    ensures
        sha512_absorbed(*final(h)) == Seq::<u8>::empty(),
{
    Digest::reset(&mut h.inner)
}

/// Calls `Sha256::new`: a state that has absorbed nothing.
#[verifier::external_body]
fn sha256_new() -> (r: Sha256Hasher)
    ensures
        sha256_absorbed(r) == Seq::<u8>::empty(),
{
    Sha256Hasher { inner: sha2::Sha256::new() }
}

/// Calls `Digest::update` on a SHA-256 state: appends `data` to what it absorbed.
#[verifier::external_body]
fn sha256_update(h: &mut Sha256Hasher, data: &[u8])
    ensures
        sha256_absorbed(*final(h)) == sha256_absorbed(*old(h)) + data@,
{
    Digest::update(&mut h.inner, data)
}

/// Calls `Digest::finalize_reset` on a SHA-256 state: the 32-byte digest of what
/// it absorbed; the state is reset.
#[verifier::external_body]
fn sha256_finalize_reset(h: &mut Sha256Hasher) -> (out: Vec<u8>)
    ensures
        out@ == sha256_digest(sha256_absorbed(*old(h))),
        out@.len() == 32,
        sha256_absorbed(*final(h)) == Seq::<u8>::empty(),
{
    Digest::finalize_reset(&mut h.inner).to_vec()
}

/// Calls `Digest::reset` on a SHA-256 state.
#[verifier::external_body]
fn sha256_reset(h: &mut Sha256Hasher)
    ensures
        sha256_absorbed(*final(h)) == Seq::<u8>::empty(),
{
    Digest::reset(&mut h.inner)
}

} // verus!
