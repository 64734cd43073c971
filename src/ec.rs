//! Curve descriptors, private keys and the key-agreement pairing.
use crate::error::Unspecified;
use crate::input::input_bytes;
use crate::rand::SecureRandom;
use vstd::prelude::*;

verus! {

/// The bit length of the largest field element of any supported curve.
pub const ELEM_MAX_BITS: usize = 384;

/// The largest length, in bytes, of a field element of any supported curve.
pub const ELEM_MAX_BYTES: usize = (ELEM_MAX_BITS + 7) / 8;

/// The largest length, in bytes, of a private scalar of any supported curve.
pub const SCALAR_MAX_BYTES: usize = ELEM_MAX_BYTES;

/// The maximum length, in bytes, of an encoded public key: a format tag and
/// two field elements.
pub const PUBLIC_KEY_MAX_LEN: usize = 1 + (2 * ELEM_MAX_BYTES);

/// An upper bound on the length of a generated PKCS#8 document for an
/// elliptic-curve key: a 40-byte template, the private scalar and the public
/// key. This is not a limit on documents that are parsed.
pub const PKCS8_DOCUMENT_MAX_LEN: usize = 40 + SCALAR_MAX_BYTES + PUBLIC_KEY_MAX_LEN;

/// Which curve a descriptor belongs to.
#[derive(Clone, Copy, Debug, PartialEq, Eq, Structural)]
pub enum CurveID {
    Curve25519,
    P256,
    P384,
}

/// The arithmetic of one curve: the only place where curve-specific code runs.
///
/// Each method receives buffers whose lengths this crate has already checked
/// against the descriptor that holds the implementation. The spec methods
/// describe the arithmetic, and a verified implementation defines them. Their
/// default leaves the value unspecified: it serves implementations compiled
/// without verification, which cannot define spec methods, and nothing proved
/// here depends on it.
pub trait CurveOps {
    /// Length of a private scalar of this curve.
    closed spec fn scalar_len(&self) -> nat {
        arbitrary()
    }

    /// Length of an encoded public key of this curve.
    closed spec fn public_len(&self) -> nat {
        arbitrary()
    }

    /// Whether `scalar` is a legal private scalar of this curve.
    closed spec fn is_valid_scalar(&self, scalar: Seq<u8>) -> bool {
        arbitrary()
    }

    /// The encoded public key that belongs to `scalar`.
    closed spec fn public_of(&self, scalar: Seq<u8>) -> Seq<u8> {
        arbitrary()
    }

    /// The shared secret of `scalar` and the encoded peer key `peer`.
    closed spec fn shared_secret(&self, scalar: Seq<u8>, peer: Seq<u8>) -> Seq<u8> {
        arbitrary()
    }

    /// Whether `scalar` and the encoded peer key `peer` yield a shared secret:
    /// false when the peer's key is malformed, out of range, or of low order.
    closed spec fn agrees(&self, scalar: Seq<u8>, peer: Seq<u8>) -> bool {
        arbitrary()
    }

    /// The length of a private scalar of this curve.
    fn elem_and_scalar_len(&self) -> (r: usize)
        ensures
            r == self.scalar_len(),
    ;

    /// The length of an encoded public key of this curve.
    fn public_key_len(&self) -> (r: usize)
        ensures
            r == self.public_len(),
    ;

    /// Accepts exactly the legal private scalars.
    fn check_private_key_bytes(&self, bytes: &[u8]) -> (r: Result<(), Unspecified>)
        requires
            bytes@.len() == self.scalar_len(),
        ensures
            r is Ok <==> self.is_valid_scalar(bytes@),
    ;

    /// Draws a fresh private scalar from `rng` into `out`.
    fn generate_private_key<R: SecureRandom>(&self, rng: &R, out: &mut [u8]) -> (r: Result<
        (),
        Unspecified,
    >)
        requires
            old(out)@.len() == self.scalar_len(),
        ensures
            final(out)@.len() == old(out)@.len(),
            r is Ok ==> self.is_valid_scalar(final(out)@),
    ;

    /// Writes the public key of `scalar` into `public_out`; succeeds on every
    /// legal scalar.
    fn public_from_private(&self, public_out: &mut [u8], scalar: &[u8]) -> (r: Result<
        (),
        Unspecified,
    >)
        requires
            old(public_out)@.len() == self.public_len(),
            scalar@.len() == self.scalar_len(),
        ensures
            final(public_out)@.len() == old(public_out)@.len(),
            self.is_valid_scalar(scalar@) ==> r is Ok,
            r is Ok ==> final(public_out)@ == self.public_of(scalar@),
    ;

    /// Writes the shared secret of `scalar` and the peer's public key into `out`,
    /// or fails when the two yield none.
    fn ecdh(&self, out: &mut [u8], scalar: &[u8], peer_public_key: untrusted::Input) -> (r:
        Result<(), Unspecified>)
        requires
            old(out)@.len() == self.scalar_len(),
            scalar@.len() == self.scalar_len(),
        ensures
            final(out)@.len() == old(out)@.len(),
            r is Ok <==> self.agrees(scalar@, input_bytes(peer_public_key)),
            r is Ok ==> final(out)@ == self.shared_secret(scalar@, input_bytes(peer_public_key)),
    ;
}

/// The descriptor of one curve: its sizes, its tag and its arithmetic.
pub struct Curve<O> {
    pub public_key_len: usize,
    pub elem_and_scalar_len: usize,
    pub id: CurveID,
    pub ops: O,
}

impl<O: CurveOps> Curve<O> {
    /// The sizes fit the crate's fixed buffers and agree with the arithmetic.
    pub open spec fn wf(&self) -> bool {
        &&& self.elem_and_scalar_len <= SCALAR_MAX_BYTES
        &&& self.public_key_len <= PUBLIC_KEY_MAX_LEN
        &&& self.ops.scalar_len() == self.elem_and_scalar_len
        &&& self.ops.public_len() == self.public_key_len
    }

    /// Tests `wf`, for callers that receive a descriptor from elsewhere.
    pub fn sizes_ok(&self) -> (r: bool)
        ensures
            r == self.wf(),
    {
        self.elem_and_scalar_len <= SCALAR_MAX_BYTES && self.public_key_len <= PUBLIC_KEY_MAX_LEN
            && self.ops.elem_and_scalar_len() == self.elem_and_scalar_len
            && self.ops.public_key_len() == self.public_key_len
    }

    /// Whether `bytes` is an acceptable private key of this curve: of the exact
    /// length, and a legal scalar.
    pub open spec fn accepts_private_key(&self, bytes: Seq<u8>) -> bool {
        &&& bytes.len() == self.elem_and_scalar_len
        &&& self.ops.is_valid_scalar(bytes)
    }
}

/// `scalar` followed by zeros up to the capacity of a key buffer.
pub open spec fn padded(scalar: Seq<u8>) -> Seq<u8> {
    scalar + Seq::new((SCALAR_MAX_BYTES - scalar.len()) as nat, |i: int| 0u8)
}

/// A private key of some curve, in a buffer sized for the largest one.
///
/// The key does not record its curve, only the length of its scalar: every
/// operation takes the descriptor, and those that run the curve's arithmetic
/// refuse a descriptor of another scalar length.
pub struct PrivateKey {
    bytes: [u8; SCALAR_MAX_BYTES],
    len: usize,
}

impl View for PrivateKey {
    type V = Seq<u8>;

    /// The scalar: the meaningful leading bytes of the buffer.
    closed spec fn view(&self) -> Seq<u8> {
        self.bytes@.subrange(0, self.len as int)
    }
}

impl PrivateKey {
    /// The scalar fits the buffer, and the bytes after it are zero.
    #[verifier::type_invariant]
    spec fn inv(&self) -> bool {
        &&& self.len <= SCALAR_MAX_BYTES
        &&& forall|j: int| self.len <= j < SCALAR_MAX_BYTES ==> self.bytes@[j] == 0u8
    }

    /// The key holds a legal scalar of `curve`.
    pub open spec fn is_key_for<O: CurveOps>(&self, curve: &Curve<O>) -> bool {
        curve.accepts_private_key(self@)
    }

    /// A key holding `scalar`.
    fn from_scalar(scalar: &[u8]) -> (r: PrivateKey)
        requires
            scalar@.len() <= SCALAR_MAX_BYTES,
        ensures
            r@ == scalar@,
    {
        let mut bytes: [u8; SCALAR_MAX_BYTES] = [0u8; SCALAR_MAX_BYTES];
        let n = scalar.len();
        let mut i: usize = 0;
        while i < n
            invariant
                n == scalar@.len(),
                n <= SCALAR_MAX_BYTES,
                i <= n,
                bytes@.len() == SCALAR_MAX_BYTES,
                forall|j: int| 0 <= j < i ==> bytes@[j] == scalar@[j],
                forall|j: int| i <= j < SCALAR_MAX_BYTES ==> bytes@[j] == 0u8,
            decreases n - i,
        {
            bytes[i] = scalar[i];
            i = i + 1;
        }
        let r = PrivateKey { bytes, len: n };
        assert(r@ =~= scalar@);
        r
    }

    /// Imports a private key of `curve` from untrusted bytes.
    ///
    /// Fails unless the bytes have exactly the curve's scalar length and form a
    /// legal scalar; on success the key holds exactly those bytes. The caller
    /// runs the process-wide one-time initialization before the first call.
    pub fn from_bytes<O: CurveOps>(curve: &Curve<O>, bytes: untrusted::Input) -> (r: Result<
        PrivateKey,
        Unspecified,
    >)
        requires
            curve.wf(),
        ensures
            r is Ok <==> curve.accepts_private_key(input_bytes(bytes)),
            r matches Ok(k) ==> k@ == input_bytes(bytes),
    {
        let bytes = bytes.as_slice_less_safe();
        if curve.elem_and_scalar_len != bytes.len() {
            return Err(Unspecified);
        }
        match curve.ops.check_private_key_bytes(bytes) {
            Ok(()) => {},
            Err(e) => {
                return Err(e);
            },
        }
        Ok(PrivateKey::from_scalar(bytes))
    }

    /// Generates a fresh private key of `curve` from `rng`. The caller runs the
    /// process-wide one-time initialization before the first call.
    pub fn generate<O: CurveOps, R: SecureRandom>(curve: &Curve<O>, rng: &R) -> (r: Result<
        PrivateKey,
        Unspecified,
    >)
        requires
            curve.wf(),
        ensures
            r matches Ok(k) ==> k.is_key_for(curve),
    {
        let mut scalar: Vec<u8> = vec![0u8; curve.elem_and_scalar_len];
        match curve.ops.generate_private_key(rng, scalar.as_mut_slice()) {
            Ok(()) => {},
            Err(e) => {
                return Err(e);
            },
        }
        Ok(PrivateKey::from_scalar(scalar.as_slice()))
    }

    /// The leading `curve.elem_and_scalar_len` bytes of the key's buffer.
    ///
    /// This reads no more than the length the caller's descriptor gives: under a
    /// descriptor of another curve it is the scalar cut short or zero-extended.
    pub fn bytes<'a, O: CurveOps>(&'a self, curve: &Curve<O>) -> (r: &'a [u8])
        requires
            curve.elem_and_scalar_len <= SCALAR_MAX_BYTES,
        ensures
            r@ == padded(self@).subrange(0, curve.elem_and_scalar_len as int),
            self@.len() == curve.elem_and_scalar_len ==> r@ == self@,
    {
        proof {
            use_type_invariant(self);
            assert(self.bytes@ =~= padded(self@));
        }
        vstd::slice::slice_subrange(self.bytes.as_slice(), 0, curve.elem_and_scalar_len)
    }

    /// Writes the public key of this key under `curve` into `out`.
    ///
    /// Fails, leaving `out` as it was, unless `out` has exactly the curve's
    /// public key length and the key's scalar the curve's scalar length. Then it
    /// succeeds on every legal scalar.
    pub fn compute_public_key<O: CurveOps>(&self, curve: &Curve<O>, out: &mut [u8]) -> (r: Result<
        (),
        Unspecified,
    >)
        requires
            curve.wf(),
        ensures
            final(out)@.len() == old(out)@.len(),
            old(out)@.len() != curve.public_key_len || self@.len() != curve.elem_and_scalar_len
                ==> r is Err && final(out)@ == old(out)@,
            old(out)@.len() == curve.public_key_len && self.is_key_for(curve) ==> r is Ok,
            r is Ok ==> final(out)@ == public_key_of(curve, self@),
    {
        proof {
            use_type_invariant(self);
        }
        if out.len() != curve.public_key_len || self.len != curve.elem_and_scalar_len {
            return Err(Unspecified);
        }
        curve.ops.public_from_private(out, self.bytes(curve))
    }
}

/// The public key of the scalar `key` under `curve`.
pub open spec fn public_key_of<O: CurveOps>(curve: &Curve<O>, key: Seq<u8>) -> Seq<u8> {
    curve.ops.public_of(key)
}

/// A private key together with its public key.
pub struct KeyPair {
    pub private_key: PrivateKey,
    pub public_key: [u8; PUBLIC_KEY_MAX_LEN],
}

impl KeyPair {
    /// Pairs `private_key` with its public key under `curve`, which fills the
    /// leading `curve.public_key_len` bytes of the public buffer; the rest
    /// are zero. Succeeds exactly when `compute_public_key` does on a buffer
    /// of the curve's public key length.
    pub fn from_private_key<O: CurveOps>(curve: &Curve<O>, private_key: PrivateKey) -> (r: Result<
        KeyPair,
        Unspecified,
    >)
        requires
            curve.wf(),
        ensures
            private_key@.len() != curve.elem_and_scalar_len ==> r is Err,
            private_key.is_key_for(curve) ==> r is Ok,
            r matches Ok(kp) ==> {
                &&& kp.private_key == private_key
                &&& kp.public_key@.subrange(0, curve.public_key_len as int) == public_key_of(
                    curve,
                    private_key@,
                )
                &&& forall|j: int|
                    curve.public_key_len <= j < PUBLIC_KEY_MAX_LEN ==> kp.public_key@[j] == 0u8
            },
    {
        let n = curve.public_key_len;
        let mut public: Vec<u8> = vec![0u8; n];
        match private_key.compute_public_key(curve, public.as_mut_slice()) {
            Ok(()) => {},
            Err(e) => {
                return Err(e);
            },
        }
        let mut public_key: [u8; PUBLIC_KEY_MAX_LEN] = [0u8; PUBLIC_KEY_MAX_LEN];
        let mut i: usize = 0;
        while i < n
            invariant
                n == public@.len(),
                n <= PUBLIC_KEY_MAX_LEN,
                i <= n,
                public_key@.len() == PUBLIC_KEY_MAX_LEN,
                forall|j: int| 0 <= j < i ==> public_key@[j] == public@[j],
                forall|j: int| i <= j < PUBLIC_KEY_MAX_LEN ==> public_key@[j] == 0u8,
            decreases n - i,
        {
            public_key[i] = public[i];
            i = i + 1;
        }
        assert(public_key@.subrange(0, n as int) =~= public@);
        Ok(KeyPair { private_key, public_key })
    }
}

/// A key-agreement algorithm: a curve and its Diffie-Hellman function.
pub struct AgreementAlgorithmImpl<O: 'static> {
    pub curve: &'static Curve<O>,
}

impl<O: CurveOps> AgreementAlgorithmImpl<O> {
    /// Writes the shared secret of `private_key` and the peer's public key into
    /// `out`.
    ///
    /// Fails, leaving `out` as it was, unless `out` and the key's scalar both
    /// have exactly the curve's element length. Then it succeeds exactly when
    /// the curve's arithmetic finds a secret for the key and the peer's bytes.
    pub fn ecdh(&self, out: &mut [u8], private_key: &PrivateKey, peer_public_key: untrusted::Input)
        -> (r: Result<(), Unspecified>)
        requires
            self.curve.wf(),
        ensures
            final(out)@.len() == old(out)@.len(),
            old(out)@.len() != self.curve.elem_and_scalar_len || private_key@.len()
                != self.curve.elem_and_scalar_len ==> r is Err && final(out)@ == old(out)@,
            old(out)@.len() == self.curve.elem_and_scalar_len && private_key@.len()
                == self.curve.elem_and_scalar_len ==> (r is Ok <==> self.curve.ops.agrees(
                private_key@,
                input_bytes(peer_public_key),
            )),
            r is Ok ==> final(out)@ == self.curve.ops.shared_secret(
                private_key@,
                input_bytes(peer_public_key),
            ),
    {
        proof {
            use_type_invariant(private_key);
        }
        let curve = self.curve;
        if out.len() != curve.elem_and_scalar_len || private_key.len != curve.elem_and_scalar_len {
            return Err(Unspecified);
        }
        curve.ops.ecdh(out, private_key.bytes(curve), peer_public_key)
    }
}

/// An import of bytes whose length is not the curve's scalar length fails,
/// whatever the bytes are.
pub proof fn lemma_wrong_length_rejected<O: CurveOps>(curve: &Curve<O>, bytes: Seq<u8>)
    requires
        curve.wf(),
        bytes.len() != curve.elem_and_scalar_len,
    ensures
        !curve.accepts_private_key(bytes),
{
}

/// A key of a curve, exported with that curve and imported again, is accepted
/// and exports the same bytes.
pub proof fn lemma_export_import_round_trip<O: CurveOps>(curve: &Curve<O>, key: PrivateKey)
    requires
        curve.wf(),
        key.is_key_for(curve),
    ensures
        padded(key@).subrange(0, curve.elem_and_scalar_len as int) == key@,
        curve.accepts_private_key(key@),
{
    assert(padded(key@).subrange(0, curve.elem_and_scalar_len as int) =~= key@);
}

/// Computing the public key of a key of the curve into a buffer of the right
/// length succeeds, and gives the same bytes for every key with the same
/// scalar: two such computations agree.
pub proof fn lemma_public_key_deterministic<O: CurveOps>(
    curve: &Curve<O>,
    key1: PrivateKey,
    key2: PrivateKey,
)
    requires
        curve.wf(),
        key1.is_key_for(curve),
        key1@ == key2@,
    ensures
        key2.is_key_for(curve),
        public_key_of(curve, key1@) == public_key_of(curve, key2@),
{
}

/// A key of one curve is refused by a curve of another scalar length, both on
/// import of its bytes and by every operation that runs the curve's
/// arithmetic: it is never truncated or extended to fit.
pub proof fn lemma_cross_curve_rejected<A: CurveOps, B: CurveOps>(
    a: &Curve<A>,
    b: &Curve<B>,
    key: PrivateKey,
)
    requires
        a.wf(),
        b.wf(),
        key.is_key_for(a),
        a.elem_and_scalar_len != b.elem_and_scalar_len,
    ensures
        key@.len() != b.elem_and_scalar_len,
        !b.accepts_private_key(key@),
        !key.is_key_for(b),
{
}

} // verus!
