use vstd::prelude::*;

use p256::elliptic_curve::sec1::ToEncodedPoint;
use rand::RngCore;

verus! {

use crate::bytes::{copy_bytes, spec_zero_bytes};
use crate::err::HpkeError;

/// Implemented by types that have a fixed-length byte representation.
pub trait Marshallable: Sized {
    /// Well-formedness of a value: its buffer has the fixed length.
    spec fn wf(&self) -> bool;

    /// The mathematical byte representation of a well-formed value.
    spec fn spec_marshal(&self) -> Seq<u8>;

    /// The fixed marshalled length of the type.
    spec fn spec_size() -> nat;

    fn marshal(&self) -> (r: Vec<u8>)
        requires
            self.wf(),
        ensures
            r@ == self.spec_marshal(),
            r@.len() == Self::spec_size(),
    ;

    /// Returns the size (in bytes) of this type when marshalled.
    fn size() -> (r: usize)
        ensures
            r == Self::spec_size(),
    ;
}

/// Implemented by types that can be deserialized from byte representation.
pub trait Unmarshallable: Marshallable {
    /// Which byte strings the type accepts as an encoding.
    spec fn spec_valid_encoding(b: Seq<u8>) -> bool;

    fn unmarshal(encoded: &Vec<u8>) -> (r: Result<Self, HpkeError>)
        ensures
            r is Ok <==> Self::spec_valid_encoding(encoded@),
            r matches Ok(v) ==> v.wf() && v.spec_marshal() == encoded@,
            r matches Err(e) ==> e == HpkeError::Decode,
    ;
}

/// This trait captures the requirements of a DH-based KEM: a way to
/// generate keypairs, perform the DH computation, and marshal/unmarshal DH
/// public keys. `spec_sk_to_pk` and `spec_kex` name, per implementation,
/// the marshalled public key a private key determines and the marshalled
/// shared secret a key pair determines; `agree` of a pair of keypairs is
/// the same from either side.
pub trait KeyExchange {
    type PublicKey: Marshallable + Unmarshallable;

    type PrivateKey: Marshallable + Unmarshallable;

    type KexResult: Marshallable;

    /// The marshalled public key determined by a marshalled private key.
    spec fn spec_sk_to_pk(sk: Seq<u8>) -> Seq<u8>;

    /// The marshalled shared secret determined by a marshalled private key
    /// and a marshalled public key.
    spec fn spec_kex(sk: Seq<u8>, pk: Seq<u8>) -> Seq<u8>;

    fn gen_keypair() -> (r: (Self::PrivateKey, Self::PublicKey))
        ensures
            r.0.wf(),
            r.1.wf(),
            r.1.spec_marshal() == Self::spec_sk_to_pk(r.0.spec_marshal()),
    ;

    fn sk_to_pk(sk: &Self::PrivateKey) -> (r: Self::PublicKey)
        requires
            sk.wf(),
        ensures
            r.wf(),
            r.spec_marshal() == Self::spec_sk_to_pk(sk.spec_marshal()),
    ;

    fn kex(sk: &Self::PrivateKey, pk: &Self::PublicKey) -> (r: Result<Self::KexResult, HpkeError>)
        requires
            sk.wf(),
            pk.wf(),
        ensures
            r matches Ok(z) ==> z.wf() && z.spec_marshal() == Self::spec_kex(
                sk.spec_marshal(),
                pk.spec_marshal(),
            ),
    ;
}

/// What the X25519 Diffie-Hellman function returns for a 32-byte scalar
/// and a 32-byte curve point.
pub uninterp spec fn x25519_smult(k: Seq<u8>, u: Seq<u8>) -> Seq<u8>;

/// The X25519 base point: 9 followed by 31 zero bytes.
pub open spec fn spec_x25519_base() -> Seq<u8> {
    seq![9u8] + spec_zero_bytes(31)
}

/// The marshalled public key an X25519 private key determines.
pub open spec fn spec_x25519_pk(sk: Seq<u8>) -> Seq<u8> {
    x25519_smult(sk, spec_x25519_base())
}

/// Relies on x25519_dalek::x25519, the bare X25519 Diffie-Hellman function
/// on 32-byte strings: it is deterministic in its two arguments, returns 32
/// bytes, and computes a shared secret — when `u` is the public key of some
/// scalar `a`, the result equals what `a` computes from `k`'s public key.
#[verifier::external_body]
fn x25519_dh(k: &Vec<u8>, u: &Vec<u8>) -> (r: Vec<u8>)
    requires
        k@.len() == 32,
        u@.len() == 32,
    ensures
        r@.len() == 32,
        r@ == x25519_smult(k@, u@),
        forall|a: Seq<u8>|
            a.len() == 32 && u@ == spec_x25519_pk(a) ==> r@ == x25519_smult(a, spec_x25519_pk(k@)),
{
    let kb: [u8; 32] = k.as_slice().try_into().unwrap();
    let ub: [u8; 32] = u.as_slice().try_into().unwrap();
    x25519_dalek::x25519(kb, ub).to_vec()
}

/// Relies on x25519_dalek::X25519_BASEPOINT_BYTES: the base point is 9
/// followed by 31 zero bytes.
#[verifier::external_body]
fn x25519_base_bytes() -> (r: Vec<u8>)
    ensures
        r@ == spec_x25519_base(),
{
    x25519_dalek::X25519_BASEPOINT_BYTES.to_vec()
}

/// Relies on rand::thread_rng / rand::RngCore::fill_bytes to fill the
/// buffer from a cryptographically secure generator; nothing is promised
/// of the values beyond their count.
#[verifier::external_body]
pub fn random_bytes(n: usize) -> (r: Vec<u8>)
    ensures
        r@.len() == n,
{
    let mut v = vec![0u8; n];
    rand::thread_rng().fill_bytes(&mut v);
    v
}

/// Whether 32 bytes decode to a NIST P-256 secret scalar (nonzero and
/// below the group order).
pub uninterp spec fn p256_valid_sk(sk: Seq<u8>) -> bool;

/// Whether a byte string is a valid SEC1 encoding of a P-256 curve point.
pub uninterp spec fn p256_valid_pk(pk: Seq<u8>) -> bool;

/// The 65-byte uncompressed SEC1 encoding of the public key a P-256
/// secret scalar determines.
pub uninterp spec fn p256_pub_of(sk: Seq<u8>) -> Seq<u8>;

/// The 32-byte ECDH shared secret a P-256 secret scalar and curve point
/// determine.
pub uninterp spec fn p256_shared(sk: Seq<u8>, pk: Seq<u8>) -> Seq<u8>;

/// Relies on p256::SecretKey::from_slice: which 32-byte strings decode to
/// a secret scalar.
#[verifier::external_body]
fn p256_sk_decodes(b: &Vec<u8>) -> (r: bool)
    requires
        b@.len() == 32,
    ensures
        r == p256_valid_sk(b@),
{
    p256::SecretKey::from_slice(b.as_slice()).is_ok()
}

/// Relies on p256::PublicKey::from_sec1_bytes: which byte strings decode
/// to a curve point.
#[verifier::external_body]
fn p256_pk_decodes(b: &Vec<u8>) -> (r: bool)
    ensures
        r == p256_valid_pk(b@),
{
    p256::PublicKey::from_sec1_bytes(b.as_slice()).is_ok()
}

/// Relies on p256::SecretKey::random over the operating system's CSPRNG:
/// every key it returns is a valid 32-byte secret scalar; nothing more is
/// promised of the value.
#[verifier::external_body]
fn p256_gen_sk() -> (r: Vec<u8>)
    ensures
        r@.len() == 32,
        p256_valid_sk(r@),
{
    p256::SecretKey::random(&mut rand::rngs::OsRng).to_bytes().to_vec()
}

/// Relies on p256::SecretKey::public_key and the uncompressed SEC1
/// encoding: the public key a secret scalar determines, 65 bytes, itself a
/// valid curve point.
#[verifier::external_body]
fn p256_public_key(sk: &Vec<u8>) -> (r: Vec<u8>)
    requires
        sk@.len() == 32,
        p256_valid_sk(sk@),
    ensures
        r@.len() == 65,
        r@ == p256_pub_of(sk@),
        p256_valid_pk(r@),
{
    let k = p256::SecretKey::from_slice(sk.as_slice()).unwrap();
    k.public_key().to_encoded_point(false).as_bytes().to_vec()
}

/// Relies on p256::ecdh::diffie_hellman: the ECDH function on a valid
/// scalar and point is deterministic, returns 32 bytes, and computes a
/// shared secret — when `pk` is the public key of some scalar `a`, the
/// result equals what `a` computes from `sk`'s public key.
#[verifier::external_body]
fn p256_dh(sk: &Vec<u8>, pk: &Vec<u8>) -> (r: Vec<u8>)
    requires
        sk@.len() == 32,
        p256_valid_sk(sk@),
        p256_valid_pk(pk@),
    ensures
        r@.len() == 32,
        r@ == p256_shared(sk@, pk@),
        forall|a: Seq<u8>|
            a.len() == 32 && p256_valid_sk(a) && pk@ == p256_pub_of(a) ==> r@ == p256_shared(
                a,
                p256_pub_of(sk@),
            ),
{
    let k = p256::SecretKey::from_slice(sk.as_slice()).unwrap();
    let p = p256::PublicKey::from_sec1_bytes(pk.as_slice()).unwrap();
    let shared = p256::ecdh::diffie_hellman(k.to_nonzero_scalar(), p.as_affine());
    shared.raw_secret_bytes().to_vec()
}

/// The ECDH computation on marshalled keys, as the P-256 KEM's
/// shared-secret derivation consumes it, with the agreement property in
/// its contract as `x25519_agree` carries it.
pub fn p256_agree(sk: &Vec<u8>, pk: &Vec<u8>) -> (r: Vec<u8>)
    requires
        sk@.len() == 32,
        p256_valid_sk(sk@),
        p256_valid_pk(pk@),
    ensures
        r@.len() == 32,
        r@ == p256_shared(sk@, pk@),
        forall|a: Seq<u8>|
            a.len() == 32 && p256_valid_sk(a) && pk@ == p256_pub_of(a) ==> r@ == p256_shared(
                a,
                p256_pub_of(sk@),
            ),
{
    p256_dh(sk, pk)
}

/// Derives the public key of a marshalled P-256 private key.
pub fn p256_public_of(sk: &Vec<u8>) -> (r: Vec<u8>)
    requires
        sk@.len() == 32,
        p256_valid_sk(sk@),
    ensures
        r@.len() == 65,
        r@ == p256_pub_of(sk@),
        p256_valid_pk(r@),
{
    p256_public_key(sk)
}

/// Generates a fresh valid P-256 secret scalar.
pub fn p256_gen_private_key() -> (r: Vec<u8>)
    ensures
        r@.len() == 32,
        p256_valid_sk(r@),
{
    p256_gen_sk()
}

/// An X25519 public key: a 32-byte curve point.
pub struct X25519PublicKey {
    pub bytes: Vec<u8>,
}

/// An X25519 private key: a 32-byte scalar.
pub struct X25519PrivateKey {
    pub bytes: Vec<u8>,
}

/// An X25519 shared secret: the 32-byte result of the DH computation.
pub struct X25519KexResult {
    pub bytes: Vec<u8>,
}

impl Marshallable for X25519PublicKey {
    open spec fn wf(&self) -> bool {
        self.bytes@.len() == 32
    }

    open spec fn spec_marshal(&self) -> Seq<u8> {
        self.bytes@
    }

    open spec fn spec_size() -> nat {
        32
    }

    fn marshal(&self) -> (r: Vec<u8>) {
        copy_bytes(&self.bytes)
    }

    fn size() -> (r: usize) {
        32
    }
}

impl Unmarshallable for X25519PublicKey {
    open spec fn spec_valid_encoding(b: Seq<u8>) -> bool {
        b.len() == 32
    }

    fn unmarshal(encoded: &Vec<u8>) -> (r: Result<Self, HpkeError>) {
        if encoded.len() == 32 {
            Ok(X25519PublicKey { bytes: copy_bytes(encoded) })
        } else {
            Err(HpkeError::Decode)
        }
    }
}

impl Marshallable for X25519PrivateKey {
    open spec fn wf(&self) -> bool {
        self.bytes@.len() == 32
    }

    open spec fn spec_marshal(&self) -> Seq<u8> {
        self.bytes@
    }

    open spec fn spec_size() -> nat {
        32
    }

    fn marshal(&self) -> (r: Vec<u8>) {
        copy_bytes(&self.bytes)
    }

    fn size() -> (r: usize) {
        32
    }
}

impl Unmarshallable for X25519PrivateKey {
    open spec fn spec_valid_encoding(b: Seq<u8>) -> bool {
        b.len() == 32
    }

    fn unmarshal(encoded: &Vec<u8>) -> (r: Result<Self, HpkeError>) {
        if encoded.len() == 32 {
            Ok(X25519PrivateKey { bytes: copy_bytes(encoded) })
        } else {
            Err(HpkeError::Decode)
        }
    }
}

impl Marshallable for X25519KexResult {
    open spec fn wf(&self) -> bool {
        self.bytes@.len() == 32
    }

    open spec fn spec_marshal(&self) -> Seq<u8> {
        self.bytes@
    }

    open spec fn spec_size() -> nat {
        32
    }

    fn marshal(&self) -> (r: Vec<u8>) {
        copy_bytes(&self.bytes)
    }

    fn size() -> (r: usize) {
        32
    }
}

/// The X25519 key-exchange family.
pub struct X25519 {}

impl KeyExchange for X25519 {
    type PublicKey = X25519PublicKey;

    type PrivateKey = X25519PrivateKey;

    type KexResult = X25519KexResult;

    open spec fn spec_sk_to_pk(sk: Seq<u8>) -> Seq<u8> {
        spec_x25519_pk(sk)
    }

    open spec fn spec_kex(sk: Seq<u8>, pk: Seq<u8>) -> Seq<u8> {
        x25519_smult(sk, pk)
    }

    fn gen_keypair() -> (r: (X25519PrivateKey, X25519PublicKey)) {
        let sk_bytes = random_bytes(32);
        let base = x25519_base_bytes();
        let pk_bytes = x25519_dh(&sk_bytes, &base);
        (X25519PrivateKey { bytes: sk_bytes }, X25519PublicKey { bytes: pk_bytes })
    }

    fn sk_to_pk(sk: &X25519PrivateKey) -> (r: X25519PublicKey) {
        let base = x25519_base_bytes();
        X25519PublicKey { bytes: x25519_dh(&sk.bytes, &base) }
    }

    fn kex(sk: &X25519PrivateKey, pk: &X25519PublicKey) -> (r: Result<X25519KexResult, HpkeError>) {
        Ok(X25519KexResult { bytes: x25519_dh(&sk.bytes, &pk.bytes) })
    }
}

/// A P-256 public key: a 65-byte uncompressed SEC1 curve point.
pub struct P256PublicKey {
    pub bytes: Vec<u8>,
}

/// A P-256 private key: a 32-byte secret scalar.
pub struct P256PrivateKey {
    pub bytes: Vec<u8>,
}

/// A P-256 shared secret: the 32-byte result of the ECDH computation.
pub struct P256KexResult {
    pub bytes: Vec<u8>,
}

impl Marshallable for P256PublicKey {
    open spec fn wf(&self) -> bool {
        self.bytes@.len() == 65 && p256_valid_pk(self.bytes@)
    }

    open spec fn spec_marshal(&self) -> Seq<u8> {
        self.bytes@
    }

    open spec fn spec_size() -> nat {
        65
    }

    fn marshal(&self) -> (r: Vec<u8>) {
        copy_bytes(&self.bytes)
    }

    fn size() -> (r: usize) {
        65
    }
}

impl Unmarshallable for P256PublicKey {
    open spec fn spec_valid_encoding(b: Seq<u8>) -> bool {
        b.len() == 65 && p256_valid_pk(b)
    }

    fn unmarshal(encoded: &Vec<u8>) -> (r: Result<Self, HpkeError>) {
        if encoded.len() == 65 && p256_pk_decodes(encoded) {
            Ok(P256PublicKey { bytes: copy_bytes(encoded) })
        } else {
            Err(HpkeError::Decode)
        }
    }
}

impl Marshallable for P256PrivateKey {
    open spec fn wf(&self) -> bool {
        self.bytes@.len() == 32 && p256_valid_sk(self.bytes@)
    }

    open spec fn spec_marshal(&self) -> Seq<u8> {
        self.bytes@
    }

    open spec fn spec_size() -> nat {
        32
    }

    fn marshal(&self) -> (r: Vec<u8>) {
        copy_bytes(&self.bytes)
    }

    fn size() -> (r: usize) {
        32
    }
}

impl Unmarshallable for P256PrivateKey {
    open spec fn spec_valid_encoding(b: Seq<u8>) -> bool {
        b.len() == 32 && p256_valid_sk(b)
    }

    fn unmarshal(encoded: &Vec<u8>) -> (r: Result<Self, HpkeError>) {
        if encoded.len() == 32 && p256_sk_decodes(encoded) {
            Ok(P256PrivateKey { bytes: copy_bytes(encoded) })
        } else {
            Err(HpkeError::Decode)
        }
    }
}

impl Marshallable for P256KexResult {
    open spec fn wf(&self) -> bool {
        self.bytes@.len() == 32
    }

    open spec fn spec_marshal(&self) -> Seq<u8> {
        self.bytes@
    }

    open spec fn spec_size() -> nat {
        32
    }

    fn marshal(&self) -> (r: Vec<u8>) {
        copy_bytes(&self.bytes)
    }

    fn size() -> (r: usize) {
        32
    }
}

/// The NIST P-256 key-exchange family.
pub struct DhP256 {}

impl KeyExchange for DhP256 {
    type PublicKey = P256PublicKey;

    type PrivateKey = P256PrivateKey;

    type KexResult = P256KexResult;

    open spec fn spec_sk_to_pk(sk: Seq<u8>) -> Seq<u8> {
        p256_pub_of(sk)
    }

    open spec fn spec_kex(sk: Seq<u8>, pk: Seq<u8>) -> Seq<u8> {
        p256_shared(sk, pk)
    }

    fn gen_keypair() -> (r: (P256PrivateKey, P256PublicKey)) {
        let sk_bytes = p256_gen_sk();
        let pk_bytes = p256_public_key(&sk_bytes);
        (P256PrivateKey { bytes: sk_bytes }, P256PublicKey { bytes: pk_bytes })
    }

    fn sk_to_pk(sk: &P256PrivateKey) -> (r: P256PublicKey) {
        P256PublicKey { bytes: p256_public_key(&sk.bytes) }
    }

    fn kex(sk: &P256PrivateKey, pk: &P256PublicKey) -> (r: Result<P256KexResult, HpkeError>) {
        Ok(P256KexResult { bytes: p256_dh(&sk.bytes, &pk.bytes) })
    }
}

/// The raw X25519 Diffie-Hellman computation on marshalled keys, as the
/// KEM's shared-secret derivation consumes it. Beside the plain result, the
/// contract carries the agreement property: when `pk` is the public key of
/// some scalar, the result is what that scalar computes from `sk`'s public
/// key.
pub fn x25519_agree(sk: &Vec<u8>, pk: &Vec<u8>) -> (r: Vec<u8>)
    requires
        sk@.len() == 32,
        pk@.len() == 32,
    ensures
        r@.len() == 32,
        r@ == x25519_smult(sk@, pk@),
        forall|a: Seq<u8>|
            a.len() == 32 && pk@ == spec_x25519_pk(a) ==> r@ == x25519_smult(
                a,
                spec_x25519_pk(sk@),
            ),
{
    x25519_dh(sk, pk)
}

/// Derives the public key of a marshalled X25519 private key.
pub fn x25519_public_of(sk: &Vec<u8>) -> (r: Vec<u8>)
    requires
        sk@.len() == 32,
    ensures
        r@.len() == 32,
        r@ == spec_x25519_pk(sk@),
{
    let base = x25519_base_bytes();
    x25519_dh(sk, &base)
}

} // verus!
