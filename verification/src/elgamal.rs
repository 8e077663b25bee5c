//! ElGamal keys, messages and ciphertexts over the Ristretto group.
//!
//! Every value is read through the index of the group element it holds, or
//! the integer its scalar stands for, and each operation states its result as
//! arithmetic modulo the group order.

use crate::group::basepoint_table;
use crate::group::clear_scalar;
use crate::group::group_order;
use crate::group::index_add;
use crate::group::index_mul;
use crate::group::index_sub;
use crate::group::point_add;
use crate::group::point_index;
use crate::group::point_mul;
use crate::group::point_sub;
use crate::group::random_scalar;
use crate::group::scalar_value;
use crate::group::table_index;
use crate::group::table_mul;
use crate::group::zero_scalar;
use curve25519_dalek::ristretto::RistrettoBasepointTable;
use curve25519_dalek::ristretto::RistrettoPoint;
use curve25519_dalek::scalar::Scalar;
use rand_core::CryptoRng;
use rand_core::RngCore;
use std::ops::Add;
use std::ops::Mul;
use vstd::prelude::*;
use vstd::std_specs::convert::FromSpecImpl;
use vstd::std_specs::ops::AddSpecImpl;
use vstd::std_specs::ops::MulSpecImpl;

verus! {

/// Index of the element that encodes a plaintext: the generator times the
/// plaintext.
pub open spec fn encode_spec(plaintext: nat) -> nat {
    index_mul(plaintext, 1)
}

/// Index of the public key that belongs to a secret: the generator times the
/// secret.
pub open spec fn public_spec(secret: nat) -> nat {
    index_mul(secret, 1)
}

/// The ciphertext of `message` under `public` with `nonce`, as the pair of
/// the commitment `generator * nonce` and the payload
/// `message + public * nonce`.
pub open spec fn encrypt_spec(public: nat, message: nat, nonce: nat) -> (nat, nat) {
    (index_mul(nonce, 1), index_add(message, index_mul(nonce, public)))
}

/// What a ciphertext decrypts to under `secret`: the payload less `secret`
/// times the commitment.
pub open spec fn decrypt_spec(secret: nat, cipher: (nat, nat)) -> nat {
    index_sub(cipher.1, index_mul(secret, cipher.0))
}

/// The componentwise sum of two ciphertexts.
pub open spec fn combine_spec(a: (nat, nat), b: (nat, nat)) -> (nat, nat) {
    (index_add(a.0, b.0), index_add(a.1, b.1))
}

/// A public key: the generator times the owner's secret.
#[derive(Clone, Copy, Debug)]
pub struct PublicKey(pub(crate) RistrettoPoint);

/// A secret key: one scalar.
#[derive(Clone, Debug)]
pub struct SecretKey(pub(crate) Scalar);

/// A secret key together with its public key.
#[derive(Clone, Debug)]
pub struct Keypair {
    pub secret: SecretKey,
    pub public: PublicKey,
}

/// A plaintext, encoded as a group element.
///
/// The encoding multiplies the generator by the plaintext scalar and is not
/// meant to be inverted: whoever needs the plaintext keeps it, and uses what
/// decryption returns only to compare.
pub struct Message(pub RistrettoPoint);

/// A ciphertext: the commitment to the nonce, and the blinded message.
#[derive(Clone, Copy, Debug)]
pub struct Encryption {
    pub commitment: RistrettoPoint,
    pub encryption: RistrettoPoint,
}

/// A nonce for one encryption, overwritten with zeros when it is dropped.
///
/// The scalar is public so that a proof about the encryption can borrow it
/// without taking a copy that would escape the erasure.
pub struct Ephemeral(pub Scalar);

impl View for PublicKey {
    type V = nat;

    /// The index of the key's group element.
    closed spec fn view(&self) -> nat {
        point_index(self.0)
    }
}

impl View for SecretKey {
    type V = nat;

    /// The integer the secret scalar stands for.
    closed spec fn view(&self) -> nat {
        scalar_value(self.0)
    }
}

impl View for Message {
    type V = nat;

    /// The index of the message's group element.
    open spec fn view(&self) -> nat {
        point_index(self.0)
    }
}

impl View for Encryption {
    type V = (nat, nat);

    /// The indices of the commitment and of the payload.
    open spec fn view(&self) -> (nat, nat) {
        (point_index(self.commitment), point_index(self.encryption))
    }
}

impl View for Ephemeral {
    type V = nat;

    /// The integer the nonce stands for.
    open spec fn view(&self) -> nat {
        scalar_value(self.0)
    }
}

impl Keypair {
    /// The public key is the generator times the secret.
    pub open spec fn wf(&self) -> bool {
        self.public@ == public_spec(self.secret@)
    }
}

impl Message {
    /// The message's element is named by an index below the group order, as
    /// every encoded plaintext is.
    pub open spec fn wf(&self) -> bool {
        self@ < group_order()
    }
}

impl<'a> From<&'a Scalar> for Message {
    /// Encodes a plaintext scalar as the generator times that scalar.
    fn from(source: &'a Scalar) -> (r: Message)
        ensures
            r@ == encode_spec(scalar_value(*source)),
            r.wf(),
    {
        Message(table_mul(basepoint_table(), source))
    }
}

/// The encoding is computed by the group library, so the conversion names no
/// value in contracts; what is known of the result is stated on `from`.
impl<'a> FromSpecImpl<&'a Scalar> for Message {
    open spec fn obeys_from_spec() -> bool {
        false
    }

    open spec fn from_spec(source: &'a Scalar) -> Message {
        arbitrary()
    }
}

impl<'a, 'b> Add<&'b Encryption> for &'a Encryption {
    type Output = Encryption;

    /// Adds two ciphertexts component by component.
    fn add(self, other: &'b Encryption) -> (r: Encryption)
        ensures
            r@ == combine_spec(self@, other@),
    {
        Encryption {
            commitment: point_add(&self.commitment, &other.commitment),
            encryption: point_add(&self.encryption, &other.encryption),
        }
    }
}

/// The sum is computed by the group library, so `+` names no value in
/// contracts; what is known of the result is stated on `add`.
impl<'a, 'b> AddSpecImpl<&'b Encryption> for &'a Encryption {
    open spec fn obeys_add_spec() -> bool {
        false
    }

    open spec fn add_req(self, other: &'b Encryption) -> bool {
        true
    }

    open spec fn add_spec(self, other: &'b Encryption) -> Encryption {
        arbitrary()
    }
}

impl From<Scalar> for Ephemeral {
    /// Takes a scalar as a nonce; from here on it is erased when dropped.
    fn from(source: Scalar) -> (r: Ephemeral)
        ensures
            r@ == scalar_value(source),
    {
        Ephemeral(source)
    }
}

/// In contracts the conversion is the nonce that wraps the scalar.
impl FromSpecImpl<Scalar> for Ephemeral {
    open spec fn obeys_from_spec() -> bool {
        true
    }

    open spec fn from_spec(source: Scalar) -> Ephemeral {
        Ephemeral(source)
    }
}

impl Default for Ephemeral {
    /// The zero nonce.
    fn default() -> (r: Ephemeral)
        ensures
            r@ == 0,
    {
        Ephemeral(zero_scalar())
    }
}

impl Ephemeral {
    /// Overwrites the nonce with zeros.
    pub fn erase(&mut self)
        ensures
            final(self)@ == 0,
        opens_invariants none
        no_unwind
    {
        clear_scalar(&mut self.0);
    }
}

impl Drop for Ephemeral {
    /// Erases the nonce when it goes out of scope.
    fn drop(&mut self)
        ensures
            final(self)@ == 0,
        opens_invariants none
        no_unwind
    {
        self.erase();
    }
}

impl<'a, 'b> Mul<&'b RistrettoBasepointTable> for &'a Ephemeral {
    type Output = RistrettoPoint;

    /// The nonce times the element the table was built for.
    fn mul(self, other: &'b RistrettoBasepointTable) -> (r: RistrettoPoint)
        ensures
            point_index(r) == index_mul(self@, table_index(*other)),
    {
        table_mul(other, &self.0)
    }
}

/// The product is computed by the group library, so `*` names no value in
/// contracts; what is known of the result is stated on `mul`.
impl<'a, 'b> MulSpecImpl<&'b RistrettoBasepointTable> for &'a Ephemeral {
    open spec fn obeys_mul_spec() -> bool {
        false
    }

    open spec fn mul_req(self, other: &'b RistrettoBasepointTable) -> bool {
        true
    }

    open spec fn mul_spec(self, other: &'b RistrettoBasepointTable) -> RistrettoPoint {
        arbitrary()
    }
}

impl<'a, 'b> Mul<&'a Ephemeral> for &'b RistrettoBasepointTable {
    type Output = RistrettoPoint;

    /// The nonce times the element the table was built for.
    fn mul(self, other: &'a Ephemeral) -> (r: RistrettoPoint)
        ensures
            point_index(r) == index_mul(other@, table_index(*self)),
    {
        table_mul(self, &other.0)
    }
}

/// The product is computed by the group library, so `*` names no value in
/// contracts; what is known of the result is stated on `mul`.
impl<'a, 'b> MulSpecImpl<&'a Ephemeral> for &'b RistrettoBasepointTable {
    open spec fn obeys_mul_spec() -> bool {
        false
    }

    open spec fn mul_req(self, other: &'a Ephemeral) -> bool {
        true
    }

    open spec fn mul_spec(self, other: &'a Ephemeral) -> RistrettoPoint {
        arbitrary()
    }
}

impl PublicKey {
    /// Encrypts `message` to this key with `nonce`: the commitment is the
    /// generator times the nonce, the payload the message plus the key times
    /// the nonce.
    pub fn encrypt(&self, message: &Message, nonce: &Ephemeral) -> (r: Encryption)
        ensures
            r@ == encrypt_spec(self@, message@, nonce@),
    {
        let commitment: RistrettoPoint = table_mul(basepoint_table(), &nonce.0);
        let shared: RistrettoPoint = point_mul(&self.0, &nonce.0);
        let encryption: RistrettoPoint = point_add(&message.0, &shared);

        Encryption { commitment, encryption }
    }
}

impl From<PublicKey> for RistrettoPoint {
    /// The key's group element.
    fn from(public: PublicKey) -> (r: RistrettoPoint)
        ensures
            point_index(r) == public@,
    {
        public.0
    }
}

/// In contracts the conversion is the element the key holds.
impl FromSpecImpl<PublicKey> for RistrettoPoint {
    open spec fn obeys_from_spec() -> bool {
        true
    }

    closed spec fn from_spec(public: PublicKey) -> RistrettoPoint {
        public.0
    }
}

impl<'a> From<&'a SecretKey> for PublicKey {
    /// Derives the public key: the generator times the secret.
    fn from(secret: &'a SecretKey) -> (r: PublicKey)
        ensures
            r@ == public_spec(secret@),
    {
        PublicKey(table_mul(basepoint_table(), &secret.0))
    }
}

/// The key is computed by the group library, so the conversion names no
/// value in contracts; what is known of the result is stated on `from`.
impl<'a> FromSpecImpl<&'a SecretKey> for PublicKey {
    open spec fn obeys_from_spec() -> bool {
        false
    }

    open spec fn from_spec(secret: &'a SecretKey) -> PublicKey {
        arbitrary()
    }
}

impl From<Scalar> for SecretKey {
    /// Takes a scalar as a secret key.
    fn from(source: Scalar) -> (r: SecretKey)
        ensures
            r@ == scalar_value(source),
    {
        SecretKey(source)
    }
}

/// In contracts the conversion is the key that wraps the scalar.
impl FromSpecImpl<Scalar> for SecretKey {
    open spec fn obeys_from_spec() -> bool {
        true
    }

    closed spec fn from_spec(source: Scalar) -> SecretKey {
        SecretKey(source)
    }
}

impl SecretKey {
    /// Draws a scalar from `csprng` and takes it as a secret key.  Which
    /// scalar comes out is up to the generator; whichever it is, the key is
    /// an element of the scalar field, an integer below the group order.
    pub fn generate<C>(csprng: &mut C) -> (r: SecretKey) where C: CryptoRng + RngCore
        ensures
            r@ < group_order(),
    {
        SecretKey::from(random_scalar(csprng))
    }

    /// Decrypts a ciphertext to the group element it hides: the payload less
    /// the secret times the commitment.
    pub fn decrypt(&self, encryption: &Encryption) -> (r: RistrettoPoint)
        ensures
            point_index(r) == decrypt_spec(self@, encryption@),
    {
        let secret: RistrettoPoint = point_mul(&encryption.commitment, &self.0);

        point_sub(&encryption.encryption, &secret)
    }
}

impl From<SecretKey> for Scalar {
    /// The secret scalar.
    fn from(secret: SecretKey) -> (r: Scalar)
        ensures
            scalar_value(r) == secret@,
    {
        secret.0
    }
}

/// In contracts the conversion is the scalar the key holds.
impl FromSpecImpl<SecretKey> for Scalar {
    open spec fn obeys_from_spec() -> bool {
        true
    }

    closed spec fn from_spec(secret: SecretKey) -> Scalar {
        secret.0
    }
}

impl From<SecretKey> for Keypair {
    /// Binds a secret key to the public key derived from it.
    fn from(secret: SecretKey) -> (r: Keypair)
        ensures
            r.secret == secret,
            r.wf(),
    {
        let public: PublicKey = PublicKey::from(&secret);

        Keypair { secret, public }
    }
}

/// The public half is computed by the group library, so the conversion names
/// no value in contracts; what is known of the result is stated on `from`.
impl FromSpecImpl<SecretKey> for Keypair {
    open spec fn obeys_from_spec() -> bool {
        false
    }

    open spec fn from_spec(secret: SecretKey) -> Keypair {
        arbitrary()
    }
}

impl Keypair {
    /// Draws a secret key from `csprng` and binds it to the public key
    /// derived from it.
    pub fn generate<C>(csprng: &mut C) -> (r: Keypair) where C: CryptoRng + RngCore
        ensures
            r.wf(),
    {
        let secret: SecretKey = SecretKey::generate(csprng);

        Keypair::from(secret)
    }

    /// Encrypts `message` to the pair's public key with `nonce`.
    pub fn encrypt(&self, message: &Message, nonce: &Ephemeral) -> (r: Encryption)
        ensures
            r@ == encrypt_spec(self.public@, message@, nonce@),
    {
        self.public.encrypt(message, nonce)
    }
}

} // verus!
