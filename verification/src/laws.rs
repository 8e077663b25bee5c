//! What holds of the scheme as a whole: decryption undoes encryption,
//! ciphertexts add up as their messages do, and keys, encodings and
//! commitments are functions of the scalars they are made from.

use crate::elgamal::combine_spec;
use crate::elgamal::decrypt_spec;
use crate::elgamal::encode_spec;
use crate::elgamal::encrypt_spec;
use crate::elgamal::public_spec;
use crate::elgamal::Ephemeral;
use crate::elgamal::Keypair;
use crate::elgamal::Message;
use crate::elgamal::PublicKey;
use crate::elgamal::SecretKey;
use crate::group::group_order;
use crate::group::index_add;
use crate::group::index_mul;
use vstd::arithmetic::div_mod::lemma_add_mod_noop;
use vstd::arithmetic::div_mod::lemma_fundamental_div_mod;
use vstd::arithmetic::div_mod::lemma_mod_multiples_vanish;
use vstd::arithmetic::div_mod::lemma_mul_mod_noop_right;
use vstd::arithmetic::div_mod::lemma_small_mod;
use vstd::arithmetic::div_mod::lemma_sub_mod_noop;
use vstd::arithmetic::mul::lemma_mul_is_commutative;
use vstd::arithmetic::mul::lemma_mul_is_distributive_add;
use vstd::prelude::*;

verus! {

/// Multiplying by a scalar and then by another reaches the same element in
/// either order, whether or not the first product was reduced.
proof fn lemma_shared_secret(secret: nat, nonce: nat)
    ensures
        index_mul(secret, index_mul(nonce, 1)) == index_mul(nonce, index_mul(secret, 1)),
        index_mul(secret, index_mul(nonce, 1)) == (nonce * secret) % group_order(),
{
    let order = group_order() as int;
    lemma_mul_mod_noop_right(secret as int, nonce as int, order);
    lemma_mul_mod_noop_right(nonce as int, secret as int, order);
    lemma_mul_is_commutative(nonce as int, secret as int);
    assert(nonce * 1 == nonce);
    assert(secret * 1 == secret);
}

/// Round trip: whatever the nonce, decrypting with the secret key what was
/// encrypted to its public key gives the message's element back.
pub proof fn lemma_decrypt_inverts_encrypt(keys: Keypair, message: Message, nonce: Ephemeral)
    requires
        keys.wf(),
        message.wf(),
    ensures
        decrypt_spec(keys.secret@, encrypt_spec(keys.public@, message@, nonce@)) == message@,
{
    let order = group_order() as int;
    let element = message@ as int;
    let shared = ((nonce@ * keys.secret@) % group_order()) as int;
    lemma_shared_secret(keys.secret@, nonce@);
    lemma_small_mod(shared as nat, group_order());
    lemma_small_mod(message@, group_order());
    lemma_sub_mod_noop(element + shared, shared, order);
    assert(element + shared - shared == element);
}

/// Homomorphic addition: the sum of two ciphertexts under one key decrypts
/// to the sum of the two messages' elements.
pub proof fn lemma_sum_decrypts_to_sum(
    keys: Keypair,
    first: Message,
    first_nonce: Ephemeral,
    second: Message,
    second_nonce: Ephemeral,
)
    requires
        keys.wf(),
    ensures
        decrypt_spec(
            keys.secret@,
            combine_spec(
                encrypt_spec(keys.public@, first@, first_nonce@),
                encrypt_spec(keys.public@, second@, second_nonce@),
            ),
        ) == index_add(first@, second@),
{
    let order = group_order() as int;
    let secret = keys.secret@ as int;
    let n1 = first_nonce@ as int;
    let n2 = second_nonce@ as int;
    let m1 = first@ as int;
    let m2 = second@ as int;
    let x1 = (n1 * secret) % order;
    let x2 = (n2 * secret) % order;
    lemma_shared_secret(keys.secret@, first_nonce@);
    lemma_shared_secret(keys.secret@, second_nonce@);
    // the two commitments add up to the commitment to the sum of the nonces
    lemma_add_mod_noop(n1, n2, order);
    assert(n1 * 1 == n1 && n2 * 1 == n2);
    // the two payloads add up without the inner reductions
    lemma_add_mod_noop(m1 + x1, m2 + x2, order);
    // the shared secret of the sum
    lemma_mul_mod_noop_right(secret, n1 + n2, order);
    lemma_sub_mod_noop(m1 + x1 + m2 + x2, secret * (n1 + n2), order);
    // what is left of the blinding is a multiple of the order
    lemma_fundamental_div_mod(n1 * secret, order);
    lemma_fundamental_div_mod(n2 * secret, order);
    let q1 = (n1 * secret) / order;
    let q2 = (n2 * secret) / order;
    lemma_mul_is_distributive_add(secret, n1, n2);
    lemma_mul_is_commutative(secret, n1);
    lemma_mul_is_commutative(secret, n2);
    lemma_mul_is_distributive_add(order, -q1, -q2);
    assert(order * (-q1) == -(order * q1)) by (nonlinear_arith);
    assert(order * (-q2) == -(order * q2)) by (nonlinear_arith);
    assert(m1 + x1 + m2 + x2 - secret * (n1 + n2) == order * (-q1 + -q2) + (m1 + m2));
    lemma_mod_multiples_vanish(-q1 + -q2, m1 + m2, order);
}

/// Key derivation is a function of the secret: two public keys derived from
/// one secret key name the same element, the generator times the secret.
pub proof fn lemma_derivation_consistent(secret: SecretKey, first: PublicKey, second: PublicKey)
    requires
        first@ == public_spec(secret@),
        second@ == public_spec(secret@),
    ensures
        first@ == second@,
        first@ == secret@ % group_order(),
{
    assert(secret@ * 1 == secret@);
}

/// The encoding of plaintexts is injective on the scalar field: two
/// plaintexts encode to one element exactly when they agree modulo the group
/// order.
pub proof fn lemma_encoding_injective(first: nat, second: nat)
    ensures
        encode_spec(first) == encode_spec(second) <==> first % group_order() == second
            % group_order(),
{
    assert(first * 1 == first);
    assert(second * 1 == second);
}

/// The commitment follows the nonce: two encryptions have the same
/// commitment exactly when their nonces agree modulo the group order,
/// whatever the key and the messages.
pub proof fn lemma_commitment_follows_nonce(
    public: PublicKey,
    first: Message,
    first_nonce: Ephemeral,
    second: Message,
    second_nonce: Ephemeral,
)
    ensures
        encrypt_spec(public@, first@, first_nonce@).0 == encrypt_spec(
            public@,
            second@,
            second_nonce@,
        ).0 <==> first_nonce@ % group_order() == second_nonce@ % group_order(),
{
    assert(first_nonce@ * 1 == first_nonce@);
    assert(second_nonce@ * 1 == second_nonce@);
}

} // verus!
