//! Key derivation: a passphrase and a salt are stretched into the 32-byte
//! key of the vault.
//!
//! The construction is iterated hashing with the standard library's default
//! hasher, created unkeyed, so the key depends on the two inputs alone.
//! Byte strings are fed to the hasher behind their length, and numbers as
//! eight bytes, least significant first. It is not a vetted
//! password-hashing function, and the hasher's algorithm may change between
//! releases of the standard library.

use std::collections::hash_map::DefaultHasher;
use std::hash::Hasher;
use vstd::prelude::*;
use vstd::slice::slice_to_vec;
use vstd::std_specs::hash::DefaultHasherAdditionalSpecFns;
use vstd::utf8::encode_utf8;

verus! {

/// Number of stirring rounds that follow the initial fill.
pub const ROUNDS: u32 = 10000;

/// Byte `i` of a number, least significant first.
pub open spec fn digest_byte(digest: u64, i: int) -> u8 {
    ((digest >> ((8 * i) as u64)) % 256) as u8
}

/// The eight bytes of a number, least significant first.
pub open spec fn number_bytes(n: u64) -> Seq<u8> {
    Seq::new(8, |i: int| digest_byte(n, i))
}

/// What the hasher is fed for a byte string: its length, then its bytes.
pub open spec fn fed_bytes(data: Seq<u8>) -> Seq<Seq<u8>> {
    seq![number_bytes(data.len() as u64), data]
}

/// The digest of a byte string followed by a counter.
pub open spec fn counter_digest(data: Seq<u8>, counter: u64) -> u64 {
    DefaultHasher::spec_finish(fed_bytes(data).push(number_bytes(counter)))
}

/// The digest of a key followed by a salt.
pub open spec fn pair_digest(key: Seq<u8>, salt: Seq<u8>) -> u64 {
    DefaultHasher::spec_finish(fed_bytes(key) + fed_bytes(salt))
}

/// The initial fill: byte `i` of the key is the low byte of the digest of
/// the material with counter `i`.
pub open spec fn initial_key(material: Seq<u8>) -> Seq<u8> {
    Seq::new(32, |i: int| digest_byte(counter_digest(material, i as u64), 0))
}

/// One stirring round: the eight bytes of the digest of key and salt are
/// folded into the first eight bytes of the key.
pub open spec fn stir(key: Seq<u8>, salt: Seq<u8>) -> Seq<u8> {
    let digest = pair_digest(key, salt);
    Seq::new(
        32,
        |i: int|
            if i < 8 {
                key[i] ^ digest_byte(digest, i)
            } else {
                key[i]
            },
    )
}

/// The key after a number of stirring rounds.
pub open spec fn stirred(key: Seq<u8>, salt: Seq<u8>, rounds: nat) -> Seq<u8>
    decreases rounds,
{
    if rounds == 0 {
        key
    } else {
        stir(stirred(key, salt, (rounds - 1) as nat), salt)
    }
}

/// The key that a passphrase and a salt derive.
pub open spec fn derived_key(passphrase: Seq<char>, salt: Seq<u8>) -> Seq<u8> {
    stirred(initial_key(encode_utf8(passphrase) + salt), salt, ROUNDS as nat)
}

/// A derived key has 32 bytes, whatever the lengths of passphrase and salt.
pub proof fn lemma_derived_key_len(passphrase: Seq<char>, salt: Seq<u8>)
    ensures
        derived_key(passphrase, salt).len() == 32,
{
    lemma_stirred_len(initial_key(encode_utf8(passphrase) + salt), salt, ROUNDS as nat);
}

/// Stirring keeps the length of a 32-byte key.
proof fn lemma_stirred_len(key: Seq<u8>, salt: Seq<u8>, rounds: nat)
    requires
        key.len() == 32,
    ensures
        stirred(key, salt, rounds).len() == 32,
    decreases rounds,
{
    if rounds > 0 {
        lemma_stirred_len(key, salt, (rounds - 1) as nat);
    }
}

/// Derivation is deterministic: the same passphrase and salt give the same
/// key.
pub proof fn lemma_derived_key_deterministic(
    passphrase1: Seq<char>,
    salt1: Seq<u8>,
    passphrase2: Seq<char>,
    salt2: Seq<u8>,
)
    requires
        passphrase1 == passphrase2,
        salt1 == salt2,
    ensures
        derived_key(passphrase1, salt1) == derived_key(passphrase2, salt2),
{
}

/// Byte `i` of `digest`, least significant first.
fn byte_of(digest: u64, i: usize) -> (b: u8)
    requires
        i < 8,
    ensures
        b == digest_byte(digest, i as int),
{
    let shift: u64 = 8 * (i as u64);
    ((digest >> shift) % 256) as u8
}

/// Feeds a number to the hasher.
fn feed_number(hasher: &mut DefaultHasher, n: u64)
    ensures
        final(hasher)@ == old(hasher)@.push(number_bytes(n)),
{
    let mut bytes = [0u8; 8];
    let mut i: usize = 0;
    while i < 8
        invariant
            i <= 8,
            forall|j: int| 0 <= j < i ==> bytes@[j] == digest_byte(n, j),
        decreases 8 - i,
    {
        bytes[i] = byte_of(n, i);
        i += 1;
    }
    assert(bytes@ =~= number_bytes(n));
    hasher.write(bytes.as_slice());
}

/// Feeds a byte string to the hasher.
fn feed_bytes(hasher: &mut DefaultHasher, data: &[u8])
    ensures
        final(hasher)@ == old(hasher)@ + fed_bytes(data@),
{
    feed_number(hasher, data.len() as u64);
    hasher.write(data);
    assert(hasher@ =~= old(hasher)@ + fed_bytes(data@));
}

/// Digest of `data` followed by `counter`.
fn digest_with_counter(data: &[u8], counter: u64) -> (digest: u64)
    ensures
        digest == counter_digest(data@, counter),
{
    let mut hasher = DefaultHasher::new();
    feed_bytes(&mut hasher, data);
    feed_number(&mut hasher, counter);
    assert(hasher@ =~= fed_bytes(data@).push(number_bytes(counter)));
    hasher.finish()
}

/// Digest of `key` followed by `salt`.
fn digest_of_pair(key: &[u8], salt: &[u8]) -> (digest: u64)
    ensures
        digest == pair_digest(key@, salt@),
{
    let mut hasher = DefaultHasher::new();
    feed_bytes(&mut hasher, key);
    feed_bytes(&mut hasher, salt);
    assert(hasher@ =~= fed_bytes(key@) + fed_bytes(salt@));
    hasher.finish()
}

/// Derives the key of a vault from its passphrase and salt.
///
/// The result is a function of the two inputs: the same passphrase and salt
/// always give the same 32 bytes.
pub fn derive_key(password: &str, salt: &[u8]) -> (key: [u8; 32])
    ensures
        key@ == derived_key(password@, salt@),
{
    let mut material: Vec<u8> = slice_to_vec(password.as_bytes());
    material.extend_from_slice(salt);
    assert(material@ == encode_utf8(password@) + salt@);

    let mut key = [0u8; 32];
    let mut i: usize = 0;
    while i < 32
        invariant
            i <= 32,
            forall|j: int|
                0 <= j < i ==> key@[j] == digest_byte(
                    counter_digest(material@, j as u64),
                    0,
                ),
        decreases 32 - i,
    {
        let digest = digest_with_counter(material.as_slice(), i as u64);
        key[i] = byte_of(digest, 0);
        i += 1;
    }
    assert(key@ =~= initial_key(material@));

    let mut round: u32 = 0;
    while round < ROUNDS
        invariant
            round <= ROUNDS,
            key@ == stirred(initial_key(material@), salt@, round as nat),
        decreases ROUNDS - round,
    {
        let ghost before = key@;
        let digest = digest_of_pair(key.as_slice(), salt);
        let mut j: usize = 0;
        while j < 8
            invariant
                j <= 8,
                forall|k: int| 0 <= k < j ==> key@[k] == before[k] ^ digest_byte(digest, k),
                forall|k: int| j <= k < 32 ==> key@[k] == before[k],
            decreases 8 - j,
        {
            key[j] = key[j] ^ byte_of(digest, j);
            j += 1;
        }
        assert(key@ =~= stir(before, salt@));
        round += 1;
    }
    key
}

} // verus!
