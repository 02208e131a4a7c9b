//! Key derivation and encryption of byte payloads.
//!
//! A passphrase is stretched into a key with scrypt. Payloads are padded to
//! whole blocks, and the blocks are chained through AES-256 in CBC mode. The
//! block transform itself is the `crypto` crate's; what is proved here is the
//! padding, the checks on sizes, and the loop that drains the transform
//! through a scratch buffer of fixed size.

pub mod engine;
pub mod padding;
mod stream;

use vstd::arithmetic::power2::lemma2_to64;
use vstd::prelude::*;
use vstd::string::StringSliceAdditionalSpecFns;
use crate::crypt::engine::{
    aes256_cbc_decrypt, aes256_cbc_encrypt, cbc_decryptor, cbc_encryptor, max_derived_len,
    max_digest_input, scrypt_into, scrypt_output, sha256, sha256_digest,
};
use crate::crypt::padding::{
    lemma_padded_len, lemma_unpad_inverts_pad, pad, padded, padded_len, unpad, unpadded,
};
use crate::crypt::stream::{drain_decryptor, drain_encryptor};

verus! {


/// Number of bytes of a key.
pub const KEY_SIZE: usize = 32;

/// Number of bytes of an initialization vector.
pub const IV_SIZE: usize = 16;

/// Number of bytes of one cipher block.
pub const BLOCK_SIZE: usize = 16;

/// Number of bytes of the scratch buffer through which output is drained.
pub const SCRATCH_SIZE: usize = 4096;

/// Why an encryption or a decryption failed.
#[derive(Debug, Clone, Copy, PartialEq, Eq, Structural)]
pub enum CipherError {
    /// The key is not `KEY_SIZE` bytes long, or the initialization vector is
    /// not `IV_SIZE` bytes long.
    InvalidSize,
    /// The data is not a whole number of blocks, or what was decrypted does
    /// not end in well-formed padding: the key is wrong, or the data is
    /// damaged.
    InvalidPadding,
    /// The block transform reported a fault. It reports none on whole
    /// blocks, which are all that it is given.
    TransformFailed,
}

/// The salt of the key derivation: the four bytes of the word "salt".
pub open spec fn key_salt() -> Seq<u8> {
    seq![0x73u8, 0x61u8, 0x6cu8, 0x74u8]
}

/// The key of `len` bytes that belongs to a passphrase: scrypt's output for
/// the fixed salt with N = 2^8, r = 8 and p = 4.
pub open spec fn derived_key(passphrase: Seq<u8>, len: nat) -> Seq<u8> {
    scrypt_output(passphrase, key_salt(), 8, 8, 4, len)
}

/// Fills `key` with the key that belongs to the passphrase.
///
/// The same passphrase always gives the same key. The buffer is not empty,
/// and neither it nor the passphrase is longer than scrypt can take.
pub fn derive_key(pass: &str, key: &mut [u8])
    requires
        pass.spec_bytes().len() <= max_digest_input(),
        0 < old(key)@.len() <= max_derived_len(),
    ensures
        final(key)@.len() == old(key)@.len(),
        final(key)@ == derived_key(pass.spec_bytes(), old(key)@.len()),
{
    let salt: [u8; 4] = [0x73, 0x61, 0x6c, 0x74];
    proof {
        lemma2_to64();
        assert(salt@ =~= key_salt());
    }
    scrypt_into(pass.as_bytes(), salt.as_slice(), 8, 8, 4, key);
}

/// Whether a key and an initialization vector have the sizes that the
/// cipher takes.
pub open spec fn sizes_ok(key: Seq<u8>, iv: Seq<u8>) -> bool {
    key.len() == KEY_SIZE && iv.len() == IV_SIZE
}

/// What encrypting `data` gives: the padded payload, chained through
/// AES-256 under the SHA-256 digest of the key.
pub open spec fn encrypted(key: Seq<u8>, iv: Seq<u8>, data: Seq<u8>) -> Result<
    Seq<u8>,
    CipherError,
> {
    if !sizes_ok(key, iv) {
        Err(CipherError::InvalidSize)
    } else {
        Ok(aes256_cbc_encrypt(sha256_digest(key), iv, padded(data)))
    }
}

/// What decrypting `data` gives: what is left of the decrypted blocks when
/// the padding is taken away.
pub open spec fn decrypted(key: Seq<u8>, iv: Seq<u8>, data: Seq<u8>) -> Result<
    Seq<u8>,
    CipherError,
> {
    if !sizes_ok(key, iv) {
        Err(CipherError::InvalidSize)
    } else if data.len() % 16 != 0 {
        Err(CipherError::InvalidPadding)
    } else {
        match unpadded(aes256_cbc_decrypt(sha256_digest(key), iv, data)) {
            Some(plain) => Ok(plain),
            None => Err(CipherError::InvalidPadding),
        }
    }
}

/// Whether the block transform, run over `blocks` in its encrypting and then
/// in its decrypting direction under one key and one initialization vector,
/// keeps their length and gives them back.
pub open spec fn transform_inverts(key: Seq<u8>, iv: Seq<u8>, blocks: Seq<u8>) -> bool {
    let ct = aes256_cbc_encrypt(key, iv, blocks);
    ct.len() == blocks.len() && aes256_cbc_decrypt(key, iv, ct) == blocks
}

/// Decrypting a ciphertext under the key and the initialization vector
/// that made it gives the payload back, wherever the block transform
/// inverts itself on the padded payload.
pub proof fn lemma_decrypt_inverts_encrypt(key: Seq<u8>, iv: Seq<u8>, data: Seq<u8>)
    ensures
        sizes_ok(key, iv) && transform_inverts(sha256_digest(key), iv, padded(data)) ==> {
            &&& encrypted(key, iv, data) matches Ok(ct)
            &&& decrypted(key, iv, ct) == Ok::<Seq<u8>, CipherError>(data)
        },
{
    lemma_unpad_inverts_pad(data);
    lemma_padded_len(data.len());
}

/// Passphrases with the same bytes have the same key.
pub proof fn lemma_derived_key_deterministic(first: &str, second: &str, len: nat)
    requires
        first@ == second@,
    ensures
        derived_key(first.spec_bytes(), len) == derived_key(second.spec_bytes(), len),
{
}

/// Whether a result holds what `expected` says.
pub open spec fn agrees(res: Result<Vec<u8>, CipherError>, expected: Result<Seq<u8>, CipherError>)
    -> bool {
    match res {
        Ok(bytes) => expected == Ok::<Seq<u8>, CipherError>(bytes@),
        Err(e) => expected == Err::<Seq<u8>, CipherError>(e),
    }
}

/// Encrypts a payload under a key of 32 bytes and an initialization vector
/// of 16 bytes, which is left as it was.
///
/// A key or an initialization vector of another size is refused. The
/// ciphertext is a whole number of blocks and longer than the payload.
pub fn encrypt(data: &[u8], key: &[u8], iv: &mut [u8]) -> (res: Result<Vec<u8>, CipherError>)
    ensures
        final(iv)@ == old(iv)@,
        agrees(res, encrypted(key@, old(iv)@, data@)),
        res is Ok <==> sizes_ok(key@, old(iv)@),
        res matches Ok(ct) ==> {
            &&& ct@.len() == padded_len(data@.len())
            &&& ct@.len() % 16 == 0
            &&& ct@.len() > data@.len()
        },
{
    if key.len() != KEY_SIZE || iv.len() != IV_SIZE {
        return Err(CipherError::InvalidSize);
    }
    proof {
        lemma_padded_len(data@.len());
    }
    let hashed_key = sha256(key);
    let input = pad(data);
    let engine = cbc_encryptor(hashed_key.as_slice(), iv);
    drain_encryptor(engine, input.as_slice())
}

/// Decrypts a ciphertext under a key of 32 bytes and an initialization
/// vector of 16 bytes, which is left as it was.
///
/// A key or an initialization vector of another size is refused, and so
/// is a ciphertext that is not a whole number of blocks or does not decrypt
/// to well-formed padding.
pub fn decrypt(data: &[u8], key: &[u8], iv: &mut [u8]) -> (res: Result<Vec<u8>, CipherError>)
    ensures
        final(iv)@ == old(iv)@,
        agrees(res, decrypted(key@, old(iv)@, data@)),
        res matches Err(CipherError::InvalidSize) <==> !sizes_ok(key@, old(iv)@),
        sizes_ok(key@, old(iv)@) && data@.len() % 16 != 0 ==> res matches Err(
            CipherError::InvalidPadding,
        ),
{
    if key.len() != KEY_SIZE || iv.len() != IV_SIZE {
        return Err(CipherError::InvalidSize);
    }
    if data.len() % BLOCK_SIZE != 0 {
        return Err(CipherError::InvalidPadding);
    }
    let hashed_key = sha256(key);
    let engine = cbc_decryptor(hashed_key.as_slice(), iv);
    let raw = drain_decryptor(engine, data)?;
    unpad(raw)
}

/// The initialization vector that goes with a derived key: its first 16
/// bytes.
pub fn derive_iv(key: &[u8; 32]) -> (iv: [u8; 16])
    ensures
        iv@ == key@.subrange(0, 16),
{
    let mut iv = [0u8; 16];
    let mut i: usize = 0;
    while i < IV_SIZE
        invariant
            i <= IV_SIZE,
            forall|k: int| 0 <= k < i ==> iv@[k] == key@[k],
        decreases IV_SIZE - i,
    {
        iv[i] = key[i];
        i += 1;
    }
    assert(iv@ =~= key@.subrange(0, 16));
    iv
}

} // verus!
