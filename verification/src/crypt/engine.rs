//! The boundary to the `crypto` crate: scrypt, SHA-256 and the AES-256
//! engines in CBC mode.
//!
//! Nothing in this file is proved. Each function calls into `crypto`, and
//! its contract says what the rest of the library takes that call to do.
//! What scrypt, SHA-256 and AES compute is given a name and left unstated.

use vstd::arithmetic::power2::pow2;
use vstd::prelude::*;
use crypto::buffer::{BufferResult, ReadBuffer, RefReadBuffer, RefWriteBuffer, WriteBuffer};
use crypto::digest::Digest;
use crypto::symmetriccipher::SymmetricCipherError;

verus! {

/// The bytes that `crypto::scrypt::scrypt` writes into a buffer of `len`
/// bytes for a password, a salt and the cost parameters log2(N), r and p.
pub uninterp spec fn scrypt_output(
    password: Seq<u8>,
    salt: Seq<u8>,
    log_n: u8,
    r: u32,
    p: u32,
    len: nat,
) -> Seq<u8>;

/// The cost parameters that `ScryptParams::new` accepts.
pub open spec fn scrypt_params_ok(log_n: u8, r: u32, p: u32) -> bool {
    &&& r > 0
    &&& p > 0
    &&& 0 < log_n < usize::BITS
    &&& r * 128 * pow2(log_n as nat) <= usize::MAX
    &&& r * 128 * p <= usize::MAX
    &&& log_n < r * 16
    &&& r * p < 0x4000_0000
}

/// The longest output that scrypt derives: as many blocks of 32 bytes as a
/// counter of 32 bits can number.
pub open spec fn max_derived_len() -> nat {
    0x1f_ffff_ffe0
}

/// The longest message, in bytes, whose length in bits `Sha256` can count.
pub open spec fn max_digest_input() -> nat {
    0x1fff_ffff_ffff_ffff
}

/// Runs `crypto::scrypt::scrypt` with parameters made by `ScryptParams::new`.
///
/// Both panic on parameters and output lengths outside the ranges asked for
/// here, and the hash underneath panics on a password or a salt too long
/// to count. The contract claims that the buffer keeps its length and is
/// filled with a value that depends on the arguments and on that length
/// alone.
#[verifier::external_body]
pub(crate) fn scrypt_into(
    password: &[u8],
    salt: &[u8],
    log_n: u8,
    r: u32,
    p: u32,
    output: &mut [u8],
)
    requires
        scrypt_params_ok(log_n, r, p),
        password@.len() <= max_digest_input(),
        salt@.len() + 68 <= max_digest_input(),
        0 < old(output)@.len() <= max_derived_len(),
    ensures
        final(output)@.len() == old(output)@.len(),
        final(output)@ == scrypt_output(password@, salt@, log_n, r, p, old(output)@.len()),
{
    let params = crypto::scrypt::ScryptParams::new(log_n, r, p);
    crypto::scrypt::scrypt(password, salt, &params, output);
}

/// The SHA-256 digest of a message, as `crypto::sha2::Sha256` computes it.
pub uninterp spec fn sha256_digest(message: Seq<u8>) -> Seq<u8>;

/// Feeds a message to a fresh `crypto::sha2::Sha256` and reads the digest.
///
/// The hasher panics when the length of its input in bits overflows 64 bits.
/// The contract claims that the 32 bytes depend on the message alone.
#[verifier::external_body]
pub(crate) fn sha256(message: &[u8]) -> (digest: [u8; 32])
    requires
        message@.len() <= max_digest_input(),
    ensures
        digest@ == sha256_digest(message@),
{
    let mut hasher = crypto::sha2::Sha256::new();
    hasher.input(message);
    let mut digest = [0u8; 32];
    hasher.result(&mut digest);
    digest
}

/// The error that the block engines of `crypto` report.
#[verifier::external_type_specification]
#[verifier::external_body]
pub struct ExSymmetricCipherError(SymmetricCipherError);

/// The bytes that the AES-256 encryptor in CBC mode without padding, made
/// by `crypto::aes::cbc_encryptor` from `key` and `iv`, gives in total for
/// an input of whole blocks.
pub uninterp spec fn aes256_cbc_encrypt(key: Seq<u8>, iv: Seq<u8>, blocks: Seq<u8>) -> Seq<u8>;

/// The bytes that the AES-256 decryptor in CBC mode without padding, made
/// by `crypto::aes::cbc_decryptor` from `key` and `iv`, gives in total for
/// an input of whole blocks.
pub uninterp spec fn aes256_cbc_decrypt(key: Seq<u8>, iv: Seq<u8>, blocks: Seq<u8>) -> Seq<u8>;

/// An encryptor of `crypto` in the middle of its work. What
/// `crypto::aes::cbc_encryptor` hands out is a boxed trait object, of which
/// the verifier can see nothing; this struct carries it through.
#[verifier::external_body]
pub struct EncryptorHandle {
    engine: Box<dyn crypto::symmetriccipher::Encryptor>,
}

/// A decryptor of `crypto` in the middle of its work, carried through as
/// an encryptor is.
#[verifier::external_body]
pub struct DecryptorHandle {
    engine: Box<dyn crypto::symmetriccipher::Decryptor>,
}

/// The bytes that an encryptor has yet to give when `input` is all that it
/// has yet to read, or `None` where it would report a fault on the way.
pub uninterp spec fn encryptor_pending(engine: EncryptorHandle, input: Seq<u8>) -> Option<
    Seq<u8>,
>;

/// The bytes that a decryptor has yet to give when `input` is all that it
/// has yet to read, or `None` where it would report a fault on the way.
pub uninterp spec fn decryptor_pending(engine: DecryptorHandle, input: Seq<u8>) -> Option<
    Seq<u8>,
>;

/// What a block engine says when it returns: the two values of
/// `crypto::buffer::BufferResult`.
#[derive(Debug, Clone, Copy, PartialEq, Eq, Structural)]
pub(crate) enum Signal {
    /// Nothing more is waiting: all output has been given.
    Underflow,
    /// The scratch buffer is full and more output is waiting: call again.
    Overflow,
}

/// What one call of a block engine did.
pub(crate) struct Drained {
    /// How many bytes of the input were read.
    pub(crate) consumed: usize,
    /// How many bytes were written to the front of the scratch buffer.
    pub(crate) written: usize,
    /// The engine's signal.
    pub(crate) signal: Signal,
}

/// Makes an AES-256 encryptor in CBC mode without padding with
/// `crypto::aes::cbc_encryptor`, which panics on a key that is not 32 bytes
/// long. The contract claims, of any input of whole blocks: the new
/// encryptor gets through it without a fault, what it gives is the total
/// named by `aes256_cbc_encrypt`, and that total is as long as the input.
#[verifier::external_body]
pub(crate) fn cbc_encryptor(key: &[u8], iv: &[u8]) -> (engine: EncryptorHandle)
    requires
        key@.len() == 32,
        iv@.len() == 16,
    ensures
        forall|input: Seq<u8>|
            input.len() % 16 == 0 ==> {
                &&& #[trigger] encryptor_pending(engine, input) == Some(
                    aes256_cbc_encrypt(key@, iv@, input),
                )
                &&& encryptor_pending(engine, input)->0.len() == input.len()
            },
{
    EncryptorHandle {
        engine: crypto::aes::cbc_encryptor(
            crypto::aes::KeySize::KeySize256,
            key,
            iv,
            crypto::blockmodes::NoPadding,
        ),
    }
}

/// Calls `Encryptor::encrypt` once, with `input` as all that is left to
/// read and the whole of `scratch` to write to.
///
/// The contract claims, of an encryptor that gets through `input` without
/// a fault: the call succeeds; the bytes written to the front of `scratch`
/// are the next bytes that the encryptor had to give, and the rest stays
/// pending for the input that was not read; the overflow signal comes only
/// with a full scratch buffer; after the underflow signal nothing is
/// pending.
#[verifier::external_body]
pub(crate) fn encrypt_step(
    engine: &mut EncryptorHandle,
    input: &[u8],
    scratch: &mut Vec<u8>,
) -> (res: Result<Drained, SymmetricCipherError>)
    ensures
        final(scratch)@.len() == old(scratch)@.len(),
        encryptor_pending(*old(engine), input@) matches Some(total) ==> {
            &&& res matches Ok(step)
            &&& step.consumed <= input@.len()
            &&& step.written <= old(scratch)@.len()
            &&& encryptor_pending(
                *final(engine),
                input@.subrange(step.consumed as int, input@.len() as int),
            ) matches Some(rest)
            &&& total == final(scratch)@.subrange(0, step.written as int) + rest
            &&& step.signal is Overflow ==> step.written == old(scratch)@.len()
            &&& step.signal is Underflow ==> rest.len() == 0
        },
{
    let mut reader = RefReadBuffer::new(input);
    let mut writer = RefWriteBuffer::new(scratch.as_mut_slice());
    let signal = match engine.engine.encrypt(&mut reader, &mut writer, true)? {
        BufferResult::BufferUnderflow => Signal::Underflow,
        BufferResult::BufferOverflow => Signal::Overflow,
    };
    Ok(Drained { consumed: reader.position(), written: writer.position(), signal })
}

/// Makes an AES-256 decryptor in CBC mode without padding with
/// `crypto::aes::cbc_decryptor`, which panics on a key that is not 32 bytes
/// long. The contract claims, of any input of whole blocks: the new
/// decryptor gets through it without a fault, what it gives is the total
/// named by `aes256_cbc_decrypt`, and that total is as long as the input.
#[verifier::external_body]
pub(crate) fn cbc_decryptor(key: &[u8], iv: &[u8]) -> (engine: DecryptorHandle)
    requires
        key@.len() == 32,
        iv@.len() == 16,
    ensures
        forall|input: Seq<u8>|
            input.len() % 16 == 0 ==> {
                &&& #[trigger] decryptor_pending(engine, input) == Some(
                    aes256_cbc_decrypt(key@, iv@, input),
                )
                &&& decryptor_pending(engine, input)->0.len() == input.len()
            },
{
    DecryptorHandle {
        engine: crypto::aes::cbc_decryptor(
            crypto::aes::KeySize::KeySize256,
            key,
            iv,
            crypto::blockmodes::NoPadding,
        ),
    }
}

/// Calls `Decryptor::decrypt` once, with `input` as all that is left to
/// read and the whole of `scratch` to write to.
///
/// The contract claims of a decryptor what `encrypt_step` claims of an
/// encryptor.
#[verifier::external_body]
pub(crate) fn decrypt_step(
    engine: &mut DecryptorHandle,
    input: &[u8],
    scratch: &mut Vec<u8>,
) -> (res: Result<Drained, SymmetricCipherError>)
    ensures
        final(scratch)@.len() == old(scratch)@.len(),
        decryptor_pending(*old(engine), input@) matches Some(total) ==> {
            &&& res matches Ok(step)
            &&& step.consumed <= input@.len()
            &&& step.written <= old(scratch)@.len()
            &&& decryptor_pending(
                *final(engine),
                input@.subrange(step.consumed as int, input@.len() as int),
            ) matches Some(rest)
            &&& total == final(scratch)@.subrange(0, step.written as int) + rest
            &&& step.signal is Overflow ==> step.written == old(scratch)@.len()
            &&& step.signal is Underflow ==> rest.len() == 0
        },
{
    let mut reader = RefReadBuffer::new(input);
    let mut writer = RefWriteBuffer::new(scratch.as_mut_slice());
    let signal = match engine.engine.decrypt(&mut reader, &mut writer, true)? {
        BufferResult::BufferUnderflow => Signal::Underflow,
        BufferResult::BufferOverflow => Signal::Overflow,
    };
    Ok(Drained { consumed: reader.position(), written: writer.position(), signal })
}

} // verus!
