//! Draining a block engine: the engine is called again and again with a
//! scratch buffer of fixed size, and what it writes is collected, until it
//! signals that nothing more is waiting.

use vstd::prelude::*;
use crate::crypt::engine::{
    decrypt_step, decryptor_pending, encrypt_step, encryptor_pending, DecryptorHandle,
    EncryptorHandle, Signal,
};
use crate::crypt::{CipherError, SCRATCH_SIZE};

verus! {

/// A scratch buffer of `SCRATCH_SIZE` zero bytes.
fn new_scratch() -> (scratch: Vec<u8>)
    ensures
        scratch@.len() == SCRATCH_SIZE,
{
    let mut scratch: Vec<u8> = Vec::new();
    let mut i: usize = 0;
    while i < SCRATCH_SIZE
        invariant
            i <= SCRATCH_SIZE,
            scratch@.len() == i,
        decreases SCRATCH_SIZE - i,
    {
        scratch.push(0);
        i += 1;
    }
    scratch
}

/// Appends the first `count` bytes of the scratch buffer to the output.
fn append_front(out: &mut Vec<u8>, scratch: &Vec<u8>, count: usize)
    requires
        count <= scratch@.len(),
    ensures
        final(out)@ == old(out)@ + scratch@.subrange(0, count as int),
{
    let mut i: usize = 0;
    while i < count
        invariant
            i <= count <= scratch@.len(),
            out@ == old(out)@ + scratch@.subrange(0, i as int),
        decreases count - i,
    {
        out.push(scratch[i]);
        i += 1;
        assert(out@ =~= old(out)@ + scratch@.subrange(0, i as int));
    }
}

/// Runs an encryptor over the whole input: calls it with an empty scratch
/// buffer, collects what it wrote, and goes on for as long as it signals
/// that more is waiting.
pub(crate) fn drain_encryptor(engine: EncryptorHandle, input: &[u8]) -> (res: Result<
    Vec<u8>,
    CipherError,
>)
    requires
        encryptor_pending(engine, input@) is Some,
    ensures
        res matches Ok(out) && encryptor_pending(engine, input@) == Some(out@),
{
    let ghost total = encryptor_pending(engine, input@)->0;
    let mut engine = engine;
    let mut out: Vec<u8> = Vec::new();
    let mut scratch = new_scratch();
    let mut pos: usize = 0;
    proof {
        assert(input@.subrange(0, input@.len() as int) =~= input@);
        assert(out@ + total =~= total);
    }
    loop
        invariant_except_break
            pos <= input@.len(),
            scratch@.len() == SCRATCH_SIZE,
            encryptor_pending(engine, input@.subrange(pos as int, input@.len() as int)) is Some,
            total == out@ + encryptor_pending(
                engine,
                input@.subrange(pos as int, input@.len() as int),
            )->0,
        ensures
            out@ == total,
        decreases
            encryptor_pending(engine, input@.subrange(pos as int, input@.len() as int))->0.len(),
    {
        let rest = vstd::slice::slice_subrange(input, pos, input.len());
        let step = match encrypt_step(&mut engine, rest, &mut scratch) {
            Ok(step) => step,
            Err(_) => {
                return Err(CipherError::TransformFailed);
            },
        };
        append_front(&mut out, &scratch, step.written);
        proof {
            assert(rest@.subrange(step.consumed as int, rest@.len() as int)
                =~= input@.subrange(pos + step.consumed, input@.len() as int));
        }
        pos = pos + step.consumed;
        match step.signal {
            Signal::Underflow => {
                assert(out@ =~= total);
                break ;
            },
            Signal::Overflow => {},
        }
    }
    Ok(out)
}

/// Runs a decryptor over the whole input, as `drain_encryptor` runs an
/// encryptor.
pub(crate) fn drain_decryptor(engine: DecryptorHandle, input: &[u8]) -> (res: Result<
    Vec<u8>,
    CipherError,
>)
    requires
        decryptor_pending(engine, input@) is Some,
    ensures
        res matches Ok(out) && decryptor_pending(engine, input@) == Some(out@),
{
    let ghost total = decryptor_pending(engine, input@)->0;
    let mut engine = engine;
    let mut out: Vec<u8> = Vec::new();
    let mut scratch = new_scratch();
    let mut pos: usize = 0;
    proof {
        assert(input@.subrange(0, input@.len() as int) =~= input@);
        assert(out@ + total =~= total);
    }
    loop
        invariant_except_break
            pos <= input@.len(),
            scratch@.len() == SCRATCH_SIZE,
            decryptor_pending(engine, input@.subrange(pos as int, input@.len() as int)) is Some,
            total == out@ + decryptor_pending(
                engine,
                input@.subrange(pos as int, input@.len() as int),
            )->0,
        ensures
            out@ == total,
        decreases
            decryptor_pending(engine, input@.subrange(pos as int, input@.len() as int))->0.len(),
    {
        let rest = vstd::slice::slice_subrange(input, pos, input.len());
        let step = match decrypt_step(&mut engine, rest, &mut scratch) {
            Ok(step) => step,
            Err(_) => {
                return Err(CipherError::TransformFailed);
            },
        };
        append_front(&mut out, &scratch, step.written);
        proof {
            assert(rest@.subrange(step.consumed as int, rest@.len() as int)
                =~= input@.subrange(pos + step.consumed, input@.len() as int));
        }
        pos = pos + step.consumed;
        match step.signal {
            Signal::Underflow => {
                assert(out@ =~= total);
                break ;
            },
            Signal::Overflow => {},
        }
    }
    Ok(out)
}

} // verus!
