//! Padding of payloads to whole cipher blocks: as many bytes as are missing
//! to the next block boundary, each holding that number, and a whole block
//! of them where nothing is missing.

use vstd::prelude::*;
use crate::crypt::{CipherError, BLOCK_SIZE};

verus! {

/// The length of a payload of `len` bytes once it is padded: the next
/// multiple of the block size that is greater than `len`.
pub open spec fn padded_len(len: nat) -> nat {
    ((len / 16) + 1) * 16
}

/// The number of bytes that padding adds to a payload of `len` bytes: what
/// is missing to the next block boundary, a whole block where nothing is.
pub open spec fn pad_count(len: nat) -> nat {
    (16 - len % 16) as nat
}

/// A payload with its padding: `pad_count` bytes, each holding that count.
pub open spec fn padded(data: Seq<u8>) -> Seq<u8> {
    data + Seq::new(pad_count(data.len()), |i: int| pad_count(data.len()) as u8)
}

/// Whether `raw` is a whole, positive number of blocks whose last byte is a
/// count between 1 and 16 and whose last `count` bytes all hold that count.
pub open spec fn padding_ok(raw: Seq<u8>) -> bool {
    &&& raw.len() > 0
    &&& raw.len() % 16 == 0
    &&& 1 <= raw.last() <= 16
    &&& forall|i: int| raw.len() - raw.last() <= i < raw.len() ==> raw[i] == raw.last()
}

/// What is left of `raw` when its padding is taken away, if the padding is
/// well formed.
pub open spec fn unpadded(raw: Seq<u8>) -> Option<Seq<u8>> {
    if padding_ok(raw) {
        Some(raw.subrange(0, raw.len() - raw.last()))
    } else {
        None
    }
}

/// Padding adds between one and sixteen bytes and ends on a block boundary.
pub proof fn lemma_padded_len(len: nat)
    ensures
        padded_len(len) == len + pad_count(len),
        1 <= pad_count(len) <= 16,
        padded_len(len) % 16 == 0,
        padded_len(len) > len,
{
    assert(len == 16 * (len / 16) + len % 16);
    assert(padded_len(len) % 16 == 0) by (nonlinear_arith)
        requires
            padded_len(len) == ((len / 16) + 1) * 16,
    ;
}

/// A padded payload is well formed, and taking its padding away gives the
/// payload back.
pub proof fn lemma_unpad_inverts_pad(data: Seq<u8>)
    ensures
        padded(data).len() == padded_len(data.len()),
        padding_ok(padded(data)),
        unpadded(padded(data)) == Some(data),
{
    lemma_padded_len(data.len());
    let raw = padded(data);
    assert(raw.last() == pad_count(data.len()) as u8);
    assert(raw.subrange(0, raw.len() - raw.last()) =~= data);
}

/// Whatever is well formed is the padding of what is left of it when its
/// padding is taken away.
pub proof fn lemma_pad_inverts_unpad(raw: Seq<u8>)
    requires
        padding_ok(raw),
    ensures
        unpadded(raw) matches Some(data) && padded(data) == raw,
{
    let count = raw.last() as nat;
    let data = raw.subrange(0, raw.len() - count);
    assert(pad_count(data.len()) == count) by {
        assert(data.len() == raw.len() - count);
        assert(raw.len() % 16 == 0);
    }
    assert(padded(data) =~= raw);
}

/// Pads a payload to whole blocks.
pub fn pad(data: &[u8]) -> (out: Vec<u8>)
    ensures
        out@ == padded(data@),
        out@.len() == padded_len(data@.len()),
{
    let count: usize = BLOCK_SIZE - data.len() % BLOCK_SIZE;
    let fill: u8 = count as u8;
    let mut out: Vec<u8> = Vec::new();
    let mut i: usize = 0;
    while i < data.len()
        invariant
            i <= data.len(),
            out@ == data@.subrange(0, i as int),
        decreases data.len() - i,
    {
        out.push(data[i]);
        i += 1;
        assert(out@ =~= data@.subrange(0, i as int));
    }
    assert(out@ =~= data@);
    let mut j: usize = 0;
    while j < count
        invariant
            j <= count,
            count == pad_count(data@.len()),
            fill == count,
            out@ == data@ + Seq::new(j as nat, |k: int| fill),
        decreases count - j,
    {
        out.push(fill);
        j += 1;
        assert(out@ =~= data@ + Seq::new(j as nat, |k: int| fill));
    }
    proof {
        assert(out@ =~= padded(data@));
        lemma_unpad_inverts_pad(data@);
    }
    out
}

/// Checks the padding of what was decrypted and takes it away.
pub fn unpad(raw: Vec<u8>) -> (res: Result<Vec<u8>, CipherError>)
    ensures
        match unpadded(raw@) {
            Some(data) => res is Ok && res->Ok_0@ == data,
            None => res == Err::<Vec<u8>, CipherError>(CipherError::InvalidPadding),
        },
{
    let len = raw.len();
    if len == 0 || len % BLOCK_SIZE != 0 {
        return Err(CipherError::InvalidPadding);
    }
    let last: u8 = raw[len - 1];
    if last < 1 || last > 16 {
        return Err(CipherError::InvalidPadding);
    }
    let count: usize = last as usize;
    let keep: usize = len - count;
    let mut i: usize = keep;
    while i < len
        invariant
            keep <= i <= len,
            len == raw@.len(),
            last == raw@.last(),
            keep == len - last,
            forall|k: int| keep <= k < i ==> raw@[k] == last,
        decreases len - i,
    {
        if raw[i] != last {
            return Err(CipherError::InvalidPadding);
        }
        i += 1;
    }
    let mut raw = raw;
    raw.truncate(keep);
    Ok(raw)
}

} // verus!
