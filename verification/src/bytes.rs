//! Word-aligned bytes serialization functions.
//!
//! Integers are stored big-endian, each occupying one full word slot of
//! [`WORD_SIZE`] bytes; narrower values sit in the low-order bytes of the
//! slot and the unused high-order bytes are zero. Every store/restore
//! operation comes in a checked form, which reports a length error on a
//! short buffer, and an unchecked form, whose length precondition is the
//! caller's obligation.

use vstd::prelude::*;
use vstd::slice::slice_subrange;

verus! {

/// Size of a machine word of the target VM, in bytes.
pub const WORD_SIZE: usize = 8;

/// Error returned by the checked codec operations: the buffer held
/// `available` bytes where the operation needed `required`.
#[derive(Clone, Copy, Debug, PartialEq, Eq, Structural)]
pub struct LengthError {
    /// Length the operation needed.
    pub required: usize,
    /// Length the buffer actually had.
    pub available: usize,
}

/// Smallest multiple of the word size that covers `len` bytes.
pub open spec fn spec_padded_len(len: nat) -> nat {
    if len % (WORD_SIZE as nat) == 0 {
        len
    } else {
        (len + (WORD_SIZE as nat) - len % (WORD_SIZE as nat)) as nat
    }
}

/// The big-endian bytes of one word holding `v`.
pub open spec fn word_to_bytes(v: u64) -> Seq<u8> {
    seq![
        (v >> 56) as u8,
        (v >> 48) as u8,
        (v >> 40) as u8,
        (v >> 32) as u8,
        (v >> 24) as u8,
        (v >> 16) as u8,
        (v >> 8) as u8,
        v as u8,
    ]
}

/// The word read big-endian from the first `WORD_SIZE` bytes of `s`.
pub open spec fn word_from_bytes(s: Seq<u8>) -> u64
    recommends
        s.len() >= WORD_SIZE,
{
    (((s[0] as u64) << 56) | ((s[1] as u64) << 48) | ((s[2] as u64) << 40) | ((s[3] as u64) << 32)
        | ((s[4] as u64) << 24) | ((s[5] as u64) << 16) | ((s[6] as u64) << 8) | (s[7] as u64))
}

/// Padded length of a byte length: the word-size multiple that covers it.
pub fn padded_len_usize(len: usize) -> (r: usize)
    requires
        spec_padded_len(len as nat) <= usize::MAX,
    ensures
        r == spec_padded_len(len as nat),
{
    let modulo = len % WORD_SIZE;
    if modulo == 0 {
        len
    } else {
        len + (WORD_SIZE - modulo)
    }
}

/// Padded length of a byte slice: the word-size multiple that covers it.
pub fn padded_len(bytes: &[u8]) -> (r: usize)
    requires
        spec_padded_len(bytes@.len()) <= usize::MAX,
    ensures
        r == spec_padded_len(bytes@.len()),
{
    padded_len_usize(bytes.len())
}

/// Write `number` big-endian into the first word slot of `buffer` and
/// return the remainder of the buffer after that slot.
///
/// The caller must guarantee `buffer.len() >= WORD_SIZE`.
pub fn store_number_unchecked<'a>(buffer: &'a mut [u8], number: u64) -> (rem: &'a mut [u8])
    requires
        old(buffer)@.len() >= WORD_SIZE,
    ensures
        rem@ == old(buffer)@.skip(WORD_SIZE as int),
        final(buffer)@ == word_to_bytes(number) + final(rem)@,
{
    let (word, rem) = buffer.split_at_mut(WORD_SIZE);
    let b0: u8 = (number >> 56) as u8;
    let b1: u8 = #[verifier::truncate] ((number >> 48) as u8);
    let b2: u8 = #[verifier::truncate] ((number >> 40) as u8);
    let b3: u8 = #[verifier::truncate] ((number >> 32) as u8);
    let b4: u8 = #[verifier::truncate] ((number >> 24) as u8);
    let b5: u8 = #[verifier::truncate] ((number >> 16) as u8);
    let b6: u8 = #[verifier::truncate] ((number >> 8) as u8);
    let b7: u8 = #[verifier::truncate] (number as u8);
    word[0] = b0;
    word[1] = b1;
    word[2] = b2;
    word[3] = b3;
    word[4] = b4;
    word[5] = b5;
    word[6] = b6;
    word[7] = b7;
    proof {
        assert(word@ =~= word_to_bytes(number));
        assert(rem@ =~= old(buffer)@.skip(WORD_SIZE as int));
    }
    rem
}

/// Write `number` big-endian into the first word slot of `buffer` and
/// return the remainder, or a [`LengthError`] when the buffer is shorter
/// than one word. On the error path the buffer is left unmodified.
pub fn store_number_checked<'a>(buffer: &'a mut [u8], number: u64) -> (r: Result<
    &'a mut [u8],
    LengthError,
>)
    ensures
        r is Ok <==> old(buffer)@.len() >= WORD_SIZE,
        r is Ok ==> r->Ok_0@ == old(buffer)@.skip(WORD_SIZE as int) && final(buffer)@
            == word_to_bytes(number) + final(r->Ok_0)@,
        r is Err ==> final(buffer)@ == old(buffer)@ && r->Err_0 == (LengthError {
            required: WORD_SIZE,
            available: old(buffer)@.len() as usize,
        }),
{
    if buffer.len() < WORD_SIZE {
        let available = buffer.len();
        return Err(LengthError { required: WORD_SIZE, available });
    }
    Ok(store_number_unchecked(buffer, number))
}

/// Read the word stored big-endian in the first word slot of `buffer`,
/// returning it with the remainder of the buffer after that slot.
///
/// The caller must guarantee `buffer.len() >= WORD_SIZE`.
pub fn restore_number_unchecked<'a>(buffer: &'a [u8]) -> (r: (u64, &'a [u8]))
    requires
        buffer@.len() >= WORD_SIZE,
    ensures
        r.0 == word_from_bytes(buffer@),
        r.1@ == buffer@.skip(WORD_SIZE as int),
{
    let number = (((buffer[0] as u64) << 56) | ((buffer[1] as u64) << 48) | ((buffer[2] as u64)
        << 40) | ((buffer[3] as u64) << 32) | ((buffer[4] as u64) << 24) | ((buffer[5] as u64)
        << 16) | ((buffer[6] as u64) << 8) | (buffer[7] as u64));
    let rem = slice_subrange(buffer, WORD_SIZE, buffer.len());
    proof {
        assert(rem@ =~= buffer@.skip(WORD_SIZE as int));
    }
    (number, rem)
}

/// Checked twin of [`restore_number_unchecked`]: reports a
/// [`LengthError`] instead of demanding the length precondition.
pub fn restore_number_checked<'a>(buffer: &'a [u8]) -> (r: Result<(u64, &'a [u8]), LengthError>)
    ensures
        r is Ok <==> buffer@.len() >= WORD_SIZE,
        r is Ok ==> r->Ok_0.0 == word_from_bytes(buffer@) && r->Ok_0.1@ == buffer@.skip(
            WORD_SIZE as int,
        ),
        r is Err ==> r->Err_0 == (LengthError {
            required: WORD_SIZE,
            available: buffer@.len() as usize,
        }),
{
    if buffer.len() < WORD_SIZE {
        let available = buffer.len();
        return Err(LengthError { required: WORD_SIZE, available });
    }
    Ok(restore_number_unchecked(buffer))
}

/// Restore a full word; identical to [`restore_number_unchecked`].
pub fn restore_word_unchecked<'a>(buffer: &'a [u8]) -> (r: (u64, &'a [u8]))
    requires
        buffer@.len() >= WORD_SIZE,
    ensures
        r.0 == word_from_bytes(buffer@),
        r.1@ == buffer@.skip(WORD_SIZE as int),
{
    restore_number_unchecked(buffer)
}

/// Restore the low-order byte of the word slot.
///
/// The caller must guarantee `buffer.len() >= WORD_SIZE`.
pub fn restore_u8_unchecked<'a>(buffer: &'a [u8]) -> (r: (u8, &'a [u8]))
    requires
        buffer@.len() >= WORD_SIZE,
    ensures
        r.0 == word_from_bytes(buffer@) as u8,
        r.1@ == buffer@.skip(WORD_SIZE as int),
{
    let (number, rem) = restore_number_unchecked(buffer);
    let low: u8 = #[verifier::truncate] (number as u8);
    (low, rem)
}

/// Restore the two low-order bytes of the word slot.
///
/// The caller must guarantee `buffer.len() >= WORD_SIZE`.
pub fn restore_u16_unchecked<'a>(buffer: &'a [u8]) -> (r: (u16, &'a [u8]))
    requires
        buffer@.len() >= WORD_SIZE,
    ensures
        r.0 == word_from_bytes(buffer@) as u16,
        r.1@ == buffer@.skip(WORD_SIZE as int),
{
    let (number, rem) = restore_number_unchecked(buffer);
    let low: u16 = #[verifier::truncate] (number as u16);
    (low, rem)
}

/// Restore the four low-order bytes of the word slot.
///
/// The caller must guarantee `buffer.len() >= WORD_SIZE`.
pub fn restore_u32_unchecked<'a>(buffer: &'a [u8]) -> (r: (u32, &'a [u8]))
    requires
        buffer@.len() >= WORD_SIZE,
    ensures
        r.0 == word_from_bytes(buffer@) as u32,
        r.1@ == buffer@.skip(WORD_SIZE as int),
{
    let (number, rem) = restore_number_unchecked(buffer);
    let low: u32 = #[verifier::truncate] (number as u32);
    (low, rem)
}

/// Restore a full word; identical to [`restore_number_checked`].
pub fn restore_word_checked<'a>(buffer: &'a [u8]) -> (r: Result<(u64, &'a [u8]), LengthError>)
    ensures
        r is Ok <==> buffer@.len() >= WORD_SIZE,
        r is Ok ==> r->Ok_0.0 == word_from_bytes(buffer@) && r->Ok_0.1@ == buffer@.skip(
            WORD_SIZE as int,
        ),
        r is Err ==> r->Err_0 == (LengthError {
            required: WORD_SIZE,
            available: buffer@.len() as usize,
        }),
{
    restore_number_checked(buffer)
}

/// Checked twin of [`restore_u8_unchecked`].
pub fn restore_u8_checked<'a>(buffer: &'a [u8]) -> (r: Result<(u8, &'a [u8]), LengthError>)
    ensures
        r is Ok <==> buffer@.len() >= WORD_SIZE,
        r is Ok ==> r->Ok_0.0 == word_from_bytes(buffer@) as u8 && r->Ok_0.1@ == buffer@.skip(
            WORD_SIZE as int,
        ),
        r is Err ==> r->Err_0 == (LengthError {
            required: WORD_SIZE,
            available: buffer@.len() as usize,
        }),
{
    if buffer.len() < WORD_SIZE {
        let available = buffer.len();
        return Err(LengthError { required: WORD_SIZE, available });
    }
    Ok(restore_u8_unchecked(buffer))
}

/// Checked twin of [`restore_u16_unchecked`].
pub fn restore_u16_checked<'a>(buffer: &'a [u8]) -> (r: Result<(u16, &'a [u8]), LengthError>)
    ensures
        r is Ok <==> buffer@.len() >= WORD_SIZE,
        r is Ok ==> r->Ok_0.0 == word_from_bytes(buffer@) as u16 && r->Ok_0.1@ == buffer@.skip(
            WORD_SIZE as int,
        ),
        r is Err ==> r->Err_0 == (LengthError {
            required: WORD_SIZE,
            available: buffer@.len() as usize,
        }),
{
    if buffer.len() < WORD_SIZE {
        let available = buffer.len();
        return Err(LengthError { required: WORD_SIZE, available });
    }
    Ok(restore_u16_unchecked(buffer))
}

/// Checked twin of [`restore_u32_unchecked`].
pub fn restore_u32_checked<'a>(buffer: &'a [u8]) -> (r: Result<(u32, &'a [u8]), LengthError>)
    ensures
        r is Ok <==> buffer@.len() >= WORD_SIZE,
        r is Ok ==> r->Ok_0.0 == word_from_bytes(buffer@) as u32 && r->Ok_0.1@ == buffer@.skip(
            WORD_SIZE as int,
        ),
        r is Err ==> r->Err_0 == (LengthError {
            required: WORD_SIZE,
            available: buffer@.len() as usize,
        }),
{
    if buffer.len() < WORD_SIZE {
        let available = buffer.len();
        return Err(LengthError { required: WORD_SIZE, available });
    }
    Ok(restore_u32_unchecked(buffer))
}

/// The padded length is the least word-size multiple covering `len`:
/// it is word-aligned, not below `len`, and less than one word above it.
pub proof fn lemma_padded_len_properties(len: nat)
    ensures
        spec_padded_len(len) % (WORD_SIZE as nat) == 0,
        spec_padded_len(len) >= len,
        spec_padded_len(len) - len < WORD_SIZE,
{
}

/// A word written by `word_to_bytes` reads back as the value it was
/// written from: the codec's store/restore round trip.
pub proof fn lemma_word_bytes_roundtrip(v: u64)
    ensures
        word_from_bytes(word_to_bytes(v)) == v,
{
    assert(((((v >> 56) as u8) as u64) << 56 | (((v >> 48) as u8) as u64) << 48 | (((v
        >> 40) as u8) as u64) << 40 | (((v >> 32) as u8) as u64) << 32 | (((v >> 24) as u8) as u64)
        << 24 | (((v >> 16) as u8) as u64) << 16 | (((v >> 8) as u8) as u64) << 8 | ((
    v as u8) as u64)) == v) by (bit_vector);
}

/// Round trip through a whole buffer: after a word is stored in front of
/// any remainder `rest`, restoring from the buffer yields the stored
/// value, every width truncating to its low-order bytes, and the
/// remainder `rest` itself.
pub proof fn lemma_store_restore_roundtrip(v: u64, rest: Seq<u8>)
    ensures
        word_from_bytes(word_to_bytes(v) + rest) == v,
        (word_to_bytes(v) + rest).skip(WORD_SIZE as int) == rest,
{
    let s = word_to_bytes(v) + rest;
    assert(s[0] == word_to_bytes(v)[0]);
    assert(s[1] == word_to_bytes(v)[1]);
    assert(s[2] == word_to_bytes(v)[2]);
    assert(s[3] == word_to_bytes(v)[3]);
    assert(s[4] == word_to_bytes(v)[4]);
    assert(s[5] == word_to_bytes(v)[5]);
    assert(s[6] == word_to_bytes(v)[6]);
    assert(s[7] == word_to_bytes(v)[7]);
    lemma_word_bytes_roundtrip(v);
    assert(s.skip(WORD_SIZE as int) =~= rest);
}

/// The checked and the unchecked variant of each codec operation agree
/// bit for bit on every valid input. Both contracts pin their results to
/// the same spec-level values — `word_to_bytes` of the stored number for
/// the buffer, `word_from_bytes` of the buffer (truncated per width) for
/// the value, and `skip(WORD_SIZE)` of the buffer for the remainder — so
/// any results meeting the two contracts on one valid buffer are equal.
pub proof fn lemma_checked_unchecked_agree(
    s: Seq<u8>,
    checked: (u64, Seq<u8>),
    unchecked: (u64, Seq<u8>),
)
    requires
        s.len() >= WORD_SIZE,
        checked.0 == word_from_bytes(s),
        checked.1 == s.skip(WORD_SIZE as int),
        unchecked.0 == word_from_bytes(s),
        unchecked.1 == s.skip(WORD_SIZE as int),
    ensures
        checked == unchecked,
        checked.0 as u8 == unchecked.0 as u8,
        checked.0 as u16 == unchecked.0 as u16,
        checked.0 as u32 == unchecked.0 as u32,
{
}

/// Narrow values survive the round trip unchanged: a value of any
/// supported narrower width, stored zero-extended to a word, is returned
/// exactly by the restore of that width.
pub proof fn lemma_store_restore_narrow(v8: u8, v16: u16, v32: u32, rest: Seq<u8>)
    ensures
        word_from_bytes(word_to_bytes(v8 as u64) + rest) as u8 == v8,
        word_from_bytes(word_to_bytes(v16 as u64) + rest) as u16 == v16,
        word_from_bytes(word_to_bytes(v32 as u64) + rest) as u32 == v32,
{
    lemma_store_restore_roundtrip(v8 as u64, rest);
    lemma_store_restore_roundtrip(v16 as u64, rest);
    lemma_store_restore_roundtrip(v32 as u64, rest);
}

} // verus!
