//! Variable-length byte values of the managed value arena.

use vstd::prelude::*;

use crate::bytes::u32_be_bytes;
use crate::codec::{
    dep_bytes_payload, dep_bytes_ready, dep_bytes_remaining, handle_decode_failure,
    handled_decode_failure, CodecFailure, DecodeError, ErrorPolicy,
};

verus! {

/// A variable-length byte value. Its view is the byte sequence it holds.
pub struct ManagedBuffer {
    bytes: Vec<u8>,
}

impl View for ManagedBuffer {
    type V = Seq<u8>;

    closed spec fn view(&self) -> Seq<u8> {
        self.bytes@
    }
}

impl ManagedBuffer {
    /// The empty buffer.
    pub fn new() -> (r: Self)
        ensures
            r@ == Seq::<u8>::empty(),
    {
        let r = ManagedBuffer { bytes: Vec::new() };
        proof {
            assert(r@ =~= Seq::<u8>::empty());
        }
        r
    }

    /// A buffer holding a copy of the given bytes.
    pub fn new_from_bytes(bytes: &[u8]) -> (r: Self)
        ensures
            r@ == bytes@,
    {
        ManagedBuffer { bytes: vstd::slice::slice_to_vec(bytes) }
    }

    /// A buffer that takes ownership of the given bytes.
    pub fn from_vec(bytes: Vec<u8>) -> (r: Self)
        ensures
            r@ == bytes@,
    {
        ManagedBuffer { bytes }
    }

    pub fn len(&self) -> (r: usize)
        ensures
            r == self@.len(),
    {
        self.bytes.len()
    }

    pub fn is_empty(&self) -> (r: bool)
        ensures
            r == (self@.len() == 0),
    {
        self.bytes.len() == 0
    }

    /// A copy of the held bytes.
    pub fn to_bytes(&self) -> (r: Vec<u8>)
        ensures
            r@ == self@,
    {
        copy_bytes(&self.bytes)
    }

    /// Replaces the whole value with the given bytes.
    pub fn overwrite(&mut self, bytes: &[u8])
        ensures
            final(self)@ == bytes@,
    {
        self.bytes = vstd::slice::slice_to_vec(bytes);
    }

    /// Appends the given bytes to the value.
    pub fn append_bytes(&mut self, bytes: &[u8])
        ensures
            final(self)@ == old(self)@ + bytes@,
    {
        append_copied(&mut self.bytes, bytes);
    }

    /// Appends the other buffer's bytes to the value.
    pub fn append_buffer(&mut self, other: &ManagedBuffer)
        ensures
            final(self)@ == old(self)@ + other@,
    {
        append_copied(&mut self.bytes, other.bytes.as_slice());
    }

    /// The bytes between the two offsets, or nothing when the range does
    /// not lie inside the value.
    pub fn copy_slice(&self, start: usize, end: usize) -> (r: Option<ManagedBuffer>)
        ensures
            start <= end <= self@.len() ==> (r matches Some(b) && b@ == self@.subrange(
                start as int,
                end as int,
            )),
            !(start <= end <= self@.len()) ==> r is None,
    {
        if start <= end && end <= self.bytes.len() {
            let part = vstd::slice::slice_subrange(self.bytes.as_slice(), start, end);
            Some(ManagedBuffer { bytes: vstd::slice::slice_to_vec(part) })
        } else {
            None
        }
    }

    /// Top-level encoding: the bytes fill the whole payload. Never fails.
    pub fn top_encode_or_handle_err(&self, h: ErrorPolicy) -> (r: Result<Vec<u8>, CodecFailure>)
        ensures
            r matches Ok(v) && v@ == self@,
    {
        Ok(self.to_bytes())
    }

    /// Top-level decoding: the whole payload is the value. Never fails.
    pub fn top_decode_or_handle_err(input: Vec<u8>, h: ErrorPolicy) -> (r: Result<
        ManagedBuffer,
        CodecFailure,
    >)
        ensures
            r matches Ok(b) && b@ == input@,
    {
        Ok(ManagedBuffer::from_vec(crate::codec::top_decode_bytes(input)))
    }

    /// Nested encoding: appends the length-prefixed bytes to the stream.
    /// Never fails for a value whose length fits in 32 bits.
    pub fn dep_encode_or_handle_err(&self, dest: &mut Vec<u8>, h: ErrorPolicy) -> (r: Result<
        (),
        CodecFailure,
    >)
        requires
            self@.len() <= 0xFFFF_FFFF,
        ensures
            r is Ok,
            final(dest)@ == old(dest)@ + u32_be_bytes(self@.len() as nat) + self@,
    {
        crate::codec::dep_encode_bytes(&self.bytes, dest);
        Ok(())
    }

    /// Nested decoding: reads a length-prefixed byte value from the given
    /// position of the stream; returns the value and the position after
    /// it. Fails when the stream is too short, as the failure policy
    /// directs.
    pub fn dep_decode_or_handle_err(input: &Vec<u8>, at: usize, h: ErrorPolicy) -> (r: Result<
        (ManagedBuffer, usize),
        CodecFailure,
    >)
        requires
            at <= input@.len(),
        ensures
            dep_bytes_ready(input@.skip(at as int)) ==> (r matches Ok(p) && p.0@
                == dep_bytes_payload(input@.skip(at as int)) && p.1 == input@.len()
                - dep_bytes_remaining(input@.skip(at as int))),
            !dep_bytes_ready(input@.skip(at as int)) ==> r == Err::<(ManagedBuffer, usize),
            _>(handled_decode_failure(h, DecodeError::InputTooShort)),
    {
        match crate::codec::dep_decode_bytes(input, at) {
            Some((bytes, remaining)) => Ok((ManagedBuffer::from_vec(bytes), input.len() - remaining)),
            None => Err(handle_decode_failure(h, DecodeError::InputTooShort)),
        }
    }

    /// Whether the two buffers hold the same bytes.
    pub fn eq_buffer(&self, other: &ManagedBuffer) -> (r: bool)
        ensures
            r == (self@ == other@),
    {
        bytes_eq(&self.bytes, &other.bytes)
    }

    /// Whether the buffer holds exactly the given bytes.
    pub fn eq_bytes(&self, other: &[u8]) -> (r: bool)
        ensures
            r == (self@ == other@),
    {
        slice_bytes_eq(self.bytes.as_slice(), other)
    }
}

impl Clone for ManagedBuffer {
    fn clone(&self) -> (r: Self)
        ensures
            r@ == self@,
    {
        ManagedBuffer { bytes: copy_bytes(&self.bytes) }
    }
}

/// A fresh copy of a byte vector.
pub fn copy_bytes(v: &Vec<u8>) -> (r: Vec<u8>)
    ensures
        r@ == v@,
{
    let mut r: Vec<u8> = Vec::new();
    append_copied(&mut r, v.as_slice());
    proof {
        assert(r@ =~= v@);
    }
    r
}

/// Appends a copy of the given bytes to a vector.
pub fn append_copied(dest: &mut Vec<u8>, bytes: &[u8])
    ensures
        final(dest)@ == old(dest)@ + bytes@,
{
    let mut i: usize = 0;
    while i < bytes.len()
        invariant
            i <= bytes@.len(),
            dest@ == old(dest)@ + bytes@.subrange(0, i as int),
        decreases bytes@.len() - i,
    {
        let b = *vstd::slice::slice_index_get(bytes, i);
        dest.push(b);
        proof {
            assert(old(dest)@ + bytes@.subrange(0, i as int) + seq![bytes@[i as int]] =~= old(
                dest,
            )@ + bytes@.subrange(0, i + 1));
        }
        i = i + 1;
    }
    proof {
        assert(bytes@.subrange(0, bytes@.len() as int) =~= bytes@);
    }
}

/// Whether two byte vectors hold the same bytes.
pub fn bytes_eq(a: &Vec<u8>, b: &Vec<u8>) -> (r: bool)
    ensures
        r == (a@ == b@),
{
    slice_bytes_eq(a.as_slice(), b.as_slice())
}

/// Whether two byte slices hold the same bytes.
pub fn slice_bytes_eq(a: &[u8], b: &[u8]) -> (r: bool)
    ensures
        r == (a@ == b@),
{
    if a.len() != b.len() {
        proof {
            assert(a@ != b@);
        }
        return false;
    }
    let mut i: usize = 0;
    while i < a.len()
        invariant
            i <= a@.len(),
            a@.len() == b@.len(),
            forall|j: int| 0 <= j < i ==> a@[j] == b@[j],
        decreases a@.len() - i,
    {
        if *vstd::slice::slice_index_get(a, i) != *vstd::slice::slice_index_get(b, i) {
            proof {
                assert(a@[i as int] != b@[i as int]);
            }
            return false;
        }
        i = i + 1;
    }
    proof {
        assert(a@ =~= b@);
    }
    true
}

} // verus!
