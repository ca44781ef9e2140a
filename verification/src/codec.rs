//! The serialization framework: top-level (whole payload) and nested
//! (self-delimiting, length-prefixed) encoding shapes, a pluggable
//! failure-handling policy, and multi-value expansion into an argument
//! buffer. The byte-level work of the wire format is done by the
//! dharitri-sc-codec crate, reached through the trusted wrappers below.

use vstd::prelude::*;

use crate::abort::{decode_error_panic, TxPanic};
use crate::bytes::{be_nat, min_be, u32_be_bytes};
use crate::managed_buffer::ManagedBuffer;

verus! {

/// A recoverable decode failure.
pub enum DecodeError {
    InputTooShort,
}

/// What a codec caller wants done with a failure: a structured error
/// handed back, or an immediate abort with a diagnostic.
pub enum ErrorPolicy {
    Structured,
    AbortOnError,
}

/// A codec failure after the policy has been applied.
pub enum CodecFailure {
    Recoverable(DecodeError),
    Abort(TxPanic),
}

/// How a decode failure surfaces under each policy.
pub open spec fn handled_decode_failure(h: ErrorPolicy, e: DecodeError) -> CodecFailure {
    match h {
        ErrorPolicy::Structured => CodecFailure::Recoverable(e),
        ErrorPolicy::AbortOnError => CodecFailure::Abort(decode_error_panic()),
    }
}

/// Applies the failure policy to a decode failure.
pub fn handle_decode_failure(h: ErrorPolicy, e: DecodeError) -> (r: CodecFailure)
    ensures
        r == handled_decode_failure(h, e),
{
    match h {
        ErrorPolicy::Structured => CodecFailure::Recoverable(e),
        ErrorPolicy::AbortOnError => CodecFailure::Abort(TxPanic::decode_error()),
    }
}

/// Relies on dharitri-sc-codec's top-encoding of `u64`: the value's
/// big-endian bytes with every leading zero byte dropped, zero encoding
/// as the empty payload. Never fails for a `u64`.
#[verifier::external_body]
pub(crate) fn top_encode_u64(v: u64) -> (r: Vec<u8>)
    ensures
        r@ == min_be(v as nat),
{
    dharitri_sc_codec::top_encode_to_vec_u8_or_panic(&v)
}

/// Relies on dharitri-sc-codec's nested encoding of a byte vector: the
/// length as four big-endian bytes, then the bytes themselves. Never
/// fails for a byte vector whose length fits in 32 bits.
#[verifier::external_body]
pub(crate) fn dep_encode_bytes(bytes: &Vec<u8>, dest: &mut Vec<u8>)
    requires
        bytes@.len() <= 0xFFFF_FFFF,
    ensures
        final(dest)@ == old(dest)@ + u32_be_bytes(bytes@.len() as nat) + bytes@,
{
    let _ = dharitri_sc_codec::NestedEncode::dep_encode_or_handle_err(
        bytes,
        dest,
        dharitri_sc_codec::DefaultErrorHandler,
    );
}

/// Relies on dharitri-sc-codec's top-decoding of a byte vector: the whole
/// payload is taken as the value, unchanged. Never fails.
#[verifier::external_body]
pub(crate) fn top_decode_bytes(input: Vec<u8>) -> (r: Vec<u8>)
    ensures
        r@ == input@,
{
    match dharitri_sc_codec::TopDecode::top_decode(input) {
        Ok(v) => v,
        Err(_) => Vec::new(),
    }
}

/// Whether a nested byte value can be read from the front of the stream:
/// a four-byte big-endian length, then at least that many bytes.
pub open spec fn dep_bytes_ready(rest: Seq<u8>) -> bool {
    rest.len() >= 4 && 4 + be_nat(rest.take(4)) <= rest.len()
}

/// The nested byte value at the front of the stream.
pub open spec fn dep_bytes_payload(rest: Seq<u8>) -> Seq<u8> {
    rest.subrange(4, 4 + be_nat(rest.take(4)) as int)
}

/// How many bytes of the stream follow the nested byte value at its front.
pub open spec fn dep_bytes_remaining(rest: Seq<u8>) -> int {
    rest.len() - 4 - be_nat(rest.take(4))
}

/// Relies on dharitri-sc-codec's nested decoding of a byte vector from a
/// byte slice: reads a four-byte big-endian length, then that many bytes;
/// fails when fewer bytes remain. Returns the decoded bytes and how many
/// bytes of the input remain after them.
#[verifier::external_body]
pub(crate) fn dep_decode_bytes(input: &Vec<u8>, at: usize) -> (r: Option<(Vec<u8>, usize)>)
    requires
        at <= input@.len(),
    ensures
        r is Some <==> dep_bytes_ready(input@.skip(at as int)),
        r matches Some(p) ==> p.0@ == dep_bytes_payload(input@.skip(at as int)) && p.1
            == dep_bytes_remaining(input@.skip(at as int)),
{
    let mut slice: &[u8] = &input[at..];
    match dharitri_sc_codec::NestedDecode::dep_decode_or_handle_err(
        &mut slice,
        dharitri_sc_codec::DefaultErrorHandler,
    ) {
        Ok(v) => Some((v, slice.len())),
        Err(_) => None,
    }
}

/// Nested round-trip law: a length-prefixed byte value, as the nested
/// encoder writes it, is read back from the stream exactly, and reading
/// leaves exactly the rest of the stream.
pub proof fn lemma_nested_bytes_round_trip(payload: Seq<u8>, rest: Seq<u8>)
    requires
        payload.len() <= 0xFFFF_FFFF,
    ensures
        dep_bytes_ready(u32_be_bytes(payload.len() as nat) + payload + rest),
        dep_bytes_payload(u32_be_bytes(payload.len() as nat) + payload + rest) == payload,
        dep_bytes_remaining(u32_be_bytes(payload.len() as nat) + payload + rest) == rest.len(),
{
    crate::bytes::lemma_u32_be_round_trip(payload.len() as nat);
    let stream = u32_be_bytes(payload.len() as nat) + payload + rest;
    assert(stream.take(4) =~= u32_be_bytes(payload.len() as nat));
    assert(stream.subrange(4, 4 + payload.len() as int) =~= payload);
}

/// An ordered sequence of top-level-encoded arguments, built incrementally
/// and consumed by one dispatch. Its view is the sequence of argument
/// payloads.
pub struct ManagedArgBuffer {
    data: Vec<ManagedBuffer>,
}

impl View for ManagedArgBuffer {
    type V = Seq<Seq<u8>>;

    closed spec fn view(&self) -> Seq<Seq<u8>> {
        self.data@.map_values(|b: ManagedBuffer| b@)
    }
}

impl ManagedArgBuffer {
    /// A buffer with no arguments.
    pub fn new_empty() -> (r: Self)
        ensures
            r@ == Seq::<Seq<u8>>::empty(),
    {
        let r = ManagedArgBuffer { data: Vec::new() };
        proof {
            assert(r@ =~= Seq::<Seq<u8>>::empty());
        }
        r
    }

    pub fn len(&self) -> (r: usize)
        ensures
            r == self@.len(),
    {
        self.data.len()
    }

    /// Appends one already-encoded argument payload.
    pub fn push_arg_raw(&mut self, arg: ManagedBuffer)
        ensures
            final(self)@ == old(self)@.push(arg@),
    {
        self.data.push(arg);
        proof {
            assert(self@ =~= old(self)@.push(arg@));
        }
    }

    /// The payload of the argument at the given position.
    pub fn arg_at(&self, i: usize) -> (r: &ManagedBuffer)
        requires
            i < self@.len(),
        ensures
            r@ == self@[i as int],
    {
        &self.data[i]
    }
}

/// A value that expands into zero, one, or many top-level-encoded items,
/// appended in order to an argument buffer.
pub trait TopEncodeMulti {
    /// The top-level payloads the value expands into.
    spec fn multi_items(&self) -> Seq<Seq<u8>>;

    /// Appends the value's items to the output sink. Encoding never fails
    /// for the types of this crate, whatever the failure policy.
    fn multi_encode_or_handle_err(&self, output: &mut ManagedArgBuffer, h: ErrorPolicy) -> (r:
        Result<(), CodecFailure>)
        ensures
            r is Ok,
            final(output)@ == old(output)@ + self.multi_items(),
    ;
}

impl TopEncodeMulti for ManagedBuffer {
    /// A buffer expands into one item: its own bytes.
    open spec fn multi_items(&self) -> Seq<Seq<u8>> {
        seq![self@]
    }

    fn multi_encode_or_handle_err(&self, output: &mut ManagedArgBuffer, h: ErrorPolicy) -> (r:
        Result<(), CodecFailure>) {
        output.push_arg_raw(self.clone());
        proof {
            assert(output@ =~= old(output)@ + self.multi_items());
        }
        Ok(())
    }
}

impl TopEncodeMulti for () {
    /// The unit value expands into no items at all.
    open spec fn multi_items(&self) -> Seq<Seq<u8>> {
        Seq::empty()
    }

    fn multi_encode_or_handle_err(&self, output: &mut ManagedArgBuffer, h: ErrorPolicy) -> (r:
        Result<(), CodecFailure>) {
        proof {
            assert(output@ =~= output@ + Seq::<Seq<u8>>::empty());
        }
        Ok(())
    }
}

impl TopEncodeMulti for u64 {
    /// A machine word expands into one item: its minimal big-endian bytes.
    open spec fn multi_items(&self) -> Seq<Seq<u8>> {
        seq![min_be(*self as nat)]
    }

    fn multi_encode_or_handle_err(&self, output: &mut ManagedArgBuffer, h: ErrorPolicy) -> (r:
        Result<(), CodecFailure>) {
        let bytes = top_encode_u64(*self);
        output.push_arg_raw(ManagedBuffer::from_vec(bytes));
        proof {
            assert(output@ =~= old(output)@ + self.multi_items());
        }
        Ok(())
    }
}

} // verus!
