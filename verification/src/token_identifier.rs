//! Token identifiers. The empty buffer is the sentinel for the native
//! coin; the literal four-byte native-coin symbol is never stored, every
//! construction path normalizes it to the sentinel. On the wire the
//! sentinel is written as the four-byte symbol.

use vstd::prelude::*;

use crate::bytes::u32_be_bytes;
use crate::codec::{
    dep_bytes_payload, dep_bytes_ready, dep_bytes_remaining, handle_decode_failure,
    handled_decode_failure, CodecFailure, DecodeError, ErrorPolicy, ManagedArgBuffer,
    TopEncodeMulti,
};
use crate::managed_buffer::ManagedBuffer;

verus! {

/// The four ASCII bytes of the native-coin symbol, "MOAX".
pub open spec fn moax_representation() -> Seq<u8> {
    seq![77u8, 79u8, 65u8, 88u8]
}

/// What a token identifier holds in memory after decoding the given
/// payload: the native-coin symbol collapses to the empty sentinel.
pub open spec fn normalize_token_bytes(s: Seq<u8>) -> Seq<u8> {
    if s == moax_representation() {
        Seq::empty()
    } else {
        s
    }
}

/// What a token identifier writes on the wire: the four-byte native-coin
/// symbol for the sentinel, else its own bytes.
pub open spec fn token_name(s: Seq<u8>) -> Seq<u8> {
    if s.len() == 0 {
        moax_representation()
    } else {
        s
    }
}

/// The nested encoding of a token identifier with the given in-memory
/// bytes: the wire name, length-prefixed.
pub open spec fn dep_token_bytes(s: Seq<u8>) -> Seq<u8> {
    u32_be_bytes(token_name(s).len() as nat) + token_name(s)
}

/// The four ASCII bytes of the native-coin symbol, as a value.
pub fn moax_representation_bytes() -> (r: Vec<u8>)
    ensures
        r@ == moax_representation(),
{
    let mut r: Vec<u8> = Vec::new();
    r.push(77);
    r.push(79);
    r.push(65);
    r.push(88);
    proof {
        assert(r@ =~= moax_representation());
    }
    r
}

/// A token identifier: the full ASCII name of a token, or the empty
/// sentinel standing for the native coin.
pub struct TokenIdentifier {
    buffer: ManagedBuffer,
}

impl View for TokenIdentifier {
    type V = Seq<u8>;

    closed spec fn view(&self) -> Seq<u8> {
        self.buffer@
    }
}

impl TokenIdentifier {
    /// The literal native-coin symbol is never stored.
    #[verifier::type_invariant]
    closed spec fn inv(&self) -> bool {
        self.buffer@ != moax_representation()
    }

    /// The native-coin sentinel.
    pub fn moax() -> (r: Self)
        ensures
            r@ == Seq::<u8>::empty(),
    {
        let buffer = ManagedBuffer::new();
        proof {
            assert(buffer@ != moax_representation()) by {
                assert(moax_representation().len() == 4);
            }
        }
        TokenIdentifier { buffer }
    }

    /// A token identifier from raw name bytes; the native-coin symbol is
    /// normalized to the sentinel.
    pub fn from_dct_bytes(bytes: &[u8]) -> (r: Self)
        ensures
            r@ == normalize_token_bytes(bytes@),
    {
        Self::from_buffer(ManagedBuffer::new_from_bytes(bytes))
    }

    /// A token identifier from a managed buffer; the native-coin symbol is
    /// normalized to the sentinel.
    pub fn from_buffer(buffer: ManagedBuffer) -> (r: Self)
        ensures
            r@ == normalize_token_bytes(buffer@),
    {
        let moax_bytes = moax_representation_bytes();
        if buffer.eq_bytes(moax_bytes.as_slice()) {
            Self::moax()
        } else {
            TokenIdentifier { buffer }
        }
    }

    /// Whether this is the native coin.
    pub fn is_moax(&self) -> (r: bool)
        ensures
            r == (self@.len() == 0),
    {
        self.is_empty()
    }

    /// Whether this is a real token, not the native coin.
    pub fn is_dct(&self) -> (r: bool)
        ensures
            r == (self@.len() != 0),
    {
        !self.is_moax()
    }

    pub fn len(&self) -> (r: usize)
        ensures
            r == self@.len(),
    {
        self.buffer.len()
    }

    pub fn is_empty(&self) -> (r: bool)
        ensures
            r == (self@.len() == 0),
    {
        self.buffer.is_empty()
    }

    /// The in-memory bytes, as a managed buffer.
    pub fn into_managed_buffer(self) -> (r: ManagedBuffer)
        ensures
            r@ == self@,
    {
        self.buffer
    }

    /// The in-memory bytes, as a managed buffer.
    pub fn as_managed_buffer(&self) -> (r: &ManagedBuffer)
        ensures
            r@ == self@,
    {
        &self.buffer
    }

    /// A copy of the in-memory bytes; empty for the native coin.
    pub fn to_dct_identifier(&self) -> (r: Vec<u8>)
        ensures
            r@ == self@,
    {
        self.buffer.to_bytes()
    }

    /// The display name: the four-byte native-coin symbol for the
    /// sentinel, else the token's own bytes.
    pub fn as_name(&self) -> (r: Vec<u8>)
        ensures
            r@ == token_name(self@),
    {
        if self.is_moax() {
            moax_representation_bytes()
        } else {
            self.buffer.to_bytes()
        }
    }

    /// Whether the two identifiers name the same token.
    pub fn eq_token(&self, other: &TokenIdentifier) -> (r: bool)
        ensures
            r == (self@ == other@),
    {
        self.buffer.eq_buffer(&other.buffer)
    }

    /// Top-level encoding: the wire name fills the whole payload. Never
    /// fails.
    pub fn top_encode_or_handle_err(&self, h: ErrorPolicy) -> (r: Result<Vec<u8>, CodecFailure>)
        ensures
            r matches Ok(v) && v@ == token_name(self@),
    {
        Ok(self.as_name())
    }

    /// Top-level decoding: the whole payload is the wire name, normalized
    /// back to the in-memory form. Never fails.
    pub fn top_decode_or_handle_err(input: Vec<u8>, h: ErrorPolicy) -> (r: Result<
        TokenIdentifier,
        CodecFailure,
    >)
        ensures
            r matches Ok(t) && t@ == normalize_token_bytes(input@),
    {
        let bytes = crate::codec::top_decode_bytes(input);
        Ok(Self::from_buffer(ManagedBuffer::from_vec(bytes)))
    }

    /// Nested encoding: appends the length-prefixed wire name to the
    /// stream. Never fails for a name whose length fits in 32 bits.
    pub fn dep_encode_or_handle_err(&self, dest: &mut Vec<u8>, h: ErrorPolicy) -> (r: Result<
        (),
        CodecFailure,
    >)
        requires
            self@.len() <= 0xFFFF_FFFF,
        ensures
            r is Ok,
            final(dest)@ == old(dest)@ + dep_token_bytes(self@),
    {
        let name = self.as_name();
        crate::codec::dep_encode_bytes(&name, dest);
        Ok(())
    }

    /// Nested decoding: reads a length-prefixed wire name from the given
    /// position of the stream and normalizes it; returns the identifier
    /// and the position after it. Fails when the stream is too short, as
    /// the failure policy directs.
    pub fn dep_decode_or_handle_err(input: &Vec<u8>, at: usize, h: ErrorPolicy) -> (r: Result<
        (TokenIdentifier, usize),
        CodecFailure,
    >)
        requires
            at <= input@.len(),
        ensures
            dep_bytes_ready(input@.skip(at as int)) ==> (r matches Ok(p) && p.0@
                == normalize_token_bytes(dep_bytes_payload(input@.skip(at as int))) && p.1
                == input@.len() - dep_bytes_remaining(input@.skip(at as int))),
            !dep_bytes_ready(input@.skip(at as int)) ==> r == Err::<(TokenIdentifier, usize),
            _>(handled_decode_failure(h, DecodeError::InputTooShort)),
    {
        match crate::codec::dep_decode_bytes(input, at) {
            Some((bytes, remaining)) => {
                let t = Self::from_buffer(ManagedBuffer::from_vec(bytes));
                let pos = input.len() - remaining;
                Ok((t, pos))
            },
            None => Err(handle_decode_failure(h, DecodeError::InputTooShort)),
        }
    }
}

impl PartialEq for TokenIdentifier {
    fn eq(&self, other: &TokenIdentifier) -> (r: bool) {
        self.buffer.eq_buffer(&other.buffer)
    }
}

impl vstd::std_specs::cmp::PartialEqSpecImpl for TokenIdentifier {
    open spec fn obeys_eq_spec() -> bool {
        true
    }

    open spec fn eq_spec(&self, other: &TokenIdentifier) -> bool {
        self@ == other@
    }
}

impl Eq for TokenIdentifier {

}

impl Clone for TokenIdentifier {
    fn clone(&self) -> (r: Self)
        ensures
            r@ == self@,
    {
        proof {
            use_type_invariant(self);
        }
        TokenIdentifier { buffer: self.buffer.clone() }
    }
}

impl TopEncodeMulti for TokenIdentifier {
    /// A token identifier expands into one item: its wire name.
    open spec fn multi_items(&self) -> Seq<Seq<u8>> {
        seq![token_name(self@)]
    }

    fn multi_encode_or_handle_err(&self, output: &mut ManagedArgBuffer, h: ErrorPolicy) -> (r:
        Result<(), CodecFailure>) {
        output.push_arg_raw(ManagedBuffer::from_vec(self.as_name()));
        proof {
            assert(output@ =~= old(output)@ + self.multi_items());
        }
        Ok(())
    }
}

/// Round-trip law, decode side first: any nonempty payload decoded as a
/// token identifier and re-encoded gives back the original payload byte
/// for byte. (The empty payload is the one exception: it decodes to the
/// native-coin sentinel, which re-encodes as the four-byte symbol.)
pub proof fn lemma_token_round_trip(payload: Seq<u8>)
    requires
        payload.len() > 0,
    ensures
        token_name(normalize_token_bytes(payload)) == payload,
{
}

/// Round-trip law, encode side first: the wire name of any stored token
/// identifier decodes back to the identifier itself.
pub proof fn lemma_token_wire_round_trip(stored: Seq<u8>)
    requires
        stored != moax_representation(),
    ensures
        normalize_token_bytes(token_name(stored)) == stored,
{
}

/// Nested round-trip law: a token identifier written by the nested
/// encoder is read back from the stream exactly, leaving the rest of the
/// stream untouched.
pub proof fn lemma_token_nested_round_trip(stored: Seq<u8>, rest: Seq<u8>)
    requires
        stored != moax_representation(),
        stored.len() <= 0xFFFF_FFFF,
    ensures
        dep_bytes_ready(dep_token_bytes(stored) + rest),
        normalize_token_bytes(dep_bytes_payload(dep_token_bytes(stored) + rest)) == stored,
        dep_bytes_remaining(dep_token_bytes(stored) + rest) == rest.len(),
{
    let name = token_name(stored);
    crate::codec::lemma_nested_bytes_round_trip(name, rest);
    assert(dep_token_bytes(stored) + rest =~= u32_be_bytes(name.len() as nat) + name + rest);
    lemma_token_wire_round_trip(stored);
}

} // verus!
