//! The in-process simulation backend: one simulated call context owning
//! the managed value arena, the incoming call value, the remaining gas,
//! and a log of the outgoing dispatches the context has made. It stands
//! in for a live host with the same observable semantics.

use vstd::prelude::*;

use crate::big_uint::BigUint;
use crate::bytes::min_be;
use crate::codec::{CodecFailure, ErrorPolicy, ManagedArgBuffer, TopEncodeMulti};
use crate::contract_deploy::DispatchRecord;
use crate::managed_buffer::{copy_bytes, ManagedBuffer};

verus! {

/// One token transfer attached to the incoming call: raw token
/// identifier bytes as they arrived, nonce, and amount.
pub struct TxTokenTransfer {
    pub token_identifier: Vec<u8>,
    pub nonce: u64,
    pub value: BigUint,
}

/// The value attached to the incoming call: the native-coin amount and
/// the ordered, immutable list of token transfers.
pub struct TxInput {
    pub moax_value: BigUint,
    pub dct_values: Vec<TxTokenTransfer>,
}

impl TopEncodeMulti for TxTokenTransfer {
    /// A transfer triple expands into three items: the token identifier
    /// bytes, the nonce's minimal big-endian bytes, and the amount's
    /// minimal big-endian bytes.
    open spec fn multi_items(&self) -> Seq<Seq<u8>> {
        seq![self.token_identifier@, min_be(self.nonce as nat), self.value.be_bytes()]
    }

    fn multi_encode_or_handle_err(&self, output: &mut ManagedArgBuffer, h: ErrorPolicy) -> (r:
        Result<(), CodecFailure>) {
        output.push_arg_raw(ManagedBuffer::from_vec(copy_bytes(&self.token_identifier)));
        output.push_arg_raw(ManagedBuffer::from_vec(crate::codec::top_encode_u64(self.nonce)));
        output.push_arg_raw(ManagedBuffer::from_vec(self.value.to_bytes()));
        proof {
            assert(output@ =~= old(output)@ + self.multi_items());
        }
        Ok(())
    }
}

/// A typed handle to a big integer in the arena.
#[derive(Clone, Copy, PartialEq, Eq, Structural)]
pub struct BigUintHandle {
    pub index: usize,
}

/// A typed handle to a managed buffer in the arena.
#[derive(Clone, Copy, PartialEq, Eq, Structural)]
pub struct BufferHandle {
    pub index: usize,
}

/// One simulated call context. All arena contents live exactly as long
/// as the context; handles are only ever minted by the context's own
/// allocator, so a handle can never outlive or cross contexts.
pub struct DebugApi {
    pub input: TxInput,
    pub managed_buffers: Vec<ManagedBuffer>,
    pub big_uints: Vec<BigUint>,
    pub gas_left: u64,
    pub dispatches: Vec<DispatchRecord>,
}

/// The two contexts agree on everything but the big-integer arena.
pub open spec fn same_except_big_uints(pre: DebugApi, post: DebugApi) -> bool {
    &&& post.input == pre.input
    &&& post.managed_buffers == pre.managed_buffers
    &&& post.gas_left == pre.gas_left
    &&& post.dispatches == pre.dispatches
}

/// The two contexts agree on everything but the buffer arena.
pub open spec fn same_except_buffers(pre: DebugApi, post: DebugApi) -> bool {
    &&& post.input == pre.input
    &&& post.big_uints == pre.big_uints
    &&& post.gas_left == pre.gas_left
    &&& post.dispatches == pre.dispatches
}

/// The two contexts agree on everything but the dispatch log.
pub open spec fn same_except_dispatches(pre: DebugApi, post: DebugApi) -> bool {
    &&& post.input == pre.input
    &&& post.managed_buffers == pre.managed_buffers
    &&& post.big_uints == pre.big_uints
    &&& post.gas_left == pre.gas_left
}

/// The big-integer arena grew by one value with the given view and
/// representation, reachable through the returned handle; nothing else
/// changed.
pub open spec fn arena_extended_with_value(
    pre: DebugApi,
    post: DebugApi,
    h: BigUintHandle,
    v: nat,
    vb: Seq<u8>,
) -> bool {
    &&& same_except_big_uints(pre, post)
    &&& h.index == pre.big_uints@.len()
    &&& post.big_uints@.len() == pre.big_uints@.len() + 1
    &&& post.big_uints@[h.index as int]@ == v
    &&& post.big_uints@[h.index as int].be_bytes() == vb
    &&& post.big_uints@.subrange(0, pre.big_uints@.len() as int) == pre.big_uints@
}

/// The buffer arena grew by one value with the given bytes, reachable
/// through the returned handle; nothing else changed.
pub open spec fn arena_extended_with_buffer(
    pre: DebugApi,
    post: DebugApi,
    h: BufferHandle,
    b: Seq<u8>,
) -> bool {
    &&& same_except_buffers(pre, post)
    &&& h.index == pre.managed_buffers@.len()
    &&& post.managed_buffers@.len() == pre.managed_buffers@.len() + 1
    &&& post.managed_buffers@[h.index as int]@ == b
    &&& post.managed_buffers@.subrange(0, pre.managed_buffers@.len() as int)
        == pre.managed_buffers@
}

impl DebugApi {
    /// A fresh call context over the given incoming call value and gas
    /// budget, with an empty arena and no dispatches yet.
    pub fn new(input: TxInput, gas_left: u64) -> (r: Self)
        ensures
            r.input == input,
            r.gas_left == gas_left,
            r.managed_buffers@ == Seq::<ManagedBuffer>::empty(),
            r.big_uints@ == Seq::<BigUint>::empty(),
            r.dispatches@ == Seq::<DispatchRecord>::empty(),
    {
        let r = DebugApi {
            input,
            managed_buffers: Vec::new(),
            big_uints: Vec::new(),
            gas_left,
            dispatches: Vec::new(),
        };
        proof {
            assert(r.managed_buffers@ =~= Seq::<ManagedBuffer>::empty());
            assert(r.big_uints@ =~= Seq::<BigUint>::empty());
            assert(r.dispatches@ =~= Seq::<DispatchRecord>::empty());
        }
        r
    }

    /// Allocates a big integer in the arena and hands back its handle.
    pub fn insert_new_big_uint(&mut self, value: BigUint) -> (h: BigUintHandle)
        ensures
            arena_extended_with_value(*old(self), *final(self), h, value@, value.be_bytes()),
    {
        let h = BigUintHandle { index: self.big_uints.len() };
        self.big_uints.push(value);
        proof {
            assert(self.big_uints@.subrange(0, old(self).big_uints@.len() as int) =~= old(
                self,
            ).big_uints@);
        }
        h
    }

    /// Allocates a managed buffer in the arena and hands back its handle.
    pub fn insert_new_managed_buffer(&mut self, value: ManagedBuffer) -> (h: BufferHandle)
        ensures
            arena_extended_with_buffer(*old(self), *final(self), h, value@),
    {
        let h = BufferHandle { index: self.managed_buffers.len() };
        self.managed_buffers.push(value);
        proof {
            assert(self.managed_buffers@.subrange(0, old(self).managed_buffers@.len() as int)
                =~= old(self).managed_buffers@);
        }
        h
    }

    /// The big integer a handle points at.
    pub fn get_big_uint(&self, h: BigUintHandle) -> (r: &BigUint)
        requires
            h.index < self.big_uints@.len(),
        ensures
            r == self.big_uints@[h.index as int],
    {
        &self.big_uints[h.index]
    }

    /// Overwrites the whole value of the buffer a handle points at.
    pub fn overwrite_buffer(&mut self, h: BufferHandle, bytes: &[u8])
        requires
            h.index < old(self).managed_buffers@.len(),
        ensures
            final(self).managed_buffers@.len() == old(self).managed_buffers@.len(),
            final(self).managed_buffers@[h.index as int]@ == bytes@,
            forall|i: int|
                0 <= i < old(self).managed_buffers@.len() && i != h.index ==> final(self).managed_buffers@[i]
                    == old(self).managed_buffers@[i],
            final(self).input == old(self).input,
            final(self).big_uints == old(self).big_uints,
            final(self).gas_left == old(self).gas_left,
            final(self).dispatches == old(self).dispatches,
    {
        let slot = &mut self.managed_buffers[h.index];
        slot.overwrite(bytes);
    }

    /// The managed buffer a handle points at.
    pub fn get_buffer(&self, h: BufferHandle) -> (r: &ManagedBuffer)
        requires
            h.index < self.managed_buffers@.len(),
        ensures
            r == self.managed_buffers@[h.index as int],
    {
        &self.managed_buffers[h.index]
    }

    /// The gas still available to the call, read live.
    pub fn get_gas_left(&self) -> (r: u64)
        ensures
            r == self.gas_left,
    {
        self.gas_left
    }

    /// Sets the remaining gas, simulating consumption between operations.
    pub fn set_gas_left(&mut self, gas: u64)
        ensures
            final(self).gas_left == gas,
            final(self).input == old(self).input,
            final(self).managed_buffers == old(self).managed_buffers,
            final(self).big_uints == old(self).big_uints,
            final(self).dispatches == old(self).dispatches,
    {
        self.gas_left = gas;
    }
}

} // verus!
