//! The call-value resolver: exposes the native-coin amount and the token
//! transfers attached to the incoming call, enforces the single- and
//! no-transfer constraints, and classifies fungibility. Every violation
//! surfaces as an abort value with the fixed status code and a stable
//! message.

use vstd::prelude::*;

use crate::abort::{
    invalid_token_index_panic, non_payable_dct_panic, non_payable_moax_panic,
    too_many_transfers_panic, TxPanic,
};
use crate::debug_api::{
    arena_extended_with_buffer, arena_extended_with_value, BigUintHandle, BufferHandle, DebugApi,
};
use crate::managed_buffer::ManagedBuffer;

verus! {

/// Fungibility of a transferred token: a two-way split derived from the
/// nonce alone.
#[derive(Clone, Copy, PartialEq, Eq, Structural, Debug)]
pub enum DctTokenType {
    Fungible,
    NonFungible,
}

/// How many token transfers the incoming call carries.
pub open spec fn num_transfers_spec(api: DebugApi) -> nat {
    api.input.dct_values@.len()
}

/// Whether the non-payable check passes, and the abort it raises when it
/// does not: native-coin payment is reported first, then transfers.
pub open spec fn check_not_payable_spec(api: DebugApi) -> Result<(), TxPanic> {
    if api.input.moax_value@ > 0 {
        Err(non_payable_moax_panic())
    } else if num_transfers_spec(api) > 0 {
        Err(non_payable_dct_panic())
    } else {
        Ok(())
    }
}

/// The amount of the transfer at the given index, or the abort an
/// out-of-range index raises.
pub open spec fn dct_value_by_index_spec(api: DebugApi, index: int) -> Result<nat, TxPanic> {
    if 0 <= index < num_transfers_spec(api) {
        Ok(api.input.dct_values@[index].value@)
    } else {
        Err(invalid_token_index_panic())
    }
}

/// The token identifier bytes of the transfer at the given index, or the
/// abort an out-of-range index raises.
pub open spec fn token_by_index_spec(api: DebugApi, index: int) -> Result<Seq<u8>, TxPanic> {
    if 0 <= index < num_transfers_spec(api) {
        Ok(api.input.dct_values@[index].token_identifier@)
    } else {
        Err(invalid_token_index_panic())
    }
}

/// The nonce of the transfer at the given index, or the abort an
/// out-of-range index raises.
pub open spec fn dct_token_nonce_by_index_spec(api: DebugApi, index: int) -> Result<u64, TxPanic> {
    if 0 <= index < num_transfers_spec(api) {
        Ok(api.input.dct_values@[index].nonce)
    } else {
        Err(invalid_token_index_panic())
    }
}

/// The fungibility of the transfer at the given index: fungible exactly
/// when its nonce is zero.
pub open spec fn dct_token_type_by_index_spec(api: DebugApi, index: int) -> Result<
    DctTokenType,
    TxPanic,
> {
    if 0 <= index < num_transfers_spec(api) {
        if api.input.dct_values@[index].nonce == 0 {
            Ok(DctTokenType::Fungible)
        } else {
            Ok(DctTokenType::NonFungible)
        }
    } else {
        Err(invalid_token_index_panic())
    }
}

/// What a no-index accessor exposes: the sole transfer's field when there
/// is exactly one transfer; the out-of-range abort when there is none;
/// the too-many-transfers abort when there are several.
pub open spec fn single_transfer_spec<T>(api: DebugApi, by_index: Result<T, TxPanic>) -> Result<
    T,
    TxPanic,
> {
    if num_transfers_spec(api) > 1 {
        Err(too_many_transfers_panic())
    } else {
        by_index
    }
}

impl DebugApi {
    /// The abort guarding every no-index accessor against more than one
    /// transfer.
    fn fail_if_more_than_one_dct_transfer(&self) -> (r: Result<(), TxPanic>)
        ensures
            r is Ok <==> num_transfers_spec(*self) <= 1,
            r matches Err(p) ==> p == too_many_transfers_panic(),
    {
        if self.dct_num_transfers() > 1 {
            Err(TxPanic::too_many_transfers())
        } else {
            Ok(())
        }
    }

    /// Aborts unless the call carries zero native coin and zero
    /// transfers.
    pub fn check_not_payable(&self) -> (r: Result<(), TxPanic>)
        ensures
            r == check_not_payable_spec(*self),
    {
        if !self.input.moax_value.is_zero() {
            return Err(TxPanic::non_payable_moax());
        }
        if self.dct_num_transfers() > 0 {
            return Err(TxPanic::non_payable_dct());
        }
        Ok(())
    }

    /// The native-coin amount attached to the call, allocated in the
    /// arena.
    pub fn moax_value(&mut self) -> (h: BigUintHandle)
        ensures
            arena_extended_with_value(
                *old(self),
                *final(self),
                h,
                old(self).input.moax_value@,
                old(self).input.moax_value.be_bytes(),
            ),
    {
        let value = self.input.moax_value.clone();
        self.insert_new_big_uint(value)
    }

    /// How many token transfers the call carries.
    pub fn dct_num_transfers(&self) -> (r: usize)
        ensures
            r == num_transfers_spec(*self),
    {
        self.input.dct_values.len()
    }

    /// The sole transfer's amount, allocated in the arena. Assumes at
    /// most one transfer; aborts otherwise, and on no transfer at all.
    pub fn dct_value(&mut self) -> (r: Result<BigUintHandle, TxPanic>)
        ensures
            single_transfer_spec(*old(self), dct_value_by_index_spec(*old(self), 0)) matches Err(p)
                ==> r == Err::<BigUintHandle, TxPanic>(p) && *final(self) == *old(self),
            single_transfer_spec(*old(self), dct_value_by_index_spec(*old(self), 0)) matches Ok(v)
                ==> (r matches Ok(h) && arena_extended_with_value(
                *old(self),
                *final(self),
                h,
                v,
                old(self).input.dct_values@[0].value.be_bytes(),
            )),
    {
        match self.fail_if_more_than_one_dct_transfer() {
            Ok(u) => u,
            Err(p) => {
                return Err(p);
            },
        }
        self.dct_value_by_index(0)
    }

    /// The sole transfer's token identifier bytes, allocated in the
    /// arena. Assumes at most one transfer; aborts otherwise, and on no
    /// transfer at all.
    pub fn token(&mut self) -> (r: Result<BufferHandle, TxPanic>)
        ensures
            single_transfer_spec(*old(self), token_by_index_spec(*old(self), 0)) matches Err(p)
                ==> r == Err::<BufferHandle, TxPanic>(p) && *final(self) == *old(self),
            single_transfer_spec(*old(self), token_by_index_spec(*old(self), 0)) matches Ok(b) ==> (
            r matches Ok(h) && arena_extended_with_buffer(*old(self), *final(self), h, b)),
    {
        match self.fail_if_more_than_one_dct_transfer() {
            Ok(u) => u,
            Err(p) => {
                return Err(p);
            },
        }
        self.token_by_index(0)
    }

    /// The sole transfer's nonce. Assumes at most one transfer; aborts
    /// otherwise, and on no transfer at all.
    pub fn dct_token_nonce(&self) -> (r: Result<u64, TxPanic>)
        ensures
            r == single_transfer_spec(*self, dct_token_nonce_by_index_spec(*self, 0)),
    {
        match self.fail_if_more_than_one_dct_transfer() {
            Ok(u) => u,
            Err(p) => {
                return Err(p);
            },
        }
        self.dct_token_nonce_by_index(0)
    }

    /// The sole transfer's fungibility. Assumes at most one transfer;
    /// aborts otherwise, and on no transfer at all.
    pub fn dct_token_type(&self) -> (r: Result<DctTokenType, TxPanic>)
        ensures
            r == single_transfer_spec(*self, dct_token_type_by_index_spec(*self, 0)),
    {
        match self.fail_if_more_than_one_dct_transfer() {
            Ok(u) => u,
            Err(p) => {
                return Err(p);
            },
        }
        self.dct_token_type_by_index(0)
    }

    /// The amount of the transfer at the given index, allocated in the
    /// arena; aborts on an out-of-range index.
    pub fn dct_value_by_index(&mut self, index: usize) -> (r: Result<BigUintHandle, TxPanic>)
        ensures
            dct_value_by_index_spec(*old(self), index as int) matches Err(p) ==> r == Err::<
                BigUintHandle,
                TxPanic,
            >(p) && *final(self) == *old(self),
            dct_value_by_index_spec(*old(self), index as int) matches Ok(v) ==> (r matches Ok(h)
                && arena_extended_with_value(
                *old(self),
                *final(self),
                h,
                v,
                old(self).input.dct_values@[index as int].value.be_bytes(),
            )),
    {
        if index < self.input.dct_values.len() {
            let value = self.input.dct_values[index].value.clone();
            Ok(self.insert_new_big_uint(value))
        } else {
            Err(TxPanic::invalid_token_index())
        }
    }

    /// The token identifier bytes of the transfer at the given index,
    /// allocated in the arena; aborts on an out-of-range index.
    pub fn token_by_index(&mut self, index: usize) -> (r: Result<BufferHandle, TxPanic>)
        ensures
            token_by_index_spec(*old(self), index as int) matches Err(p) ==> r == Err::<
                BufferHandle,
                TxPanic,
            >(p) && *final(self) == *old(self),
            token_by_index_spec(*old(self), index as int) matches Ok(b) ==> (r matches Ok(h)
                && arena_extended_with_buffer(*old(self), *final(self), h, b)),
    {
        if index < self.input.dct_values.len() {
            let bytes = crate::managed_buffer::copy_bytes(
                &self.input.dct_values[index].token_identifier,
            );
            Ok(self.insert_new_managed_buffer(ManagedBuffer::from_vec(bytes)))
        } else {
            Err(TxPanic::invalid_token_index())
        }
    }

    /// The nonce of the transfer at the given index; aborts on an
    /// out-of-range index.
    pub fn dct_token_nonce_by_index(&self, index: usize) -> (r: Result<u64, TxPanic>)
        ensures
            r == dct_token_nonce_by_index_spec(*self, index as int),
    {
        if index < self.input.dct_values.len() {
            Ok(self.input.dct_values[index].nonce)
        } else {
            Err(TxPanic::invalid_token_index())
        }
    }

    /// The fungibility of the transfer at the given index: fungible
    /// exactly when its nonce is zero; aborts on an out-of-range index.
    pub fn dct_token_type_by_index(&self, index: usize) -> (r: Result<DctTokenType, TxPanic>)
        ensures
            r == dct_token_type_by_index_spec(*self, index as int),
    {
        match self.dct_token_nonce_by_index(index) {
            Ok(nonce) => if nonce == 0 {
                Ok(DctTokenType::Fungible)
            } else {
                Ok(DctTokenType::NonFungible)
            },
            Err(p) => Err(p),
        }
    }
}

/// Payability law: the non-payable check aborts exactly when the call
/// carries a positive native-coin amount or at least one token transfer.
pub proof fn lemma_check_not_payable(api: DebugApi)
    ensures
        check_not_payable_spec(api) is Ok <==> (api.input.moax_value@ == 0 && num_transfers_spec(
            api,
        ) == 0),
        api.input.moax_value@ > 0 ==> check_not_payable_spec(api) == Err::<(), TxPanic>(
            non_payable_moax_panic(),
        ),
        api.input.moax_value@ == 0 && num_transfers_spec(api) > 0 ==> check_not_payable_spec(api)
            == Err::<(), TxPanic>(non_payable_dct_panic()),
{
}

/// Single-transfer law: for a call with k transfers, the transfer count
/// reads k; with none, every no-index accessor fails with the
/// out-of-range abort; with exactly one, each returns the sole transfer's
/// field; with two or more, each aborts with too-many-transfers.
pub proof fn lemma_single_transfer_accessors(api: DebugApi)
    ensures
        num_transfers_spec(api) == 0 ==> {
            &&& single_transfer_spec(api, dct_value_by_index_spec(api, 0)) == Err::<nat, TxPanic>(
                invalid_token_index_panic(),
            )
            &&& single_transfer_spec(api, token_by_index_spec(api, 0)) == Err::<Seq<u8>, TxPanic>(
                invalid_token_index_panic(),
            )
            &&& single_transfer_spec(api, dct_token_nonce_by_index_spec(api, 0)) == Err::<
                u64,
                TxPanic,
            >(invalid_token_index_panic())
            &&& single_transfer_spec(api, dct_token_type_by_index_spec(api, 0)) == Err::<
                DctTokenType,
                TxPanic,
            >(invalid_token_index_panic())
        },
        num_transfers_spec(api) == 1 ==> {
            &&& single_transfer_spec(api, dct_value_by_index_spec(api, 0)) == Ok::<nat, TxPanic>(
                api.input.dct_values@[0].value@,
            )
            &&& single_transfer_spec(api, token_by_index_spec(api, 0)) == Ok::<Seq<u8>, TxPanic>(
                api.input.dct_values@[0].token_identifier@,
            )
            &&& single_transfer_spec(api, dct_token_nonce_by_index_spec(api, 0)) == Ok::<
                u64,
                TxPanic,
            >(api.input.dct_values@[0].nonce)
            &&& single_transfer_spec(api, dct_token_type_by_index_spec(api, 0)) == Ok::<
                DctTokenType,
                TxPanic,
            >(
                if api.input.dct_values@[0].nonce == 0 {
                    DctTokenType::Fungible
                } else {
                    DctTokenType::NonFungible
                },
            )
        },
        num_transfers_spec(api) >= 2 ==> {
            &&& single_transfer_spec(api, dct_value_by_index_spec(api, 0)) == Err::<nat, TxPanic>(
                too_many_transfers_panic(),
            )
            &&& single_transfer_spec(api, token_by_index_spec(api, 0)) == Err::<Seq<u8>, TxPanic>(
                too_many_transfers_panic(),
            )
            &&& single_transfer_spec(api, dct_token_nonce_by_index_spec(api, 0)) == Err::<
                u64,
                TxPanic,
            >(too_many_transfers_panic())
            &&& single_transfer_spec(api, dct_token_type_by_index_spec(api, 0)) == Err::<
                DctTokenType,
                TxPanic,
            >(too_many_transfers_panic())
        },
{
}

/// Fungibility law: for every valid index, the classification is
/// fungible exactly when the nonce is zero, and non-fungible exactly when
/// it is not.
pub proof fn lemma_fungibility(api: DebugApi, index: int)
    requires
        0 <= index < num_transfers_spec(api),
    ensures
        dct_token_type_by_index_spec(api, index) == Ok::<DctTokenType, TxPanic>(
            DctTokenType::Fungible,
        ) <==> api.input.dct_values@[index].nonce == 0,
        dct_token_type_by_index_spec(api, index) == Ok::<DctTokenType, TxPanic>(
            DctTokenType::NonFungible,
        ) <==> api.input.dct_values@[index].nonce != 0,
{
}

} // verus!
