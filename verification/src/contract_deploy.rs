//! One-shot deploy/upgrade builders. A builder accumulates target,
//! payment, gas policy and arguments through chained calls, and is
//! consumed by exactly one dispatch, which resolves the gas budget at
//! that instant and hands the outgoing call to the host context.

use vstd::prelude::*;

use crate::address::{zero_address_bytes, ManagedAddress};
use crate::big_uint::BigUint;
use crate::codec::{CodecFailure, ErrorPolicy, ManagedArgBuffer, TopEncodeMulti};
use crate::debug_api::{same_except_dispatches, DebugApi};
use crate::managed_buffer::ManagedBuffer;

verus! {

/// The gas-limit value that stands for "unspecified". Using the maximum
/// representable value keeps zero a valid explicit choice; an unspecified
/// limit resolves to the gas remaining at dispatch time.
pub const UNSPECIFIED_GAS_LIMIT: u64 = u64::MAX;

/// Which of the four dispatch operations an outgoing call performs.
#[derive(Clone, Copy, PartialEq, Eq, Structural, Debug)]
pub enum DispatchKind {
    DeployFromCode,
    DeployFromSource,
    UpgradeFromCode,
    UpgradeFromSource,
}

/// The metadata flags attached to deployed or upgraded code.
#[derive(Clone, Copy, PartialEq, Eq, Structural, Debug)]
pub struct CodeMetadata {
    pub upgradeable: bool,
    pub readable: bool,
    pub payable: bool,
    pub payable_by_contract: bool,
}

/// Everything one dispatch hands to the host: the operation, its target
/// or code source, the metadata flags, the gas budget resolved at
/// dispatch time, the payment, and the encoded arguments in push order.
pub struct DispatchRecord {
    pub kind: DispatchKind,
    pub to: Option<ManagedAddress>,
    pub code: Option<ManagedBuffer>,
    pub source_address: Option<ManagedAddress>,
    pub code_metadata: CodeMetadata,
    pub gas: u64,
    pub payment: BigUint,
    pub args: ManagedArgBuffer,
}

/// A deploy/upgrade builder. The target address is only used by the
/// upgrade dispatches and ignored for a fresh deploy.
pub struct ContractDeploy {
    pub to: ManagedAddress,
    pub moax_payment: BigUint,
    pub explicit_gas_limit: u64,
    pub arg_buffer: ManagedArgBuffer,
}

/// A builder as every construction path first hands it out: zero target,
/// zero payment, unspecified gas, no arguments.
pub open spec fn fresh_deploy_to(d: ContractDeploy, to: Seq<u8>) -> bool {
    &&& d.to@ == to
    &&& d.moax_payment@ == 0
    &&& d.explicit_gas_limit == UNSPECIFIED_GAS_LIMIT
    &&& d.arg_buffer@ == Seq::<Seq<u8>>::empty()
}

/// The gas budget a builder sends if dispatched against the given
/// context: the explicit limit when one was set, else the gas remaining
/// in the context at that instant.
pub open spec fn resolve_gas_limit_spec(d: ContractDeploy, api: DebugApi) -> u64 {
    if d.explicit_gas_limit == UNSPECIFIED_GAS_LIMIT {
        api.gas_left
    } else {
        d.explicit_gas_limit
    }
}

/// The address the simulated host assigns to the n-th dispatch's deploy.
pub open spec fn fresh_address_bytes(n: nat) -> Seq<u8> {
    Seq::new(32, |i: int| if i < 31 { 0u8 } else { (n % 256) as u8 })
}

/// A builder aimed at the given address, with the types inferable from
/// context.
pub fn new_contract_deploy(to: ManagedAddress) -> (r: ContractDeploy)
    ensures
        fresh_deploy_to(r, to@),
{
    let mut contract_deploy = ContractDeploy::new();
    contract_deploy.to = to;
    contract_deploy
}

impl Default for ContractDeploy {
    fn default() -> (r: Self)
        ensures
            fresh_deploy_to(r, zero_address_bytes()),
    {
        let zero = BigUint::zero();
        let zero_address = ManagedAddress::zero();
        let arg_buffer = ManagedArgBuffer::new_empty();
        ContractDeploy {
            to: zero_address,
            moax_payment: zero,
            explicit_gas_limit: UNSPECIFIED_GAS_LIMIT,
            arg_buffer,
        }
    }
}

impl ContractDeploy {
    pub fn new() -> (r: Self)
        ensures
            fresh_deploy_to(r, zero_address_bytes()),
    {
        Self::default()
    }

    /// Replaces the payment with the given native-coin amount.
    pub fn with_moax_transfer(self, payment_amount: BigUint) -> (r: Self)
        ensures
            r.moax_payment == payment_amount,
            r.to == self.to,
            r.explicit_gas_limit == self.explicit_gas_limit,
            r.arg_buffer == self.arg_buffer,
    {
        ContractDeploy { moax_payment: payment_amount, ..self }
    }

    /// Replaces the gas policy with an explicit limit.
    pub fn with_gas_limit(self, gas_limit: u64) -> (r: Self)
        ensures
            r.explicit_gas_limit == gas_limit,
            r.to == self.to,
            r.moax_payment == self.moax_payment,
            r.arg_buffer == self.arg_buffer,
    {
        ContractDeploy { explicit_gas_limit: gas_limit, ..self }
    }

    /// Expands the value into its top-level items and appends them to the
    /// argument buffer.
    pub fn push_endpoint_arg<T: TopEncodeMulti>(&mut self, endpoint_arg: &T)
        ensures
            final(self).arg_buffer@ == old(self).arg_buffer@ + endpoint_arg.multi_items(),
            final(self).to == old(self).to,
            final(self).moax_payment == old(self).moax_payment,
            final(self).explicit_gas_limit == old(self).explicit_gas_limit,
    {
        let r = endpoint_arg.multi_encode_or_handle_err(
            &mut self.arg_buffer,
            ErrorPolicy::AbortOnError,
        );
        match r {
            Ok(u) => u,
            Err(_) => {
                proof {
                    assert(false);
                }
            },
        }
    }

    /// The gas budget this builder would send if dispatched now: the
    /// explicit limit when one was set, else the context's remaining gas,
    /// read live and never cached.
    pub fn resolve_gas_limit(&self, api: &DebugApi) -> (r: u64)
        ensures
            r == resolve_gas_limit_spec(*self, *api),
    {
        if self.explicit_gas_limit == UNSPECIFIED_GAS_LIMIT {
            api.get_gas_left()
        } else {
            self.explicit_gas_limit
        }
    }

    /// Deploys a fresh contract from raw code, consuming the builder.
    /// Returns the new address and the raw return data of the synchronous
    /// sub-call.
    pub fn deploy_contract(self, api: &mut DebugApi, code: &ManagedBuffer, code_metadata:
        CodeMetadata) -> (r: (ManagedAddress, Vec<ManagedBuffer>))
        ensures
            same_except_dispatches(*old(api), *final(api)),
            final(api).dispatches@.drop_last() == old(api).dispatches@,
            ({
                let rec = final(api).dispatches@.last();
                &&& rec.kind == DispatchKind::DeployFromCode
                &&& rec.to is None
                &&& rec.code matches Some(c) && c@ == code@
                &&& rec.source_address is None
                &&& rec.code_metadata == code_metadata
                &&& rec.gas == resolve_gas_limit_spec(self, *old(api))
                &&& rec.payment == self.moax_payment
                &&& rec.args == self.arg_buffer
            }),
            r.0@ == fresh_address_bytes(old(api).dispatches@.len() as nat),
            r.1@ == Seq::<ManagedBuffer>::empty(),
    {
        let gas = self.resolve_gas_limit(api);
        let new_address = simulated_deploy_address(api);
        let rec = DispatchRecord {
            kind: DispatchKind::DeployFromCode,
            to: None,
            code: Some(code.clone()),
            source_address: None,
            code_metadata,
            gas,
            payment: self.moax_payment,
            args: self.arg_buffer,
        };
        push_dispatch(api, rec);
        let results: Vec<ManagedBuffer> = Vec::new();
        proof {
            assert(results@ =~= Seq::<ManagedBuffer>::empty());
        }
        (new_address, results)
    }

    /// Deploys a fresh contract from the code of an already deployed
    /// source contract, consuming the builder.
    pub fn deploy_from_source(self, api: &mut DebugApi, source_address: &ManagedAddress,
        code_metadata: CodeMetadata) -> (r: (ManagedAddress, Vec<ManagedBuffer>))
        ensures
            same_except_dispatches(*old(api), *final(api)),
            final(api).dispatches@.drop_last() == old(api).dispatches@,
            ({
                let rec = final(api).dispatches@.last();
                &&& rec.kind == DispatchKind::DeployFromSource
                &&& rec.to is None
                &&& rec.code is None
                &&& rec.source_address matches Some(s) && s@ == source_address@
                &&& rec.code_metadata == code_metadata
                &&& rec.gas == resolve_gas_limit_spec(self, *old(api))
                &&& rec.payment == self.moax_payment
                &&& rec.args == self.arg_buffer
            }),
            r.0@ == fresh_address_bytes(old(api).dispatches@.len() as nat),
            r.1@ == Seq::<ManagedBuffer>::empty(),
    {
        let gas = self.resolve_gas_limit(api);
        let new_address = simulated_deploy_address(api);
        let rec = DispatchRecord {
            kind: DispatchKind::DeployFromSource,
            to: None,
            code: None,
            source_address: Some(source_address.clone()),
            code_metadata,
            gas,
            payment: self.moax_payment,
            args: self.arg_buffer,
        };
        push_dispatch(api, rec);
        let results: Vec<ManagedBuffer> = Vec::new();
        proof {
            assert(results@ =~= Seq::<ManagedBuffer>::empty());
        }
        (new_address, results)
    }

    /// Upgrades the target contract to the code of an already deployed
    /// source contract, consuming the builder. Failure surfaces only
    /// through the host, never through a return value.
    pub fn upgrade_from_source(self, api: &mut DebugApi, source_address: &ManagedAddress,
        code_metadata: CodeMetadata)
        ensures
            same_except_dispatches(*old(api), *final(api)),
            final(api).dispatches@.drop_last() == old(api).dispatches@,
            ({
                let rec = final(api).dispatches@.last();
                &&& rec.kind == DispatchKind::UpgradeFromSource
                &&& rec.to matches Some(t) && t == self.to
                &&& rec.code is None
                &&& rec.source_address matches Some(s) && s@ == source_address@
                &&& rec.code_metadata == code_metadata
                &&& rec.gas == resolve_gas_limit_spec(self, *old(api))
                &&& rec.payment == self.moax_payment
                &&& rec.args == self.arg_buffer
            }),
    {
        let gas = self.resolve_gas_limit(api);
        let rec = DispatchRecord {
            kind: DispatchKind::UpgradeFromSource,
            to: Some(self.to),
            code: None,
            source_address: Some(source_address.clone()),
            code_metadata,
            gas,
            payment: self.moax_payment,
            args: self.arg_buffer,
        };
        push_dispatch(api, rec);
    }

    /// Upgrades the target contract to the given raw code, consuming the
    /// builder. Failure surfaces only through the host, never through a
    /// return value.
    pub fn upgrade_contract(self, api: &mut DebugApi, code: &ManagedBuffer, code_metadata:
        CodeMetadata)
        ensures
            same_except_dispatches(*old(api), *final(api)),
            final(api).dispatches@.drop_last() == old(api).dispatches@,
            ({
                let rec = final(api).dispatches@.last();
                &&& rec.kind == DispatchKind::UpgradeFromCode
                &&& rec.to matches Some(t) && t == self.to
                &&& rec.code matches Some(c) && c@ == code@
                &&& rec.source_address is None
                &&& rec.code_metadata == code_metadata
                &&& rec.gas == resolve_gas_limit_spec(self, *old(api))
                &&& rec.payment == self.moax_payment
                &&& rec.args == self.arg_buffer
            }),
    {
        let gas = self.resolve_gas_limit(api);
        let rec = DispatchRecord {
            kind: DispatchKind::UpgradeFromCode,
            to: Some(self.to),
            code: Some(code.clone()),
            source_address: None,
            code_metadata,
            gas,
            payment: self.moax_payment,
            args: self.arg_buffer,
        };
        push_dispatch(api, rec);
    }
}

/// The address the simulated host will assign to a deploy made now.
fn simulated_deploy_address(api: &DebugApi) -> (r: ManagedAddress)
    ensures
        r@ == fresh_address_bytes(api.dispatches@.len() as nat),
{
    let mut bytes: Vec<u8> = Vec::new();
    let mut i: usize = 0;
    while i < 31
        invariant
            i <= 31,
            bytes@ =~= Seq::new(i as nat, |j: int| 0u8),
        decreases 31 - i,
    {
        bytes.push(0);
        proof {
            assert(bytes@ =~= Seq::new((i + 1) as nat, |j: int| 0u8));
        }
        i = i + 1;
    }
    let tag: u8 = (api.dispatches.len() % 256) as u8;
    bytes.push(tag);
    let r = ManagedAddress::new_from_bytes(bytes.as_slice());
    proof {
        assert(r@ =~= fresh_address_bytes(api.dispatches@.len() as nat));
    }
    r
}

/// Appends one outgoing call to the context's dispatch log.
fn push_dispatch(api: &mut DebugApi, rec: DispatchRecord)
    ensures
        same_except_dispatches(*old(api), *final(api)),
        final(api).dispatches@ == old(api).dispatches@.push(rec),
        final(api).dispatches@.drop_last() == old(api).dispatches@,
        final(api).dispatches@.last() == rec,
{
    api.dispatches.push(rec);
    proof {
        assert(api.dispatches@.drop_last() =~= old(api).dispatches@);
    }
}

/// Gas-resolution law: the gas a dispatch sends is decided at the
/// dispatch instant. A builder without an explicit limit always sends the
/// context's remaining gas as it stands then, however the context changed
/// since the builder was made; a builder with an explicit limit always
/// sends that limit.
pub proof fn lemma_gas_resolved_at_dispatch(d: ContractDeploy, api: DebugApi)
    ensures
        d.explicit_gas_limit == UNSPECIFIED_GAS_LIMIT ==> resolve_gas_limit_spec(d, api)
            == api.gas_left,
        d.explicit_gas_limit != UNSPECIFIED_GAS_LIMIT ==> resolve_gas_limit_spec(d, api)
            == d.explicit_gas_limit,
{
}

} // verus!
