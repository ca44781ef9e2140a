use dharitri_core::address::ManagedAddress;
use dharitri_core::big_uint::BigUint;
use dharitri_core::contract_deploy::{
    new_contract_deploy, CodeMetadata, ContractDeploy, DispatchKind, UNSPECIFIED_GAS_LIMIT,
};
use dharitri_core::debug_api::{DebugApi, TxInput, TxTokenTransfer};
use dharitri_core::managed_buffer::ManagedBuffer;
use dharitri_core::token_identifier::TokenIdentifier;

fn fresh_api(gas: u64) -> DebugApi {
    DebugApi::new(
        TxInput { moax_value: BigUint::zero(), dct_values: Vec::new() },
        gas,
    )
}

fn metadata() -> CodeMetadata {
    CodeMetadata { upgradeable: true, readable: false, payable: false, payable_by_contract: false }
}

#[test]
fn a_fresh_builder_has_no_payment_gas_or_arguments() {
    let d = ContractDeploy::new();
    assert_eq!(d.explicit_gas_limit, UNSPECIFIED_GAS_LIMIT);
    assert!(d.moax_payment.is_zero());
    assert_eq!(d.arg_buffer.len(), 0);
    assert!(d.to.eq_address(&ManagedAddress::zero()));
}

#[test]
fn new_contract_deploy_aims_at_the_given_target() {
    let mut raw = vec![0u8; 32];
    raw[0] = 9;
    let to = ManagedAddress::new_from_bytes(&raw);
    let d = new_contract_deploy(to);
    assert_eq!(d.to.to_bytes(), raw);
    assert_eq!(d.explicit_gas_limit, UNSPECIFIED_GAS_LIMIT);
}

#[test]
fn unspecified_gas_is_read_at_dispatch_time() {
    let mut api = fresh_api(1000);
    let d = ContractDeploy::new();
    api.set_gas_left(400);
    d.deploy_contract(&mut api, &ManagedBuffer::new_from_bytes(b"code"), metadata());
    assert_eq!(api.dispatches.len(), 1);
    assert_eq!(api.dispatches[0].gas, 400);
}

#[test]
fn an_explicit_gas_limit_survives_gas_consumption() {
    let mut api = fresh_api(1000);
    let d = ContractDeploy::new().with_gas_limit(123);
    api.set_gas_left(400);
    d.deploy_contract(&mut api, &ManagedBuffer::new_from_bytes(b"code"), metadata());
    assert_eq!(api.dispatches[0].gas, 123);
}

#[test]
fn zero_is_a_valid_explicit_gas_limit() {
    let mut api = fresh_api(1000);
    let d = ContractDeploy::new().with_gas_limit(0);
    d.deploy_contract(&mut api, &ManagedBuffer::new_from_bytes(b"code"), metadata());
    assert_eq!(api.dispatches[0].gas, 0);
}

#[test]
fn deploy_scenario_hands_the_host_the_arguments_in_push_order() {
    let mut api = fresh_api(5000);
    let mut d = ContractDeploy::new().with_moax_transfer(BigUint::zero());
    d.push_endpoint_arg(&TokenIdentifier::from_dct_bytes(b"AAA-123456"));
    d.push_endpoint_arg(&7u64);
    api.set_gas_left(4200);
    let (new_address, results) =
        d.deploy_contract(&mut api, &ManagedBuffer::new_from_bytes(b"wasm"), metadata());

    assert_eq!(api.dispatches.len(), 1);
    let rec = &api.dispatches[0];
    assert_eq!(rec.kind, DispatchKind::DeployFromCode);
    assert!(rec.payment.is_zero());
    assert_eq!(rec.gas, 4200);
    assert_eq!(rec.args.len(), 2);
    assert_eq!(rec.args.arg_at(0).to_bytes(), b"AAA-123456".to_vec());
    assert_eq!(rec.args.arg_at(1).to_bytes(), vec![7]);
    assert!(rec.code.as_ref().unwrap().eq_bytes(b"wasm"));
    assert!(rec.to.is_none());
    assert!(rec.source_address.is_none());

    let mut expected_address = vec![0u8; 32];
    expected_address[31] = 0;
    assert_eq!(new_address.to_bytes(), expected_address);
    assert!(results.is_empty());
}

#[test]
fn each_deploy_gets_its_own_address() {
    let mut api = fresh_api(5000);
    let (first, _) = ContractDeploy::new().deploy_contract(
        &mut api,
        &ManagedBuffer::new_from_bytes(b"a"),
        metadata(),
    );
    let (second, _) = ContractDeploy::new().deploy_contract(
        &mut api,
        &ManagedBuffer::new_from_bytes(b"b"),
        metadata(),
    );
    assert!(!first.eq_address(&second));
    assert_eq!(second.to_bytes()[31], 1);
    assert_eq!(api.dispatches.len(), 2);
}

#[test]
fn deploy_from_source_records_the_source_address() {
    let mut api = fresh_api(5000);
    let mut raw = vec![0u8; 32];
    raw[1] = 3;
    let source = ManagedAddress::new_from_bytes(&raw);
    ContractDeploy::new().deploy_from_source(&mut api, &source, metadata());
    let rec = &api.dispatches[0];
    assert_eq!(rec.kind, DispatchKind::DeployFromSource);
    assert!(rec.code.is_none());
    assert_eq!(rec.source_address.as_ref().unwrap().to_bytes(), raw);
}

#[test]
fn upgrade_contract_records_the_target_and_code() {
    let mut api = fresh_api(5000);
    let mut raw = vec![0u8; 32];
    raw[2] = 8;
    let to = ManagedAddress::new_from_bytes(&raw);
    let d = new_contract_deploy(to).with_gas_limit(55);
    d.upgrade_contract(&mut api, &ManagedBuffer::new_from_bytes(b"new-code"), metadata());
    let rec = &api.dispatches[0];
    assert_eq!(rec.kind, DispatchKind::UpgradeFromCode);
    assert_eq!(rec.to.as_ref().unwrap().to_bytes(), raw);
    assert!(rec.code.as_ref().unwrap().eq_bytes(b"new-code"));
    assert_eq!(rec.gas, 55);
}

#[test]
fn upgrade_from_source_records_target_and_source() {
    let mut api = fresh_api(5000);
    let mut t = vec![0u8; 32];
    t[3] = 1;
    let mut s = vec![0u8; 32];
    s[4] = 2;
    let to = ManagedAddress::new_from_bytes(&t);
    let source = ManagedAddress::new_from_bytes(&s);
    new_contract_deploy(to).upgrade_from_source(&mut api, &source, metadata());
    let rec = &api.dispatches[0];
    assert_eq!(rec.kind, DispatchKind::UpgradeFromSource);
    assert_eq!(rec.to.as_ref().unwrap().to_bytes(), t);
    assert_eq!(rec.source_address.as_ref().unwrap().to_bytes(), s);
    assert!(rec.code.is_none());
}

#[test]
fn payment_is_recorded_as_set() {
    let mut api = fresh_api(5000);
    let d = ContractDeploy::new().with_moax_transfer(BigUint::from_u64(900));
    d.deploy_contract(&mut api, &ManagedBuffer::new_from_bytes(b"code"), metadata());
    assert!(api.dispatches[0].payment.eq_big(&BigUint::from_u64(900)));
}

#[test]
fn multi_value_arguments_expand_into_their_items() {
    let mut api = fresh_api(5000);
    let mut d = ContractDeploy::new();
    d.push_endpoint_arg(&());
    assert_eq!(d.arg_buffer.len(), 0);
    let payment = TxTokenTransfer {
        token_identifier: b"AAA-123456".to_vec(),
        nonce: 7,
        value: BigUint::from_u64(0x0105),
    };
    d.push_endpoint_arg(&payment);
    assert_eq!(d.arg_buffer.len(), 3);
    d.deploy_contract(&mut api, &ManagedBuffer::new_from_bytes(b"code"), metadata());
    let rec = &api.dispatches[0];
    assert_eq!(rec.args.arg_at(0).to_bytes(), b"AAA-123456".to_vec());
    assert_eq!(rec.args.arg_at(1).to_bytes(), vec![7]);
    assert_eq!(rec.args.arg_at(2).to_bytes(), vec![1, 5]);
}
