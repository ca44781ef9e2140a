use dharitri_core::big_uint::BigUint;
use dharitri_core::call_value::DctTokenType;
use dharitri_core::debug_api::{DebugApi, TxInput, TxTokenTransfer};

fn transfer(token: &[u8], nonce: u64, amount: u64) -> TxTokenTransfer {
    TxTokenTransfer {
        token_identifier: token.to_vec(),
        nonce,
        value: BigUint::from_u64(amount),
    }
}

fn api_with(moax: u64, transfers: Vec<TxTokenTransfer>) -> DebugApi {
    DebugApi::new(
        TxInput { moax_value: BigUint::from_u64(moax), dct_values: transfers },
        1_000_000,
    )
}

#[test]
fn transfer_count_matches_the_input() {
    assert_eq!(api_with(0, vec![]).dct_num_transfers(), 0);
    assert_eq!(api_with(0, vec![transfer(b"AAA-123456", 0, 1)]).dct_num_transfers(), 1);
    assert_eq!(
        api_with(0, vec![transfer(b"AAA-123456", 0, 1), transfer(b"BBB-123456", 2, 3)])
            .dct_num_transfers(),
        2
    );
}

#[test]
fn no_transfer_makes_single_accessors_fail_out_of_range() {
    let mut api = api_with(0, vec![]);
    let p = api.dct_value().err().unwrap();
    assert_eq!(p.status, 10);
    assert_eq!(p.message, "invalid token index");
    let p = api.token().err().unwrap();
    assert_eq!(p.message, "invalid token index");
    assert_eq!(api.dct_token_nonce().err().unwrap().message, "invalid token index");
    assert_eq!(api.dct_token_type().err().unwrap().message, "invalid token index");
}

#[test]
fn one_transfer_makes_single_accessors_return_its_fields() {
    let mut api = api_with(0, vec![transfer(b"AAA-123456", 5, 77)]);
    let h = api.dct_value().ok().unwrap();
    assert!(api.get_big_uint(h).eq_big(&BigUint::from_u64(77)));
    let b = api.token().ok().unwrap();
    assert!(api.get_buffer(b).eq_bytes(b"AAA-123456"));
    assert_eq!(api.dct_token_nonce().ok().unwrap(), 5);
    assert_eq!(api.dct_token_type().ok().unwrap(), DctTokenType::NonFungible);
}

#[test]
fn two_transfers_make_single_accessors_abort() {
    let mut api = api_with(0, vec![transfer(b"AAA-123456", 0, 1), transfer(b"BBB-123456", 2, 3)]);
    let p = api.dct_value().err().unwrap();
    assert_eq!(p.status, 10);
    assert_eq!(p.message, "incorrect number of DCT transfers");
    assert_eq!(api.token().err().unwrap().message, "incorrect number of DCT transfers");
    assert_eq!(
        api.dct_token_nonce().err().unwrap().message,
        "incorrect number of DCT transfers"
    );
    assert_eq!(
        api.dct_token_type().err().unwrap().message,
        "incorrect number of DCT transfers"
    );
}

#[test]
fn by_index_accessors_return_each_transfer() {
    let mut api = api_with(0, vec![transfer(b"AAA-123456", 0, 10), transfer(b"BBB-123456", 9, 20)]);
    let h0 = api.dct_value_by_index(0).ok().unwrap();
    let h1 = api.dct_value_by_index(1).ok().unwrap();
    assert!(api.get_big_uint(h0).eq_big(&BigUint::from_u64(10)));
    assert!(api.get_big_uint(h1).eq_big(&BigUint::from_u64(20)));
    let b0 = api.token_by_index(0).ok().unwrap();
    let b1 = api.token_by_index(1).ok().unwrap();
    assert!(api.get_buffer(b0).eq_bytes(b"AAA-123456"));
    assert!(api.get_buffer(b1).eq_bytes(b"BBB-123456"));
    assert_eq!(api.dct_token_nonce_by_index(0).ok().unwrap(), 0);
    assert_eq!(api.dct_token_nonce_by_index(1).ok().unwrap(), 9);
}

#[test]
fn by_index_accessors_abort_out_of_range() {
    let mut api = api_with(0, vec![transfer(b"AAA-123456", 0, 10)]);
    assert_eq!(api.dct_value_by_index(1).err().unwrap().message, "invalid token index");
    assert_eq!(api.token_by_index(7).err().unwrap().message, "invalid token index");
    assert_eq!(
        api.dct_token_nonce_by_index(1).err().unwrap().message,
        "invalid token index"
    );
    assert_eq!(
        api.dct_token_type_by_index(1).err().unwrap().message,
        "invalid token index"
    );
}

#[test]
fn fungibility_follows_the_nonce_alone() {
    let api = api_with(0, vec![transfer(b"AAA-123456", 0, 1), transfer(b"BBB-123456", 3, 1)]);
    assert_eq!(api.dct_token_type_by_index(0).ok().unwrap(), DctTokenType::Fungible);
    assert_eq!(api.dct_token_type_by_index(1).ok().unwrap(), DctTokenType::NonFungible);
    let single = api_with(0, vec![transfer(b"CCC-123456", 0, 1)]);
    assert_eq!(single.dct_token_type().ok().unwrap(), DctTokenType::Fungible);
}

#[test]
fn check_not_payable_accepts_only_an_unfunded_call() {
    assert!(api_with(0, vec![]).check_not_payable().is_ok());

    let p = api_with(5, vec![]).check_not_payable().err().unwrap();
    assert_eq!(p.status, 10);
    assert_eq!(p.message, "function does not accept MOAX payment");

    let p = api_with(0, vec![transfer(b"AAA-123456", 0, 1)]).check_not_payable().err().unwrap();
    assert_eq!(p.status, 10);
    assert_eq!(p.message, "function does not accept DCT payment");

    let p = api_with(5, vec![transfer(b"AAA-123456", 0, 1)]).check_not_payable().err().unwrap();
    assert_eq!(p.message, "function does not accept MOAX payment");
}

#[test]
fn arena_buffers_can_be_overwritten_by_handle() {
    let mut api = api_with(0, vec![transfer(b"AAA-123456", 0, 1)]);
    let h = api.token().ok().unwrap();
    assert!(api.get_buffer(h).eq_bytes(b"AAA-123456"));
    api.overwrite_buffer(h, b"BBB-654321");
    assert!(api.get_buffer(h).eq_bytes(b"BBB-654321"));
}

#[test]
fn moax_value_exposes_the_attached_amount() {
    let mut api = api_with(42, vec![]);
    let h = api.moax_value();
    assert!(api.get_big_uint(h).eq_big(&BigUint::from_u64(42)));
    let h2 = api.moax_value();
    assert!(api.get_big_uint(h2).eq_big(&BigUint::from_u64(42)));
}
