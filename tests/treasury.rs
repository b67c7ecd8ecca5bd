use base64::Engine;
use smart_passport::envelope::encode_envelope;
use smart_passport::identity::SigningIdentity;
use smart_passport::model::{address_to_string, parse_address, Address};
use smart_passport::treasury::{TreasuryAccount, TreasuryError};
use solana_sdk::transaction::Transaction;

fn treasury() -> TreasuryAccount {
    TreasuryAccount::new(SigningIdentity::generate(), "OwnerAddress1111".to_string())
}

#[test]
fn withdraw_more_than_balance_is_refused() {
    let t = treasury();
    let r = t.withdraw_from_treasury(1000, 1001, Address([5u8; 32]), "proof", [1u8; 32]);
    assert_eq!(r.unwrap_err(), TreasuryError::InsufficientFunds { balance: 1000, amount: 1001 });
}

#[test]
fn withdraw_without_authorization_is_refused() {
    let t = treasury();
    let r = t.withdraw_from_treasury(1000, 1000, Address([5u8; 32]), "", [1u8; 32]);
    assert_eq!(r.unwrap_err(), TreasuryError::MissingAuthorization);
}

#[test]
fn withdraw_builds_signed_single_transfer() {
    let t = treasury();
    let recipient = Address([5u8; 32]);
    let env = t.withdraw_from_treasury(1000, 400, recipient, "proof", [1u8; 32]).unwrap();
    assert_eq!(env.message.account_keys[0], t.address());
    assert_eq!(env.message.header.num_required_signatures, 1);
    assert_eq!(env.signatures.len(), 1);
    assert_eq!(env.message.instructions.len(), 1);
    let mut data = vec![2u8, 0, 0, 0];
    data.extend_from_slice(&400u64.to_le_bytes());
    assert_eq!(env.message.instructions[0].data, data);
    let text = encode_envelope(&env).unwrap();
    let bytes = base64::engine::general_purpose::STANDARD.decode(text).unwrap();
    let tx: Transaction = bincode::deserialize(&bytes).unwrap();
    assert!(tx.verify().is_ok());
}

#[test]
fn treasury_info_reports_balance_and_owner() {
    let t = treasury();
    let info = t.get_treasury_info(42);
    assert_eq!(info.balance, 42);
    assert_eq!(info.total_collected_fees, 0);
    assert_eq!(info.owner_address, "OwnerAddress1111");
    assert_eq!(parse_address(&info.treasury_address), Some(t.address()));
    assert_eq!(t.get_treasury_info(0).balance, 0);
}

#[test]
fn addresses_read_and_print_as_base58() {
    assert_eq!(parse_address("11111111111111111111111111111111"), Some(Address([0u8; 32])));
    let token = parse_address("TokenkegQfeZyiNwAJbNbGKPFXCWuBvf9Ss623VQ5DA").unwrap();
    assert_eq!(token.0, smart_passport::model::TOKEN_PROGRAM_ID);
    assert_eq!(address_to_string(token), "TokenkegQfeZyiNwAJbNbGKPFXCWuBvf9Ss623VQ5DA");
    assert_eq!(parse_address("not-an-address"), None);
    assert_eq!(parse_address(""), None);
}
