use smart_passport::compose::{
    create_nft_instructions, create_nft_instructions_with_fee, create_set_collection_instruction, ROYALTY_BASIS_POINTS,
};
use smart_passport::identity::SigningIdentity;
use smart_passport::model::{
    Address, Operation, ASSOCIATED_TOKEN_PROGRAM_ID, METADATA_PROGRAM_ID, RENT_SYSVAR_ID, SYSTEM_PROGRAM_ID,
    TOKEN_PROGRAM_ID,
};
use solana_sdk::pubkey::Pubkey;

fn fresh() -> Address {
    SigningIdentity::generate().pubkey()
}

fn pk(a: Address) -> Pubkey {
    Pubkey::new_from_array(a.0)
}

fn programs(ops: &[Operation]) -> Vec<[u8; 32]> {
    ops.iter().map(|o| o.program_id.0).collect()
}

const URI: &str = "https://arweave.net/mock-metadata-json";

#[test]
fn mint_without_collection_has_five_operations_in_order() {
    let (payer, mint) = (fresh(), fresh());
    let ops = create_nft_instructions_with_fee(URI, "SPP Passport", "SPP", payer, mint, 1_461_600, None, 0, fresh());
    assert_eq!(ops.len(), 5);
    assert_eq!(
        programs(&ops),
        vec![SYSTEM_PROGRAM_ID, TOKEN_PROGRAM_ID, ASSOCIATED_TOKEN_PROGRAM_ID, TOKEN_PROGRAM_ID, METADATA_PROGRAM_ID]
    );
    assert_eq!(ops[0].data[0], 0);
    assert_eq!(ops[1].data[0], 0);
    assert_eq!(ops[2].data, vec![0]);
    assert_eq!(ops[3].data[0], 7);
}

#[test]
fn collection_appends_exactly_one_verification() {
    let (payer, mint, collection) = (fresh(), fresh(), fresh());
    let ops = create_nft_instructions_with_fee(URI, "n", "s", payer, mint, 10, Some(collection), 0, fresh());
    assert_eq!(ops.len(), 6);
    assert_eq!(ops[5].program_id.0, METADATA_PROGRAM_ID);
    assert_eq!(ops[5].data, vec![32]);
    assert_eq!(ops[5].accounts[4].address, collection);
    let base = create_nft_instructions(URI, "n", "s", payer, mint, 10);
    for i in 0..5 {
        assert_eq!(ops[i].program_id, base[i].program_id);
        assert_eq!(ops[i].accounts, base[i].accounts);
        assert_eq!(ops[i].data, base[i].data);
    }
}

#[test]
fn fee_appends_exactly_one_transfer_last() {
    let (payer, mint, collection, treasury) = (fresh(), fresh(), fresh(), fresh());
    let ops = create_nft_instructions_with_fee(URI, "n", "s", payer, mint, 10, Some(collection), 1_601_000, treasury);
    assert_eq!(ops.len(), 7);
    let fee = &ops[6];
    assert_eq!(fee.program_id.0, SYSTEM_PROGRAM_ID);
    assert_eq!(fee.accounts[0].address, payer);
    assert!(fee.accounts[0].is_signer && fee.accounts[0].is_writable);
    assert_eq!(fee.accounts[1].address, treasury);
    assert!(!fee.accounts[1].is_signer && fee.accounts[1].is_writable);
    let mut expected = vec![2u8, 0, 0, 0];
    expected.extend_from_slice(&1_601_000u64.to_le_bytes());
    assert_eq!(fee.data, expected);
    let without_collection = create_nft_instructions_with_fee(URI, "n", "s", payer, mint, 10, None, 5, treasury);
    assert_eq!(without_collection.len(), 6);
    assert_eq!(without_collection[5].program_id.0, SYSTEM_PROGRAM_ID);
}

#[test]
fn operations_match_the_ledger_builders() {
    let (payer, mint) = (fresh(), fresh());
    let ops = create_nft_instructions(URI, "SPP Passport", "SPP", payer, mint, 1_461_600);
    let create = solana_sdk::system_instruction::create_account(&pk(payer), &pk(mint), 1_461_600, 82, &spl_token::id());
    assert_eq!(ops[0].data, create.data);
    assert_eq!(ops[0].accounts[1].address, mint);
    assert!(ops[0].accounts[1].is_signer);
    let init = spl_token::instruction::initialize_mint(&spl_token::id(), &pk(mint), &pk(payer), Some(&pk(payer)), 0).unwrap();
    assert_eq!(ops[1].data, init.data);
    assert_eq!(ops[1].accounts[1].address.0, RENT_SYSVAR_ID);
    let holding = spl_associated_token_account::get_associated_token_address(&pk(payer), &pk(mint));
    assert_eq!(ops[2].accounts[1].address.0, holding.to_bytes());
    assert_eq!(ops[3].accounts[1].address.0, holding.to_bytes());
    let mut one = vec![7u8];
    one.extend_from_slice(&1u64.to_le_bytes());
    assert_eq!(ops[3].data, one);
    let metadata = mpl_token_metadata::accounts::Metadata::find_pda(&pk(mint)).0;
    let edition = mpl_token_metadata::accounts::MasterEdition::find_pda(&pk(mint)).0;
    assert_eq!(ops[4].accounts[0].address.0, metadata.to_bytes());
    assert_eq!(ops[4].accounts[1].address.0, edition.to_bytes());
    assert_eq!(ops[4].accounts.len(), 9);
    assert!(ops[4].accounts[2].is_signer);
    assert_eq!(spl_token::id().to_bytes(), TOKEN_PROGRAM_ID);
    assert_eq!(spl_associated_token_account::id().to_bytes(), ASSOCIATED_TOKEN_PROGRAM_ID);
    assert_eq!(mpl_token_metadata::ID.to_bytes(), METADATA_PROGRAM_ID);
    assert_eq!(solana_sdk::sysvar::rent::id().to_bytes(), RENT_SYSVAR_ID);
    assert_eq!(solana_sdk::sysvar::instructions::id().to_bytes(), smart_passport::model::INSTRUCTIONS_SYSVAR_ID);
    assert_eq!(ROYALTY_BASIS_POINTS, 500);
}

#[test]
fn two_compositions_differ_only_in_mint_addresses() {
    let (payer, treasury, collection) = (fresh(), fresh(), fresh());
    let a = create_nft_instructions_with_fee(URI, "n", "s", payer, fresh(), 99, Some(collection), 7, treasury);
    let b = create_nft_instructions_with_fee(URI, "n", "s", payer, fresh(), 99, Some(collection), 7, treasury);
    assert_eq!(a.len(), b.len());
    let mut differing = 0;
    for (x, y) in a.iter().zip(b.iter()) {
        assert_eq!(x.program_id, y.program_id);
        assert_eq!(x.data, y.data);
        assert_eq!(x.accounts.len(), y.accounts.len());
        for (p, q) in x.accounts.iter().zip(y.accounts.iter()) {
            assert_eq!(p.is_signer, q.is_signer);
            assert_eq!(p.is_writable, q.is_writable);
            if p.address != q.address {
                differing += 1;
            }
        }
    }
    assert!(differing > 0);
    let mint = fresh();
    let c = create_nft_instructions_with_fee(URI, "n", "s", payer, mint, 99, None, 7, treasury);
    let d = create_nft_instructions_with_fee(URI, "n", "s", payer, mint, 99, None, 7, treasury);
    for (x, y) in c.iter().zip(d.iter()) {
        assert_eq!(x.accounts, y.accounts);
        assert_eq!(x.data, y.data);
    }
}

#[test]
fn set_collection_references_both_metadata_records() {
    let (item, collection, authority) = (fresh(), fresh(), fresh());
    let op = create_set_collection_instruction(item, collection, authority);
    let item_md = mpl_token_metadata::accounts::Metadata::find_pda(&pk(item)).0;
    let coll_md = mpl_token_metadata::accounts::Metadata::find_pda(&pk(collection)).0;
    let coll_ed = mpl_token_metadata::accounts::MasterEdition::find_pda(&pk(collection)).0;
    assert_eq!(op.accounts.len(), 7);
    assert_eq!(op.accounts[0].address.0, item_md.to_bytes());
    assert_eq!(op.accounts[5].address.0, coll_md.to_bytes());
    assert_eq!(op.accounts[6].address.0, coll_ed.to_bytes());
    assert!(op.accounts[1].is_signer && op.accounts[2].is_signer && !op.accounts[3].is_signer);
}

#[test]
fn operation_payloads_are_the_documented_encodings() {
    let (payer, mint) = (fresh(), fresh());
    let ops = create_nft_instructions(URI, "n", "s", payer, mint, 1_461_600);
    let mut create = vec![0u8, 0, 0, 0];
    create.extend_from_slice(&1_461_600u64.to_le_bytes());
    create.extend_from_slice(&82u64.to_le_bytes());
    create.extend_from_slice(&TOKEN_PROGRAM_ID);
    assert_eq!(ops[0].data, create);
    let mut init = vec![0u8, 0];
    init.extend_from_slice(&payer.0);
    init.push(1);
    init.extend_from_slice(&payer.0);
    assert_eq!(ops[1].data, init);
    assert_eq!(ops[1].accounts.len(), 2);
    assert!(ops[3].accounts[2].is_signer && !ops[3].accounts[2].is_writable);
}

#[test]
fn collection_envelope_operations_are_a_single_self_transfer() {
    let payer = fresh();
    let ops = smart_passport::compose::create_collection_instructions(payer);
    assert_eq!(ops.len(), 1);
    assert_eq!(ops[0].accounts[0].address, payer);
    assert_eq!(ops[0].accounts[1].address, payer);
    let mut data = vec![2u8, 0, 0, 0];
    data.extend_from_slice(&1000u64.to_le_bytes());
    assert_eq!(ops[0].data, data);
}
