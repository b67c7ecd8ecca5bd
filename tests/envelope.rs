use base64::Engine;
use smart_passport::compose::create_nft_instructions_with_fee;
use smart_passport::envelope::{
    assemble_envelope, create_nft_transaction, create_nft_transaction_with_mint, decode_envelope, encode_envelope,
    prepare_signed_transaction, AssembleError, SubmitError,
};
use smart_passport::identity::SigningIdentity;
use smart_passport::model::{AccountRef, Address, Operation};
use solana_sdk::signature::{Keypair, Signer};
use solana_sdk::transaction::Transaction;

const BLOCKHASH: [u8; 32] = [7u8; 32];

fn address_of(kp: &Keypair) -> Address {
    Address(kp.pubkey().to_bytes())
}

fn decode(text: &str) -> Transaction {
    let bytes = base64::engine::general_purpose::STANDARD.decode(text).unwrap();
    bincode::deserialize(&bytes).unwrap()
}

fn mint_ops(payer: Address, mint: Address) -> Vec<Operation> {
    create_nft_instructions_with_fee("uri", "SPP Passport", "SPP", payer, mint, 1_461_600, None, 1_000, Address([9u8; 32]))
}

#[test]
fn envelope_carries_identity_signature_and_leaves_fee_payer_unsigned() {
    let wallet = Keypair::new();
    let payer = address_of(&wallet);
    let identity = SigningIdentity::generate();
    let mint = identity.pubkey();
    let ops = mint_ops(payer, mint);
    let env = assemble_envelope(&ops, payer, Some(&identity), BLOCKHASH).unwrap();
    assert_eq!(env.message.account_keys[0], payer);
    assert_eq!(env.message.recent_blockhash, BLOCKHASH);
    let signers = env.message.header.num_required_signatures as usize;
    assert_eq!(signers, 2);
    assert_eq!(env.signatures.len(), 2);
    assert_eq!(env.signatures[0], [0u8; 64]);
    let pos = env.message.account_keys.iter().position(|k| *k == mint).unwrap();
    assert!(pos < signers);
    assert_ne!(env.signatures[pos], [0u8; 64]);

    let text = encode_envelope(&env).unwrap();
    let tx = decode(&text);
    let message = tx.message.serialize();
    assert!(tx.signatures[pos].verify(mint.0.as_ref(), &message));
    assert!(!tx.signatures[0].verify(payer.0.as_ref(), &message));
}

#[test]
fn mint_transaction_text_decodes_to_the_assembled_envelope() {
    let payer = address_of(&Keypair::new());
    let identity = SigningIdentity::generate();
    let ops = mint_ops(payer, identity.pubkey());
    let text = create_nft_transaction_with_mint(&ops, payer, &identity, BLOCKHASH).unwrap();
    let env = decode_envelope(&text).unwrap();
    assert_eq!(env.message.account_keys[0], payer);
    assert_eq!(env.message.instructions.len(), 6);
    assert_eq!(env.signatures[0], [0u8; 64]);
    let again = create_nft_transaction_with_mint(&ops, payer, &identity, [8u8; 32]).unwrap();
    assert_ne!(text, again);
}

#[test]
fn assembly_refusals() {
    let payer = address_of(&Keypair::new());
    let identity = SigningIdentity::generate();
    let empty: Vec<Operation> = Vec::new();
    assert_eq!(assemble_envelope(&empty, payer, Some(&identity), BLOCKHASH).unwrap_err(), AssembleError::NoOperations);

    let ops = mint_ops(identity.pubkey(), identity.pubkey());
    assert_eq!(
        assemble_envelope(&ops, identity.pubkey(), Some(&identity), BLOCKHASH).unwrap_err(),
        AssembleError::IdentityIsFeePayer
    );

    let stranger = SigningIdentity::generate().pubkey();
    let ops = mint_ops(payer, stranger);
    assert_eq!(assemble_envelope(&ops, payer, Some(&identity), BLOCKHASH).unwrap_err(), AssembleError::UnexpectedSigner);
    assert_eq!(create_nft_transaction(&ops, payer, BLOCKHASH).unwrap_err(), AssembleError::UnexpectedSigner);

    let transfer_only = vec![Operation {
        program_id: Address([0u8; 32]),
        accounts: vec![
            AccountRef { address: payer, is_signer: true, is_writable: true },
            AccountRef { address: stranger, is_signer: false, is_writable: true },
        ],
        data: vec![2, 0, 0, 0, 1, 0, 0, 0, 0, 0, 0, 0],
    }];
    assert_eq!(
        assemble_envelope(&transfer_only, payer, Some(&identity), BLOCKHASH).unwrap_err(),
        AssembleError::IdentityNotRequired
    );
    let unsigned = assemble_envelope(&transfer_only, payer, None, BLOCKHASH).unwrap();
    assert_eq!(unsigned.signatures, vec![[0u8; 64]]);

    let crowded = vec![Operation {
        program_id: Address([0u8; 32]),
        accounts: (0..300u32).map(|i| {
            let mut b = [0u8; 32];
            b[..4].copy_from_slice(&i.to_le_bytes());
            AccountRef { address: Address(b), is_signer: false, is_writable: false }
        }).collect(),
        data: vec![],
    }];
    assert_eq!(assemble_envelope(&crowded, payer, None, BLOCKHASH).unwrap_err(), AssembleError::TooManyAccounts);
}

#[test]
fn submission_refuses_envelope_without_fee_payer_signature() {
    let payer = address_of(&Keypair::new());
    let identity = SigningIdentity::generate();
    let ops = mint_ops(payer, identity.pubkey());
    let text = create_nft_transaction_with_mint(&ops, payer, &identity, BLOCKHASH).unwrap();
    assert_eq!(prepare_signed_transaction(&text).unwrap_err(), SubmitError::MissingSignature(payer));
}

#[test]
fn submission_accepts_wallet_countersigned_envelope() {
    let wallet = Keypair::new();
    let payer = address_of(&wallet);
    let identity = SigningIdentity::generate();
    let ops = mint_ops(payer, identity.pubkey());
    let text = create_nft_transaction_with_mint(&ops, payer, &identity, BLOCKHASH).unwrap();
    let mut tx = decode(&text);
    let blockhash = tx.message.recent_blockhash;
    tx.partial_sign(&[&wallet], blockhash);
    assert!(tx.verify().is_ok());
    let signed = base64::engine::general_purpose::STANDARD.encode(bincode::serialize(&tx).unwrap());
    let env = prepare_signed_transaction(&signed).unwrap();
    assert_eq!(env.message.account_keys[0], payer);
    assert!(env.signatures.iter().all(|s| *s != [0u8; 64]));
}

#[test]
fn submission_refuses_malformed_payloads() {
    assert_eq!(prepare_signed_transaction("not base64 !!").unwrap_err(), SubmitError::MalformedPayload);
    let junk = base64::engine::general_purpose::STANDARD.encode([1u8, 2, 3]);
    assert_eq!(prepare_signed_transaction(&junk).unwrap_err(), SubmitError::MalformedPayload);
    assert_eq!(decode_envelope("").unwrap_err(), SubmitError::MalformedPayload);

    let payer = address_of(&Keypair::new());
    let identity = SigningIdentity::generate();
    let mut env = assemble_envelope(&mint_ops(payer, identity.pubkey()), payer, Some(&identity), BLOCKHASH).unwrap();
    env.signatures.pop();
    let text = encode_envelope(&env).unwrap();
    assert_eq!(prepare_signed_transaction(&text).unwrap_err(), SubmitError::MalformedPayload);
}

#[test]
fn submission_refuses_signature_that_does_not_verify() {
    let wallet = Keypair::new();
    let payer = address_of(&wallet);
    let identity = SigningIdentity::generate();
    let ops = mint_ops(payer, identity.pubkey());
    let text = create_nft_transaction_with_mint(&ops, payer, &identity, BLOCKHASH).unwrap();
    let mut tx = decode(&text);
    let blockhash = tx.message.recent_blockhash;
    tx.partial_sign(&[&wallet], blockhash);
    let mut bytes: [u8; 64] = tx.signatures[0].into();
    bytes[10] ^= 0xFF;
    tx.signatures[0] = solana_sdk::signature::Signature::from(bytes);
    let forged = base64::engine::general_purpose::STANDARD.encode(bincode::serialize(&tx).unwrap());
    assert_eq!(prepare_signed_transaction(&forged).unwrap_err(), SubmitError::InvalidSignature(payer));
}

#[test]
fn oversized_payload_is_refused_before_signing() {
    let payer = address_of(&Keypair::new());
    let identity = SigningIdentity::generate();
    let mut ops = mint_ops(payer, identity.pubkey());
    ops[0].data = vec![0u8; 65_536];
    assert_eq!(assemble_envelope(&ops, payer, Some(&identity), BLOCKHASH).unwrap_err(), AssembleError::PayloadTooLong);
    ops[0].data = vec![0u8; 65_535];
    assert!(assemble_envelope(&ops, payer, Some(&identity), BLOCKHASH).is_ok());
    let long_uri = "u".repeat(70_000);
    let ops = create_nft_instructions_with_fee(&long_uri, "n", "s", payer, identity.pubkey(), 1, None, 0, payer);
    assert_eq!(
        create_nft_transaction_with_mint(&ops, payer, &identity, BLOCKHASH).unwrap_err(),
        AssembleError::PayloadTooLong
    );
}
