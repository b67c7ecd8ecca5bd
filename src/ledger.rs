use vstd::prelude::*;

use crate::model::{
    le_u64, readonly, writable, AccountRef, Address, OperationView, Operation,
    ASSOCIATED_TOKEN_PROGRAM_ID, INSTRUCTIONS_SYSVAR_ID, METADATA_PROGRAM_ID, RENT_SYSVAR_ID,
    SYSTEM_PROGRAM_ID, TOKEN_PROGRAM_ID,
};
use mpl_token_metadata::accounts::{MasterEdition, Metadata};
use mpl_token_metadata::instructions::{CreateV1Builder, SetAndVerifySizedCollectionItem};
use mpl_token_metadata::types::PrintSupply;
use crate::envelope::{
    CompiledMessage, CompiledOperation, EnvelopeView, MessageHeader, MessageView, TransactionEnvelope,
};
use crate::identity::{address_of_keypair, SigningIdentity};
use crate::model::{ops_view, required_signer};
use base64::Engine;
use solana_sdk::hash::Hash as BlockHash;
use solana_sdk::instruction::{AccountMeta, CompiledInstruction, Instruction};
use solana_sdk::message::{Message as LedgerMessage, MessageHeader as LedgerHeader};
use solana_sdk::pubkey::Pubkey;
use solana_sdk::signature::{Keypair, Signature};
use solana_sdk::transaction::Transaction;

verus! {

/// The associated holding account of `wallet` for `mint`, a program-derived address.
pub uninterp spec fn associated_token_address(wallet: Address, mint: Address) -> Address;

/// The metadata record address of `mint`, a program-derived address.
pub uninterp spec fn metadata_address(mint: Address) -> Address;

/// The master-edition record address of `mint`, a program-derived address.
pub uninterp spec fn edition_address(mint: Address) -> Address;

/// The serialized arguments of a metadata-creation operation for a unique
/// asset (zero print supply).
pub uninterp spec fn create_metadata_payload(
    name: Seq<char>,
    symbol: Seq<char>,
    uri: Seq<char>,
    royalty_basis_points: u16,
    is_mutable: bool,
) -> Seq<u8>;

/// A plain value transfer of `lamports` from `from` to `to`.
pub open spec fn transfer_op(from: Address, to: Address, lamports: u64) -> OperationView {
    OperationView {
        program_id: Address(SYSTEM_PROGRAM_ID),
        accounts: seq![writable(from, true), writable(to, false)],
        data: seq![2u8, 0u8, 0u8, 0u8] + le_u64(lamports),
    }
}

/// Creation of account `new` of `space` bytes owned by `owner`, funded by `payer`.
pub open spec fn create_account_op(
    payer: Address,
    new: Address,
    lamports: u64,
    space: u64,
    owner: Address,
) -> OperationView {
    OperationView {
        program_id: Address(SYSTEM_PROGRAM_ID),
        accounts: seq![writable(payer, true), writable(new, true)],
        data: seq![0u8, 0u8, 0u8, 0u8] + le_u64(lamports) + le_u64(space) + owner.0@,
    }
}

/// Initialization of `mint` with `decimals` under `authority`, which may also freeze.
pub open spec fn initialize_mint_op(mint: Address, authority: Address, decimals: u8) -> OperationView {
    OperationView {
        program_id: Address(TOKEN_PROGRAM_ID),
        accounts: seq![writable(mint, false), readonly(Address(RENT_SYSVAR_ID), false)],
        data: seq![0u8, decimals] + authority.0@ + seq![1u8] + authority.0@,
    }
}

/// Creation of the associated holding account of `wallet` for `mint`, paid by `payer`.
pub open spec fn create_holding_op(payer: Address, wallet: Address, mint: Address) -> OperationView {
    OperationView {
        program_id: Address(ASSOCIATED_TOKEN_PROGRAM_ID),
        accounts: seq![
            writable(payer, true),
            writable(associated_token_address(wallet, mint), false),
            readonly(wallet, false),
            readonly(mint, false),
            readonly(Address(SYSTEM_PROGRAM_ID), false),
            readonly(Address(TOKEN_PROGRAM_ID), false),
        ],
        data: seq![0u8],
    }
}

/// Minting `amount` units of `mint` into `holding`, signed by `authority`.
pub open spec fn mint_to_op(mint: Address, holding: Address, authority: Address, amount: u64) -> OperationView {
    OperationView {
        program_id: Address(TOKEN_PROGRAM_ID),
        accounts: seq![writable(mint, false), writable(holding, false), readonly(authority, true)],
        data: seq![7u8] + le_u64(amount),
    }
}

/// Creation of the metadata and master-edition records of `mint` as a unique
/// asset (zero print supply), with `payer` as authority, payer and update
/// authority.
pub open spec fn create_metadata_op(
    mint: Address,
    payer: Address,
    name: Seq<char>,
    symbol: Seq<char>,
    uri: Seq<char>,
    royalty_basis_points: u16,
    is_mutable: bool,
) -> OperationView {
    OperationView {
        program_id: Address(METADATA_PROGRAM_ID),
        accounts: seq![
            writable(metadata_address(mint), false),
            writable(edition_address(mint), false),
            writable(mint, true),
            readonly(payer, true),
            writable(payer, true),
            readonly(payer, true),
            readonly(Address(SYSTEM_PROGRAM_ID), false),
            readonly(Address(INSTRUCTIONS_SYSVAR_ID), false),
            readonly(Address(TOKEN_PROGRAM_ID), false),
        ],
        data: create_metadata_payload(name, symbol, uri, royalty_basis_points, is_mutable),
    }
}

/// Verification that `item_mint` belongs to the sized collection `collection_mint`,
/// with `authority` as collection authority, payer and update authority.
pub open spec fn verify_collection_op(item_mint: Address, collection_mint: Address, authority: Address) -> OperationView {
    OperationView {
        program_id: Address(METADATA_PROGRAM_ID),
        accounts: seq![
            writable(metadata_address(item_mint), false),
            readonly(authority, true),
            writable(authority, true),
            readonly(authority, false),
            readonly(collection_mint, false),
            writable(metadata_address(collection_mint), false),
            readonly(edition_address(collection_mint), false),
        ],
        data: seq![32u8],
    }
}

/// Relies on `solana_system_interface::instruction::transfer`: a system-program
/// transfer with the payer as writable signer and the recipient writable.
#[verifier::external_body]
pub(crate) fn transfer_operation(from: Address, to: Address, lamports: u64) -> (r: Operation)
    ensures
        r@ == transfer_op(from, to, lamports),
{
    let ix = solana_sdk::system_instruction::transfer(&Pubkey::new_from_array(from.0), &Pubkey::new_from_array(to.0), lamports);
    operation_of(ix)
}

/// Relies on `solana_system_interface::instruction::create_account`: payer and new
/// account both writable signers, and the bincode-encoded `CreateAccount` payload.
#[verifier::external_body]
pub(crate) fn create_account_operation(
    payer: Address,
    new: Address,
    lamports: u64,
    space: u64,
    owner: Address,
) -> (r: Operation)
    ensures
        r@ == create_account_op(payer, new, lamports, space, owner),
{
    let (p, n, o) = (Pubkey::new_from_array(payer.0), Pubkey::new_from_array(new.0), Pubkey::new_from_array(owner.0));
    operation_of(solana_sdk::system_instruction::create_account(&p, &n, lamports, space, &o))
}

/// Relies on `spl_token::instruction::initialize_mint`, which fails only for a
/// program id other than the token program's.
#[verifier::external_body]
pub(crate) fn initialize_mint_operation(mint: Address, authority: Address, decimals: u8) -> (r: Option<Operation>)
    ensures
        r is Some,
        r->Some_0@ == initialize_mint_op(mint, authority, decimals),
{
    let (m, a) = (Pubkey::new_from_array(mint.0), Pubkey::new_from_array(authority.0));
    spl_token::instruction::initialize_mint(&spl_token::id(), &m, &a, Some(&a), decimals).ok().map(operation_of)
}

/// Relies on `spl_token::instruction::mint_to` with no multisignature signers,
/// which fails only for a program id other than the token program's.
#[verifier::external_body]
pub(crate) fn mint_to_operation(mint: Address, holding: Address, authority: Address, amount: u64) -> (r: Option<Operation>)
    ensures
        r is Some,
        r->Some_0@ == mint_to_op(mint, holding, authority, amount),
{
    let (m, h, a) = (Pubkey::new_from_array(mint.0), Pubkey::new_from_array(holding.0), Pubkey::new_from_array(authority.0));
    spl_token::instruction::mint_to(&spl_token::id(), &m, &h, &a, &[], amount).ok().map(operation_of)
}

/// Relies on `spl_associated_token_account::get_associated_token_address`.
#[verifier::external_body]
pub(crate) fn holding_address(wallet: Address, mint: Address) -> (r: Address)
    ensures
        r == associated_token_address(wallet, mint),
{
    let (w, m) = (Pubkey::new_from_array(wallet.0), Pubkey::new_from_array(mint.0));
    Address(spl_associated_token_account::get_associated_token_address(&w, &m).to_bytes())
}

/// Relies on `spl_associated_token_account::instruction::create_associated_token_account`
/// for the token program: its second account is the holding address derived by
/// `get_associated_token_address`.
#[verifier::external_body]
pub(crate) fn create_holding_operation(payer: Address, wallet: Address, mint: Address) -> (r: Operation)
    ensures
        r@ == create_holding_op(payer, wallet, mint),
{
    let (p, w, m) = (Pubkey::new_from_array(payer.0), Pubkey::new_from_array(wallet.0), Pubkey::new_from_array(mint.0));
    operation_of(spl_associated_token_account::instruction::create_associated_token_account(&p, &w, &m, &spl_token::id()))
}

/// Relies on `mpl_token_metadata::accounts::Metadata::find_pda`.
#[verifier::external_body]
pub(crate) fn metadata_record_address(mint: Address) -> (r: Address)
    ensures
        r == metadata_address(mint),
{
    Address(Metadata::find_pda(&Pubkey::new_from_array(mint.0)).0.to_bytes())
}

/// Relies on `mpl_token_metadata::accounts::MasterEdition::find_pda`.
#[verifier::external_body]
pub(crate) fn edition_record_address(mint: Address) -> (r: Address)
    ensures
        r == edition_address(mint),
{
    Address(MasterEdition::find_pda(&Pubkey::new_from_array(mint.0)).0.to_bytes())
}

/// Relies on `mpl_token_metadata::instructions::CreateV1Builder` for a unique
/// (zero print supply) asset whose mint signs, with `payer` as authority, payer
/// and signing update authority, and the token program set.
#[verifier::external_body]
pub(crate) fn create_metadata_operation(
    metadata: Address,
    edition: Address,
    mint: Address,
    payer: Address,
    name: &str,
    symbol: &str,
    uri: &str,
    royalty_basis_points: u16,
    is_mutable: bool,
) -> (r: Operation)
    requires
        metadata == metadata_address(mint),
        edition == edition_address(mint),
    ensures
        r@ == create_metadata_op(mint, payer, name@, symbol@, uri@, royalty_basis_points, is_mutable),
        r.data@ == create_metadata_payload(name@, symbol@, uri@, royalty_basis_points, is_mutable),
{
    let pk = |a: Address| Pubkey::new_from_array(a.0);
    operation_of(CreateV1Builder::new().metadata(pk(metadata)).master_edition(Some(pk(edition))).mint(pk(mint), true)
        .authority(pk(payer)).payer(pk(payer)).update_authority(pk(payer), true).spl_token_program(Some(spl_token::id()))
        .name(name.to_string()).symbol(symbol.to_string()).uri(uri.to_string())
        .seller_fee_basis_points(royalty_basis_points).is_mutable(is_mutable).print_supply(PrintSupply::Zero).instruction())
}

/// Relies on `mpl_token_metadata::instructions::SetAndVerifySizedCollectionItem`
/// without a collection-authority record.
#[verifier::external_body]
pub(crate) fn verify_collection_operation(
    item_metadata: Address,
    collection_mint: Address,
    collection_metadata: Address,
    collection_edition: Address,
    authority: Address,
) -> (r: Operation)
    ensures
        r@ == (OperationView {
            program_id: Address(METADATA_PROGRAM_ID),
            accounts: seq![
                writable(item_metadata, false),
                readonly(authority, true),
                writable(authority, true),
                readonly(authority, false),
                readonly(collection_mint, false),
                writable(collection_metadata, false),
                readonly(collection_edition, false),
            ],
            data: seq![32u8],
        }),
{
    let pk = |a: Address| Pubkey::new_from_array(a.0);
    operation_of(SetAndVerifySizedCollectionItem { metadata: pk(item_metadata), collection_authority: pk(authority), payer: pk(authority),
        update_authority: pk(authority), collection_mint: pk(collection_mint), collection: pk(collection_metadata),
        collection_master_edition_account: pk(collection_edition), collection_authority_record: None }.instruction())
}

/// The instruction type that the builders return; its fields are public.
#[verifier::external_type_specification]
pub struct ExInstruction(Instruction);

/// An account reference inside an instruction; its fields are public.
#[verifier::external_type_specification]
pub struct ExAccountMeta(AccountMeta);

/// A public key, opaque here.
#[verifier::external_type_specification]
#[verifier::external_body]
pub struct ExPubkey(Pubkey);

pub assume_specification[ Pubkey::to_bytes ](p: Pubkey) -> [u8; 32];

pub assume_specification[ Pubkey::new_from_array ](bytes: [u8; 32]) -> Pubkey;

/// A compiled message; its fields are public.
#[verifier::external_type_specification]
pub struct ExLedgerMessage(LedgerMessage);

/// A message header; its fields are public.
#[verifier::external_type_specification]
pub struct ExLedgerHeader(LedgerHeader);

/// A compiled instruction; its fields are public.
#[verifier::external_type_specification]
pub struct ExCompiledInstruction(CompiledInstruction);

/// A transaction; its fields are public.
#[verifier::external_type_specification]
pub struct ExTransaction(Transaction);

/// A 32-byte hash, opaque here.
#[verifier::external_type_specification]
#[verifier::external_body]
pub struct ExHash(BlockHash);

/// A 64-byte signature, opaque here.
#[verifier::external_type_specification]
#[verifier::external_body]
pub struct ExSignature(Signature);

/// The error of a slice-to-array conversion, which the signature type names; opaque here.
#[verifier::external_type_specification]
#[verifier::external_body]
pub struct ExTryFromSliceError(core::array::TryFromSliceError);

/// Relies on `Hash::new_from_array`; nothing is stated of the opaque hash.
#[verifier::external_body]
fn hash_of(bytes: [u8; 32]) -> BlockHash {
    BlockHash::new_from_array(bytes)
}

/// Relies on `Hash::to_bytes`; the bytes are only carried.
#[verifier::external_body]
fn hash_bytes(h: BlockHash) -> [u8; 32] {
    h.to_bytes()
}

/// Relies on `Signature::from([u8; 64])`; nothing is stated of the opaque signature.
#[verifier::external_body]
fn signature_of(bytes: [u8; 64]) -> Signature {
    Signature::from(bytes)
}

/// Relies on `<[u8; 64]>::from(Signature)`; the bytes are only carried.
#[verifier::external_body]
fn signature_bytes(s: Signature) -> [u8; 64] {
    <[u8; 64]>::from(s)
}

/// The signature that the keypair with bytes `keypair` makes over the
/// serialized `message`.
pub uninterp spec fn message_signature(keypair: Seq<u8>, message: MessageView) -> [u8; 64];

/// The legacy message compiled from `ops` for `payer` at `blockhash`.
pub uninterp spec fn compiled_message(ops: Seq<OperationView>, payer: Address, blockhash: [u8; 32]) -> MessageView;

/// Whether `signature` is a valid ed25519 signature by `key` over the
/// serialized `message`.
pub uninterp spec fn signature_verifies(key: Address, message: MessageView, signature: [u8; 64]) -> bool;

/// Relies on `Transaction::verify_with_results`: one result for each signature
/// slot that has a key at the same position, telling whether the slot's
/// signature verifies under that key over the serialized message. The message
/// is serialized with an unwrap, so it must fit the wire format.
#[verifier::external_body]
pub(crate) fn verify_signatures(env: &TransactionEnvelope) -> (r: Vec<bool>)
    requires
        env@.message.fits_encoding(),
    ensures
        r@.len() == if env@.signatures.len() <= env@.message.account_keys.len() {
            env@.signatures.len()
        } else {
            env@.message.account_keys.len()
        },
        forall|i: int| 0 <= i < r@.len() ==> #[trigger] r@[i] == signature_verifies(
            env@.message.account_keys[i],
            env@.message,
            env@.signatures[i],
        ),
{
    transaction_of(env).verify_with_results()
}

/// The binary encoding of a transaction envelope.
pub uninterp spec fn envelope_bytes(envelope: EnvelopeView) -> Seq<u8>;

/// The transaction envelope that `bytes` encode, if they encode one.
pub uninterp spec fn envelope_decoded(bytes: Seq<u8>) -> Option<EnvelopeView>;

/// The standard, padded base64 text of `bytes`.
pub uninterp spec fn base64_text(bytes: Seq<u8>) -> Seq<char>;

/// The bytes that a standard, padded base64 `text` stands for, if it is valid.
pub uninterp spec fn base64_decoded(text: Seq<char>) -> Option<Seq<u8>>;

/// The number of key references of `ops`: each program and each account,
/// counted with repetition.
pub open spec fn key_refs(ops: Seq<OperationView>) -> int
    decreases ops.len(),
{
    if ops.len() == 0 {
        0
    } else {
        key_refs(ops.drop_last()) + 1 + ops.last().accounts.len()
    }
}

/// The fee payer and the key references of `ops` fit the 255 keys of a message.
pub open spec fn key_capacity_ok(ops: Seq<OperationView>) -> bool {
    1 + key_refs(ops) <= 255
}

/// Relies on `Message::new_with_blockhash` (legacy message): the fee payer
/// leads the keys, the keys are distinct (so no more than the fee payer and
/// the key references), the signer keys come first and are exactly the fee
/// payer and the accounts some operation marks as signer, and each operation
/// is compiled in order to the indices of its program and accounts with its
/// payload kept. It
/// panics only when more than 255 keys of one kind arise, which the
/// `requires` rules out.
#[verifier::external_body]
pub(crate) fn compile_message(ops: &Vec<Operation>, payer: Address, blockhash: [u8; 32]) -> (r: CompiledMessage)
    requires
        key_capacity_ok(ops_view(ops@)),
    ensures
        r@ == compiled_message(ops_view(ops@), payer, blockhash),
        r@.well_formed(),
        r@.account_keys.len() >= 1,
        r@.account_keys[0] == payer,
        r@.signer_count() >= 1,
        forall|a: Address| #[trigger] r@.is_signer_key(a) <==> (a == payer || required_signer(ops_view(ops@), a)),
        r@.recent_blockhash == blockhash,
        r@.carries(ops_view(ops@)),
        r@.account_keys.len() <= 1 + key_refs(ops_view(ops@)),
{
    let ixs: Vec<Instruction> = ops.iter().map(instruction_of).collect();
    let m = LedgerMessage::new_with_blockhash(&ixs, Some(&pubkey_of(payer)), &hash_of(blockhash));
    compiled_message_of(m)
}

/// Relies on `Transaction::partial_sign` with the envelope's own freshness
/// token: the message stays as it is, and the slot of the identity's key
/// receives the identity's signature over the serialized message. It panics
/// when the key is not a signer key, a slot is missing, or the message does
/// not fit the wire format (serialization unwraps), which the
/// `requires` rules out; the identity's bytes are a valid keypair by its type
/// invariant, so the keypair conversion succeeds.
#[verifier::external_body]
pub(crate) fn sign_envelope(env: &mut TransactionEnvelope, identity: &SigningIdentity)
    requires
        old(env)@.message.well_formed(),
        old(env)@.message.fits_encoding(),
        old(env)@.slots_match(),
        exists|i: int| 0 <= i < old(env)@.message.signer_count()
            && old(env)@.message.account_keys[i].0@ == address_of_keypair(identity@),
    ensures
        final(env)@.message == old(env)@.message,
        final(env)@.signatures.len() == old(env)@.signatures.len(),
        forall|i: int| 0 <= i < final(env)@.signatures.len() ==> #[trigger] final(env)@.signatures[i] == if old(env)@.message.account_keys[i].0@ == address_of_keypair(identity@) {
            message_signature(identity@, old(env)@.message)
        } else {
            old(env)@.signatures[i]
        },
{
    let mut tx = transaction_of(env);
    if let Ok(kp) = Keypair::try_from(&identity.to_bytes()[..]) {
        let blockhash = tx.message.recent_blockhash;
        tx.partial_sign(&[&kp], blockhash);
    }
    *env = envelope_of(tx);
}

/// Relies on `bincode::serialize` of a transaction, which fails only on a
/// sequence longer than its compact length prefix can hold (`short_vec`
/// refuses more than 65,535 elements), and which `bincode::deserialize` reads
/// back to the same transaction.
#[verifier::external_body]
pub(crate) fn envelope_to_bytes(env: &TransactionEnvelope) -> (r: Option<Vec<u8>>)
    ensures
        env@.fits_encoding() ==> r is Some,
        r matches Some(b) ==> b@ == envelope_bytes(env@),
        r matches Some(b) ==> envelope_decoded(b@) == Some(env@),
{
    bincode::serialize(&transaction_of(env)).ok()
}

/// Relies on `bincode::deserialize` of a transaction, whose sequences carry
/// a compact length prefix that cannot exceed 65,535.
#[verifier::external_body]
pub(crate) fn envelope_from_bytes(bytes: &[u8]) -> (r: Option<TransactionEnvelope>)
    ensures
        r matches Some(e) ==> e@.fits_encoding(),
        r is Some <==> envelope_decoded(bytes@) is Some,
        r matches Some(e) ==> envelope_decoded(bytes@) == Some(e@),
{
    bincode::deserialize::<Transaction>(bytes).ok().map(envelope_of)
}

/// Relies on `base64::engine::general_purpose::STANDARD.encode`, whose text
/// the same engine's `decode` reads back to the same bytes.
#[verifier::external_body]
pub(crate) fn to_base64(bytes: &[u8]) -> (r: String)
    ensures
        r@ == base64_text(bytes@),
        base64_decoded(r@) == Some(bytes@),
{
    base64::engine::general_purpose::STANDARD.encode(bytes)
}

/// Relies on `base64::engine::general_purpose::STANDARD.decode`.
#[verifier::external_body]
pub(crate) fn from_base64(text: &str) -> (r: Option<Vec<u8>>)
    ensures
        r is Some <==> base64_decoded(text@) is Some,
        r matches Some(b) ==> base64_decoded(text@) == Some(b@),
{
    base64::engine::general_purpose::STANDARD.decode(text).ok()
}

/// The address that base58 `text` spells, if it spells one.
pub uninterp spec fn parsed_address(text: Seq<char>) -> Option<Address>;

/// The base58 text of an address.
pub uninterp spec fn address_text(a: Address) -> Seq<char>;

/// The byte array that JSON `text` holds, if it holds one.
pub uninterp spec fn json_byte_array(text: Seq<char>) -> Option<Seq<u8>>;

/// The JSON text of a byte array.
pub uninterp spec fn byte_array_json(bytes: Seq<u8>) -> Seq<char>;

/// Relies on `Pubkey::from_str`: base58 text of exactly 32 bytes.
#[verifier::external_body]
pub(crate) fn address_from_text(text: &str) -> (r: Option<Address>)
    ensures
        r == parsed_address(text@),
{
    <Pubkey as std::str::FromStr>::from_str(text).ok().map(|p| Address(p.to_bytes()))
}

/// Relies on `Pubkey`'s `Display`: the base58 text of the key.
#[verifier::external_body]
pub(crate) fn address_to_text(a: Address) -> (r: String)
    ensures
        r@ == address_text(a),
{
    Pubkey::new_from_array(a.0).to_string()
}

/// Relies on `serde_json::from_str::<Vec<u8>>`.
#[verifier::external_body]
pub(crate) fn byte_array_from_json(text: &str) -> (r: Option<Vec<u8>>)
    ensures
        r is Some <==> json_byte_array(text@) is Some,
        r matches Some(b) ==> json_byte_array(text@) == Some(b@),
{
    serde_json::from_str::<Vec<u8>>(text).ok()
}

/// Relies on `serde_json::to_string` of a byte vector, which cannot fail:
/// each byte is written as a number.
#[verifier::external_body]
pub(crate) fn byte_array_to_json(bytes: &Vec<u8>) -> (r: Option<String>)
    ensures
        r is Some,
        r matches Some(t) ==> t@ == byte_array_json(bytes@),
{
    serde_json::to_string(bytes).ok()
}

/// An address as a public key.
fn pubkey_of(a: Address) -> Pubkey {
    Pubkey::new_from_array(a.0)
}

/// An operation as an instruction.
fn instruction_of(op: &Operation) -> Instruction {
    let mut accounts: Vec<AccountMeta> = Vec::new();
    let mut i: usize = 0;
    while i < op.accounts.len()
        decreases op.accounts.len() - i,
    {
        let a = op.accounts[i];
        accounts.push(AccountMeta { pubkey: pubkey_of(a.address), is_signer: a.is_signer, is_writable: a.is_writable });
        i = i + 1;
    }
    Instruction { program_id: pubkey_of(op.program_id), accounts, data: op.data.clone() }
}

/// A ledger message as the library's compiled message.
fn compiled_message_of(m: LedgerMessage) -> CompiledMessage {
    let mut keys: Vec<Address> = Vec::new();
    let mut i: usize = 0;
    while i < m.account_keys.len()
        decreases m.account_keys.len() - i,
    {
        keys.push(Address(m.account_keys[i].to_bytes()));
        i = i + 1;
    }
    let mut instructions: Vec<CompiledOperation> = Vec::new();
    let mut j: usize = 0;
    while j < m.instructions.len()
        decreases m.instructions.len() - j,
    {
        let c = &m.instructions[j];
        instructions.push(CompiledOperation { program_id_index: c.program_id_index, accounts: c.accounts.clone(), data: c.data.clone() });
        j = j + 1;
    }
    let header = MessageHeader {
        num_required_signatures: m.header.num_required_signatures,
        num_readonly_signed_accounts: m.header.num_readonly_signed_accounts,
        num_readonly_unsigned_accounts: m.header.num_readonly_unsigned_accounts,
    };
    CompiledMessage { header, account_keys: keys, recent_blockhash: hash_bytes(m.recent_blockhash), instructions }
}

/// The library's compiled message as a ledger message.
fn ledger_message_of(m: &CompiledMessage) -> LedgerMessage {
    let mut keys: Vec<Pubkey> = Vec::new();
    let mut i: usize = 0;
    while i < m.account_keys.len()
        decreases m.account_keys.len() - i,
    {
        keys.push(pubkey_of(m.account_keys[i]));
        i = i + 1;
    }
    let mut instructions: Vec<CompiledInstruction> = Vec::new();
    let mut j: usize = 0;
    while j < m.instructions.len()
        decreases m.instructions.len() - j,
    {
        let c = &m.instructions[j];
        instructions.push(CompiledInstruction { program_id_index: c.program_id_index, accounts: c.accounts.clone(), data: c.data.clone() });
        j = j + 1;
    }
    let header = LedgerHeader {
        num_required_signatures: m.header.num_required_signatures,
        num_readonly_signed_accounts: m.header.num_readonly_signed_accounts,
        num_readonly_unsigned_accounts: m.header.num_readonly_unsigned_accounts,
    };
    LedgerMessage { header, account_keys: keys, recent_blockhash: hash_of(m.recent_blockhash), instructions }
}

/// The library's envelope as a ledger transaction.
fn transaction_of(e: &TransactionEnvelope) -> Transaction {
    let mut signatures: Vec<Signature> = Vec::new();
    let mut i: usize = 0;
    while i < e.signatures.len()
        decreases e.signatures.len() - i,
    {
        signatures.push(signature_of(e.signatures[i]));
        i = i + 1;
    }
    Transaction { signatures, message: ledger_message_of(&e.message) }
}

/// A ledger transaction as the library's envelope.
fn envelope_of(t: Transaction) -> TransactionEnvelope {
    let mut signatures: Vec<[u8; 64]> = Vec::new();
    let mut i: usize = 0;
    while i < t.signatures.len()
        decreases t.signatures.len() - i,
    {
        signatures.push(signature_bytes(t.signatures[i]));
        i = i + 1;
    }
    TransactionEnvelope { signatures, message: compiled_message_of(t.message) }
}

/// An instruction as the library's own operation value.
fn operation_of(ix: Instruction) -> Operation {
    let mut accounts: Vec<AccountRef> = Vec::new();
    let mut i: usize = 0;
    while i < ix.accounts.len()
        decreases ix.accounts.len() - i,
    {
        let m = &ix.accounts[i];
        accounts.push(AccountRef { address: Address(m.pubkey.to_bytes()), is_signer: m.is_signer, is_writable: m.is_writable });
        i = i + 1;
    }
    Operation { program_id: Address(ix.program_id.to_bytes()), accounts, data: ix.data }
}

} // verus!
