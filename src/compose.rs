use vstd::prelude::*;

use crate::cost::MINT_ACCOUNT_SIZE;
use crate::ledger::{
    associated_token_address, create_account_op, create_account_operation, create_holding_op,
    create_holding_operation, create_metadata_op, create_metadata_operation, edition_address,
    edition_record_address, holding_address, initialize_mint_op, initialize_mint_operation,
    metadata_address, metadata_record_address, mint_to_op, mint_to_operation, transfer_op,
    transfer_operation, verify_collection_op, verify_collection_operation,
};
use crate::model::{ops_view, Address, Operation, OperationView, TOKEN_PROGRAM_ID};

verus! {

/// Royalty on secondary sales, in basis points, recorded in every asset's metadata.
pub const ROYALTY_BASIS_POINTS: u16 = 500;

/// The five operations every mint needs, in the order the network requires.
pub open spec fn base_mint_ops(
    uri: Seq<char>,
    name: Seq<char>,
    symbol: Seq<char>,
    payer: Address,
    mint: Address,
    mint_rent: u64,
) -> Seq<OperationView> {
    seq![
        create_account_op(payer, mint, mint_rent, MINT_ACCOUNT_SIZE, Address(TOKEN_PROGRAM_ID)),
        initialize_mint_op(mint, payer, 0),
        create_holding_op(payer, payer, mint),
        mint_to_op(mint, associated_token_address(payer, mint), payer, 1),
        create_metadata_op(mint, payer, name, symbol, uri, ROYALTY_BASIS_POINTS, true),
    ]
}

/// The collection-membership operation, when a collection is given.
pub open spec fn collection_ops(mint: Address, payer: Address, collection: Option<Address>) -> Seq<OperationView> {
    match collection {
        Some(c) => seq![verify_collection_op(mint, c, payer)],
        None => seq![],
    }
}

/// The fee transfer to the treasury, when the fee is not zero.
pub open spec fn fee_ops(payer: Address, treasury: Address, service_fee: u64) -> Seq<OperationView> {
    if service_fee > 0 {
        seq![transfer_op(payer, treasury, service_fee)]
    } else {
        seq![]
    }
}

/// The full operation sequence of a mint request.
pub open spec fn mint_ops(
    uri: Seq<char>,
    name: Seq<char>,
    symbol: Seq<char>,
    payer: Address,
    mint: Address,
    mint_rent: u64,
    collection: Option<Address>,
    service_fee: u64,
    treasury: Address,
) -> Seq<OperationView> {
    base_mint_ops(uri, name, symbol, payer, mint, mint_rent) + collection_ops(mint, payer, collection)
        + fee_ops(payer, treasury, service_fee)
}

/// Builds the five mint operations: create the mint account with its rent-exempt
/// balance, initialize it as a zero-decimal mint under the fee payer, create the
/// fee payer's holding account, mint one unit into it, and create the mutable
/// metadata record.
pub fn create_nft_instructions(
    metadata_uri: &str,
    name: &str,
    symbol: &str,
    fee_payer: Address,
    mint: Address,
    mint_rent: u64,
) -> (r: Vec<Operation>)
    ensures
        ops_view(r@) == base_mint_ops(metadata_uri@, name@, symbol@, fee_payer, mint, mint_rent),
{
    let create_mint = create_account_operation(fee_payer, mint, mint_rent, MINT_ACCOUNT_SIZE, Address(TOKEN_PROGRAM_ID));
    let init_mint = initialize_mint_operation(mint, fee_payer, 0).unwrap();
    let create_holding = create_holding_operation(fee_payer, fee_payer, mint);
    let holding = holding_address(fee_payer, mint);
    let mint_one = mint_to_operation(mint, holding, fee_payer, 1).unwrap();
    let metadata = metadata_record_address(mint);
    let edition = edition_record_address(mint);
    let create_metadata = create_metadata_operation(
        metadata, edition, mint, fee_payer, name, symbol, metadata_uri, ROYALTY_BASIS_POINTS, true);
    let ops = vec![create_mint, init_mint, create_holding, mint_one, create_metadata];
    assert(ops_view(ops@) =~= base_mint_ops(metadata_uri@, name@, symbol@, fee_payer, mint, mint_rent));
    ops
}

/// Builds the operation that verifies `nft_mint` as a member of the sized
/// collection `collection_mint`, with `authority` signing.
pub fn create_set_collection_instruction(nft_mint: Address, collection_mint: Address, authority: Address) -> (r: Operation)
    ensures
        r@ == verify_collection_op(nft_mint, collection_mint, authority),
{
    let item_metadata = metadata_record_address(nft_mint);
    let collection_metadata = metadata_record_address(collection_mint);
    let collection_edition = edition_record_address(collection_mint);
    verify_collection_operation(item_metadata, collection_mint, collection_metadata, collection_edition, authority)
}

/// Builds the whole mint sequence: the five mint operations, then the
/// collection verification when a collection is given, then the transfer of a
/// non-zero service fee from the fee payer to the treasury.
pub fn create_nft_instructions_with_fee(
    metadata_uri: &str,
    name: &str,
    symbol: &str,
    fee_payer: Address,
    mint: Address,
    mint_rent: u64,
    collection: Option<Address>,
    service_fee: u64,
    treasury: Address,
) -> (r: Vec<Operation>)
    ensures
        ops_view(r@) == mint_ops(
            metadata_uri@, name@, symbol@, fee_payer, mint, mint_rent, collection, service_fee, treasury),
{
    let mut ops = create_nft_instructions(metadata_uri, name, symbol, fee_payer, mint, mint_rent);
    let ghost base = ops@;
    match collection {
        Some(c) => {
            let verify = create_set_collection_instruction(mint, c, fee_payer);
            ops.push(verify);
        },
        None => {},
    }
    let ghost with_collection = ops@;
    assert(ops_view(with_collection) =~= ops_view(base) + collection_ops(mint, fee_payer, collection));
    if service_fee > 0 {
        let fee = transfer_operation(fee_payer, treasury, service_fee);
        ops.push(fee);
    }
    assert(ops_view(ops@) =~= ops_view(with_collection) + fee_ops(fee_payer, treasury, service_fee));
    ops
}

/// The mint sequence always starts with the five mint operations in their fixed
/// order; a collection appends exactly one verification right after them; a
/// non-zero fee appends exactly one transfer at the end; nothing else is added
/// and nothing is reordered.
pub proof fn lemma_mint_sequence_layout(
    uri: Seq<char>,
    name: Seq<char>,
    symbol: Seq<char>,
    payer: Address,
    mint: Address,
    mint_rent: u64,
    collection: Option<Address>,
    service_fee: u64,
    treasury: Address,
)
    ensures
        ({
            let ops = mint_ops(uri, name, symbol, payer, mint, mint_rent, collection, service_fee, treasury);
            let extra_collection: int = if collection is Some { 1 } else { 0 };
            let extra_fee: int = if service_fee > 0 { 1 } else { 0 };
            &&& ops.len() == 5 + extra_collection + extra_fee
            &&& ops.subrange(0, 5) == base_mint_ops(uri, name, symbol, payer, mint, mint_rent)
            &&& ops.subrange(0, 5) == mint_ops(uri, name, symbol, payer, mint, mint_rent, None, 0, treasury)
            &&& collection matches Some(c) ==> ops[5] == verify_collection_op(mint, c, payer)
            &&& service_fee > 0 ==> ops[ops.len() - 1] == transfer_op(payer, treasury, service_fee)
        }),
{
    let ops = mint_ops(uri, name, symbol, payer, mint, mint_rent, collection, service_fee, treasury);
    let base = base_mint_ops(uri, name, symbol, payer, mint, mint_rent);
    assert(ops.subrange(0, 5) =~= base);
    assert(mint_ops(uri, name, symbol, payer, mint, mint_rent, None, 0, treasury) =~= base);
}

/// Two compositions of the same request that differ only in the generated mint
/// address have the same shape: as many operations, each with the same program,
/// the same payload and the same account flags at each position.
pub proof fn lemma_compose_depends_on_mint_only_in_addresses(
    uri: Seq<char>,
    name: Seq<char>,
    symbol: Seq<char>,
    payer: Address,
    mint_a: Address,
    mint_b: Address,
    mint_rent: u64,
    collection: Option<Address>,
    service_fee: u64,
    treasury: Address,
)
    ensures
        ({
            let a = mint_ops(uri, name, symbol, payer, mint_a, mint_rent, collection, service_fee, treasury);
            let b = mint_ops(uri, name, symbol, payer, mint_b, mint_rent, collection, service_fee, treasury);
            &&& a.len() == b.len()
            &&& forall|i: int| 0 <= i < a.len() ==> {
                &&& #[trigger] a[i].program_id == b[i].program_id
                &&& a[i].data == b[i].data
                &&& a[i].accounts.len() == b[i].accounts.len()
                &&& forall|j: int| 0 <= j < a[i].accounts.len() ==>
                    #[trigger] a[i].accounts[j].is_signer == b[i].accounts[j].is_signer
                    && a[i].accounts[j].is_writable == b[i].accounts[j].is_writable
            }
            &&& mint_a == mint_b ==> a == b
        }),
{
    lemma_mint_sequence_layout(uri, name, symbol, payer, mint_a, mint_rent, collection, service_fee, treasury);
    lemma_mint_sequence_layout(uri, name, symbol, payer, mint_b, mint_rent, collection, service_fee, treasury);
}

/// The amount of the placeholder transfer that collection envelopes carry.
pub const COLLECTION_PLACEHOLDER_LAMPORTS: u64 = 1000;

/// The operations of a collection envelope: as yet a single self-transfer of
/// the fee payer, which the wallet signs.
pub fn create_collection_instructions(fee_payer: Address) -> (r: Vec<Operation>)
    ensures
        ops_view(r@) == seq![transfer_op(fee_payer, fee_payer, COLLECTION_PLACEHOLDER_LAMPORTS)],
{
    let op = transfer_operation(fee_payer, fee_payer, COLLECTION_PLACEHOLDER_LAMPORTS);
    let ops = vec![op];
    assert(ops_view(ops@) =~= seq![transfer_op(fee_payer, fee_payer, COLLECTION_PLACEHOLDER_LAMPORTS)]);
    ops
}

} // verus!
