use vstd::prelude::*;

verus! {

/// A 32-byte ledger account address (the raw bytes of a public key).
#[derive(Clone, Copy, Debug, PartialEq, Eq)]
pub struct Address(pub [u8; 32]);

/// One account referenced by an operation, with its access flags.
#[derive(Clone, Copy, Debug, PartialEq, Eq)]
pub struct AccountRef {
    pub address: Address,
    pub is_signer: bool,
    pub is_writable: bool,
}

/// One unit of work for the ledger: the program it targets, the ordered
/// accounts it touches, and its opaque payload.
#[derive(Clone, Debug)]
pub struct Operation {
    pub program_id: Address,
    pub accounts: Vec<AccountRef>,
    pub data: Vec<u8>,
}

/// The mathematical value of an `Operation`.
pub ghost struct OperationView {
    pub program_id: Address,
    pub accounts: Seq<AccountRef>,
    pub data: Seq<u8>,
}

impl View for Operation {
    type V = OperationView;

    open spec fn view(&self) -> OperationView {
        OperationView { program_id: self.program_id, accounts: self.accounts@, data: self.data@ }
    }
}

/// A writable account reference.
pub open spec fn writable(address: Address, is_signer: bool) -> AccountRef {
    AccountRef { address, is_signer, is_writable: true }
}

/// A read-only account reference.
pub open spec fn readonly(address: Address, is_signer: bool) -> AccountRef {
    AccountRef { address, is_signer, is_writable: false }
}

/// The operations as mathematical values.
pub open spec fn ops_view(ops: Seq<Operation>) -> Seq<OperationView> {
    ops.map_values(|o: Operation| o@)
}

/// `a` must sign some operation of `ops`.
pub open spec fn required_signer(ops: Seq<OperationView>, a: Address) -> bool {
    exists|i: int, j: int|
        0 <= i < ops.len() && 0 <= j < ops[i].accounts.len() && ops[i].accounts[j].is_signer
            && ops[i].accounts[j].address == a
}

/// The little-endian bytes of `n`.
pub open spec fn le_u64(n: u64) -> Seq<u8> {
    Seq::new(8, |i: int| ((n >> (8 * i) as u64) & 0xff) as u8)
}

/// The system program.
pub const SYSTEM_PROGRAM_ID: [u8; 32] = [
    0, 0, 0, 0, 0, 0, 0, 0, 0, 0, 0, 0, 0, 0, 0, 0,
    0, 0, 0, 0, 0, 0, 0, 0, 0, 0, 0, 0, 0, 0, 0, 0,
];

/// The token program (`TokenkegQfeZyiNwAJbNbGKPFXCWuBvf9Ss623VQ5DA`).
pub const TOKEN_PROGRAM_ID: [u8; 32] = [
    6, 221, 246, 225, 215, 101, 161, 147, 217, 203, 225, 70, 206, 235, 121, 172,
    28, 180, 133, 237, 95, 91, 55, 145, 58, 140, 245, 133, 126, 255, 0, 169,
];

/// The associated token account program (`ATokenGPvbdGVxr1b2hvZbsiqW5xWH25efTNsLJA8knL`).
pub const ASSOCIATED_TOKEN_PROGRAM_ID: [u8; 32] = [
    140, 151, 37, 143, 78, 36, 137, 241, 187, 61, 16, 41, 20, 142, 13, 131,
    11, 90, 19, 153, 218, 255, 16, 132, 4, 142, 123, 216, 219, 233, 248, 89,
];

/// The token metadata program (`metaqbxxUerdq28cj1RbAWkYQm3ybzjb6a8bt518x1s`).
pub const METADATA_PROGRAM_ID: [u8; 32] = [
    11, 112, 101, 177, 227, 209, 124, 69, 56, 157, 82, 127, 107, 4, 195, 205,
    88, 184, 108, 115, 26, 160, 253, 181, 73, 182, 209, 188, 3, 248, 41, 70,
];

/// The rent sysvar (`SysvarRent111111111111111111111111111111111`).
pub const RENT_SYSVAR_ID: [u8; 32] = [
    6, 167, 213, 23, 25, 44, 92, 81, 33, 140, 201, 76, 61, 74, 241, 127,
    88, 218, 238, 8, 155, 161, 253, 68, 227, 219, 217, 138, 0, 0, 0, 0,
];

/// The instructions sysvar (`Sysvar1nstructions1111111111111111111111111`).
pub const INSTRUCTIONS_SYSVAR_ID: [u8; 32] = [
    6, 167, 213, 23, 24, 123, 209, 102, 53, 218, 212, 4, 85, 253, 194, 192,
    193, 36, 198, 143, 33, 86, 117, 165, 219, 186, 203, 95, 8, 0, 0, 0,
];

/// Reads an address from its base58 text; `None` when the text is malformed.
pub fn parse_address(text: &str) -> (r: Option<Address>)
    ensures
        r == crate::ledger::parsed_address(text@),
{
    crate::ledger::address_from_text(text)
}

/// The base58 text of an address.
pub fn address_to_string(a: Address) -> (r: String)
    ensures
        r@ == crate::ledger::address_text(a),
{
    crate::ledger::address_to_text(a)
}

/// Whether two addresses are the same.
pub fn same_address(a: &Address, b: &Address) -> (r: bool)
    ensures
        r == (*a == *b),
{
    let mut i: usize = 0;
    while i < 32
        invariant
            0 <= i <= 32,
            forall|k: int| 0 <= k < i ==> a.0[k] == b.0[k],
        decreases 32 - i,
    {
        if a.0[i] != b.0[i] {
            return false;
        }
        i = i + 1;
    }
    assert(a.0 =~= b.0);
    true
}

} // verus!
