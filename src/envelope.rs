use vstd::prelude::*;

use crate::identity::{address_of_keypair, lemma_signer_address, signer_address, SigningIdentity};
use crate::model::{ops_view, required_signer, same_address, Address, Operation, OperationView};
use crate::ledger::{
    base64_decoded, base64_text, compile_message, compiled_message, envelope_bytes, envelope_decoded, envelope_from_bytes,
    envelope_to_bytes, from_base64, signature_verifies, verify_signatures, key_capacity_ok, key_refs, message_signature, sign_envelope, to_base64,
};

verus! {

/// The counts that split a compiled message's account keys into signers and
/// read-only accounts.
#[derive(Clone, Copy, Debug, PartialEq, Eq, Structural)]
pub struct MessageHeader {
    pub num_required_signatures: u8,
    pub num_readonly_signed_accounts: u8,
    pub num_readonly_unsigned_accounts: u8,
}

/// An operation whose program and accounts are indices into the message's keys.
#[derive(Clone, Debug)]
pub struct CompiledOperation {
    pub program_id_index: u8,
    pub accounts: Vec<u8>,
    pub data: Vec<u8>,
}

/// A compiled message: its header, its distinct account keys (signers first,
/// fee payer at the front), the freshness token and the compiled operations.
#[derive(Clone, Debug)]
pub struct CompiledMessage {
    pub header: MessageHeader,
    pub account_keys: Vec<Address>,
    pub recent_blockhash: [u8; 32],
    pub instructions: Vec<CompiledOperation>,
}

/// A transaction envelope: one signature slot per required signer, in the
/// order of the message's signer keys, and the message. An all-zero slot holds
/// no signature.
#[derive(Clone, Debug)]
pub struct TransactionEnvelope {
    pub signatures: Vec<[u8; 64]>,
    pub message: CompiledMessage,
}

pub ghost struct CompiledOperationView {
    pub program_id_index: u8,
    pub accounts: Seq<u8>,
    pub data: Seq<u8>,
}

pub ghost struct MessageView {
    pub header: MessageHeader,
    pub account_keys: Seq<Address>,
    pub recent_blockhash: [u8; 32],
    pub instructions: Seq<CompiledOperationView>,
}

pub ghost struct EnvelopeView {
    pub signatures: Seq<[u8; 64]>,
    pub message: MessageView,
}

impl View for CompiledOperation {
    type V = CompiledOperationView;

    open spec fn view(&self) -> CompiledOperationView {
        CompiledOperationView { program_id_index: self.program_id_index, accounts: self.accounts@, data: self.data@ }
    }
}

impl View for CompiledMessage {
    type V = MessageView;

    open spec fn view(&self) -> MessageView {
        MessageView {
            header: self.header,
            account_keys: self.account_keys@,
            recent_blockhash: self.recent_blockhash,
            instructions: self.instructions@.map_values(|c: CompiledOperation| c@),
        }
    }
}

impl View for TransactionEnvelope {
    type V = EnvelopeView;

    open spec fn view(&self) -> EnvelopeView {
        EnvelopeView { signatures: self.signatures@, message: self.message@ }
    }
}

/// The longest sequence the wire format's compact length prefix can carry.
pub const MAX_ENCODED_LEN: usize = 65535;

/// Whether a signature slot is empty (all zero).
pub open spec fn is_blank(s: [u8; 64]) -> bool {
    forall|k: int| 0 <= k < 64 ==> s[k] == 0
}

impl MessageView {
    /// The number of signer keys, which lead the account keys.
    pub open spec fn signer_count(self) -> int {
        self.header.num_required_signatures as int
    }

    /// Whether `a` is one of the message's signer keys.
    pub open spec fn is_signer_key(self, a: Address) -> bool {
        exists|i: int| 0 <= i < self.signer_count() && self.account_keys[i] == a
    }

    /// Every sequence in the message fits the compact length prefix of the
    /// wire format.
    pub open spec fn fits_encoding(self) -> bool {
        &&& self.account_keys.len() <= MAX_ENCODED_LEN
        &&& self.instructions.len() <= MAX_ENCODED_LEN
        &&& forall|i: int| 0 <= i < self.instructions.len() ==> #[trigger] self.instructions[i].accounts.len()
            <= MAX_ENCODED_LEN && self.instructions[i].data.len() <= MAX_ENCODED_LEN
    }

    /// The compiled operations are `ops`, in order: each names its program and
    /// accounts by their index among the keys and keeps its payload.
    pub open spec fn carries(self, ops: Seq<OperationView>) -> bool {
        &&& self.instructions.len() == ops.len()
        &&& forall|i: int| 0 <= i < ops.len() ==> {
            let c = #[trigger] self.instructions[i];
            &&& (c.program_id_index as int) < self.account_keys.len()
            &&& self.account_keys[c.program_id_index as int] == ops[i].program_id
            &&& c.data == ops[i].data
            &&& c.accounts.len() == ops[i].accounts.len()
            &&& forall|j: int| 0 <= j < c.accounts.len() ==> (#[trigger] c.accounts[j] as int) < self.account_keys.len()
                && self.account_keys[c.accounts[j] as int] == ops[i].accounts[j].address
        }
    }

    /// The message's keys are distinct and its signer keys are among them.
    pub open spec fn well_formed(self) -> bool {
        &&& self.signer_count() <= self.account_keys.len()
        &&& forall|i: int, j: int|
            0 <= i < j < self.account_keys.len() ==> self.account_keys[i] != self.account_keys[j]
    }
}

impl EnvelopeView {
    /// One slot per signer key.
    pub open spec fn slots_match(self) -> bool {
        self.signatures.len() == self.message.signer_count()
    }

    /// Whether the slot of signer key `a` holds a signature.
    pub open spec fn is_signed_by(self, a: Address) -> bool {
        exists|i: int|
            0 <= i < self.message.signer_count() && self.message.account_keys[i] == a
                && !is_blank(self.signatures[i])
    }

    /// The envelope can be written in the wire format.
    pub open spec fn fits_encoding(self) -> bool {
        self.signatures.len() <= MAX_ENCODED_LEN && self.message.fits_encoding()
    }

    /// Every signer slot holds a signature.
    pub open spec fn fully_signed(self) -> bool {
        forall|i: int| 0 <= i < self.message.signer_count() ==> !is_blank(#[trigger] self.signatures[i])
    }
}

/// Why an envelope could not be assembled.
#[derive(Clone, Copy, Debug, PartialEq, Eq, Structural)]
pub enum AssembleError {
    /// There is no operation to carry.
    NoOperations,
    /// More accounts than one message can address, counting every key
    /// reference with repetition (a bound that never lets a message overflow).
    TooManyAccounts,
    /// An operation's payload is longer than the wire format can carry.
    PayloadTooLong,
    /// The signing identity is the fee payer, whose key the service never holds.
    IdentityIsFeePayer,
    /// No operation asks the signing identity to sign.
    IdentityNotRequired,
    /// An operation asks for a signer that is neither the fee payer nor the identity.
    UnexpectedSigner,
    /// The envelope could not be serialized.
    Encoding,
}

/// Whether every required signer of `ops` is `payer` or `other`.
pub open spec fn signers_within(ops: Seq<OperationView>, payer: Address, other: Option<Address>) -> bool {
    forall|a: Address| #[trigger] required_signer(ops, a) ==> a == payer || other == Some(a)
}

/// Whether some operation asks for a signer that is neither `payer` nor `other`.
fn find_unexpected_signer(ops: &Vec<Operation>, payer: &Address, other: Option<Address>) -> (r: bool)
    ensures
        r == !signers_within(ops_view(ops@), *payer, other),
{
    let ghost v = ops_view(ops@);
    let mut i: usize = 0;
    while i < ops.len()
        invariant
            0 <= i <= ops.len(),
            v == ops_view(ops@),
            forall|a: Address, oi: int, j: int|
                0 <= oi < i && 0 <= j < v[oi].accounts.len() && v[oi].accounts[j].is_signer
                    && v[oi].accounts[j].address == a ==> a == *payer || other == Some(a),
        decreases ops.len() - i,
    {
        let accounts = &ops[i].accounts;
        let mut j: usize = 0;
        while j < accounts.len()
            invariant
                0 <= i < ops.len(),
                0 <= j <= accounts.len(),
                v == ops_view(ops@),
                accounts@ == v[i as int].accounts,
                forall|a: Address, oi: int, jj: int|
                    0 <= oi < i && 0 <= jj < v[oi].accounts.len() && v[oi].accounts[jj].is_signer
                        && v[oi].accounts[jj].address == a ==> a == *payer || other == Some(a),
                forall|a: Address, jj: int|
                    0 <= jj < j && accounts@[jj].is_signer && accounts@[jj].address == a ==> a == *payer
                        || other == Some(a),
            decreases accounts.len() - j,
        {
            let acc = accounts[j];
            if acc.is_signer {
                let is_payer = same_address(&acc.address, payer);
                let is_other = match other {
                    Some(o) => same_address(&acc.address, &o),
                    None => false,
                };
                if !is_payer && !is_other {
                    assert(required_signer(v, acc.address));
                    return true;
                }
            }
            j = j + 1;
        }
        i = i + 1;
    }
    assert forall|a: Address| #[trigger] required_signer(v, a) implies a == *payer || other == Some(a) by {
        let (oi, j) = choose|oi: int, j: int|
            0 <= oi < v.len() && 0 <= j < v[oi].accounts.len() && v[oi].accounts[j].is_signer
                && v[oi].accounts[j].address == a;
    }
    false
}

/// The first check that assembling `ops` for `payer`, signed by the identity
/// with address `identity` if one is given, fails.
pub open spec fn assembly_failure(ops: Seq<OperationView>, payer: Address, identity: Option<Address>) -> Option<AssembleError> {
    if ops.len() == 0 {
        Some(AssembleError::NoOperations)
    } else if !key_capacity_ok(ops) {
        Some(AssembleError::TooManyAccounts)
    } else if !payloads_fit(ops) {
        Some(AssembleError::PayloadTooLong)
    } else if identity == Some(payer) {
        Some(AssembleError::IdentityIsFeePayer)
    } else if !signers_within(ops, payer, identity) {
        Some(AssembleError::UnexpectedSigner)
    } else if identity matches Some(a) && !required_signer(ops, a) {
        Some(AssembleError::IdentityNotRequired)
    } else {
        None
    }
}

/// The address of an optional identity.
pub open spec fn identity_address(identity: Option<&SigningIdentity>) -> Option<Address> {
    match identity {
        Some(id) => Some(signer_address(id@)),
        None => None,
    }
}

/// What an envelope assembled from `ops` for `payer` at `blockhash` holds: the
/// fee payer leads the keys, the signer keys are the fee payer and the
/// operations' signers, and every slot is empty but the identity's, which
/// holds the identity's signature over the message.
pub open spec fn is_assembled(
    e: EnvelopeView,
    ops: Seq<OperationView>,
    payer: Address,
    identity: Option<Seq<u8>>,
    blockhash: [u8; 32],
) -> bool {
    let m = e.message;
    &&& m == compiled_message(ops, payer, blockhash)
    &&& m.carries(ops)
    &&& e.fits_encoding()
    &&& m.well_formed()
    &&& e.slots_match()
    &&& m.signer_count() >= 1
    &&& m.account_keys[0] == payer
    &&& m.recent_blockhash == blockhash
    &&& forall|a: Address| #[trigger] m.is_signer_key(a) <==> (a == payer || required_signer(ops, a))
    &&& is_blank(e.signatures[0])
    &&& identity matches Some(id) ==> forall|i: int|
        0 <= i < e.signatures.len() && m.account_keys[i] == signer_address(id)
            ==> #[trigger] e.signatures[i] == message_signature(id, m)
    &&& forall|i: int| 0 <= i < e.signatures.len() && (identity matches Some(id) ==> m.account_keys[i] != signer_address(id))
        ==> is_blank(#[trigger] e.signatures[i])
    &&& identity matches Some(id) ==> m.is_signer_key(signer_address(id))
}

/// An envelope assembled with an identity carries, in the identity's slot, the
/// identity's signature over the message, and never a signature for the fee
/// payer.
pub proof fn lemma_assembled_envelope_signatures(
    e: EnvelopeView,
    ops: Seq<OperationView>,
    payer: Address,
    identity: Seq<u8>,
    blockhash: [u8; 32],
)
    requires
        is_assembled(e, ops, payer, Some(identity), blockhash),
    ensures
        !e.is_signed_by(payer),
        exists|i: int|
            0 <= i < e.message.signer_count() && e.message.account_keys[i] == signer_address(identity)
                && e.signatures[i] == message_signature(identity, e.message),
{
    let m = e.message;
    if e.is_signed_by(payer) {
        let i = choose|i: int| 0 <= i < m.signer_count() && m.account_keys[i] == payer && !is_blank(e.signatures[i]);
        assert(i == 0);
    }
    let k = choose|k: int| 0 <= k < m.signer_count() && m.account_keys[k] == signer_address(identity);
    assert(e.signatures[k] == message_signature(identity, m));
}

/// The view of an optional identity.
pub open spec fn identity_bytes(identity: Option<&SigningIdentity>) -> Option<Seq<u8>> {
    match identity {
        Some(id) => Some(id@),
        None => None,
    }
}

/// Every payload of `ops` fits the wire format.
pub open spec fn payloads_fit(ops: Seq<OperationView>) -> bool {
    forall|i: int| 0 <= i < ops.len() ==> #[trigger] ops[i].data.len() <= MAX_ENCODED_LEN
}

/// Whether every payload of `ops` fits the wire format.
fn payloads_short(ops: &Vec<Operation>) -> (r: bool)
    ensures
        r == payloads_fit(ops_view(ops@)),
{
    let ghost v = ops_view(ops@);
    let mut i: usize = 0;
    while i < ops.len()
        invariant
            0 <= i <= ops.len(),
            v == ops_view(ops@),
            forall|k: int| 0 <= k < i ==> #[trigger] v[k].data.len() <= MAX_ENCODED_LEN,
        decreases ops.len() - i,
    {
        if ops[i].data.len() > MAX_ENCODED_LEN {
            assert(v[i as int].data.len() > MAX_ENCODED_LEN);
            return false;
        }
        i = i + 1;
    }
    true
}

/// There are no more operations, and no operation has more accounts, than
/// key references.
pub proof fn lemma_key_refs_bounds(v: Seq<OperationView>)
    ensures
        v.len() <= key_refs(v),
        forall|i: int| 0 <= i < v.len() ==> #[trigger] v[i].accounts.len() <= key_refs(v),
    decreases v.len(),
{
    if v.len() > 0 {
        lemma_key_refs_bounds(v.drop_last());
        assert forall|i: int| 0 <= i < v.len() implies #[trigger] v[i].accounts.len() <= key_refs(v) by {
            if i < v.len() - 1 {
                assert(v.drop_last()[i] == v[i]);
            }
        }
    }
}

/// Whether the key references of `ops` fit one message.
fn fits_one_message(ops: &Vec<Operation>) -> (r: bool)
    ensures
        r == key_capacity_ok(ops_view(ops@)),
{
    let ghost v = ops_view(ops@);
    let mut total: usize = 1;
    let mut i: usize = 0;
    while i < ops.len()
        invariant
            0 <= i <= ops.len(),
            v == ops_view(ops@),
            total == 1 + key_refs(v.subrange(0, i as int)),
            total <= 255,
        decreases ops.len() - i,
    {
        assert(v.subrange(0, i + 1).drop_last() =~= v.subrange(0, i as int));
        let n = ops[i].accounts.len();
        if n >= 255 || total + 1 + n > 255 {
            proof {
                lemma_key_refs_prefix(v, i + 1);
            }
            return false;
        }
        total = total + 1 + n;
        i = i + 1;
    }
    assert(v.subrange(0, ops.len() as int) =~= v);
    true
}

/// A prefix has no more key references than the whole.
proof fn lemma_key_refs_prefix(v: Seq<OperationView>, i: int)
    requires
        0 <= i <= v.len(),
    ensures
        key_refs(v.subrange(0, i)) <= key_refs(v),
    decreases v.len() - i,
{
    if i < v.len() {
        lemma_key_refs_prefix(v, i + 1);
        assert(v.subrange(0, i + 1).drop_last() =~= v.subrange(0, i));
    } else {
        assert(v.subrange(0, i) =~= v);
    }
}

/// Builds the envelope for `ops` with `fee_payer` paying, at freshness token
/// `blockhash`. When an identity is given (the one-time mint identity), its
/// signature is applied at once; the fee payer's slot is always left empty
/// for the remote wallet. Fails, before anything is signed, when there is no
/// operation, when the accounts do not fit one message, when the identity is
/// the fee payer, when an operation asks for any other signer than the fee
/// payer and the identity, or when no operation asks for the identity.
pub fn assemble_envelope(
    ops: &Vec<Operation>,
    fee_payer: Address,
    identity: Option<&SigningIdentity>,
    blockhash: [u8; 32],
) -> (r: Result<TransactionEnvelope, AssembleError>)
    ensures
        r is Err <==> assembly_failure(ops_view(ops@), fee_payer, identity_address(identity)) is Some,
        r matches Err(e) ==> assembly_failure(ops_view(ops@), fee_payer, identity_address(identity)) == Some(e),
        r matches Ok(e) ==> is_assembled(e@, ops_view(ops@), fee_payer, identity_bytes(identity), blockhash),
{
    let ghost v = ops_view(ops@);
    if ops.len() == 0 {
        return Err(AssembleError::NoOperations);
    }
    if !fits_one_message(ops) {
        return Err(AssembleError::TooManyAccounts);
    }
    if !payloads_short(ops) {
        return Err(AssembleError::PayloadTooLong);
    }
    let id_address: Option<Address> = match identity {
        Some(id) => Some(id.pubkey()),
        None => None,
    };
    assert(id_address == identity_address(identity));
    match id_address {
        Some(a) => {
            if same_address(&a, &fee_payer) {
                return Err(AssembleError::IdentityIsFeePayer);
            }
        },
        None => {},
    }
    if find_unexpected_signer(ops, &fee_payer, id_address) {
        return Err(AssembleError::UnexpectedSigner);
    }
    let message = compile_message(ops, fee_payer, blockhash);
    let ghost m = message@;
    proof {
        lemma_key_refs_bounds(v);
    }
    match id_address {
        Some(a) => {
            if !is_required_signer_key(&message, &a) {
                assert(!m.is_signer_key(a));
                return Err(AssembleError::IdentityNotRequired);
            }
        },
        None => {},
    }
    let mut envelope = unsigned_envelope(message);
    assert(envelope@.message == m);
    assert(is_blank(envelope@.signatures[0]));
    match identity {
        Some(id) => {
            let pk = id.pubkey();
            sign_envelope(&mut envelope, id);
            proof {
                assert forall|k: int| 0 <= k < envelope@.signatures.len() implies
                    (m.account_keys[k].0@ == address_of_keypair(id@)) == (m.account_keys[k] == signer_address(id@)) by {
                    lemma_signer_address(id@, m.account_keys[k], pk);
                }
                assert(m.account_keys[0] != signer_address(id@));
            }
        },
        None => {},
    }
    Ok(envelope)
}

/// An envelope around `message` with an empty slot for each signer key.
pub(crate) fn unsigned_envelope(message: CompiledMessage) -> (r: TransactionEnvelope)
    ensures
        r@.message == message@,
        r@.slots_match(),
        forall|k: int| 0 <= k < r@.signatures.len() ==> is_blank(#[trigger] r@.signatures[k]),
{
    let count = message.header.num_required_signatures as usize;
    let mut signatures: Vec<[u8; 64]> = Vec::new();
    let mut i: usize = 0;
    while i < count
        invariant
            0 <= i <= count,
            signatures@.len() == i,
            forall|k: int| 0 <= k < i ==> is_blank(#[trigger] signatures@[k]),
        decreases count - i,
    {
        let blank: [u8; 64] = [0u8; 64];
        assert(is_blank(blank));
        signatures.push(blank);
        i = i + 1;
    }
    TransactionEnvelope { signatures, message }
}

/// Whether `a` is one of the message's signer keys.
fn is_required_signer_key(message: &CompiledMessage, a: &Address) -> (r: bool)
    requires
        message@.well_formed(),
    ensures
        r == message@.is_signer_key(*a),
{
    let count = message.header.num_required_signatures as usize;
    let mut i: usize = 0;
    while i < count
        invariant
            0 <= i <= count,
            count == message@.signer_count(),
            count <= message.account_keys@.len(),
            forall|k: int| 0 <= k < i ==> message.account_keys@[k] != *a,
        decreases count - i,
    {
        if same_address(&message.account_keys[i], a) {
            assert(message@.account_keys[i as int] == *a);
            return true;
        }
        i = i + 1;
    }
    false
}

/// The transport text of an envelope: its binary encoding in base64.
pub fn encode_envelope(envelope: &TransactionEnvelope) -> (r: Result<String, AssembleError>)
    ensures
        envelope@.fits_encoding() ==> r is Ok,
        r matches Ok(text) ==> text@ == base64_text(envelope_bytes(envelope@)),
        r matches Ok(text) ==> transport_decoded(text@) == Some(envelope@),
        r matches Err(e) ==> e == AssembleError::Encoding,
{
    match envelope_to_bytes(envelope) {
        Some(bytes) => Ok(to_base64(bytes.as_slice())),
        None => Err(AssembleError::Encoding),
    }
}

/// Assembles the envelope of a mint, signed by the one-time mint identity,
/// and returns its transport text.
pub fn create_nft_transaction_with_mint(
    instructions: &Vec<Operation>,
    fee_payer: Address,
    mint_keypair: &SigningIdentity,
    blockhash: [u8; 32],
) -> (r: Result<String, AssembleError>)
    ensures
        assembly_failure(ops_view(instructions@), fee_payer, Some(signer_address(mint_keypair@))) matches Some(e)
            ==> r == Err::<String, AssembleError>(e),
        assembly_failure(ops_view(instructions@), fee_payer, Some(signer_address(mint_keypair@))) is None ==> r is Ok,
        r matches Ok(text) ==> (transport_decoded(text@) matches Some(e)
            && is_assembled(e, ops_view(instructions@), fee_payer, Some(mint_keypair@), blockhash)
            && text@ == base64_text(envelope_bytes(e))),
{
    let envelope = assemble_envelope(instructions, fee_payer, Some(mint_keypair), blockhash)?;
    encode_envelope(&envelope)
}

/// Assembles an envelope that the service does not sign at all, and returns
/// its transport text.
pub fn create_nft_transaction(
    instructions: &Vec<Operation>,
    fee_payer: Address,
    blockhash: [u8; 32],
) -> (r: Result<String, AssembleError>)
    ensures
        assembly_failure(ops_view(instructions@), fee_payer, None) matches Some(e)
            ==> r == Err::<String, AssembleError>(e),
        assembly_failure(ops_view(instructions@), fee_payer, None) is None ==> r is Ok,
        r matches Ok(text) ==> (transport_decoded(text@) matches Some(e)
            && is_assembled(e, ops_view(instructions@), fee_payer, None, blockhash)
            && text@ == base64_text(envelope_bytes(e))),
{
    let envelope = assemble_envelope(instructions, fee_payer, None, blockhash)?;
    encode_envelope(&envelope)
}

/// Why a signed envelope was refused before broadcast.
#[derive(Clone, Copy, Debug, PartialEq, Eq)]
pub enum SubmitError {
    /// The text is not base64 of an envelope, or the envelope's signature
    /// slots do not match its signer keys.
    MalformedPayload,
    /// The slot of this signer key is empty.
    MissingSignature(Address),
    /// The slot of this signer key holds a signature that does not verify.
    InvalidSignature(Address),
}

/// Every signer slot's signature verifies under its key over the message.
pub open spec fn signatures_verify(e: EnvelopeView) -> bool {
    forall|i: int|
        0 <= i < e.message.signer_count() ==> #[trigger] signature_verifies(
            e.message.account_keys[i],
            e.message,
            e.signatures[i],
        )
}

/// The first signer slot whose signature does not verify, if any.
fn first_invalid_signature(e: &TransactionEnvelope) -> (r: Option<usize>)
    requires
        is_shaped(e@),
        e@.fits_encoding(),
    ensures
        r is None <==> signatures_verify(e@),
        r matches Some(i) ==> i < e@.message.signer_count() && !signature_verifies(
            e@.message.account_keys[i as int],
            e@.message,
            e@.signatures[i as int],
        ),
{
    let results = verify_signatures(e);
    let count = e.message.header.num_required_signatures as usize;
    let mut i: usize = 0;
    while i < count
        invariant
            0 <= i <= count,
            count == e@.message.signer_count(),
            is_shaped(e@),
            results@.len() >= count,
            forall|k: int| 0 <= k < results@.len() ==> results@[k] == signature_verifies(
                e@.message.account_keys[k],
                e@.message,
                e@.signatures[k],
            ),
            forall|k: int| 0 <= k < i ==> #[trigger] signature_verifies(
                e@.message.account_keys[k],
                e@.message,
                e@.signatures[k],
            ),
        decreases count - i,
    {
        if !results[i] {
            return Some(i);
        }
        i = i + 1;
    }
    None
}

/// The envelope that transport `text` carries, if any.
pub open spec fn transport_decoded(text: Seq<char>) -> Option<EnvelopeView> {
    match base64_decoded(text) {
        Some(bytes) => envelope_decoded(bytes),
        None => None,
    }
}

/// One slot per signer key, and no more signer keys than keys.
pub open spec fn is_shaped(e: EnvelopeView) -> bool {
    e.slots_match() && e.message.signer_count() <= e.message.account_keys.len()
}

/// Decodes transport text into an envelope.
pub fn decode_envelope(text: &str) -> (r: Result<TransactionEnvelope, SubmitError>)
    ensures
        r is Ok <==> transport_decoded(text@) is Some,
        r matches Ok(e) ==> transport_decoded(text@) == Some(e@),
        r matches Ok(e) ==> e@.fits_encoding(),
        r matches Err(x) ==> x == SubmitError::MalformedPayload,
{
    let bytes = match from_base64(text) {
        Some(b) => b,
        None => return Err(SubmitError::MalformedPayload),
    };
    match envelope_from_bytes(bytes.as_slice()) {
        Some(e) => Ok(e),
        None => Err(SubmitError::MalformedPayload),
    }
}

/// The first empty signer slot of an envelope, if any.
fn first_missing_signature(e: &TransactionEnvelope) -> (r: Option<usize>)
    requires
        is_shaped(e@),
    ensures
        r is None <==> e@.fully_signed(),
        r matches Some(i) ==> i < e@.message.signer_count() && is_blank(e@.signatures[i as int]),
{
    let count = e.message.header.num_required_signatures as usize;
    let mut i: usize = 0;
    while i < count
        invariant
            0 <= i <= count,
            count == e@.message.signer_count(),
            is_shaped(e@),
            forall|k: int| 0 <= k < i ==> !is_blank(#[trigger] e@.signatures[k]),
        decreases count - i,
    {
        let sig = &e.signatures[i];
        let mut k: usize = 0;
        let mut blank = true;
        while k < 64
            invariant
                0 <= k <= 64,
                blank == (forall|j: int| 0 <= j < k ==> sig[j] == 0),
            decreases 64 - k,
        {
            if sig[k] != 0 {
                blank = false;
            }
            k = k + 1;
        }
        if blank {
            return Some(i);
        }
        i = i + 1;
    }
    None
}

/// Checks a wallet-signed transport envelope before broadcast: it must decode,
/// carry one slot per signer key, hold a signature in every slot, and every
/// signature must verify under its key over the message. The
/// envelope returned is the one to broadcast; on any error nothing may be
/// broadcast.
pub fn prepare_signed_transaction(signed_transaction_base64: &str) -> (r: Result<TransactionEnvelope, SubmitError>)
    ensures
        match transport_decoded(signed_transaction_base64@) {
            None => r == Err::<TransactionEnvelope, SubmitError>(SubmitError::MalformedPayload),
            Some(e) => if !is_shaped(e) {
                r == Err::<TransactionEnvelope, SubmitError>(SubmitError::MalformedPayload)
            } else if !e.fully_signed() {
                r matches Err(SubmitError::MissingSignature(a)) && exists|i: int|
                    0 <= i < e.message.signer_count() && e.message.account_keys[i] == a
                        && is_blank(#[trigger] e.signatures[i])
            } else if !signatures_verify(e) {
                r matches Err(SubmitError::InvalidSignature(a)) && exists|i: int|
                    0 <= i < e.message.signer_count() && e.message.account_keys[i] == a
                        && !signature_verifies(a, e.message, #[trigger] e.signatures[i])
            } else {
                r matches Ok(env) && env@ == e
            },
        },
{
    let envelope = decode_envelope(signed_transaction_base64)?;
    let count = envelope.message.header.num_required_signatures as usize;
    if envelope.signatures.len() != count || count > envelope.message.account_keys.len() {
        return Err(SubmitError::MalformedPayload);
    }
    match first_missing_signature(&envelope) {
        Some(i) => {
            let signer = envelope.message.account_keys[i];
            return Err(SubmitError::MissingSignature(signer));
        },
        None => {},
    }
    match first_invalid_signature(&envelope) {
        Some(i) => {
            let signer = envelope.message.account_keys[i];
            Err(SubmitError::InvalidSignature(signer))
        },
        None => Ok(envelope),
    }
}

} // verus!
