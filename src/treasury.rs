use vstd::prelude::*;

use crate::envelope::{unsigned_envelope, EnvelopeView, TransactionEnvelope};
use crate::identity::{address_of_keypair, lemma_signer_address, signer_address, SigningIdentity};
use crate::ledger::{
    address_text, address_to_text, compile_message, compiled_message, message_signature, sign_envelope,
    transfer_op, transfer_operation,
};
use crate::model::{ops_view, Address};

verus! {

/// What the treasury reports: its address, its balance, the fees it has
/// collected, and the owner allowed to withdraw.
#[derive(Clone, Debug)]
pub struct TreasuryWallet {
    pub treasury_address: String,
    pub balance: u64,
    pub total_collected_fees: u64,
    pub owner_address: String,
}

/// The custodial account that collects service fees: its own persisted
/// identity, distinct from the service's, and the address of its owner.
pub struct TreasuryAccount {
    identity: SigningIdentity,
    owner_address: String,
}

/// Why a withdrawal was refused.
#[derive(Clone, Copy, Debug, PartialEq, Eq, Structural)]
pub enum TreasuryError {
    /// The balance is below the amount asked for.
    InsufficientFunds { balance: u64, amount: u64 },
    /// No owner authorization came with the request.
    MissingAuthorization,
}

impl TreasuryAccount {
    pub fn new(identity: SigningIdentity, owner_address: String) -> (r: TreasuryAccount)
        ensures
            r.identity_view() == identity@,
            r.owner_view() == owner_address@,
    {
        TreasuryAccount { identity, owner_address }
    }

    /// The treasury identity's keypair bytes.
    pub closed spec fn identity_view(&self) -> Seq<u8> {
        self.identity@
    }

    /// The owner's address text.
    pub closed spec fn owner_view(&self) -> Seq<char> {
        self.owner_address@
    }

    /// The treasury's address.
    pub open spec fn address_view(&self) -> Address {
        signer_address(self.identity_view())
    }

    /// The treasury's address.
    pub fn address(&self) -> (r: Address)
        ensures
            r == self.address_view(),
            r.0@ == address_of_keypair(self.identity_view()),
    {
        self.identity.pubkey()
    }

    /// The treasury's report for a balance read from the network. A failed
    /// read is the caller's error to report; it never becomes a balance.
    pub fn get_treasury_info(&self, balance: u64) -> (r: TreasuryWallet)
        ensures
            r.treasury_address@ == address_text(self.address_view()),
            r.balance == balance,
            r.total_collected_fees == 0,
            r.owner_address@ == self.owner_view(),
    {
        let address = self.address();
        TreasuryWallet {
            treasury_address: address_to_text(address),
            balance,
            total_collected_fees: 0,
            owner_address: self.owner_address.clone(),
        }
    }

    /// Builds the withdrawal of `amount` to `recipient` against the treasury's
    /// current `balance`: refused when the balance is short, then when no
    /// owner authorization is given; otherwise a single transfer from the
    /// treasury, which pays the fee and whose signature it carries. Only an
    /// `Ok` envelope may be broadcast.
    pub fn withdraw_from_treasury(
        &self,
        balance: u64,
        amount: u64,
        recipient: Address,
        owner_signature: &str,
        blockhash: [u8; 32],
    ) -> (r: Result<TransactionEnvelope, TreasuryError>)
        ensures
            balance < amount ==> r == Err::<TransactionEnvelope, TreasuryError>(
                TreasuryError::InsufficientFunds { balance, amount },
            ),
            balance >= amount && owner_signature@.len() == 0 ==> r == Err::<TransactionEnvelope, TreasuryError>(
                TreasuryError::MissingAuthorization,
            ),
            balance >= amount && owner_signature@.len() > 0 ==> (r matches Ok(e)
                && is_withdrawal(e@, self.address_view(), self.identity_view(), recipient, amount, blockhash)),
    {
        if balance < amount {
            return Err(TreasuryError::InsufficientFunds { balance, amount });
        }
        if owner_signature.is_empty() {
            return Err(TreasuryError::MissingAuthorization);
        }
        let treasury = self.address();
        let transfer = transfer_operation(treasury, recipient, amount);
        let ops = vec![transfer];
        let ghost v = ops_view(ops@);
        assert(v =~= seq![transfer_op(treasury, recipient, amount)]);
        assert(crate::ledger::key_refs(v) == 3) by {
            assert(v.drop_last() =~= Seq::<crate::model::OperationView>::empty());
            assert(crate::ledger::key_refs(v.drop_last()) == 0);
        }
        let message = compile_message(&ops, treasury, blockhash);
        let ghost m = message@;
        assert(m.is_signer_key(treasury));
        let mut envelope = unsigned_envelope(message);
        proof {
            assert(m.signer_count() == 1) by {
                if m.signer_count() > 1 {
                    let other = m.account_keys[1];
                    assert(m.is_signer_key(other));
                    if crate::model::required_signer(v, other) {
                        let (i, j) = choose|i: int, j: int|
                            0 <= i < v.len() && 0 <= j < v[i].accounts.len() && v[i].accounts[j].is_signer
                                && v[i].accounts[j].address == other;
                        assert(i == 0);
                    }
                }
            }
            lemma_signer_address(self.identity@, m.account_keys[0], treasury);
        }
        sign_envelope(&mut envelope, &self.identity);
        Ok(envelope)
    }
}

/// What a withdrawal envelope holds: the message of the single transfer of
/// `amount` from the treasury to `recipient`, paid by the treasury at
/// `blockhash`, and exactly one signature slot, holding the treasury's
/// signature.
pub open spec fn is_withdrawal(
    e: EnvelopeView,
    treasury: Address,
    treasury_keypair: Seq<u8>,
    recipient: Address,
    amount: u64,
    blockhash: [u8; 32],
) -> bool {
    &&& e.message == compiled_message(seq![transfer_op(treasury, recipient, amount)], treasury, blockhash)
    &&& e.message.account_keys[0] == treasury
    &&& e.message.signer_count() == 1
    &&& e.signatures.len() == 1
    &&& e.signatures[0] == message_signature(treasury_keypair, e.message)
}

} // verus!
